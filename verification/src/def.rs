//! The Definition AST: the normalized, immutable description of a
//! command's fields or variants that both the schema builder and the
//! interaction decoder consume.

use vstd::prelude::*;
use crate::attribute::{FieldAttribute, FieldType};
use crate::choice::{ChoiceKind, CommandOptionChoice, spec_choice_kind_of};
use crate::constraint::CommandOptionData;

verus! {

/// The platform option kind of a built schema node.
#[derive(Clone, Copy, Debug, PartialEq, Eq, Structural)]
pub enum CommandOptionType {
    String,
    Integer,
    Number,
    Boolean,
    User,
    Channel,
    Role,
    Mentionable,
    Attachment,
    SubCommand,
    SubCommandGroup,
}

/// The semantic kind of a definition field.
#[derive(Clone, Copy, Debug, PartialEq, Eq, Structural)]
pub enum FieldKind {
    /// Free-form text.
    String,
    /// A whole number.
    Integer,
    /// A floating-point number, carried as its IEEE-754 bit pattern.
    Number,
    /// A boolean flag.
    Boolean,
    /// A user reference, by id.
    User,
    /// A channel reference, by id.
    Channel,
    /// A role reference, by id.
    Role,
    /// A user-or-role reference, by id.
    Mentionable,
    /// An attachment reference, by id.
    Attachment,
    /// An untyped id, registered as a mentionable option.
    GenericId,
    /// A nested subcommand; the children are its own fields.
    SubCommand,
    /// A nested subcommand group; the children are its variants.
    SubCommandGroup,
    /// A scalar restricted to a fixed choice list of the given base kind.
    ChoiceEnum(ChoiceKind),
}

/// The platform option kind a field kind registers as.
pub open spec fn kind_option_type(k: FieldKind) -> CommandOptionType {
    match k {
        FieldKind::String => CommandOptionType::String,
        FieldKind::Integer => CommandOptionType::Integer,
        FieldKind::Number => CommandOptionType::Number,
        FieldKind::Boolean => CommandOptionType::Boolean,
        FieldKind::User => CommandOptionType::User,
        FieldKind::Channel => CommandOptionType::Channel,
        FieldKind::Role => CommandOptionType::Role,
        FieldKind::Mentionable => CommandOptionType::Mentionable,
        FieldKind::Attachment => CommandOptionType::Attachment,
        FieldKind::GenericId => CommandOptionType::Mentionable,
        FieldKind::SubCommand => CommandOptionType::SubCommand,
        FieldKind::SubCommandGroup => CommandOptionType::SubCommandGroup,
        FieldKind::ChoiceEnum(ChoiceKind::String) => CommandOptionType::String,
        FieldKind::ChoiceEnum(ChoiceKind::Integer) => CommandOptionType::Integer,
        FieldKind::ChoiceEnum(ChoiceKind::Number) => CommandOptionType::Number,
    }
}

/// True for the two nesting kinds.
pub open spec fn is_subcommand_kind(k: FieldKind) -> bool {
    k == FieldKind::SubCommand || k == FieldKind::SubCommandGroup
}

/// One field (or variant) of a command definition.
pub struct FieldDef {
    /// Platform-facing name.
    pub name: String,
    /// Platform-facing description.
    pub description: String,
    /// Localizations of the name.
    pub name_localizations: Option<Vec<(String, String)>>,
    /// Localizations of the description.
    pub description_localizations: Option<Vec<(String, String)>>,
    /// Documentation-only help text; never sent to the platform.
    pub help: Option<String>,
    /// The semantic kind of the field.
    pub kind: FieldKind,
    /// Whether absence of the field is allowed when decoding.
    pub optional: bool,
    /// Whether the field is autocomplete-eligible.
    pub autocomplete: bool,
    /// Optional constraints, keyed by kind.
    pub constraints: CommandOptionData,
    /// The choice list; only for `ChoiceEnum` kinds.
    pub choices: Vec<CommandOptionChoice>,
    /// Nested definitions; only for `SubCommand`/`SubCommandGroup` kinds.
    pub children: Vec<FieldDef>,
}

/// A whole command definition: top-level metadata plus the field list.
pub struct CommandDef {
    /// Name of the command. It must be 32 characters or less.
    pub name: String,
    /// Localizations of the name.
    pub name_localizations: Option<Vec<(String, String)>>,
    /// Description of the command. It must be 100 characters or less.
    pub description: String,
    /// Localizations of the description.
    pub description_localizations: Option<Vec<(String, String)>>,
    /// Documentation-only help text; never sent to the platform.
    pub help: Option<String>,
    /// The fields (or variants) of the command.
    pub fields: Vec<FieldDef>,
    /// Default permissions required for a member to run the command.
    pub default_member_permissions: Option<u64>,
    /// Whether the command is available in direct messages.
    pub dm_permission: Option<bool>,
    /// Whether the command is age-restricted.
    pub nsfw: Option<bool>,
    /// Whether the command is a subcommand group when nested.
    pub group: bool,
}

/// Field names are pairwise distinct within one level.
pub open spec fn names_unique(fields: Seq<FieldDef>) -> bool {
    forall|i: int, j: int|
        #![trigger fields[i].name, fields[j].name]
        0 <= i < j < fields.len() ==> fields[i].name@ != fields[j].name@
}

/// A level containing at least one subcommand-kind field selects among
/// its children instead of matching fields by name.
pub open spec fn level_is_selection(fields: Seq<FieldDef>) -> bool {
    exists|i: int| 0 <= i < fields.len() && is_subcommand_kind(#[trigger] fields[i].kind)
}

/// Every choice value in the list has the declared base kind.
pub open spec fn choices_wf(ck: ChoiceKind, choices: Seq<CommandOptionChoice>) -> bool {
    forall|i: int| 0 <= i < choices.len() ==> spec_choice_kind_of(#[trigger] choices[i].value) == ck
}

/// Structural well-formedness of one field.
///
/// Scalar fields carry no children; choice lists appear only on
/// `ChoiceEnum` fields and match their base kind; subcommand-kind fields
/// are never optional, carry no choices, and their children form a
/// well-formed level of their own. A `SubCommand`'s children are its leaf
/// options; a `SubCommandGroup`'s children are all subcommand-kind.
pub open spec fn field_wf(f: FieldDef) -> bool
    decreases f,
{
    match f.kind {
        FieldKind::SubCommand => !f.optional && f.choices@.len() == 0 && fields_wf(f.children@)
            && !level_is_selection(f.children@),
        FieldKind::SubCommandGroup => !f.optional && f.choices@.len() == 0 && fields_wf(f.children@)
            && (forall|i: int|
            0 <= i < f.children@.len() ==> is_subcommand_kind(#[trigger] f.children@[i].kind)),
        FieldKind::ChoiceEnum(ck) => f.children@.len() == 0 && choices_wf(ck, f.choices@),
        _ => f.children@.len() == 0 && f.choices@.len() == 0,
    }
}

/// Structural well-formedness of one level of fields: unique names, no
/// mixing of subcommand-kind and scalar siblings, every field well-formed.
pub open spec fn fields_wf(fields: Seq<FieldDef>) -> bool
    decreases fields,
{
    names_unique(fields) && (level_is_selection(fields) ==> forall|i: int|
        0 <= i < fields.len() ==> is_subcommand_kind(#[trigger] fields[i].kind)) && (forall|i: int|
        0 <= i < fields.len() ==> field_wf(#[trigger] fields[i]))
}

impl FieldDef {
    /// Assemble one field definition from its declared identifier and
    /// kind, its requiredness, the description derived from its
    /// documentation, and its parsed attribute record: an explicit rename
    /// or description override wins over the declared default, the
    /// constraints are taken from the record, and an empty channel-type
    /// list constrains nothing.
    pub fn from_attribute(
        ident: String,
        kind: FieldKind,
        field_type: FieldType,
        doc_desc: String,
        attrs: FieldAttribute,
        choices: Vec<CommandOptionChoice>,
        children: Vec<FieldDef>,
    ) -> (r: FieldDef)
        ensures
            (match attrs.rename {
                Some(n) => r.name == n,
                None => r.name == ident,
            }),
            (match attrs.desc {
                Some(d) => r.description == d,
                None => r.description == doc_desc,
            }),
            r.name_localizations is None,
            r.description_localizations is None,
            r.help == attrs.help,
            r.kind == kind,
            r.optional == (field_type == FieldType::Optional),
            r.autocomplete == attrs.autocomplete,
            (match r.constraints.channel_types {
                Some(list) => list@ == attrs.channel_types@ && attrs.channel_types@.len() > 0,
                None => attrs.channel_types@.len() == 0,
            }),
            r.constraints.max_value == attrs.max_value,
            r.constraints.min_value == attrs.min_value,
            r.constraints.max_length is None,
            r.constraints.min_length is None,
            r.choices == choices,
            r.children == children,
    {
        let FieldAttribute {
            rename,
            desc,
            help,
            autocomplete,
            channel_types,
            max_value,
            min_value,
        } = attrs;
        let name = match rename {
            Some(n) => n,
            None => ident,
        };
        let description = match desc {
            Some(d) => d,
            None => doc_desc,
        };
        let optional = match field_type {
            FieldType::Required => false,
            FieldType::Optional => true,
        };
        let channel_types = if channel_types.len() == 0 {
            None
        } else {
            Some(channel_types)
        };
        FieldDef {
            name,
            description,
            name_localizations: None,
            description_localizations: None,
            help,
            kind,
            optional,
            autocomplete,
            constraints: CommandOptionData {
                channel_types,
                max_value,
                min_value,
                max_length: None,
                min_length: None,
            },
            choices,
            children,
        }
    }
}

impl CommandDef {
    /// Structural well-formedness of the whole definition.
    pub open spec fn wf(&self) -> bool {
        fields_wf(self.fields@)
    }
}

} // verus!
