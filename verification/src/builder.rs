//! The schema builder: compiles a command definition into the registrable
//! command tree, rejecting malformed metadata with an exhaustive error
//! list that names every violated field at once.

use vstd::prelude::*;
use crate::choice::{
    ChoiceKind, CommandOptionChoice, choice_eqv, choice_values_eq, opt_pairs_eqv,
    spec_choice_kind_of,
};
use crate::constraint::{CommandOptionData, CommandOptionValue};
use crate::def::{
    CommandDef, FieldDef, FieldKind, is_subcommand_kind, kind_option_type, level_is_selection,
};
use crate::schema::{ApplicationCommandData, CommandOptionExt};

verus! {

/// Which constraint setting a build error is about.
#[derive(Clone, Copy, Debug, PartialEq, Eq, Structural)]
pub enum ConstraintKind {
    ChannelTypes,
    MaxValue,
    MinValue,
    MaxLength,
    MinLength,
    Choices,
}

/// Why a definition was rejected at build time.
#[derive(Debug, PartialEq, Eq)]
pub enum BuildErrorKind {
    /// The name is empty.
    NameEmpty,
    /// The name is longer than 32 characters.
    NameTooLong,
    /// The description is empty; every field must have one.
    DescriptionEmpty,
    /// The description is longer than 100 characters.
    DescriptionTooLong,
    /// A help string is present but empty.
    HelpEmpty,
    /// A constraint is set on a field kind it does not apply to.
    WrongConstraint(ConstraintKind),
    /// A numeric bound's literal kind differs from the field kind.
    WrongBoundKind(ConstraintKind),
    /// The named choice's literal kind differs from the declared base
    /// kind.
    WrongChoiceKind(String),
    /// The named choice repeats an earlier choice's display name.
    DuplicateChoiceName(String),
    /// The named choice repeats an earlier choice's literal value.
    DuplicateChoiceValue(String),
    /// Autocomplete is flagged on a kind that does not support it.
    AutocompleteNotAllowed,
    /// A subcommand-kind field is marked optional.
    OptionalSubCommand,
    /// The field cannot stand at this level: a scalar among subcommand
    /// siblings, a subcommand nested in a plain subcommand, or a scalar
    /// child of a subcommand group.
    MisplacedField,
    /// A scalar field carries nested definitions.
    ScalarWithChildren,
    /// The field repeats an earlier sibling's name.
    DuplicateFieldName,
}

/// One build failure: the offending field's (or command's) name and the
/// reason.
#[derive(Debug, PartialEq, Eq)]
pub struct BuildError {
    pub name: String,
    pub kind: BuildErrorKind,
}

/// Whether a numeric bound's literal kind fits the field kind.
pub open spec fn bound_kind_ok(k: FieldKind, b: CommandOptionValue) -> bool {
    match (k, b) {
        (FieldKind::Integer, CommandOptionValue::Integer(_)) => true,
        (FieldKind::Number, CommandOptionValue::Number(_)) => true,
        _ => false,
    }
}

/// Whether a field kind supports autocomplete.
pub open spec fn autocomplete_allowed(k: FieldKind) -> bool {
    k == FieldKind::String || k == FieldKind::Integer || k == FieldKind::Number
}

/// The name and help errors of one named node.
pub open spec fn spec_meta_errors(name: String, description: String, help: Option<String>) -> Seq<
    BuildError,
> {
    (if name@.len() == 0 {
        seq![BuildError { name, kind: BuildErrorKind::NameEmpty }]
    } else if name@.len() > 32 {
        seq![BuildError { name, kind: BuildErrorKind::NameTooLong }]
    } else {
        Seq::empty()
    }) + (if description@.len() == 0 {
        seq![BuildError { name, kind: BuildErrorKind::DescriptionEmpty }]
    } else if description@.len() > 100 {
        seq![BuildError { name, kind: BuildErrorKind::DescriptionTooLong }]
    } else {
        Seq::empty()
    }) + (match help {
        Some(h) => if h@.len() == 0 {
            seq![BuildError { name, kind: BuildErrorKind::HelpEmpty }]
        } else {
            Seq::empty()
        },
        None => Seq::empty(),
    })
}

/// The constraint-pairing errors of one field: each setting may only
/// stand on the kinds it applies to, and a numeric bound's literal kind
/// must match the field kind.
pub open spec fn spec_constraint_errors(f: FieldDef) -> Seq<BuildError> {
    let c = f.constraints;
    (if c.channel_types is Some && f.kind != FieldKind::Channel {
        seq![
            BuildError {
                name: f.name,
                kind: BuildErrorKind::WrongConstraint(ConstraintKind::ChannelTypes),
            },
        ]
    } else {
        Seq::empty()
    }) + (match c.max_value {
        Some(b) => if f.kind != FieldKind::Integer && f.kind != FieldKind::Number {
            seq![
                BuildError {
                    name: f.name,
                    kind: BuildErrorKind::WrongConstraint(ConstraintKind::MaxValue),
                },
            ]
        } else if !bound_kind_ok(f.kind, b) {
            seq![
                BuildError {
                    name: f.name,
                    kind: BuildErrorKind::WrongBoundKind(ConstraintKind::MaxValue),
                },
            ]
        } else {
            Seq::empty()
        },
        None => Seq::empty(),
    }) + (match c.min_value {
        Some(b) => if f.kind != FieldKind::Integer && f.kind != FieldKind::Number {
            seq![
                BuildError {
                    name: f.name,
                    kind: BuildErrorKind::WrongConstraint(ConstraintKind::MinValue),
                },
            ]
        } else if !bound_kind_ok(f.kind, b) {
            seq![
                BuildError {
                    name: f.name,
                    kind: BuildErrorKind::WrongBoundKind(ConstraintKind::MinValue),
                },
            ]
        } else {
            Seq::empty()
        },
        None => Seq::empty(),
    }) + (if c.max_length is Some && f.kind != FieldKind::String {
        seq![
            BuildError {
                name: f.name,
                kind: BuildErrorKind::WrongConstraint(ConstraintKind::MaxLength),
            },
        ]
    } else {
        Seq::empty()
    }) + (if c.min_length is Some && f.kind != FieldKind::String {
        seq![
            BuildError {
                name: f.name,
                kind: BuildErrorKind::WrongConstraint(ConstraintKind::MinLength),
            },
        ]
    } else {
        Seq::empty()
    })
}

/// The autocomplete-eligibility errors of one field.
pub open spec fn spec_autocomplete_errors(f: FieldDef) -> Seq<BuildError> {
    if f.autocomplete && !autocomplete_allowed(f.kind) {
        seq![BuildError { name: f.name, kind: BuildErrorKind::AutocompleteNotAllowed }]
    } else {
        Seq::empty()
    }
}

/// The errors of one choice list, scanning from position `j`: a wrong
/// literal kind, a repeated display name, and a repeated literal value
/// each yield one error naming the choice. Order is preserved; duplicates
/// are never silently removed.
pub open spec fn spec_choice_list_errors(
    fname: String,
    ck: ChoiceKind,
    cs: Seq<CommandOptionChoice>,
    j: int,
) -> Seq<BuildError>
    decreases cs.len() - j,
{
    if j < 0 || j >= cs.len() {
        Seq::empty()
    } else {
        (if spec_choice_kind_of(cs[j].value) != ck {
            seq![
                BuildError { name: fname, kind: BuildErrorKind::WrongChoiceKind(cs[j].name) },
            ]
        } else {
            Seq::empty()
        }) + (if exists|i: int| 0 <= i < j && #[trigger] cs[i].name@ == cs[j].name@ {
            seq![
                BuildError { name: fname, kind: BuildErrorKind::DuplicateChoiceName(cs[j].name) },
            ]
        } else {
            Seq::empty()
        }) + (if exists|i: int|
            0 <= i < j && choice_values_eq(#[trigger] cs[i].value, cs[j].value) {
            seq![
                BuildError {
                    name: fname,
                    kind: BuildErrorKind::DuplicateChoiceValue(cs[j].name),
                },
            ]
        } else {
            Seq::empty()
        }) + spec_choice_list_errors(fname, ck, cs, j + 1)
    }
}

/// The choice errors of one field: a choice list may only stand on a
/// choice kind, and the list itself must be clean.
pub open spec fn spec_choice_errors(f: FieldDef) -> Seq<BuildError> {
    match f.kind {
        FieldKind::ChoiceEnum(ck) => spec_choice_list_errors(f.name, ck, f.choices@, 0),
        _ => if f.choices@.len() > 0 {
            seq![
                BuildError {
                    name: f.name,
                    kind: BuildErrorKind::WrongConstraint(ConstraintKind::Choices),
                },
            ]
        } else {
            Seq::empty()
        },
    }
}

/// The duplicate-name errors of one level, scanning from position `j`:
/// every field repeating an earlier sibling's name yields one error.
pub open spec fn spec_dup_name_errors(fields: Seq<FieldDef>, j: int) -> Seq<BuildError>
    decreases fields.len() - j,
{
    if j < 0 || j >= fields.len() {
        Seq::empty()
    } else {
        (if exists|i: int| 0 <= i < j && #[trigger] fields[i].name@ == fields[j].name@ {
            seq![
                BuildError { name: fields[j].name, kind: BuildErrorKind::DuplicateFieldName },
            ]
        } else {
            Seq::empty()
        }) + spec_dup_name_errors(fields, j + 1)
    }
}

/// The errors of one field's own metadata, constraints, autocomplete
/// flag and choice list.
pub open spec fn spec_leaf_errors(f: FieldDef) -> Seq<BuildError> {
    spec_meta_errors(f.name, f.description, f.help) + spec_constraint_errors(f)
        + spec_autocomplete_errors(f) + spec_choice_errors(f)
}

/// The errors of one field, including everything under it. `selection`
/// says whether the level the field stands on selects among
/// subcommand-kind children.
pub open spec fn spec_field_errors(f: FieldDef, selection: bool) -> Seq<BuildError>
    decreases f, 0int,
{
    spec_leaf_errors(f) + (if is_subcommand_kind(f.kind)
        != selection {
        seq![BuildError { name: f.name, kind: BuildErrorKind::MisplacedField }]
    } else {
        Seq::empty()
    }) + (match f.kind {
        FieldKind::SubCommand => (if f.optional {
            seq![BuildError { name: f.name, kind: BuildErrorKind::OptionalSubCommand }]
        } else {
            Seq::empty()
        }) + spec_level_errors(f.children@, false),
        FieldKind::SubCommandGroup => (if f.optional {
            seq![BuildError { name: f.name, kind: BuildErrorKind::OptionalSubCommand }]
        } else {
            Seq::empty()
        }) + spec_level_errors(f.children@, true),
        _ => if f.children@.len() > 0 {
            seq![BuildError { name: f.name, kind: BuildErrorKind::ScalarWithChildren }]
        } else {
            Seq::empty()
        },
    })
}

/// The per-field errors of one level, scanning from position `j`.
pub open spec fn spec_fields_errors(fields: Seq<FieldDef>, selection: bool, j: int) -> Seq<
    BuildError,
>
    decreases fields, fields.len() - j + 1,
{
    if j < 0 || j >= fields.len() {
        Seq::empty()
    } else {
        spec_field_errors(fields[j], selection) + spec_fields_errors(fields, selection, j + 1)
    }
}

/// All errors of one level: duplicate sibling names first, then each
/// field's own errors in declaration order.
pub open spec fn spec_level_errors(fields: Seq<FieldDef>, selection: bool) -> Seq<BuildError>
    decreases fields, fields.len() + 2,
{
    spec_dup_name_errors(fields, 0) + spec_fields_errors(fields, selection, 0)
}

/// All errors of one definition: the command's own metadata first, then
/// its field levels. The level shape is inferred: a level declaring any
/// subcommand-kind field is a selection level.
pub open spec fn spec_command_errors(def: CommandDef) -> Seq<BuildError> {
    spec_meta_errors(def.name, def.description, def.help) + spec_level_errors(
        def.fields@,
        level_is_selection(def.fields@),
    )
}

/// A definition is valid exactly when it has no build errors.
pub open spec fn def_valid(def: CommandDef) -> bool {
    spec_command_errors(def).len() == 0
}


/// Equality of two optional strings, compared character by character.
pub open spec fn opt_string_eqv(a: Option<String>, b: Option<String>) -> bool {
    match (a, b) {
        (Some(x), Some(y)) => x@ == y@,
        (None, None) => true,
        _ => false,
    }
}

/// Equality of an optional channel-type list of the schema against the
/// definition's, compared entry by entry.
pub open spec fn opt_channel_eqv(
    a: Option<Vec<crate::channel::ChannelType>>,
    b: Option<Vec<crate::channel::ChannelType>>,
) -> bool {
    match (a, b) {
        (Some(x), Some(y)) => x@ == y@,
        (None, None) => true,
        _ => false,
    }
}

/// Equality of a built choice list against the declared one, compared
/// content by content in order.
pub open spec fn choices_match(ds: Seq<CommandOptionChoice>, cs: Seq<CommandOptionChoice>) -> bool {
    ds.len() == cs.len() && forall|i: int| 0 <= i < cs.len() ==> choice_eqv(#[trigger] ds[i], cs[i])
}

/// What the built option node of one field looks like: the field's
/// metadata, localizations, constraints and requiredness carried over
/// verbatim, and the children built recursively. Subcommand-kind nodes
/// carry no scalar settings and are never required; leaf nodes state
/// autocomplete and requiredness explicitly and carry no nested options.
pub open spec fn option_matches_field(f: FieldDef, o: CommandOptionExt) -> bool
    decreases f, 1int,
{
    o.inner.kind == kind_option_type(f.kind) && o.inner.name@ == f.name@ && opt_pairs_eqv(
        o.inner.name_localizations,
        f.name_localizations,
    ) && o.inner.description@ == f.description@ && opt_pairs_eqv(
        o.inner.description_localizations,
        f.description_localizations,
    ) && opt_string_eqv(o.help, f.help) && (if is_subcommand_kind(f.kind) {
        o.inner.autocomplete == Some(false) && o.inner.required is None
            && o.inner.channel_types is None && o.inner.choices is None
            && o.inner.max_length is None && o.inner.max_value is None
            && o.inner.min_length is None && o.inner.min_value is None && (match o.inner.options {
            Some(os) => options_match_fields(f.children@, os@),
            None => false,
        })
    } else {
        o.inner.autocomplete == Some(f.autocomplete) && o.inner.required == Some(!f.optional)
            && opt_channel_eqv(o.inner.channel_types, f.constraints.channel_types)
            && o.inner.max_value == f.constraints.max_value
            && o.inner.min_value == f.constraints.min_value
            && o.inner.max_length == f.constraints.max_length
            && o.inner.min_length == f.constraints.min_length && o.inner.options is None && (
        match f.kind {
            FieldKind::ChoiceEnum(_) => match o.inner.choices {
                Some(ds) => choices_match(ds@, f.choices@),
                None => false,
            },
            _ => o.inner.choices is None,
        })
    })
}

/// The built option list of one level matches the fields pairwise, in
/// declaration order.
pub open spec fn options_match_fields(fields: Seq<FieldDef>, os: Seq<CommandOptionExt>) -> bool
    decreases fields, 0int,
{
    os.len() == fields.len() && forall|i: int|
        0 <= i < fields.len() ==> option_matches_field(fields[i], #[trigger] os[i])
}

/// The built command tree matches the definition: top-level metadata
/// carried over verbatim, options built pairwise from the fields.
pub open spec fn data_matches_def(def: CommandDef, data: ApplicationCommandData) -> bool {
    data.name@ == def.name@ && opt_pairs_eqv(data.name_localizations, def.name_localizations)
        && data.description@ == def.description@ && opt_pairs_eqv(
        data.description_localizations,
        def.description_localizations,
    ) && opt_string_eqv(data.help, def.help) && data.dm_permission == def.dm_permission
        && data.default_member_permissions == def.default_member_permissions && data.group
        == def.group && data.nsfw == def.nsfw && options_match_fields(def.fields@, data.options@)
}

/// An exact copy of an optional help string.
fn clone_opt_string(v: &Option<String>) -> (r: Option<String>)
    ensures
        r == *v,
{
    match v {
        Some(s) => Some(s.clone()),
        None => None,
    }
}

/// A copy of an optional channel-type list, equal entry by entry.
fn clone_channel_types(v: &Option<Vec<crate::channel::ChannelType>>) -> (r: Option<
    Vec<crate::channel::ChannelType>,
>)
    ensures
        opt_channel_eqv(r, *v),
{
    match v {
        Some(list) => {
            let mut out: Vec<crate::channel::ChannelType> = Vec::new();
            let mut i: usize = 0;
            while i < list.len()
                invariant
                    0 <= i <= list@.len(),
                    out@ =~= list@.subrange(0, i as int),
                decreases list@.len() - i,
            {
                out.push(list[i]);
                i = i + 1;
            }
            assert(out@ =~= list@);
            Some(out)
        },
        None => None,
    }
}

/// A copy of a constraint set, equal setting by setting.
fn clone_constraints(v: &CommandOptionData) -> (r: CommandOptionData)
    ensures
        opt_channel_eqv(r.channel_types, v.channel_types),
        r.max_value == v.max_value,
        r.min_value == v.min_value,
        r.max_length == v.max_length,
        r.min_length == v.min_length,
{
    CommandOptionData {
        channel_types: clone_channel_types(&v.channel_types),
        max_value: v.max_value,
        min_value: v.min_value,
        max_length: v.max_length,
        min_length: v.min_length,
    }
}

/// A copy of a choice list, equal content by content in order.
fn clone_choices(v: &Vec<CommandOptionChoice>) -> (r: Vec<CommandOptionChoice>)
    ensures
        choices_match(r@, v@),
{
    let mut out: Vec<CommandOptionChoice> = Vec::new();
    let mut i: usize = 0;
    while i < v.len()
        invariant
            0 <= i <= v@.len(),
            out@.len() == i,
            forall|t: int| 0 <= t < i ==> choice_eqv(#[trigger] out@[t], v@[t]),
        decreases v@.len() - i,
    {
        out.push(v[i].duplicate());
        i = i + 1;
    }
    out
}

/// Build the option node of one field. Total: validation is separate, in
/// [`build_command`]; on a field that would be rejected there the node
/// still carries the settings verbatim.
fn build_option(f: &FieldDef) -> (o: CommandOptionExt)
    ensures
        option_matches_field(*f, o),
    decreases *f, 1int,
{
    let kind = crate::decode::option_type_of_kind(f.kind);
    let sub = match f.kind {
        FieldKind::SubCommand => true,
        FieldKind::SubCommandGroup => true,
        _ => false,
    };
    if sub {
        proof {
            assert(decreases_to!(*f => f.children@));
        }
        let children = build_options(&f.children);
        let data = crate::schema::CreateOptionData {
            name: f.name.clone(),
            name_localizations: crate::localization::clone_opt_pairs(&f.name_localizations),
            description: f.description.clone(),
            description_localizations: crate::localization::clone_opt_pairs(
                &f.description_localizations,
            ),
            help: clone_opt_string(&f.help),
            required: None,
            autocomplete: false,
            data: Default::default(),
        };
        data.builder(kind).options(children).build()
    } else {
        let data = crate::schema::CreateOptionData {
            name: f.name.clone(),
            name_localizations: crate::localization::clone_opt_pairs(&f.name_localizations),
            description: f.description.clone(),
            description_localizations: crate::localization::clone_opt_pairs(
                &f.description_localizations,
            ),
            help: clone_opt_string(&f.help),
            required: Some(!f.optional),
            autocomplete: f.autocomplete,
            data: clone_constraints(&f.constraints),
        };
        let b = data.builder(kind);
        match f.kind {
            FieldKind::ChoiceEnum(_) => b.choices(clone_choices(&f.choices)).build(),
            _ => b.build(),
        }
    }
}

/// Build the option nodes of the fields from position `i` on, appending
/// to the nodes already built.
fn build_options_into(fields: &Vec<FieldDef>, i: usize, os: &mut Vec<CommandOptionExt>)
    requires
        i <= fields@.len(),
        old(os)@.len() == i,
        forall|t: int| 0 <= t < i ==> option_matches_field(fields@[t], #[trigger] old(os)@[t]),
    ensures
        final(os)@.len() == fields@.len(),
        forall|t: int|
            0 <= t < fields@.len() ==> option_matches_field(fields@[t], #[trigger] final(os)@[t]),
    decreases fields@, fields@.len() - i,
{
    if i < fields.len() {
        proof {
            assert(decreases_to!(fields@ => fields@[i as int]));
        }
        os.push(build_option(&fields[i]));
        build_options_into(fields, i + 1, os);
    }
}

/// Build the option nodes of one level, in declaration order.
fn build_options(fields: &Vec<FieldDef>) -> (os: Vec<CommandOptionExt>)
    ensures
        options_match_fields(fields@, os@),
    decreases fields@, fields@.len() + 1,
{
    let mut os: Vec<CommandOptionExt> = Vec::new();
    build_options_into(fields, 0, &mut os);
    os
}


/// Append the name, description and help errors of one named node.
fn push_meta_errors(
    name: &String,
    description: &String,
    help: &Option<String>,
    errs: &mut Vec<BuildError>,
)
    ensures
        final(errs)@ == old(errs)@ + spec_meta_errors(*name, *description, *help),
{
    let ghost e0 = errs@;
    let nlen = crate::text::char_len(name.as_str());
    if nlen == 0 {
        errs.push(BuildError { name: name.clone(), kind: BuildErrorKind::NameEmpty });
    } else if nlen > 32 {
        errs.push(BuildError { name: name.clone(), kind: BuildErrorKind::NameTooLong });
    }
    let dlen = crate::text::char_len(description.as_str());
    if dlen == 0 {
        errs.push(BuildError { name: name.clone(), kind: BuildErrorKind::DescriptionEmpty });
    } else if dlen > 100 {
        errs.push(BuildError { name: name.clone(), kind: BuildErrorKind::DescriptionTooLong });
    }
    match help {
        Some(h) => {
            if crate::text::char_len(h.as_str()) == 0 {
                errs.push(BuildError { name: name.clone(), kind: BuildErrorKind::HelpEmpty });
            }
        },
        None => {},
    }
    proof {
        assert(errs@ =~= e0 + spec_meta_errors(*name, *description, *help));
    }
}

/// Whether a numeric bound's literal kind fits the field kind, decided at
/// run time.
fn bound_kind_fits(k: FieldKind, b: CommandOptionValue) -> (r: bool)
    ensures
        r == bound_kind_ok(k, b),
{
    match (k, b) {
        (FieldKind::Integer, CommandOptionValue::Integer(_)) => true,
        (FieldKind::Number, CommandOptionValue::Number(_)) => true,
        _ => false,
    }
}

/// Append the constraint-pairing errors of one field.
#[verifier::rlimit(100)]
fn push_constraint_errors(f: &FieldDef, errs: &mut Vec<BuildError>)
    ensures
        final(errs)@ == old(errs)@ + spec_constraint_errors(*f),
{
    let ghost e0 = errs@;
    let numeric = match f.kind {
        FieldKind::Integer => true,
        FieldKind::Number => true,
        _ => false,
    };
    let stringy = match f.kind {
        FieldKind::String => true,
        _ => false,
    };
    let channelish = match f.kind {
        FieldKind::Channel => true,
        _ => false,
    };
    if f.constraints.channel_types.is_some() && !channelish {
        errs.push(
            BuildError {
                name: f.name.clone(),
                kind: BuildErrorKind::WrongConstraint(ConstraintKind::ChannelTypes),
            },
        );
    }
    match f.constraints.max_value {
        Some(b) => {
            if !numeric {
                errs.push(
                    BuildError {
                        name: f.name.clone(),
                        kind: BuildErrorKind::WrongConstraint(ConstraintKind::MaxValue),
                    },
                );
            } else if !bound_kind_fits(f.kind, b) {
                errs.push(
                    BuildError {
                        name: f.name.clone(),
                        kind: BuildErrorKind::WrongBoundKind(ConstraintKind::MaxValue),
                    },
                );
            }
        },
        None => {},
    }
    match f.constraints.min_value {
        Some(b) => {
            if !numeric {
                errs.push(
                    BuildError {
                        name: f.name.clone(),
                        kind: BuildErrorKind::WrongConstraint(ConstraintKind::MinValue),
                    },
                );
            } else if !bound_kind_fits(f.kind, b) {
                errs.push(
                    BuildError {
                        name: f.name.clone(),
                        kind: BuildErrorKind::WrongBoundKind(ConstraintKind::MinValue),
                    },
                );
            }
        },
        None => {},
    }
    if f.constraints.max_length.is_some() && !stringy {
        errs.push(
            BuildError {
                name: f.name.clone(),
                kind: BuildErrorKind::WrongConstraint(ConstraintKind::MaxLength),
            },
        );
    }
    if f.constraints.min_length.is_some() && !stringy {
        errs.push(
            BuildError {
                name: f.name.clone(),
                kind: BuildErrorKind::WrongConstraint(ConstraintKind::MinLength),
            },
        );
    }
    proof {
        assert(errs@ =~= e0 + spec_constraint_errors(*f));
    }
}

/// Append the choice-list errors of one choice field.
fn push_choice_list_errors(
    fname: &String,
    ck: ChoiceKind,
    cs: &Vec<CommandOptionChoice>,
    errs: &mut Vec<BuildError>,
)
    ensures
        final(errs)@ == old(errs)@ + spec_choice_list_errors(*fname, ck, cs@, 0),
{
    let ghost e0 = errs@;
    let mut j: usize = 0;
    while j < cs.len()
        invariant
            0 <= j <= cs@.len(),
            e0 + spec_choice_list_errors(*fname, ck, cs@, 0) =~= errs@ + spec_choice_list_errors(
                *fname,
                ck,
                cs@,
                j as int,
            ),
        decreases cs@.len() - j,
    {
        let ghost prev = errs@;
        let wrong_kind = crate::choice::choice_kind_of(&cs[j].value);
        if wrong_kind != ck {
            errs.push(
                BuildError {
                    name: fname.clone(),
                    kind: BuildErrorKind::WrongChoiceKind(cs[j].name.clone()),
                },
            );
        }
        let mut dup_name = false;
        let mut i: usize = 0;
        while i < j
            invariant
                0 <= i <= j < cs@.len(),
                dup_name == (exists|t: int|
                    0 <= t < i && #[trigger] cs@[t].name@ == cs@[j as int].name@),
            decreases j - i,
        {
            if cs[i].name == cs[j].name {
                dup_name = true;
            }
            i = i + 1;
        }
        if dup_name {
            errs.push(
                BuildError {
                    name: fname.clone(),
                    kind: BuildErrorKind::DuplicateChoiceName(cs[j].name.clone()),
                },
            );
        }
        let mut dup_val = false;
        let mut i2: usize = 0;
        while i2 < j
            invariant
                0 <= i2 <= j < cs@.len(),
                dup_val == (exists|t: int|
                    0 <= t < i2 && choice_values_eq(#[trigger] cs@[t].value, cs@[j as int].value)),
            decreases j - i2,
        {
            if crate::choice::choice_values_equal(&cs[i2].value, &cs[j].value) {
                dup_val = true;
            }
            i2 = i2 + 1;
        }
        if dup_val {
            errs.push(
                BuildError {
                    name: fname.clone(),
                    kind: BuildErrorKind::DuplicateChoiceValue(cs[j].name.clone()),
                },
            );
        }
        proof {
            let this = (if spec_choice_kind_of(cs@[j as int].value) != ck {
                seq![
                    BuildError {
                        name: *fname,
                        kind: BuildErrorKind::WrongChoiceKind(cs@[j as int].name),
                    },
                ]
            } else {
                Seq::empty()
            }) + (if exists|t: int| 0 <= t < j && #[trigger] cs@[t].name@ == cs@[j as int].name@ {
                seq![
                    BuildError {
                        name: *fname,
                        kind: BuildErrorKind::DuplicateChoiceName(cs@[j as int].name),
                    },
                ]
            } else {
                Seq::empty()
            }) + (if exists|t: int|
                0 <= t < j && choice_values_eq(#[trigger] cs@[t].value, cs@[j as int].value) {
                seq![
                    BuildError {
                        name: *fname,
                        kind: BuildErrorKind::DuplicateChoiceValue(cs@[j as int].name),
                    },
                ]
            } else {
                Seq::empty()
            });
            assert(errs@ =~= prev + this);
            assert(spec_choice_list_errors(*fname, ck, cs@, j as int) =~= this
                + spec_choice_list_errors(*fname, ck, cs@, j as int + 1));
            assert(prev + (this + spec_choice_list_errors(*fname, ck, cs@, j as int + 1)) =~= (prev
                + this) + spec_choice_list_errors(*fname, ck, cs@, j as int + 1));
        }
        j = j + 1;
    }
    proof {
        assert(errs@ + spec_choice_list_errors(*fname, ck, cs@, j as int) =~= errs@);
        assert(errs@ =~= e0 + spec_choice_list_errors(*fname, ck, cs@, 0));
    }
}

/// Append the duplicate-name errors of one level.
fn push_dup_name_errors(fields: &Vec<FieldDef>, errs: &mut Vec<BuildError>)
    ensures
        final(errs)@ == old(errs)@ + spec_dup_name_errors(fields@, 0),
{
    let ghost e0 = errs@;
    let mut j: usize = 0;
    while j < fields.len()
        invariant
            0 <= j <= fields@.len(),
            e0 + spec_dup_name_errors(fields@, 0) =~= errs@ + spec_dup_name_errors(
                fields@,
                j as int,
            ),
        decreases fields@.len() - j,
    {
        let ghost prev = errs@;
        let mut dup = false;
        let mut i: usize = 0;
        while i < j
            invariant
                0 <= i <= j < fields@.len(),
                dup == (exists|t: int|
                    0 <= t < i && #[trigger] fields@[t].name@ == fields@[j as int].name@),
            decreases j - i,
        {
            if fields[i].name == fields[j].name {
                dup = true;
            }
            i = i + 1;
        }
        if dup {
            errs.push(
                BuildError { name: fields[j].name.clone(), kind: BuildErrorKind::DuplicateFieldName },
            );
        }
        proof {
            let this = if exists|t: int|
                0 <= t < j && #[trigger] fields@[t].name@ == fields@[j as int].name@ {
                seq![
                    BuildError {
                        name: fields@[j as int].name,
                        kind: BuildErrorKind::DuplicateFieldName,
                    },
                ]
            } else {
                Seq::empty()
            };
            assert(errs@ =~= prev + this);
            assert(spec_dup_name_errors(fields@, j as int) =~= this + spec_dup_name_errors(
                fields@,
                j as int + 1,
            ));
            assert(prev + (this + spec_dup_name_errors(fields@, j as int + 1)) =~= (prev + this)
                + spec_dup_name_errors(fields@, j as int + 1));
        }
        j = j + 1;
    }
    proof {
        assert(errs@ + spec_dup_name_errors(fields@, j as int) =~= errs@);
        assert(errs@ =~= e0 + spec_dup_name_errors(fields@, 0));
    }
}

/// Append the errors of one field's own metadata, constraints,
/// autocomplete flag and choice list.
#[verifier::rlimit(100)]
fn push_leaf_errors(f: &FieldDef, errs: &mut Vec<BuildError>)
    ensures
        final(errs)@ == old(errs)@ + spec_leaf_errors(*f),
{
    let ghost e0 = errs@;
    push_meta_errors(&f.name, &f.description, &f.help, errs);
    proof {
        assert(errs@ =~= e0 + spec_meta_errors(f.name, f.description, f.help));
    }
    push_constraint_errors(f, errs);
    proof {
        assert(errs@ =~= e0 + (spec_meta_errors(f.name, f.description, f.help)
            + spec_constraint_errors(*f)));
    }
    let autocomplete_ok = match f.kind {
        FieldKind::String => true,
        FieldKind::Integer => true,
        FieldKind::Number => true,
        _ => false,
    };
    if f.autocomplete && !autocomplete_ok {
        errs.push(
            BuildError { name: f.name.clone(), kind: BuildErrorKind::AutocompleteNotAllowed },
        );
    }
    proof {
        assert(errs@ =~= e0 + (spec_meta_errors(f.name, f.description, f.help)
            + spec_constraint_errors(*f) + spec_autocomplete_errors(*f)));
    }
    let ghost e_auto = errs@;
    match f.kind {
        FieldKind::ChoiceEnum(ck) => {
            push_choice_list_errors(&f.name, ck, &f.choices, errs);
        },
        _ => {
            if f.choices.len() > 0 {
                errs.push(
                    BuildError {
                        name: f.name.clone(),
                        kind: BuildErrorKind::WrongConstraint(ConstraintKind::Choices),
                    },
                );
            }
        },
    }
    proof {
        assert(errs@ =~= e_auto + spec_choice_errors(*f));
        assert(errs@ =~= e0 + spec_leaf_errors(*f));
    }
}

/// Append every error of one field, including everything under it.
#[verifier::rlimit(100)]
fn check_field(f: &FieldDef, selection: bool, errs: &mut Vec<BuildError>)
    ensures
        final(errs)@ == old(errs)@ + spec_field_errors(*f, selection),
    decreases *f, 0int,
{
    let ghost e0 = errs@;
    push_leaf_errors(f, errs);
    let sub = match f.kind {
        FieldKind::SubCommand => true,
        FieldKind::SubCommandGroup => true,
        _ => false,
    };
    if sub != selection {
        errs.push(BuildError { name: f.name.clone(), kind: BuildErrorKind::MisplacedField });
    }
    let ghost mis = (if is_subcommand_kind(f.kind) != selection {
        seq![BuildError { name: f.name, kind: BuildErrorKind::MisplacedField }]
    } else {
        Seq::<BuildError>::empty()
    });
    proof {
        assert(errs@ =~= e0 + (spec_leaf_errors(*f) + mis));
    }
    let ghost e_mis = errs@;
    match f.kind {
        FieldKind::SubCommand => {
            if f.optional {
                errs.push(
                    BuildError { name: f.name.clone(), kind: BuildErrorKind::OptionalSubCommand },
                );
            }
            proof {
                assert(decreases_to!(*f => f.children@));
            }
            check_level(&f.children, false, errs);
            proof {
                assert(errs@ =~= e_mis + ((if f.optional {
                    seq![BuildError { name: f.name, kind: BuildErrorKind::OptionalSubCommand }]
                } else {
                    Seq::<BuildError>::empty()
                }) + spec_level_errors(f.children@, false)));
            }
        },
        FieldKind::SubCommandGroup => {
            if f.optional {
                errs.push(
                    BuildError { name: f.name.clone(), kind: BuildErrorKind::OptionalSubCommand },
                );
            }
            proof {
                assert(decreases_to!(*f => f.children@));
            }
            check_level(&f.children, true, errs);
            proof {
                assert(errs@ =~= e_mis + ((if f.optional {
                    seq![BuildError { name: f.name, kind: BuildErrorKind::OptionalSubCommand }]
                } else {
                    Seq::<BuildError>::empty()
                }) + spec_level_errors(f.children@, true)));
            }
        },
        _ => {
            if f.children.len() > 0 {
                errs.push(
                    BuildError { name: f.name.clone(), kind: BuildErrorKind::ScalarWithChildren },
                );
            }
        },
    }
    proof {
        assert(errs@ =~= e0 + spec_field_errors(*f, selection));
    }
}

/// Append every error of the fields from position `j` on.
fn check_fields_from(fields: &Vec<FieldDef>, selection: bool, j: usize, errs: &mut Vec<BuildError>)
    requires
        j <= fields@.len(),
    ensures
        final(errs)@ == old(errs)@ + spec_fields_errors(fields@, selection, j as int),
    decreases fields@, fields@.len() - j + 1,
{
    if j < fields.len() {
        let ghost e0 = errs@;
        proof {
            assert(decreases_to!(fields@ => fields@[j as int]));
        }
        check_field(&fields[j], selection, errs);
        check_fields_from(fields, selection, j + 1, errs);
        proof {
            assert(errs@ =~= e0 + spec_fields_errors(fields@, selection, j as int));
        }
    }
}

/// Append every error of one level: duplicate sibling names first, then
/// each field in declaration order.
fn check_level(fields: &Vec<FieldDef>, selection: bool, errs: &mut Vec<BuildError>)
    ensures
        final(errs)@ == old(errs)@ + spec_level_errors(fields@, selection),
    decreases fields@, fields@.len() + 2,
{
    let ghost e0 = errs@;
    push_dup_name_errors(fields, errs);
    check_fields_from(fields, selection, 0, errs);
    proof {
        assert(errs@ =~= e0 + spec_level_errors(fields@, selection));
    }
}

/// Compile a definition into the registrable command tree.
///
/// Pure validation plus assembly: succeeds exactly when the definition
/// has no build errors, and then every piece of metadata is carried over
/// verbatim and the options are built from the fields in declaration
/// order. On failure the full error list is returned, naming every
/// violated field at once, in a fixed order: the command's own metadata,
/// then each level's duplicate names followed by its fields' errors in
/// declaration order, recursing into subcommands.
pub fn build_command(def: &CommandDef) -> (r: Result<ApplicationCommandData, Vec<BuildError>>)
    ensures
        r is Ok <==> def_valid(*def),
        match r {
            Ok(data) => data_matches_def(*def, data),
            Err(errs) => errs@ == spec_command_errors(*def) && errs@.len() > 0,
        },
{
    let mut errs: Vec<BuildError> = Vec::new();
    push_meta_errors(&def.name, &def.description, &def.help, &mut errs);
    let selection = crate::decode::is_selection(&def.fields);
    check_level(&def.fields, selection, &mut errs);
    proof {
        assert(errs@ =~= spec_command_errors(*def));
    }
    if errs.len() == 0 {
        let options = build_options(&def.fields);
        Ok(
            ApplicationCommandData {
                name: def.name.clone(),
                name_localizations: crate::localization::clone_opt_pairs(&def.name_localizations),
                description: def.description.clone(),
                description_localizations: crate::localization::clone_opt_pairs(
                    &def.description_localizations,
                ),
                help: clone_opt_string(&def.help),
                options,
                dm_permission: def.dm_permission,
                default_member_permissions: def.default_member_permissions,
                group: def.group,
                nsfw: def.nsfw,
            },
        )
    } else {
        Err(errs)
    }
}

impl CommandDef {
    /// Compile this definition into the registrable command tree: the
    /// same contract as [`build_command`].
    pub fn create_command(&self) -> (r: Result<ApplicationCommandData, Vec<BuildError>>)
        ensures
            r is Ok <==> def_valid(*self),
            match r {
                Ok(data) => data_matches_def(*self, data),
                Err(errs) => errs@ == spec_command_errors(*self) && errs@.len() > 0,
            },
    {
        build_command(self)
    }
}

} // verus!
