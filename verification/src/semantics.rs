//! The decoding semantics: a total, functional specification of what the
//! interaction decoder returns for every definition level and every
//! runtime option list. The executable decoder is proved to return exactly
//! this, and the crate's laws are proved about it.

use vstd::prelude::*;
use crate::choice::{ChoiceValue, CommandOptionChoice};
use crate::def::{CommandOptionType, FieldDef, FieldKind, kind_option_type, level_is_selection};
use crate::interaction::{CommandDataOption, OptionValue, spec_value_tag};

verus! {

/// A decoded scalar value. `Choice(i)` selects the `i`-th entry of the
/// field's choice list.
pub enum DecodedValueModel {
    String(Seq<char>),
    Integer(i64),
    Number(u64),
    Boolean(bool),
    User(u64),
    Channel(u64),
    Role(u64),
    Mentionable(u64),
    Attachment(u64),
    Choice(int),
}

/// One decoded field: its name and its value, `None` when an optional
/// field was absent.
pub struct DecodedFieldModel {
    pub name: Seq<char>,
    pub value: Option<DecodedValueModel>,
}

/// A decoded command level: either the field values of a plain command,
/// or the selected variant of a subcommand level (name, declaration
/// index, and the decoded child).
pub enum DecodedModel {
    Fields(Seq<DecodedFieldModel>),
    Variant(Seq<char>, int, Box<DecodedModel>),
}

/// Why a decode failed.
#[derive(Clone, Copy, Debug, PartialEq, Eq, Structural)]
pub enum DecodeErrorKind {
    /// A required field was absent from the runtime tree.
    MissingRequired,
    /// A present value carried the wrong kind for its field.
    WrongKind { expected: CommandOptionType, found: CommandOptionType },
    /// A runtime option matched no declared field.
    UnknownField,
    /// Two sibling runtime options carried the same name.
    DuplicateField,
    /// A choice-restricted value matched no declared choice.
    UnknownChoice,
    /// No child was present at a subcommand level.
    NoSelection,
    /// More than one child was present at a subcommand level.
    MultipleSelection,
}

/// A decode failure: the path of field names from the root to the
/// offending node, and the reason.
pub struct DecodeErrorModel {
    pub path: Seq<Seq<char>>,
    pub kind: DecodeErrorKind,
}

/// The name of the first runtime option, scanning from position `j`, that
/// repeats the name of an earlier sibling.
pub open spec fn spec_dup_from(opts: Seq<CommandDataOption>, j: int) -> Option<Seq<char>>
    decreases opts.len() - j,
{
    if j < 0 || j >= opts.len() {
        None
    } else if exists|i: int| 0 <= i < j && #[trigger] opts[i].name@ == opts[j].name@ {
        Some(opts[j].name@)
    } else {
        spec_dup_from(opts, j + 1)
    }
}

/// The name of the first runtime option that repeats an earlier sibling's
/// name, if any.
pub open spec fn spec_first_dup(opts: Seq<CommandDataOption>) -> Option<Seq<char>> {
    spec_dup_from(opts, 0)
}

/// The first runtime option named `name`, scanning from position `j`.
pub open spec fn spec_find_opt_from(opts: Seq<CommandDataOption>, name: Seq<char>, j: int) -> Option<
    int,
>
    decreases opts.len() - j,
{
    if j < 0 || j >= opts.len() {
        None
    } else if opts[j].name@ == name {
        Some(j)
    } else {
        spec_find_opt_from(opts, name, j + 1)
    }
}

/// The first runtime option named `name`, if any.
pub open spec fn spec_find_opt(opts: Seq<CommandDataOption>, name: Seq<char>) -> Option<int> {
    spec_find_opt_from(opts, name, 0)
}

/// The first declared field named `name`, scanning from position `j`.
pub open spec fn spec_find_field_from(fields: Seq<FieldDef>, name: Seq<char>, j: int) -> Option<int>
    decreases fields.len() - j,
{
    if j < 0 || j >= fields.len() {
        None
    } else if fields[j].name@ == name {
        Some(j)
    } else {
        spec_find_field_from(fields, name, j + 1)
    }
}

/// The first declared field named `name`, if any.
pub open spec fn spec_find_field(fields: Seq<FieldDef>, name: Seq<char>) -> Option<int> {
    spec_find_field_from(fields, name, 0)
}

/// The name of the first runtime option, scanning from position `j`, that
/// matches no declared field.
pub open spec fn spec_unknown_from(fields: Seq<FieldDef>, opts: Seq<CommandDataOption>, j: int) -> Option<
    Seq<char>,
>
    decreases opts.len() - j,
{
    if j < 0 || j >= opts.len() {
        None
    } else if spec_find_field(fields, opts[j].name@) is None {
        Some(opts[j].name@)
    } else {
        spec_unknown_from(fields, opts, j + 1)
    }
}

/// The name of the first runtime option that matches no declared field,
/// if any.
pub open spec fn spec_first_unknown(fields: Seq<FieldDef>, opts: Seq<CommandDataOption>) -> Option<
    Seq<char>,
> {
    spec_unknown_from(fields, opts, 0)
}

/// Whether a declared choice value and a runtime value carry the same
/// kind and the same content.
pub open spec fn choice_matches_value(cv: ChoiceValue, v: OptionValue) -> bool {
    match (cv, v) {
        (ChoiceValue::String(x), OptionValue::String(y)) => x@ == y@,
        (ChoiceValue::Int(x), OptionValue::Integer(y)) => x == y,
        (ChoiceValue::Number(x), OptionValue::Number(y)) => x == y,
        _ => false,
    }
}

/// The first choice entry matching a runtime value, scanning from
/// position `j`.
pub open spec fn spec_find_choice_from(
    choices: Seq<CommandOptionChoice>,
    v: OptionValue,
    j: int,
) -> Option<int>
    decreases choices.len() - j,
{
    if j < 0 || j >= choices.len() {
        None
    } else if choice_matches_value(choices[j].value, v) {
        Some(j)
    } else {
        spec_find_choice_from(choices, v, j + 1)
    }
}

/// The first choice entry matching a runtime value, if any.
pub open spec fn spec_find_choice(choices: Seq<CommandOptionChoice>, v: OptionValue) -> Option<int> {
    spec_find_choice_from(choices, v, 0)
}

/// The wrong-kind failure reason for field `f` fed with value `v`.
pub open spec fn wrong_kind_for(f: FieldDef, v: OptionValue) -> DecodeErrorKind {
    DecodeErrorKind::WrongKind { expected: kind_option_type(f.kind), found: spec_value_tag(v) }
}

/// Coerce one present scalar value against its field: the value kind must
/// match the field kind exactly, and a choice-restricted value must equal
/// one of the declared choices.
pub open spec fn spec_decode_scalar(f: FieldDef, v: OptionValue) -> Result<
    DecodedValueModel,
    DecodeErrorKind,
> {
    match f.kind {
        FieldKind::String => match v {
            OptionValue::String(s) => Ok(DecodedValueModel::String(s@)),
            _ => Err(wrong_kind_for(f, v)),
        },
        FieldKind::Integer => match v {
            OptionValue::Integer(i) => Ok(DecodedValueModel::Integer(i)),
            _ => Err(wrong_kind_for(f, v)),
        },
        FieldKind::Number => match v {
            OptionValue::Number(n) => Ok(DecodedValueModel::Number(n)),
            _ => Err(wrong_kind_for(f, v)),
        },
        FieldKind::Boolean => match v {
            OptionValue::Boolean(b) => Ok(DecodedValueModel::Boolean(b)),
            _ => Err(wrong_kind_for(f, v)),
        },
        FieldKind::User => match v {
            OptionValue::User(id) => Ok(DecodedValueModel::User(id)),
            _ => Err(wrong_kind_for(f, v)),
        },
        FieldKind::Channel => match v {
            OptionValue::Channel(id) => Ok(DecodedValueModel::Channel(id)),
            _ => Err(wrong_kind_for(f, v)),
        },
        FieldKind::Role => match v {
            OptionValue::Role(id) => Ok(DecodedValueModel::Role(id)),
            _ => Err(wrong_kind_for(f, v)),
        },
        FieldKind::Mentionable => match v {
            OptionValue::Mentionable(id) => Ok(DecodedValueModel::Mentionable(id)),
            _ => Err(wrong_kind_for(f, v)),
        },
        FieldKind::Attachment => match v {
            OptionValue::Attachment(id) => Ok(DecodedValueModel::Attachment(id)),
            _ => Err(wrong_kind_for(f, v)),
        },
        FieldKind::GenericId => match v {
            OptionValue::Mentionable(id) => Ok(DecodedValueModel::Mentionable(id)),
            _ => Err(wrong_kind_for(f, v)),
        },
        FieldKind::ChoiceEnum(_) => if spec_value_tag(v) != kind_option_type(f.kind) {
            Err(wrong_kind_for(f, v))
        } else {
            match spec_find_choice(f.choices@, v) {
                Some(ix) => Ok(DecodedValueModel::Choice(ix)),
                None => Err(DecodeErrorKind::UnknownChoice),
            }
        },
        FieldKind::SubCommand => Err(wrong_kind_for(f, v)),
        FieldKind::SubCommandGroup => Err(wrong_kind_for(f, v)),
    }
}

/// Decode one declared field against the option list of its level:
/// present values are coerced, absence is allowed exactly for optional
/// fields. A failure names the field.
pub open spec fn spec_decode_field(f: FieldDef, opts: Seq<CommandDataOption>) -> Result<
    Option<DecodedValueModel>,
    DecodeErrorModel,
> {
    match spec_find_opt(opts, f.name@) {
        Some(j) => match spec_decode_scalar(f, opts[j].value) {
            Ok(v) => Ok(Some(v)),
            Err(k) => Err(DecodeErrorModel { path: seq![f.name@], kind: k }),
        },
        None => if f.optional {
            Ok(None)
        } else {
            Err(DecodeErrorModel { path: seq![f.name@], kind: DecodeErrorKind::MissingRequired })
        },
    }
}

/// Decode the declared fields from position `i` on, in declaration order,
/// stopping at the first failure.
pub open spec fn spec_decode_fields(
    fields: Seq<FieldDef>,
    opts: Seq<CommandDataOption>,
    i: int,
) -> Result<Seq<DecodedFieldModel>, DecodeErrorModel>
    decreases fields.len() - i,
{
    if i < 0 || i >= fields.len() {
        Ok(Seq::empty())
    } else {
        match spec_decode_field(fields[i], opts) {
            Ok(val) => match spec_decode_fields(fields, opts, i + 1) {
                Ok(rest) => Ok(
                    seq![DecodedFieldModel { name: fields[i].name@, value: val }] + rest,
                ),
                Err(e) => Err(e),
            },
            Err(e) => Err(e),
        }
    }
}

/// Wrap a child's decode result as the selected variant `k` named `name`;
/// a child failure has the child's name prepended to its path.
pub open spec fn spec_wrap_variant(
    name: Seq<char>,
    k: int,
    r: Result<DecodedModel, DecodeErrorModel>,
) -> Result<DecodedModel, DecodeErrorModel> {
    match r {
        Ok(d) => Ok(DecodedModel::Variant(name, k, Box::new(d))),
        Err(e) => Err(DecodeErrorModel { path: seq![name] + e.path, kind: e.kind }),
    }
}

/// Decode one definition level against one runtime option list.
///
/// Duplicate sibling names fail first at every level. A level declaring
/// subcommand-kind fields selects among them: exactly one option must be
/// present, its name must match a declared child, its value must carry
/// the matching nested kind, and the nested list is decoded against that
/// child's own fields. Every other level matches options to fields by
/// name: an option matching no field fails, then each field in
/// declaration order is coerced if present, while absence is allowed only
/// for optional fields.
pub open spec fn spec_decode_level(fields: Seq<FieldDef>, opts: Seq<CommandDataOption>) -> Result<
    DecodedModel,
    DecodeErrorModel,
>
    decreases fields,
    via spec_decode_level_decreases
{
    match spec_first_dup(opts) {
        Some(n) => Err(DecodeErrorModel { path: seq![n], kind: DecodeErrorKind::DuplicateField }),
        None => if level_is_selection(fields) {
            if opts.len() == 0 {
                Err(
                    DecodeErrorModel {
                        path: Seq::empty(),
                        kind: DecodeErrorKind::NoSelection,
                    },
                )
            } else if opts.len() > 1 {
                Err(
                    DecodeErrorModel {
                        path: Seq::empty(),
                        kind: DecodeErrorKind::MultipleSelection,
                    },
                )
            } else {
                match spec_find_field(fields, opts[0].name@) {
                    None => Err(
                        DecodeErrorModel {
                            path: seq![opts[0].name@],
                            kind: DecodeErrorKind::UnknownField,
                        },
                    ),
                    Some(k) => match (fields[k].kind, opts[0].value) {
                        (FieldKind::SubCommand, OptionValue::SubCommand(inner)) => spec_wrap_variant(
                            fields[k].name@,
                            k,
                            spec_decode_level(fields[k].children@, inner@),
                        ),
                        (
                            FieldKind::SubCommandGroup,
                            OptionValue::SubCommandGroup(inner),
                        ) => spec_wrap_variant(
                            fields[k].name@,
                            k,
                            spec_decode_level(fields[k].children@, inner@),
                        ),
                        _ => Err(
                            DecodeErrorModel {
                                path: seq![fields[k].name@],
                                kind: wrong_kind_for(fields[k], opts[0].value),
                            },
                        ),
                    },
                }
            }
        } else {
            match spec_first_unknown(fields, opts) {
                Some(n) => Err(
                    DecodeErrorModel { path: seq![n], kind: DecodeErrorKind::UnknownField },
                ),
                None => match spec_decode_fields(fields, opts, 0) {
                    Ok(fs) => Ok(DecodedModel::Fields(fs)),
                    Err(e) => Err(e),
                },
            }
        },
    }
}

#[via_fn]
proof fn spec_decode_level_decreases(fields: Seq<FieldDef>, opts: Seq<CommandDataOption>) {
    if spec_first_dup(opts) is None && level_is_selection(fields) && opts.len() == 1 {
        match spec_find_field(fields, opts[0].name@) {
            Some(k) => {
                lemma_find_field_from_some(fields, opts[0].name@, 0, k);
                assert(decreases_to!(fields => fields[k]));
                assert(decreases_to!(fields[k] => fields[k].children@));
                assert(decreases_to!(fields => fields[k].children@));
            },
            None => {},
        }
    }
}

/// A successful field search yields an in-range index of the first field
/// with that name, at or after the start of the search.
pub proof fn lemma_find_field_from_some(fields: Seq<FieldDef>, name: Seq<char>, j: int, k: int)
    requires
        0 <= j,
        spec_find_field_from(fields, name, j) == Some(k),
    ensures
        j <= k < fields.len(),
        fields[k].name@ == name,
        forall|i: int| j <= i < k ==> #[trigger] fields[i].name@ != name,
    decreases fields.len() - j,
{
    if j < fields.len() && fields[j].name@ != name {
        lemma_find_field_from_some(fields, name, j + 1, k);
    }
}

/// A failed field search means no field has that name at or after the
/// start of the search.
pub proof fn lemma_find_field_from_none(fields: Seq<FieldDef>, name: Seq<char>, j: int)
    requires
        0 <= j,
        spec_find_field_from(fields, name, j) is None,
    ensures
        forall|i: int| j <= i < fields.len() ==> #[trigger] fields[i].name@ != name,
    decreases fields.len() - j,
{
    if j < fields.len() && fields[j].name@ != name {
        lemma_find_field_from_none(fields, name, j + 1);
    }
}

/// Whether a decode of this level succeeds.
pub open spec fn accepts(fields: Seq<FieldDef>, opts: Seq<CommandDataOption>) -> bool {
    spec_decode_level(fields, opts) is Ok
}

} // verus!
