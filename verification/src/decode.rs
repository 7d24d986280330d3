//! The interaction decoder: walks a runtime option tree against a
//! definition and produces typed values. Proved to return exactly what
//! the functional semantics in [`crate::semantics`] prescribe, for every
//! input.

use vstd::prelude::*;
use crate::choice::{ChoiceValue, CommandOptionChoice};
use crate::def::{CommandDef, CommandOptionType, FieldDef, FieldKind, kind_option_type, level_is_selection};
use crate::interaction::{CommandDataOption, CommandInputData, OptionValue};
use crate::semantics::{
    DecodeErrorKind, DecodeErrorModel, DecodedFieldModel, DecodedModel, DecodedValueModel,
    choice_matches_value, spec_decode_fields, spec_decode_level, spec_decode_scalar,
    spec_dup_from, spec_find_choice, spec_find_choice_from, spec_find_field, spec_find_field_from,
    spec_find_opt, spec_find_opt_from, spec_first_dup, spec_first_unknown, spec_unknown_from,
};

verus! {

/// A decoded scalar value. `Choice(i)` selects the `i`-th entry of the
/// field's choice list.
#[derive(Debug, PartialEq, Eq)]
pub enum DecodedValue {
    String(String),
    Integer(i64),
    Number(u64),
    Boolean(bool),
    User(u64),
    Channel(u64),
    Role(u64),
    Mentionable(u64),
    Attachment(u64),
    Choice(usize),
}

/// One decoded field: its name and its value, `None` when an optional
/// field was absent.
#[derive(Debug, PartialEq, Eq)]
pub struct DecodedField {
    pub name: String,
    pub value: Option<DecodedValue>,
}

/// A decoded command: either the field values of a plain command, or the
/// selected variant of a subcommand level (name, declaration index, and
/// the decoded child).
#[derive(Debug, PartialEq, Eq)]
pub enum DecodedCommand {
    Fields(Vec<DecodedField>),
    Variant(String, usize, Box<DecodedCommand>),
}

/// A decode failure: the path of field names from the root to the
/// offending node, and the reason.
#[derive(Debug, PartialEq, Eq)]
pub struct DecodeError {
    pub path: Vec<String>,
    pub kind: DecodeErrorKind,
}

/// The model of a decoded scalar value.
pub open spec fn decoded_value_view(v: DecodedValue) -> DecodedValueModel {
    match v {
        DecodedValue::String(s) => DecodedValueModel::String(s@),
        DecodedValue::Integer(i) => DecodedValueModel::Integer(i),
        DecodedValue::Number(n) => DecodedValueModel::Number(n),
        DecodedValue::Boolean(b) => DecodedValueModel::Boolean(b),
        DecodedValue::User(id) => DecodedValueModel::User(id),
        DecodedValue::Channel(id) => DecodedValueModel::Channel(id),
        DecodedValue::Role(id) => DecodedValueModel::Role(id),
        DecodedValue::Mentionable(id) => DecodedValueModel::Mentionable(id),
        DecodedValue::Attachment(id) => DecodedValueModel::Attachment(id),
        DecodedValue::Choice(ix) => DecodedValueModel::Choice(ix as int),
    }
}

/// The model of a decoded field.
pub open spec fn decoded_field_view(f: DecodedField) -> DecodedFieldModel {
    DecodedFieldModel {
        name: f.name@,
        value: match f.value {
            Some(v) => Some(decoded_value_view(v)),
            None => None,
        },
    }
}

/// The models of a list of decoded fields, in order.
pub open spec fn decoded_fields_view(s: Seq<DecodedField>) -> Seq<DecodedFieldModel> {
    Seq::new(s.len(), |i: int| decoded_field_view(s[i]))
}

/// The model of a decoded command.
pub open spec fn decoded_view(d: DecodedCommand) -> DecodedModel
    decreases d,
{
    match d {
        DecodedCommand::Fields(fs) => DecodedModel::Fields(decoded_fields_view(fs@)),
        DecodedCommand::Variant(n, ix, inner) => DecodedModel::Variant(
            n@,
            ix as int,
            Box::new(decoded_view(*inner)),
        ),
    }
}

/// The models of a path of field names.
pub open spec fn path_view(p: Seq<String>) -> Seq<Seq<char>> {
    Seq::new(p.len(), |i: int| p[i]@)
}

impl DecodeError {
    /// The model of this failure.
    pub open spec fn model(&self) -> DecodeErrorModel {
        DecodeErrorModel { path: path_view(self.path@), kind: self.kind }
    }
}

/// The decoder's full contract: the returned value or failure is exactly
/// what the functional semantics prescribe for this level.
pub open spec fn decode_result_matches(
    fields: Seq<FieldDef>,
    opts: Seq<CommandDataOption>,
    r: Result<DecodedCommand, DecodeError>,
) -> bool {
    match (r, spec_decode_level(fields, opts)) {
        (Ok(d), Ok(m)) => decoded_view(d) == m,
        (Err(e), Err(em)) => e.model() == em,
        _ => false,
    }
}

/// The first sibling whose name repeats an earlier sibling's, if any.
fn find_dup(opts: &Vec<CommandDataOption>) -> (r: Option<String>)
    ensures
        match r {
            Some(s) => spec_first_dup(opts@) == Some(s@),
            None => spec_first_dup(opts@) is None,
        },
{
    let mut j: usize = 0;
    while j < opts.len()
        invariant
            0 <= j <= opts@.len(),
            spec_dup_from(opts@, 0) == spec_dup_from(opts@, j as int),
        decreases opts@.len() - j,
    {
        let mut i: usize = 0;
        while i < j
            invariant
                0 <= i <= j < opts@.len(),
                spec_dup_from(opts@, 0) == spec_dup_from(opts@, j as int),
                forall|t: int| 0 <= t < i ==> #[trigger] opts@[t].name@ != opts@[j as int].name@,
            decreases j - i,
        {
            if opts[i].name == opts[j].name {
                assert(spec_dup_from(opts@, j as int) == Some(opts@[j as int].name@));
                return Some(opts[j].name.clone());
            }
            i = i + 1;
        }
        assert(!(exists|t: int| 0 <= t < j && #[trigger] opts@[t].name@ == opts@[j as int].name@));
        assert(spec_dup_from(opts@, j as int) == spec_dup_from(opts@, j as int + 1));
        j = j + 1;
    }
    None
}

/// The first runtime option named `name`, if any.
fn find_opt(opts: &Vec<CommandDataOption>, name: &String) -> (r: Option<usize>)
    ensures
        match r {
            Some(j) => spec_find_opt(opts@, name@) == Some(j as int) && j < opts@.len(),
            None => spec_find_opt(opts@, name@) is None,
        },
{
    let mut j: usize = 0;
    while j < opts.len()
        invariant
            0 <= j <= opts@.len(),
            spec_find_opt(opts@, name@) == spec_find_opt_from(opts@, name@, j as int),
        decreases opts@.len() - j,
    {
        if opts[j].name == *name {
            return Some(j);
        }
        j = j + 1;
    }
    None
}

/// The first declared field named `name`, if any.
fn find_field(fields: &Vec<FieldDef>, name: &String) -> (r: Option<usize>)
    ensures
        match r {
            Some(k) => spec_find_field(fields@, name@) == Some(k as int) && k < fields@.len(),
            None => spec_find_field(fields@, name@) is None,
        },
{
    let mut j: usize = 0;
    while j < fields.len()
        invariant
            0 <= j <= fields@.len(),
            spec_find_field(fields@, name@) == spec_find_field_from(fields@, name@, j as int),
        decreases fields@.len() - j,
    {
        if fields[j].name == *name {
            return Some(j);
        }
        j = j + 1;
    }
    None
}

/// The first runtime option matching no declared field, if any.
fn first_unknown(fields: &Vec<FieldDef>, opts: &Vec<CommandDataOption>) -> (r: Option<String>)
    ensures
        match r {
            Some(s) => spec_first_unknown(fields@, opts@) == Some(s@),
            None => spec_first_unknown(fields@, opts@) is None,
        },
{
    let mut j: usize = 0;
    while j < opts.len()
        invariant
            0 <= j <= opts@.len(),
            spec_first_unknown(fields@, opts@) == spec_unknown_from(fields@, opts@, j as int),
        decreases opts@.len() - j,
    {
        if find_field(fields, &opts[j].name).is_none() {
            return Some(opts[j].name.clone());
        }
        j = j + 1;
    }
    None
}

/// Whether this level selects among subcommand-kind children.
pub(crate) fn is_selection(fields: &Vec<FieldDef>) -> (r: bool)
    ensures
        r == level_is_selection(fields@),
{
    let mut j: usize = 0;
    while j < fields.len()
        invariant
            0 <= j <= fields@.len(),
            forall|t: int|
                0 <= t < j ==> !crate::def::is_subcommand_kind(#[trigger] fields@[t].kind),
        decreases fields@.len() - j,
    {
        let sub = match fields[j].kind {
            FieldKind::SubCommand => true,
            FieldKind::SubCommandGroup => true,
            _ => false,
        };
        if sub {
            assert(crate::def::is_subcommand_kind(fields@[j as int].kind));
            return true;
        }
        j = j + 1;
    }
    false
}

/// The platform option kind a field kind registers as.
pub fn option_type_of_kind(k: FieldKind) -> (t: CommandOptionType)
    ensures
        t == kind_option_type(k),
{
    match k {
        FieldKind::String => CommandOptionType::String,
        FieldKind::Integer => CommandOptionType::Integer,
        FieldKind::Number => CommandOptionType::Number,
        FieldKind::Boolean => CommandOptionType::Boolean,
        FieldKind::User => CommandOptionType::User,
        FieldKind::Channel => CommandOptionType::Channel,
        FieldKind::Role => CommandOptionType::Role,
        FieldKind::Mentionable => CommandOptionType::Mentionable,
        FieldKind::Attachment => CommandOptionType::Attachment,
        FieldKind::GenericId => CommandOptionType::Mentionable,
        FieldKind::SubCommand => CommandOptionType::SubCommand,
        FieldKind::SubCommandGroup => CommandOptionType::SubCommandGroup,
        FieldKind::ChoiceEnum(ck) => match ck {
            crate::choice::ChoiceKind::String => CommandOptionType::String,
            crate::choice::ChoiceKind::Integer => CommandOptionType::Integer,
            crate::choice::ChoiceKind::Number => CommandOptionType::Number,
        },
    }
}

/// The first declared choice matching a runtime value, if any.
fn find_choice(choices: &Vec<CommandOptionChoice>, v: &OptionValue) -> (r: Option<usize>)
    ensures
        match r {
            Some(ix) => spec_find_choice(choices@, *v) == Some(ix as int),
            None => spec_find_choice(choices@, *v) is None,
        },
{
    let mut j: usize = 0;
    while j < choices.len()
        invariant
            0 <= j <= choices@.len(),
            spec_find_choice(choices@, *v) == spec_find_choice_from(choices@, *v, j as int),
        decreases choices@.len() - j,
    {
        let matches_here: bool = match (&choices[j].value, v) {
            (ChoiceValue::String(x), OptionValue::String(y)) => crate::text::str_eq(
                x.as_str(),
                y.as_str(),
            ),
            (ChoiceValue::Int(x), OptionValue::Integer(y)) => *x == *y,
            (ChoiceValue::Number(x), OptionValue::Number(y)) => *x == *y,
            _ => false,
        };
        assert(matches_here == choice_matches_value(choices@[j as int].value, *v));
        if matches_here {
            return Some(j);
        }
        j = j + 1;
    }
    None
}

/// Coerce one present scalar value against its field.
fn decode_scalar(f: &FieldDef, v: &OptionValue) -> (r: Result<DecodedValue, DecodeErrorKind>)
    ensures
        match (r, spec_decode_scalar(*f, *v)) {
            (Ok(d), Ok(m)) => decoded_value_view(d) == m,
            (Err(k), Err(km)) => k == km,
            _ => false,
        },
{
    let wrong = DecodeErrorKind::WrongKind {
        expected: option_type_of_kind(f.kind),
        found: v.value_tag(),
    };
    match (&f.kind, v) {
        (FieldKind::String, OptionValue::String(s)) => Ok(DecodedValue::String(s.clone())),
        (FieldKind::Integer, OptionValue::Integer(i)) => Ok(DecodedValue::Integer(*i)),
        (FieldKind::Number, OptionValue::Number(n)) => Ok(DecodedValue::Number(*n)),
        (FieldKind::Boolean, OptionValue::Boolean(b)) => Ok(DecodedValue::Boolean(*b)),
        (FieldKind::User, OptionValue::User(id)) => Ok(DecodedValue::User(*id)),
        (FieldKind::Channel, OptionValue::Channel(id)) => Ok(DecodedValue::Channel(*id)),
        (FieldKind::Role, OptionValue::Role(id)) => Ok(DecodedValue::Role(*id)),
        (FieldKind::Mentionable, OptionValue::Mentionable(id)) => Ok(
            DecodedValue::Mentionable(*id),
        ),
        (FieldKind::Attachment, OptionValue::Attachment(id)) => Ok(DecodedValue::Attachment(*id)),
        (FieldKind::GenericId, OptionValue::Mentionable(id)) => Ok(
            DecodedValue::Mentionable(*id),
        ),
        (FieldKind::ChoiceEnum(_), _) => {
            let expected = option_type_of_kind(f.kind);
            let found = v.value_tag();
            if found != expected {
                Err(wrong)
            } else {
                match find_choice(&f.choices, v) {
                    Some(ix) => Ok(DecodedValue::Choice(ix)),
                    None => Err(DecodeErrorKind::UnknownChoice),
                }
            }
        },
        _ => Err(wrong),
    }
}

/// Decode the declared fields of a plain level, in declaration order.
fn decode_fields(fields: &Vec<FieldDef>, opts: &Vec<CommandDataOption>) -> (r: Result<
    Vec<DecodedField>,
    DecodeError,
>)
    ensures
        match (r, spec_decode_fields(fields@, opts@, 0)) {
            (Ok(v), Ok(m)) => decoded_fields_view(v@) == m,
            (Err(e), Err(em)) => e.model() == em,
            _ => false,
        },
{
    let ghost total = spec_decode_fields(fields@, opts@, 0);
    let mut acc: Vec<DecodedField> = Vec::new();
    let mut i: usize = 0;
    proof {
        if let Ok(rest) = spec_decode_fields(fields@, opts@, 0) {
            assert(decoded_fields_view(acc@) + rest =~= rest);
        }
    }
    while i < fields.len()
        invariant
            0 <= i <= fields@.len(),
            total == spec_decode_fields(fields@, opts@, 0),
            match spec_decode_fields(fields@, opts@, i as int) {
                Ok(rest) => total == Ok::<Seq<DecodedFieldModel>, DecodeErrorModel>(
                    decoded_fields_view(acc@) + rest,
                ),
                Err(e) => total == Err::<Seq<DecodedFieldModel>, DecodeErrorModel>(e),
            },
        decreases fields@.len() - i,
    {
        let f = &fields[i];
        let ghost acc_old = acc@;
        let ghost hd = crate::semantics::spec_decode_field(fields@[i as int], opts@);
        match find_opt(opts, &f.name) {
            Some(j) => {
                match decode_scalar(f, &opts[j].value) {
                    Ok(d) => {
                        let ghost dv = decoded_value_view(d);
                        let ghost dfm = DecodedFieldModel {
                            name: fields@[i as int].name@,
                            value: Some(dv),
                        };
                        acc.push(DecodedField { name: f.name.clone(), value: Some(d) });
                        proof {
                            assert(hd == Ok::<Option<DecodedValueModel>, DecodeErrorModel>(
                                Some(dv),
                            ));
                            assert(decoded_fields_view(acc@) =~= decoded_fields_view(acc_old)
                                + seq![dfm]);
                            match spec_decode_fields(fields@, opts@, i as int + 1) {
                                Ok(r2) => {
                                    assert(spec_decode_fields(fields@, opts@, i as int) == Ok::<
                                        Seq<DecodedFieldModel>,
                                        DecodeErrorModel,
                                    >(seq![dfm] + r2));
                                    assert(decoded_fields_view(acc_old) + (seq![dfm] + r2)
                                        =~= decoded_fields_view(acc@) + r2);
                                },
                                Err(_) => {},
                            }
                        }
                    },
                    Err(k) => {
                        let e = DecodeError { path: vec![f.name.clone()], kind: k };
                        proof {
                            assert(path_view(e.path@) =~= seq![fields@[i as int].name@]);
                            assert(hd == Err::<Option<DecodedValueModel>, DecodeErrorModel>(
                                e.model(),
                            ));
                        }
                        return Err(e);
                    },
                }
            },
            None => {
                if f.optional {
                    let ghost dfm = DecodedFieldModel {
                        name: fields@[i as int].name@,
                        value: None,
                    };
                    acc.push(DecodedField { name: f.name.clone(), value: None });
                    proof {
                        assert(hd == Ok::<Option<DecodedValueModel>, DecodeErrorModel>(None));
                        assert(decoded_fields_view(acc@) =~= decoded_fields_view(acc_old)
                            + seq![dfm]);
                        match spec_decode_fields(fields@, opts@, i as int + 1) {
                            Ok(r2) => {
                                assert(spec_decode_fields(fields@, opts@, i as int) == Ok::<
                                    Seq<DecodedFieldModel>,
                                    DecodeErrorModel,
                                >(seq![dfm] + r2));
                                assert(decoded_fields_view(acc_old) + (seq![dfm] + r2)
                                    =~= decoded_fields_view(acc@) + r2);
                            },
                            Err(_) => {},
                        }
                    }
                } else {
                    let e = DecodeError {
                        path: vec![f.name.clone()],
                        kind: DecodeErrorKind::MissingRequired,
                    };
                    proof {
                        assert(path_view(e.path@) =~= seq![fields@[i as int].name@]);
                        assert(hd == Err::<Option<DecodedValueModel>, DecodeErrorModel>(
                            e.model(),
                        ));
                    }
                    return Err(e);
                }
            },
        }
        i = i + 1;
    }
    proof {
        if let Ok(rest) = spec_decode_fields(fields@, opts@, i as int) {
            assert(decoded_fields_view(acc@) + rest =~= decoded_fields_view(acc@));
        }
    }
    Ok(acc)
}

/// Decode one definition level against one runtime option list.
///
/// The result is exactly what the functional semantics prescribe: see
/// [`spec_decode_level`] for the order of checks and the failure each
/// malformed input produces. The decoder never mutates its inputs and a
/// failure carries the path of field names to the offending node.
pub fn decode(fields: &Vec<FieldDef>, options: &Vec<CommandDataOption>) -> (r: Result<
    DecodedCommand,
    DecodeError,
>)
    ensures
        decode_result_matches(fields@, options@, r),
    decreases fields@,
{
    if let Some(n) = find_dup(options) {
        let ghost nv = n@;
        let e = DecodeError { path: vec![n], kind: DecodeErrorKind::DuplicateField };
        proof {
            assert(path_view(e.path@) =~= seq![nv]);
        }
        return Err(e);
    }
    if is_selection(fields) {
        if options.len() == 0 {
            let e = DecodeError { path: Vec::new(), kind: DecodeErrorKind::NoSelection };
            proof {
                assert(path_view(e.path@) =~= Seq::<Seq<char>>::empty());
            }
            return Err(e);
        }
        if options.len() > 1 {
            let e = DecodeError { path: Vec::new(), kind: DecodeErrorKind::MultipleSelection };
            proof {
                assert(path_view(e.path@) =~= Seq::<Seq<char>>::empty());
            }
            return Err(e);
        }
        let o = &options[0];
        match find_field(fields, &o.name) {
            None => {
                let e = DecodeError {
                    path: vec![o.name.clone()],
                    kind: DecodeErrorKind::UnknownField,
                };
                proof {
                    assert(path_view(e.path@) =~= seq![options@[0].name@]);
                }
                Err(e)
            },
            Some(k) => {
                let f = &fields[k];
                match (&f.kind, &o.value) {
                    (FieldKind::SubCommand, OptionValue::SubCommand(inner)) => {
                        proof {
                            assert(decreases_to!(fields@ => fields@[k as int]));
                            assert(decreases_to!(fields@[k as int] => fields@[k as int].children@));
                        }
                        let inner_r = decode(&f.children, inner);
                        wrap_child(
                            inner_r,
                            &f.name,
                            k,
                            Ghost(spec_decode_level(fields@[k as int].children@, inner@)),
                        )
                    },
                    (FieldKind::SubCommandGroup, OptionValue::SubCommandGroup(inner)) => {
                        proof {
                            assert(decreases_to!(fields@ => fields@[k as int]));
                            assert(decreases_to!(fields@[k as int] => fields@[k as int].children@));
                        }
                        let inner_r = decode(&f.children, inner);
                        wrap_child(
                            inner_r,
                            &f.name,
                            k,
                            Ghost(spec_decode_level(fields@[k as int].children@, inner@)),
                        )
                    },
                    _ => {
                        let e = DecodeError {
                            path: vec![f.name.clone()],
                            kind: DecodeErrorKind::WrongKind {
                                expected: option_type_of_kind(f.kind),
                                found: o.value.value_tag(),
                            },
                        };
                        proof {
                            assert(path_view(e.path@) =~= seq![fields@[k as int].name@]);
                        }
                        Err(e)
                    },
                }
            },
        }
    } else {
        match first_unknown(fields, options) {
            Some(n) => {
                let ghost nv = n@;
                let e = DecodeError { path: vec![n], kind: DecodeErrorKind::UnknownField };
                proof {
                    assert(path_view(e.path@) =~= seq![nv]);
                }
                Err(e)
            },
            None => match decode_fields(fields, options) {
                Ok(v) => Ok(DecodedCommand::Fields(v)),
                Err(e) => Err(e),
            },
        }
    }
}

/// Wrap a child's decode result as the selected variant `k`: a success
/// becomes the variant value, a failure has the child's name prepended to
/// its path.
fn wrap_child(
    inner_r: Result<DecodedCommand, DecodeError>,
    name: &String,
    k: usize,
    Ghost(spec_r): Ghost<Result<DecodedModel, DecodeErrorModel>>,
) -> (r: Result<DecodedCommand, DecodeError>)
    requires
        match (inner_r, spec_r) {
            (Ok(d), Ok(m)) => decoded_view(d) == m,
            (Err(e), Err(em)) => e.model() == em,
            _ => false,
        },
    ensures
        match (r, crate::semantics::spec_wrap_variant(name@, k as int, spec_r)) {
            (Ok(d), Ok(m)) => decoded_view(d) == m,
            (Err(e), Err(em)) => e.model() == em,
            _ => false,
        },
{
    match inner_r {
        Ok(d) => Ok(DecodedCommand::Variant(name.clone(), k, Box::new(d))),
        Err(e) => {
            let DecodeError { path, kind } = e;
            let ghost pv = path@;
            let mut p: Vec<String> = vec![name.clone()];
            let mut ep = path;
            p.append(&mut ep);
            proof {
                assert(path_view(p@) =~= seq![name@] + path_view(pv));
            }
            Err(DecodeError { path: p, kind })
        },
    }
}

impl CommandDef {
    /// Decode one interaction against this definition.
    ///
    /// The definition is only read; the result is exactly what the
    /// functional semantics prescribe for the definition's fields and the
    /// interaction's options. The resolved-entity side table is not
    /// consulted: decoded reference values carry the ids to look up there.
    pub fn from_interaction(&self, input: &CommandInputData) -> (r: Result<
        DecodedCommand,
        DecodeError,
    >)
        ensures
            decode_result_matches(self.fields@, input.options@, r),
    {
        decode(&self.fields, &input.options)
    }
}

} // verus!
