//! The crate's laws: proof functions relating the schema builder, the
//! interaction decoder and the runtime trees they agree on.

use vstd::prelude::*;
use crate::builder::{option_matches_field, options_match_fields};
use crate::choice::{ChoiceValue, CommandOptionChoice, choice_values_eq};
use crate::def::{
    CommandOptionType, FieldDef, FieldKind, fields_wf, is_subcommand_kind, kind_option_type,
    level_is_selection,
};
use crate::interaction::{CommandDataOption, OptionValue, spec_value_tag};
use crate::schema::CommandOptionExt;
use crate::semantics::{
    DecodeErrorKind, DecodeErrorModel, DecodedModel, accepts, choice_matches_value,
    lemma_find_field_from_none, lemma_find_field_from_some, spec_decode_field, spec_decode_fields,
    spec_decode_level, spec_decode_scalar, spec_dup_from, spec_find_choice, spec_find_choice_from,
    spec_find_field, spec_find_field_from, spec_find_opt, spec_find_opt_from, spec_first_dup, spec_first_unknown,
    spec_unknown_from,
};

verus! {

/// A runtime option list structurally generated to satisfy a definition
/// level: no duplicate sibling names, no unknown names, every required
/// field present, every present value well-typed and, for
/// choice-restricted fields, equal to a declared choice; at a selection
/// level, exactly one option naming a declared child whose nested list
/// satisfies that child in turn.
pub open spec fn satisfies(fields: Seq<FieldDef>, opts: Seq<CommandDataOption>) -> bool
    decreases fields,
    via satisfies_decreases
{
    spec_first_dup(opts) is None && if level_is_selection(fields) {
        opts.len() == 1 && match spec_find_field(fields, opts[0].name@) {
            Some(k) => match (fields[k].kind, opts[0].value) {
                (FieldKind::SubCommand, OptionValue::SubCommand(inner)) => satisfies(
                    fields[k].children@,
                    inner@,
                ),
                (FieldKind::SubCommandGroup, OptionValue::SubCommandGroup(inner)) => satisfies(
                    fields[k].children@,
                    inner@,
                ),
                _ => false,
            },
            None => false,
        }
    } else {
        spec_first_unknown(fields, opts) is None && forall|j: int|
            0 <= j < fields.len() ==> spec_decode_field(#[trigger] fields[j], opts) is Ok
    }
}

#[via_fn]
proof fn satisfies_decreases(fields: Seq<FieldDef>, opts: Seq<CommandDataOption>) {
    if spec_first_dup(opts) is None && level_is_selection(fields) && opts.len() == 1 {
        match spec_find_field(fields, opts[0].name@) {
            Some(k) => {
                lemma_find_field_from_some(fields, opts[0].name@, 0, k);
                assert(decreases_to!(fields => fields[k]));
                assert(decreases_to!(fields[k] => fields[k].children@));
            },
            None => {},
        }
    }
}

/// A failed name search among the runtime options means no option has
/// that name at or after the start of the search, and conversely.
pub proof fn lemma_find_opt_from_some(
    opts: Seq<CommandDataOption>,
    name: Seq<char>,
    j: int,
    k: int,
)
    requires
        0 <= j,
        spec_find_opt_from(opts, name, j) == Some(k),
    ensures
        j <= k < opts.len(),
        opts[k].name@ == name,
        forall|i: int| j <= i < k ==> #[trigger] opts[i].name@ != name,
    decreases opts.len() - j,
{
    if j < opts.len() && opts[j].name@ != name {
        lemma_find_opt_from_some(opts, name, j + 1, k);
    }
}

/// A failed option search means no option has that name at or after the
/// start of the search.
pub proof fn lemma_find_opt_from_none(opts: Seq<CommandDataOption>, name: Seq<char>, j: int)
    requires
        0 <= j,
        spec_find_opt_from(opts, name, j) is None,
    ensures
        forall|i: int| j <= i < opts.len() ==> #[trigger] opts[i].name@ != name,
    decreases opts.len() - j,
{
    if j < opts.len() && opts[j].name@ != name {
        lemma_find_opt_from_none(opts, name, j + 1);
    }
}

/// The duplicate scan finds nothing exactly when sibling names are
/// pairwise distinct from position `j` on.
pub proof fn lemma_dup_from_none(opts: Seq<CommandDataOption>, j: int)
    requires
        0 <= j,
        spec_dup_from(opts, j) is None,
    ensures
        forall|a: int, b: int|
            #![trigger opts[a].name, opts[b].name]
            0 <= a < b < opts.len() && j <= b ==> opts[a].name@ != opts[b].name@,
    decreases opts.len() - j,
{
    if j < opts.len() {
        if exists|i: int| 0 <= i < j && #[trigger] opts[i].name@ == opts[j].name@ {
        } else {
            lemma_dup_from_none(opts, j + 1);
        }
    }
}

/// The unknown-name scan finds nothing exactly when every option's name
/// matches a declared field from position `j` on.
pub proof fn lemma_unknown_from_none(fields: Seq<FieldDef>, opts: Seq<CommandDataOption>, j: int)
    requires
        0 <= j,
        spec_unknown_from(fields, opts, j) is None,
    ensures
        forall|i: int|
            j <= i < opts.len() ==> spec_find_field(fields, (#[trigger] opts[i]).name@) is Some,
    decreases opts.len() - j,
{
    if j < opts.len() && spec_find_field(fields, opts[j].name@) is Some {
        lemma_unknown_from_none(fields, opts, j + 1);
    }
}

/// Converse of the unknown-name scan: when every option's name matches a
/// declared field, the scan finds nothing.
pub proof fn lemma_unknown_from_none_converse(
    fields: Seq<FieldDef>,
    opts: Seq<CommandDataOption>,
    j: int,
)
    requires
        0 <= j,
        forall|i: int|
            j <= i < opts.len() ==> spec_find_field(fields, (#[trigger] opts[i]).name@) is Some,
    ensures
        spec_unknown_from(fields, opts, j) is None,
    decreases opts.len() - j,
{
    if j < opts.len() {
        lemma_unknown_from_none_converse(fields, opts, j + 1);
    }
}

/// The field walk succeeds exactly when every single field decodes.
pub proof fn lemma_decode_fields_ok_iff(fields: Seq<FieldDef>, opts: Seq<CommandDataOption>, i: int)
    requires
        0 <= i,
    ensures
        (spec_decode_fields(fields, opts, i) is Ok) == (forall|j: int|
            i <= j < fields.len() ==> spec_decode_field(#[trigger] fields[j], opts) is Ok),
    decreases fields.len() - i,
{
    if i < fields.len() {
        lemma_decode_fields_ok_iff(fields, opts, i + 1);
    }
}

/// The shape of a successful field walk: one decoded entry per declared
/// field, in declaration order, carrying the field's name, set exactly
/// when the field was present among the options.
pub proof fn lemma_decode_fields_shape(fields: Seq<FieldDef>, opts: Seq<CommandDataOption>, i: int)
    requires
        0 <= i <= fields.len(),
        spec_decode_fields(fields, opts, i) is Ok,
    ensures
        match spec_decode_fields(fields, opts, i) {
            Ok(ds) => ds.len() == fields.len() - i && forall|j: int|
                i <= j < fields.len() ==> (#[trigger] ds[j - i]).name == fields[j].name@ && (
                ds[j - i].value is Some <==> spec_find_opt(opts, fields[j].name@) is Some),
            Err(_) => false,
        },
    decreases fields.len() - i,
{
    if i < fields.len() {
        lemma_decode_fields_shape(fields, opts, i + 1);
        match (spec_decode_fields(fields, opts, i), spec_decode_fields(fields, opts, i + 1)) {
            (Ok(ds), Ok(rest)) => {
                match spec_decode_field(fields[i], opts) {
                    Ok(val) => {
                        assert(ds == seq![
                            crate::semantics::DecodedFieldModel {
                                name: fields[i].name@,
                                value: val,
                            },
                        ] + rest);
                        assert(ds.len() == 1 + rest.len());
                    },
                    Err(_) => {
                        assert(false);
                    },
                }
                assert forall|j: int| i <= j < fields.len() implies (#[trigger] ds[j - i]).name
                    == fields[j].name@ && (ds[j - i].value is Some <==> spec_find_opt(
                    opts,
                    fields[j].name@,
                ) is Some) by {
                    if j == i {
                        match spec_decode_field(fields[i], opts) {
                            Ok(val) => {
                                assert(ds == seq![
                                    crate::semantics::DecodedFieldModel {
                                        name: fields[i].name@,
                                        value: val,
                                    },
                                ] + rest);
                                assert(ds[0] == (crate::semantics::DecodedFieldModel {
                                    name: fields[i].name@,
                                    value: val,
                                }));
                                match spec_find_opt(opts, fields[i].name@) {
                                    Some(_) => {
                                        assert(val is Some);
                                    },
                                    None => {
                                        assert(val is None);
                                    },
                                }
                            },
                            Err(_) => {
                                assert(false);
                            },
                        }
                    } else {
                        assert(ds[j - i] == rest[j - (i + 1)]);
                    }
                }
            },
            _ => {},
        }
    }
}

/// Decoding succeeds exactly on the runtime trees that satisfy the
/// definition: [`satisfies`] characterizes acceptance.
pub proof fn lemma_accepts_iff(fields: Seq<FieldDef>, opts: Seq<CommandDataOption>)
    ensures
        accepts(fields, opts) == satisfies(fields, opts),
    decreases fields,
{
    if spec_first_dup(opts) is None {
        if level_is_selection(fields) {
            if opts.len() == 1 {
                match spec_find_field(fields, opts[0].name@) {
                    Some(k) => {
                        lemma_find_field_from_some(fields, opts[0].name@, 0, k);
                        match (fields[k].kind, opts[0].value) {
                            (FieldKind::SubCommand, OptionValue::SubCommand(inner)) => {
                                assert(decreases_to!(fields => fields[k]));
                                assert(decreases_to!(fields[k] => fields[k].children@));
                                lemma_accepts_iff(fields[k].children@, inner@);
                            },
                            (FieldKind::SubCommandGroup, OptionValue::SubCommandGroup(inner)) => {
                                assert(decreases_to!(fields => fields[k]));
                                assert(decreases_to!(fields[k] => fields[k].children@));
                                lemma_accepts_iff(fields[k].children@, inner@);
                            },
                            _ => {},
                        }
                    },
                    None => {},
                }
            }
        } else {
            lemma_decode_fields_ok_iff(fields, opts, 0);
        }
    }
}

/// Round trip: a runtime tree structurally generated to satisfy the
/// definition decodes successfully, and on a plain level the decoded
/// entries mirror the declared fields exactly, an entry being set
/// precisely when the tree carried the field.
pub proof fn lemma_round_trip(fields: Seq<FieldDef>, opts: Seq<CommandDataOption>)
    requires
        satisfies(fields, opts),
    ensures
        accepts(fields, opts),
        !level_is_selection(fields) ==> match spec_decode_level(fields, opts) {
            Ok(DecodedModel::Fields(ds)) => ds.len() == fields.len() && forall|j: int|
                0 <= j < fields.len() ==> (#[trigger] ds[j]).name == fields[j].name@ && (
                ds[j].value is Some <==> spec_find_opt(opts, fields[j].name@) is Some),
            _ => false,
        },
{
    lemma_accepts_iff(fields, opts);
    if !level_is_selection(fields) {
        lemma_decode_fields_ok_iff(fields, opts, 0);
        lemma_decode_fields_shape(fields, opts, 0);
        match spec_decode_fields(fields, opts, 0) {
            Ok(ds0) => {
                assert(spec_decode_level(fields, opts) == Ok::<DecodedModel, DecodeErrorModel>(
                    DecodedModel::Fields(ds0),
                ));
                assert forall|j: int| 0 <= j < fields.len() implies (#[trigger] ds0[j]).name
                    == fields[j].name@ && (ds0[j].value is Some <==> spec_find_opt(
                    opts,
                    fields[j].name@,
                ) is Some) by {
                    assert(ds0[j - 0].name == fields[j].name@);
                    assert(ds0[j - 0].value is Some <==> spec_find_opt(
                        opts,
                        fields[j].name@,
                    ) is Some);
                }
            },
            Err(_) => {
                assert(false);
            },
        }
    }
}


/// Converse of the duplicate scan: pairwise distinct sibling names from
/// position `j` on mean the scan finds nothing.
pub proof fn lemma_dup_from_none_converse(opts: Seq<CommandDataOption>, j: int)
    requires
        0 <= j,
        forall|a: int, b: int|
            #![trigger opts[a].name, opts[b].name]
            0 <= a < b < opts.len() && j <= b ==> opts[a].name@ != opts[b].name@,
    ensures
        spec_dup_from(opts, j) is None,
    decreases opts.len() - j,
{
    if j < opts.len() {
        lemma_dup_from_none_converse(opts, j + 1);
    }
}

/// Converse of the option search: when no option carries the name, the
/// search fails.
pub proof fn lemma_find_opt_from_none_converse(
    opts: Seq<CommandDataOption>,
    name: Seq<char>,
    j: int,
)
    requires
        0 <= j,
        forall|i: int| j <= i < opts.len() ==> #[trigger] opts[i].name@ != name,
    ensures
        spec_find_opt_from(opts, name, j) is None,
    decreases opts.len() - j,
{
    if j < opts.len() {
        lemma_find_opt_from_none_converse(opts, name, j + 1);
    }
}

/// With pairwise distinct sibling names, the option search finds exactly
/// the one option carrying the name.
pub proof fn lemma_find_opt_unique(opts: Seq<CommandDataOption>, name: Seq<char>, i: int, j: int)
    requires
        forall|a: int, b: int|
            #![trigger opts[a].name, opts[b].name]
            0 <= a < b < opts.len() ==> opts[a].name@ != opts[b].name@,
        0 <= j <= i < opts.len(),
        opts[i].name@ == name,
    ensures
        spec_find_opt_from(opts, name, j) == Some(i),
    decreases i - j,
{
    if j < i {
        assert(opts[j].name@ != opts[i].name@);
        lemma_find_opt_unique(opts, name, i, j + 1);
    }
}

/// A declared name is always found: the field search succeeds whenever
/// some field carries the name.
pub proof fn lemma_find_field_exists(fields: Seq<FieldDef>, name: Seq<char>, k: int)
    requires
        0 <= k < fields.len(),
        fields[k].name@ == name,
    ensures
        spec_find_field(fields, name) is Some,
{
    if spec_find_field(fields, name) is None {
        lemma_find_field_from_none(fields, name, 0);
    }
}

/// The sibling names of a runtime option list stay pairwise distinct
/// when one option is removed, and the scan still finds nothing.
pub proof fn lemma_remove_keeps_nodup(opts: Seq<CommandDataOption>, i: int)
    requires
        spec_first_dup(opts) is None,
        0 <= i < opts.len(),
    ensures
        spec_first_dup(opts.remove(i)) is None,
{
    lemma_dup_from_none(opts, 0);
    opts.remove_ensures(i);
    let opts2 = opts.remove(i);
    assert forall|a: int, b: int|
        #![trigger opts2[a].name, opts2[b].name]
        0 <= a < b < opts2.len() && 0 <= b implies opts2[a].name@ != opts2[b].name@ by {
        let a0: int = if a < i { a } else { a + 1 };
        let b0: int = if b < i { b } else { b + 1 };
        assert(opts2[a] == opts[a0]);
        assert(opts2[b] == opts[b0]);
        assert(opts[a0].name@ != opts[b0].name@);
    }
    lemma_dup_from_none_converse(opts2, 0);
}

/// Removing one option does not change what the search finds for any
/// other name, as long as sibling names are pairwise distinct: the same
/// option (or none) is found on both sides.
pub proof fn lemma_find_opt_after_remove(opts: Seq<CommandDataOption>, i: int, name: Seq<char>)
    requires
        spec_first_dup(opts) is None,
        0 <= i < opts.len(),
        opts[i].name@ != name,
    ensures
        match (spec_find_opt(opts, name), spec_find_opt(opts.remove(i), name)) {
            (Some(j), Some(j2)) => opts[j] == opts.remove(i)[j2],
            (None, None) => true,
            _ => false,
        },
{
    lemma_dup_from_none(opts, 0);
    opts.remove_ensures(i);
    let opts2 = opts.remove(i);
    match spec_find_opt(opts, name) {
        Some(j) => {
            lemma_find_opt_from_some(opts, name, 0, j);
            let j2: int = if j < i {
                j
            } else {
                j - 1
            };
            assert(opts2[j2] == opts[j]);
            assert forall|a: int, b: int|
                #![trigger opts2[a].name, opts2[b].name]
                0 <= a < b < opts2.len() implies opts2[a].name@ != opts2[b].name@ by {
                let a0: int = if a < i { a } else { a + 1 };
                let b0: int = if b < i { b } else { b + 1 };
                assert(opts2[a] == opts[a0]);
                assert(opts2[b] == opts[b0]);
                assert(opts[a0].name@ != opts[b0].name@);
            }
            lemma_find_opt_unique(opts2, name, j2, 0);
        },
        None => {
            lemma_find_opt_from_none(opts, name, 0);
            assert forall|t: int| 0 <= t < opts2.len() implies #[trigger] opts2[t].name@
                != name by {
                let t0: int = if t < i { t } else { t + 1 };
                assert(opts2[t] == opts[t0]);
            }
            lemma_find_opt_from_none_converse(opts2, name, 0);
        },
    }
}

/// Absence of an optional field: removing a well-typed optional field
/// from the runtime tree never changes whether decoding succeeds.
/// `opts[i]` is the entry of the optional field `fields[k]`.
pub proof fn lemma_optional_absence(
    fields: Seq<FieldDef>,
    opts: Seq<CommandDataOption>,
    i: int,
    k: int,
)
    requires
        fields_wf(fields),
        spec_first_dup(opts) is None,
        0 <= i < opts.len(),
        0 <= k < fields.len(),
        fields[k].name@ == opts[i].name@,
        fields[k].optional,
        spec_decode_scalar(fields[k], opts[i].value) is Ok,
    ensures
        accepts(fields, opts.remove(i)) == accepts(fields, opts),
{
    let opts2 = opts.remove(i);
    let name_k = fields[k].name@;
    lemma_remove_keeps_nodup(opts, i);
    opts.remove_ensures(i);
    lemma_dup_from_none(opts, 0);
    assert(!is_subcommand_kind(fields[k].kind)) by {
        if level_is_selection(fields) {
            assert(is_subcommand_kind(fields[k].kind));
            assert(crate::def::field_wf(fields[k]));
        }
    }
    assert(!level_is_selection(fields));
    lemma_accepts_iff(fields, opts);
    lemma_accepts_iff(fields, opts2);
    // The unknown-name scans agree on both sides.
    lemma_find_field_exists(fields, name_k, k);
    if spec_first_unknown(fields, opts) is None {
        lemma_unknown_from_none(fields, opts, 0);
        assert forall|t: int|
            0 <= t < opts2.len() implies spec_find_field(
            fields,
            (#[trigger] opts2[t]).name@,
        ) is Some by {
            let t0: int = if t < i { t } else { t + 1 };
            assert(opts2[t] == opts[t0]);
        }
        lemma_unknown_from_none_converse(fields, opts2, 0);
    }
    if spec_first_unknown(fields, opts2) is None {
        lemma_unknown_from_none(fields, opts2, 0);
        assert forall|t: int|
            0 <= t < opts.len() implies spec_find_field(
            fields,
            (#[trigger] opts[t]).name@,
        ) is Some by {
            if t == i {
            } else {
                let t2: int = if t < i { t } else { t - 1 };
                assert(opts2[t2] == opts[t]);
            }
        }
        lemma_unknown_from_none_converse(fields, opts, 0);
    }
    // Every field decodes the same on both sides: field `k` is present
    // and well-typed on one side and absent but optional on the other;
    // any other field finds the same entry on both sides.
    assert forall|t: int| 0 <= t < fields.len() implies (spec_decode_field(
        #[trigger] fields[t],
        opts,
    ) is Ok == spec_decode_field(fields[t], opts2) is Ok) by {
        if t == k {
            lemma_find_opt_unique(opts, name_k, i, 0);
            lemma_find_opt_after_k_removed(opts, i, name_k);
        } else {
            assert(fields[t].name@ != name_k);
            assert(opts[i].name@ != fields[t].name@);
            lemma_find_opt_after_remove(opts, i, fields[t].name@);
        }
    }
}

/// After removing the only entry named `name`, the search for `name`
/// fails.
proof fn lemma_find_opt_after_k_removed(opts: Seq<CommandDataOption>, i: int, name: Seq<char>)
    requires
        spec_first_dup(opts) is None,
        0 <= i < opts.len(),
        opts[i].name@ == name,
    ensures
        spec_find_opt(opts.remove(i), name) is None,
{
    lemma_dup_from_none(opts, 0);
    opts.remove_ensures(i);
    let opts2 = opts.remove(i);
    assert forall|t: int| 0 <= t < opts2.len() implies #[trigger] opts2[t].name@ != name by {
        let t0: int = if t < i { t } else { t + 1 };
        assert(opts2[t] == opts[t0]);
        assert(t0 != i);
    }
    lemma_find_opt_from_none_converse(opts2, name, 0);
}

/// The field walk fails with exactly the first failing field's error.
pub proof fn lemma_decode_fields_first_err(
    fields: Seq<FieldDef>,
    opts: Seq<CommandDataOption>,
    i: int,
    k: int,
)
    requires
        0 <= i <= k < fields.len(),
        forall|t: int| i <= t < k ==> spec_decode_field(#[trigger] fields[t], opts) is Ok,
        spec_decode_field(fields[k], opts) is Err,
    ensures
        spec_decode_fields(fields, opts, i) == Result::<
            Seq<crate::semantics::DecodedFieldModel>,
            DecodeErrorModel,
        >::Err(spec_decode_field(fields[k], opts)->Err_0),
    decreases k - i,
{
    if i < k {
        lemma_decode_fields_first_err(fields, opts, i + 1, k);
    }
}

/// Absence of a required field: removing a required field from an
/// accepted runtime tree always makes decoding fail, and on a plain
/// level the failure names exactly the missing field.
pub proof fn lemma_required_absence(
    fields: Seq<FieldDef>,
    opts: Seq<CommandDataOption>,
    i: int,
    k: int,
)
    requires
        fields_wf(fields),
        accepts(fields, opts),
        0 <= i < opts.len(),
        0 <= k < fields.len(),
        fields[k].name@ == opts[i].name@,
        !fields[k].optional,
    ensures
        !accepts(fields, opts.remove(i)),
        !level_is_selection(fields) ==> spec_decode_level(fields, opts.remove(i)) == Result::<
            DecodedModel,
            DecodeErrorModel,
        >::Err(
            DecodeErrorModel {
                path: seq![fields[k].name@],
                kind: DecodeErrorKind::MissingRequired,
            },
        ),
{
    let opts2 = opts.remove(i);
    let name_k = fields[k].name@;
    lemma_accepts_iff(fields, opts);
    assert(spec_first_dup(opts) is None);
    lemma_remove_keeps_nodup(opts, i);
    opts.remove_ensures(i);
    lemma_dup_from_none(opts, 0);
    if level_is_selection(fields) {
        assert(opts.len() == 1);
        assert(opts2.len() == 0);
        lemma_accepts_iff(fields, opts2);
    } else {
        // No unknown names after the removal.
        lemma_unknown_from_none(fields, opts, 0);
        assert forall|t: int|
            0 <= t < opts2.len() implies spec_find_field(
            fields,
            (#[trigger] opts2[t]).name@,
        ) is Some by {
            let t0: int = if t < i { t } else { t + 1 };
            assert(opts2[t] == opts[t0]);
        }
        lemma_unknown_from_none_converse(fields, opts2, 0);
        // Fields before `k` still decode; field `k` is now missing.
        assert forall|t: int| 0 <= t < k implies spec_decode_field(
            #[trigger] fields[t],
            opts2,
        ) is Ok by {
            assert(spec_decode_field(fields[t], opts) is Ok);
            assert(fields[t].name@ != name_k);
            assert(opts[i].name@ != fields[t].name@);
            lemma_find_opt_after_remove(opts, i, fields[t].name@);
        }
        lemma_find_opt_after_k_removed(opts, i, name_k);
        assert(spec_decode_field(fields[k], opts2) == Result::<
            Option<crate::semantics::DecodedValueModel>,
            DecodeErrorModel,
        >::Err(
            DecodeErrorModel {
                path: seq![name_k],
                kind: DecodeErrorKind::MissingRequired,
            },
        ));
        lemma_decode_fields_first_err(fields, opts2, 0, k);
    }
}

/// Subcommand selection: at a selection level, no options or more than
/// one option is always rejected (naming no selection or an ambiguous
/// one), and an accepted list carries exactly one option, which decodes
/// to exactly the variant it names.
pub proof fn lemma_subcommand_selection(fields: Seq<FieldDef>, opts: Seq<CommandDataOption>)
    requires
        level_is_selection(fields),
    ensures
        opts.len() != 1 ==> !accepts(fields, opts),
        opts.len() == 0 ==> spec_decode_level(fields, opts) == Result::<
            DecodedModel,
            DecodeErrorModel,
        >::Err(DecodeErrorModel { path: Seq::empty(), kind: DecodeErrorKind::NoSelection }),
        opts.len() > 1 && spec_first_dup(opts) is None ==> spec_decode_level(fields, opts)
            == Result::<DecodedModel, DecodeErrorModel>::Err(
            DecodeErrorModel { path: Seq::empty(), kind: DecodeErrorKind::MultipleSelection },
        ),
        accepts(fields, opts) ==> opts.len() == 1 && match spec_decode_level(fields, opts) {
            Ok(DecodedModel::Variant(n, k, _)) => n == opts[0].name@ && 0 <= k < fields.len()
                && fields[k].name@ == n && spec_find_field(fields, n) == Some(k)
                && is_subcommand_kind(fields[k].kind),
            _ => false,
        },
{
    if opts.len() == 0 {
        assert(spec_first_dup(opts) is None);
    }
    if accepts(fields, opts) {
        assert(spec_first_dup(opts) is None);
        assert(opts.len() == 1);
        match spec_find_field(fields, opts[0].name@) {
            Some(k) => {
                lemma_find_field_from_some(fields, opts[0].name@, 0, k);
            },
            None => {},
        }
    }
}


/// The nested options of a schema node, empty when it carries none.
pub open spec fn schema_child_options(o: CommandOptionExt) -> Seq<CommandOptionExt> {
    match o.inner.options {
        Some(os) => os@,
        None => Seq::empty(),
    }
}

/// Whether a registered level selects among subcommand-kind nodes.
pub open spec fn schema_is_selection(os: Seq<CommandOptionExt>) -> bool {
    exists|i: int|
        0 <= i < os.len() && ((#[trigger] os[i].inner.kind) == CommandOptionType::SubCommand
            || os[i].inner.kind == CommandOptionType::SubCommandGroup)
}

/// The first registered node named `name`, scanning from position `j`.
pub open spec fn schema_find_from(os: Seq<CommandOptionExt>, name: Seq<char>, j: int) -> Option<int>
    decreases os.len() - j,
{
    if j < 0 || j >= os.len() {
        None
    } else if os[j].inner.name@ == name {
        Some(j)
    } else {
        schema_find_from(os, name, j + 1)
    }
}

/// The first registered node named `name`, if any.
pub open spec fn schema_find(os: Seq<CommandOptionExt>, name: Seq<char>) -> Option<int> {
    schema_find_from(os, name, 0)
}

/// Whether a runtime value lies within a registered node's choice set;
/// a node without choices restricts nothing.
pub open spec fn schema_choice_ok(o: CommandOptionExt, v: OptionValue) -> bool {
    match o.inner.choices {
        Some(cs) => exists|i: int|
            0 <= i < cs@.len() && choice_matches_value((#[trigger] cs@[i]).value, v),
        None => true,
    }
}

/// Whether a runtime value fits a registered node: the registered kind,
/// and within the registered choice set.
pub open spec fn schema_value_ok(o: CommandOptionExt, v: OptionValue) -> bool {
    spec_value_tag(v) == o.inner.kind && schema_choice_ok(o, v)
}

/// Whether one registered node is satisfied by the option list: present
/// with a fitting value, or absent and not registered as required.
pub open spec fn schema_field_ok(o: CommandOptionExt, opts: Seq<CommandDataOption>) -> bool {
    match spec_find_opt(opts, o.inner.name@) {
        Some(j) => schema_value_ok(o, opts[j].value),
        None => o.inner.required != Some(true),
    }
}

/// Whether a runtime option list matches the exact shape a registered
/// option level declares: no duplicate sibling names; at a selection
/// level exactly one option naming a registered child with the matching
/// nested kind, recursively; elsewhere no unregistered names, every
/// required node present, every present value of the registered kind and
/// within the registered choice set.
pub open spec fn schema_accepts(os: Seq<CommandOptionExt>, opts: Seq<CommandDataOption>) -> bool
    decreases os,
    via schema_accepts_decreases
{
    spec_first_dup(opts) is None && if schema_is_selection(os) {
        opts.len() == 1 && match schema_find(os, opts[0].name@) {
            Some(k) => match (os[k].inner.kind, opts[0].value, os[k].inner.options) {
                (
                    CommandOptionType::SubCommand,
                    OptionValue::SubCommand(inner),
                    Some(children),
                ) => schema_accepts(children@, inner@),
                (
                    CommandOptionType::SubCommandGroup,
                    OptionValue::SubCommandGroup(inner),
                    Some(children),
                ) => schema_accepts(children@, inner@),
                _ => false,
            },
            None => false,
        }
    } else {
        (forall|j: int|
            0 <= j < opts.len() ==> schema_find(os, (#[trigger] opts[j]).name@) is Some)
            && forall|k: int| 0 <= k < os.len() ==> schema_field_ok(#[trigger] os[k], opts)
    }
}

#[via_fn]
proof fn schema_accepts_decreases(os: Seq<CommandOptionExt>, opts: Seq<CommandDataOption>) {
    if spec_first_dup(opts) is None && schema_is_selection(os) && opts.len() == 1 {
        match schema_find(os, opts[0].name@) {
            Some(k) => {
                lemma_schema_find_from_some(os, opts[0].name@, 0, k);
                assert(decreases_to!(os => os[k]));
                match os[k].inner.options {
                    Some(v) => {
                        assert(decreases_to!(os[k] => os[k].inner));
                        assert(decreases_to!(os[k].inner => os[k].inner.options));
                        assert(decreases_to!(os[k].inner.options => v));
                        assert(decreases_to!(v => v@));
                    },
                    None => {},
                }
            },
            None => {},
        }
    }
}

/// A successful schema search yields an in-range index of the first node
/// with that name.
pub proof fn lemma_schema_find_from_some(
    os: Seq<CommandOptionExt>,
    name: Seq<char>,
    j: int,
    k: int,
)
    requires
        0 <= j,
        schema_find_from(os, name, j) == Some(k),
    ensures
        j <= k < os.len(),
        os[k].inner.name@ == name,
    decreases os.len() - j,
{
    if j < os.len() && os[j].inner.name@ != name {
        lemma_schema_find_from_some(os, name, j + 1, k);
    }
}

/// The schema search agrees with the field search when the registered
/// nodes carry the fields' names pointwise.
proof fn lemma_schema_find_eq(
    fields: Seq<FieldDef>,
    os: Seq<CommandOptionExt>,
    name: Seq<char>,
    j: int,
)
    requires
        options_match_fields(fields, os),
        0 <= j,
    ensures
        schema_find_from(os, name, j) == spec_find_field_from(fields, name, j),
    decreases os.len() - j,
{
    if j < os.len() {
        assert(option_matches_field(fields[j], os[j]));
        lemma_schema_find_eq(fields, os, name, j + 1);
    }
}

/// Subcommand-kind fields are exactly the fields registered with a
/// subcommand-kind node.
proof fn lemma_kind_option_type_sub(k: FieldKind)
    ensures
        (kind_option_type(k) == CommandOptionType::SubCommand <==> k == FieldKind::SubCommand),
        (kind_option_type(k) == CommandOptionType::SubCommandGroup <==> k
            == FieldKind::SubCommandGroup),
{
}

/// Content-equal choice values match the same runtime values.
proof fn lemma_choice_match_congruence(a: ChoiceValue, b: ChoiceValue, v: OptionValue)
    requires
        choice_values_eq(a, b),
    ensures
        choice_matches_value(a, v) == choice_matches_value(b, v),
{
}

/// The choice search succeeds exactly when some declared choice matches.
pub proof fn lemma_find_choice_iff(choices: Seq<CommandOptionChoice>, v: OptionValue, j: int)
    requires
        0 <= j,
    ensures
        (spec_find_choice_from(choices, v, j) is Some) == (exists|i: int|
            j <= i < choices.len() && choice_matches_value((#[trigger] choices[i]).value, v)),
    decreases choices.len() - j,
{
    if j < choices.len() {
        lemma_find_choice_iff(choices, v, j + 1);
    }
}

/// A present value fits a registered leaf node exactly when the decoder
/// coerces it for the field the node was built from.
proof fn lemma_schema_value_ok(f: FieldDef, o: CommandOptionExt, v: OptionValue)
    requires
        option_matches_field(f, o),
        !is_subcommand_kind(f.kind),
    ensures
        schema_value_ok(o, v) == (spec_decode_scalar(f, v) is Ok),
{
    match f.kind {
        FieldKind::ChoiceEnum(_) => {
            if spec_value_tag(v) == o.inner.kind {
                match o.inner.choices {
                    Some(ds) => {
                        lemma_find_choice_iff(f.choices@, v, 0);
                        if exists|i: int|
                            0 <= i < ds@.len() && choice_matches_value(
                                (#[trigger] ds@[i]).value,
                                v,
                            ) {
                            let i = choose|i: int|
                                0 <= i < ds@.len() && choice_matches_value(
                                    (#[trigger] ds@[i]).value,
                                    v,
                                );
                            lemma_choice_match_congruence(ds@[i].value, f.choices@[i].value, v);
                            assert(choice_matches_value(f.choices@[i].value, v));
                        }
                        if exists|i: int|
                            0 <= i < f.choices@.len() && choice_matches_value(
                                (#[trigger] f.choices@[i]).value,
                                v,
                            ) {
                            let i = choose|i: int|
                                0 <= i < f.choices@.len() && choice_matches_value(
                                    (#[trigger] f.choices@[i]).value,
                                    v,
                                );
                            lemma_choice_match_congruence(ds@[i].value, f.choices@[i].value, v);
                            assert(choice_matches_value(ds@[i].value, v));
                        }
                    },
                    None => {},
                }
            }
        },
        _ => {},
    }
}

/// Schema/decoder consistency, one level at a time: a runtime option
/// list is accepted by the decoder exactly when it matches the shape of
/// the option level the schema builder registered for the same fields.
pub proof fn lemma_schema_consistency(
    fields: Seq<FieldDef>,
    os: Seq<CommandOptionExt>,
    opts: Seq<CommandDataOption>,
)
    requires
        options_match_fields(fields, os),
    ensures
        schema_accepts(os, opts) == accepts(fields, opts),
    decreases fields,
{
    lemma_accepts_iff(fields, opts);
    assert(schema_is_selection(os) == level_is_selection(fields)) by {
        if level_is_selection(fields) {
            let i = choose|i: int|
                0 <= i < fields.len() && is_subcommand_kind(#[trigger] fields[i].kind);
            assert(option_matches_field(fields[i], os[i]));
            lemma_kind_option_type_sub(fields[i].kind);
            assert(os[i].inner.kind == CommandOptionType::SubCommand || os[i].inner.kind
                == CommandOptionType::SubCommandGroup);
        }
        if schema_is_selection(os) {
            let i = choose|i: int|
                0 <= i < os.len() && ((#[trigger] os[i].inner.kind)
                    == CommandOptionType::SubCommand || os[i].inner.kind
                    == CommandOptionType::SubCommandGroup);
            assert(option_matches_field(fields[i], os[i]));
            lemma_kind_option_type_sub(fields[i].kind);
            assert(is_subcommand_kind(fields[i].kind));
        }
    }
    if spec_first_dup(opts) is None {
        if level_is_selection(fields) {
            if opts.len() == 1 {
                lemma_schema_find_eq(fields, os, opts[0].name@, 0);
                match spec_find_field(fields, opts[0].name@) {
                    Some(k) => {
                        lemma_find_field_from_some(fields, opts[0].name@, 0, k);
                        assert(option_matches_field(fields[k], os[k]));
                        lemma_kind_option_type_sub(fields[k].kind);
                        match (fields[k].kind, opts[0].value) {
                            (FieldKind::SubCommand, OptionValue::SubCommand(inner)) => {
                                match os[k].inner.options {
                                    Some(children) => {
                                        assert(schema_child_options(os[k]) == children@);
                                        assert(options_match_fields(
                                            fields[k].children@,
                                            children@,
                                        ));
                                        assert(decreases_to!(fields => fields[k]));
                                        assert(decreases_to!(fields[k] => fields[k].children@));
                                        lemma_schema_consistency(
                                            fields[k].children@,
                                            children@,
                                            inner@,
                                        );
                                        lemma_accepts_iff(fields[k].children@, inner@);
                                    },
                                    None => {
                                        assert(false);
                                    },
                                }
                            },
                            (FieldKind::SubCommandGroup, OptionValue::SubCommandGroup(inner)) => {
                                match os[k].inner.options {
                                    Some(children) => {
                                        assert(schema_child_options(os[k]) == children@);
                                        assert(options_match_fields(
                                            fields[k].children@,
                                            children@,
                                        ));
                                        assert(decreases_to!(fields => fields[k]));
                                        assert(decreases_to!(fields[k] => fields[k].children@));
                                        lemma_schema_consistency(
                                            fields[k].children@,
                                            children@,
                                            inner@,
                                        );
                                        lemma_accepts_iff(fields[k].children@, inner@);
                                    },
                                    None => {
                                        assert(false);
                                    },
                                }
                            },
                            _ => {},
                        }
                    },
                    None => {},
                }
            }
        } else {
            // Unknown names: the two searches agree on every option name.
            assert forall|j: int| 0 <= j < opts.len() implies (schema_find(
                os,
                (#[trigger] opts[j]).name@,
            ) is Some == spec_find_field(fields, opts[j].name@) is Some) by {
                lemma_schema_find_eq(fields, os, opts[j].name@, 0);
            }
            if spec_first_unknown(fields, opts) is None {
                lemma_unknown_from_none(fields, opts, 0);
            }
            if forall|j: int|
                0 <= j < opts.len() ==> spec_find_field(fields, (#[trigger] opts[j]).name@) is Some {
                lemma_unknown_from_none_converse(fields, opts, 0);
            }
            // Per-field satisfaction agrees.
            assert forall|k: int|
                #![trigger os[k]]
                #![trigger fields[k]]
                0 <= k < fields.len() implies (schema_field_ok(os[k], opts)
                == spec_decode_field(fields[k], opts) is Ok) by {
                assert(option_matches_field(fields[k], os[k]));
                assert(!is_subcommand_kind(fields[k].kind));
                match spec_find_opt(opts, fields[k].name@) {
                    Some(j) => {
                        lemma_find_opt_from_some(opts, fields[k].name@, 0, j);
                        lemma_schema_value_ok(fields[k], os[k], opts[j].value);
                    },
                    None => {},
                }
            }
        }
    }
}

/// Schema/decoder consistency for a built command: a runtime tree is
/// accepted by the decoder exactly when it matches the shape of the
/// schema that [`crate::builder::build_command`] registered for the same
/// definition.
pub proof fn lemma_build_decode_consistency(
    def: crate::def::CommandDef,
    data: crate::schema::ApplicationCommandData,
    opts: Seq<CommandDataOption>,
)
    requires
        crate::builder::data_matches_def(def, data),
    ensures
        schema_accepts(data.options@, opts) == accepts(def.fields@, opts),
{
    lemma_schema_consistency(def.fields@, data.options@, opts);
}

} // verus!
