//! Choice support: mapping an enumerated type's variants to platform
//! choice entries and back.
//!
//! A choice-restricted option carries a fixed list of entries, each a
//! display name plus a literal value. Declaration order is the display
//! order in the platform UI and is preserved exactly.

use vstd::prelude::*;

verus! {

/// The scalar base kind of a choice-restricted option.
#[derive(Clone, Copy, Debug, PartialEq, Eq, Structural)]
pub enum ChoiceKind {
    String,
    Integer,
    Number,
}

/// The literal value of one choice entry. Floating-point values are
/// carried as their IEEE-754 bit patterns.
#[derive(Debug, PartialEq, Eq)]
pub enum ChoiceValue {
    String(String),
    Int(i64),
    Number(u64),
}

/// One platform choice entry: a display name, its localizations and the
/// literal value the platform sends back when the user picks it.
#[derive(Debug, PartialEq, Eq)]
pub struct CommandOptionChoice {
    pub name: String,
    pub name_localizations: Option<Vec<(String, String)>>,
    pub value: ChoiceValue,
}

/// One declared variant of an enumerated option type.
pub struct ChoiceVariant {
    /// The declared identifier of the variant.
    pub ident: String,
    /// The display name of the choice.
    pub name: String,
    /// Localizations of the display name.
    pub name_localizations: Option<Vec<(String, String)>>,
    /// The literal value of the choice.
    pub value: ChoiceValue,
}

/// Equality of two choice values: same literal kind and same content.
pub open spec fn choice_values_eq(a: ChoiceValue, b: ChoiceValue) -> bool {
    match (a, b) {
        (ChoiceValue::String(x), ChoiceValue::String(y)) => x@ == y@,
        (ChoiceValue::Int(x), ChoiceValue::Int(y)) => x == y,
        (ChoiceValue::Number(x), ChoiceValue::Number(y)) => x == y,
        _ => false,
    }
}

/// The literal kind of a choice value.
pub open spec fn spec_choice_kind_of(v: ChoiceValue) -> ChoiceKind {
    match v {
        ChoiceValue::String(_) => ChoiceKind::String,
        ChoiceValue::Int(_) => ChoiceKind::Integer,
        ChoiceValue::Number(_) => ChoiceKind::Number,
    }
}

/// The literal kind of a choice value.
pub fn choice_kind_of(v: &ChoiceValue) -> (k: ChoiceKind)
    ensures
        k == spec_choice_kind_of(*v),
{
    match v {
        ChoiceValue::String(_) => ChoiceKind::String,
        ChoiceValue::Int(_) => ChoiceKind::Integer,
        ChoiceValue::Number(_) => ChoiceKind::Number,
    }
}

impl ChoiceValue {
    /// An exact copy of the value.
    pub fn duplicate(&self) -> (r: ChoiceValue)
        ensures
            r == *self,
    {
        match self {
            ChoiceValue::String(s) => ChoiceValue::String(s.clone()),
            ChoiceValue::Int(i) => ChoiceValue::Int(*i),
            ChoiceValue::Number(n) => ChoiceValue::Number(*n),
        }
    }
}

/// Equality of two optional locale tables, compared entry by entry.
pub open spec fn opt_pairs_eqv(
    a: Option<Vec<(String, String)>>,
    b: Option<Vec<(String, String)>>,
) -> bool {
    match (a, b) {
        (Some(x), Some(y)) => x@ == y@,
        (None, None) => true,
        _ => false,
    }
}

/// Equality of two choice entries, compared content by content.
pub open spec fn choice_eqv(a: CommandOptionChoice, b: CommandOptionChoice) -> bool {
    a.name@ == b.name@ && opt_pairs_eqv(a.name_localizations, b.name_localizations)
        && choice_values_eq(a.value, b.value)
}

impl CommandOptionChoice {
    /// A content-equal copy of the entry.
    pub fn duplicate(&self) -> (r: CommandOptionChoice)
        ensures
            choice_eqv(r, *self),
    {
        CommandOptionChoice {
            name: self.name.clone(),
            name_localizations: crate::localization::clone_opt_pairs(&self.name_localizations),
            value: self.value.duplicate(),
        }
    }
}

/// The choice entry a variant declares.
pub open spec fn spec_variant_choice(v: ChoiceVariant) -> CommandOptionChoice {
    CommandOptionChoice {
        name: v.name,
        name_localizations: v.name_localizations,
        value: v.value,
    }
}

/// Map declared variants to platform choice entries, preserving
/// declaration order exactly.
pub fn to_choice_list(variants: &Vec<ChoiceVariant>) -> (r: Vec<CommandOptionChoice>)
    ensures
        r@.len() == variants@.len(),
        forall|i: int|
            0 <= i < variants@.len() ==> choice_eqv(r@[i], spec_variant_choice(#[trigger] variants@[i])),
{
    let mut r: Vec<CommandOptionChoice> = Vec::new();
    let mut i: usize = 0;
    while i < variants.len()
        invariant
            0 <= i <= variants@.len(),
            r@.len() == i,
            forall|j: int|
                0 <= j < i ==> choice_eqv(r@[j], spec_variant_choice(#[trigger] variants@[j])),
        decreases variants@.len() - i,
    {
        let v = &variants[i];
        r.push(CommandOptionChoice {
            name: v.name.clone(),
            name_localizations: crate::localization::clone_opt_pairs(&v.name_localizations),
            value: v.value.duplicate(),
        });
        i = i + 1;
    }
    r
}

/// The first variant index whose literal value equals `value`, starting
/// the search at `i`.
pub open spec fn spec_from_literal_from(value: ChoiceValue, variants: Seq<ChoiceVariant>, i: int) -> Option<
    int,
>
    decreases variants.len() - i,
{
    if i < 0 || i >= variants.len() {
        None
    } else if choice_values_eq(variants[i].value, value) {
        Some(i)
    } else {
        spec_from_literal_from(value, variants, i + 1)
    }
}

/// The first variant index whose literal value equals `value`.
pub open spec fn spec_from_literal(value: ChoiceValue, variants: Seq<ChoiceVariant>) -> Option<int> {
    spec_from_literal_from(value, variants, 0)
}

/// Exact inverse of [`to_choice_list`] on the value side: find the variant
/// a literal value selects. Used by the decoder for choice-restricted
/// options; an unknown value yields `None`, never a default.
pub fn from_literal(value: &ChoiceValue, variants: &Vec<ChoiceVariant>) -> (r: Option<usize>)
    ensures
        match r {
            Some(k) => spec_from_literal(*value, variants@) == Some(k as int),
            None => spec_from_literal(*value, variants@) is None,
        },
{
    let mut i: usize = 0;
    while i < variants.len()
        invariant
            0 <= i <= variants@.len(),
            spec_from_literal(*value, variants@) == spec_from_literal_from(*value, variants@, i as int),
        decreases variants@.len() - i,
    {
        let matches_here: bool = match (&variants[i].value, value) {
            (ChoiceValue::String(x), ChoiceValue::String(y)) => crate::text::str_eq(
                x.as_str(),
                y.as_str(),
            ),
            (ChoiceValue::Int(x), ChoiceValue::Int(y)) => *x == *y,
            (ChoiceValue::Number(x), ChoiceValue::Number(y)) => *x == *y,
            _ => false,
        };
        if matches_here {
            return Some(i);
        }
        i = i + 1;
    }
    None
}

/// Equality of choice values is symmetric.
pub proof fn lemma_choice_values_eq_sym(a: ChoiceValue, b: ChoiceValue)
    ensures
        choice_values_eq(a, b) == choice_values_eq(b, a),
{
}

/// Equality of choice values is transitive.
pub proof fn lemma_choice_values_eq_trans(a: ChoiceValue, b: ChoiceValue, c: ChoiceValue)
    requires
        choice_values_eq(a, b),
        choice_values_eq(b, c),
    ensures
        choice_values_eq(a, c),
{
}

/// Choice integrity: mapping the variants to choice entries with
/// [`to_choice_list`] and looking entry `i`'s literal value back up with
/// [`from_literal`] selects variant `i` again, for every `i`, as long as
/// the declared literal values are pairwise distinct. `v` stands for the
/// entry's value, which is content-equal to the variant's own.
pub proof fn lemma_choice_round_trip(variants: Seq<ChoiceVariant>, i: int, v: ChoiceValue)
    requires
        0 <= i < variants.len(),
        choice_values_eq(v, variants[i].value),
        forall|a: int, b: int|
            #![trigger variants[a].value, variants[b].value]
            0 <= a < b < variants.len() ==> !choice_values_eq(variants[a].value, variants[b].value),
    ensures
        spec_from_literal(v, variants) == Some(i),
{
    lemma_from_literal_hits(variants, i, 0, v);
}

/// Helper: searching from position `j <= i` for the value of variant `i`
/// finds `i` when the declared values are pairwise distinct.
proof fn lemma_from_literal_hits(variants: Seq<ChoiceVariant>, i: int, j: int, v: ChoiceValue)
    requires
        0 <= j <= i < variants.len(),
        choice_values_eq(v, variants[i].value),
        forall|a: int, b: int|
            #![trigger variants[a].value, variants[b].value]
            0 <= a < b < variants.len() ==> !choice_values_eq(variants[a].value, variants[b].value),
    ensures
        spec_from_literal_from(v, variants, j) == Some(i),
    decreases i - j,
{
    lemma_choice_values_eq_sym(v, variants[i].value);
    lemma_choice_values_eq_sym(variants[j].value, v);
    if j < i {
        assert(!choice_values_eq(variants[j].value, variants[i].value));
        if choice_values_eq(variants[j].value, v) {
            lemma_choice_values_eq_trans(variants[j].value, v, variants[i].value);
            assert(false);
        }
        lemma_from_literal_hits(variants, i, j + 1, v);
    }
}

/// Equality of two choice values, decided at run time.
pub fn choice_values_equal(a: &ChoiceValue, b: &ChoiceValue) -> (r: bool)
    ensures
        r == choice_values_eq(*a, *b),
{
    match (a, b) {
        (ChoiceValue::String(x), ChoiceValue::String(y)) => crate::text::str_eq(
            x.as_str(),
            y.as_str(),
        ),
        (ChoiceValue::Int(x), ChoiceValue::Int(y)) => *x == *y,
        (ChoiceValue::Number(x), ChoiceValue::Number(y)) => *x == *y,
        _ => false,
    }
}

} // verus!
