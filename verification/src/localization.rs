//! Localized strings: a fallback value together with an optional
//! locale-to-string table.
//!
//! The table is an already-produced mapping supplied by the caller; this
//! crate only carries it through to the built schema. It is kept as an
//! ordered list of `(locale, text)` pairs.

use vstd::prelude::*;

verus! {

/// Internal representation of a localized string: the fallback text plus
/// an optional locale-to-string table.
#[derive(Debug, PartialEq, Eq)]
pub struct LocalizationsInternal {
    pub fallback: String,
    pub localizations: Option<Vec<(String, String)>>,
}

/// A localized description: fallback text and a locale-to-string table.
#[derive(Debug, PartialEq, Eq)]
pub struct DescLocalizations {
    pub fallback: String,
    pub localizations: Vec<(String, String)>,
}

/// A localized name: a locale-to-string table, merged with a separately
/// supplied fallback.
#[derive(Debug, PartialEq, Eq)]
pub struct NameLocalizations {
    pub localizations: Vec<(String, String)>,
}

/// An exact copy of a locale-to-string table.
pub fn clone_pairs(v: &Vec<(String, String)>) -> (r: Vec<(String, String)>)
    ensures
        r@ == v@,
{
    let mut r: Vec<(String, String)> = Vec::new();
    let mut i: usize = 0;
    while i < v.len()
        invariant
            0 <= i <= v@.len(),
            r@ =~= v@.subrange(0, i as int),
        decreases v@.len() - i,
    {
        let (a, b) = (&v[i].0, &v[i].1);
        r.push((a.clone(), b.clone()));
        assert(r@[i as int] == v@[i as int]);
        i = i + 1;
    }
    assert(r@ =~= v@);
    r
}

/// An exact copy of an optional locale-to-string table.
pub fn clone_opt_pairs(v: &Option<Vec<(String, String)>>) -> (r: Option<Vec<(String, String)>>)
    ensures
        match (r, v) {
            (Some(a), Some(b)) => a@ == b@,
            (None, None) => true,
            _ => false,
        },
{
    match v {
        Some(p) => Some(clone_pairs(p)),
        None => None,
    }
}

/// Convert a type into a [`LocalizationsInternal`].
pub trait IntoLocalizationsInternal {
    /// The fallback string of the conversion's result.
    spec fn spec_fallback(&self) -> Seq<char>;

    /// The locale table of the conversion's result, if any.
    spec fn spec_localizations(&self) -> Option<Seq<(String, String)>>;

    /// Produce the internal representation.
    fn into_localizations(self) -> (r: LocalizationsInternal)
        ensures
            r.fallback@ == self.spec_fallback(),
            match (r.localizations, self.spec_localizations()) {
                (Some(v), Some(s)) => v@ == s,
                (None, None) => true,
                _ => false,
            },
    ;
}

impl IntoLocalizationsInternal for DescLocalizations {
    open spec fn spec_fallback(&self) -> Seq<char> {
        self.fallback@
    }

    open spec fn spec_localizations(&self) -> Option<Seq<(String, String)>> {
        Some(self.localizations@)
    }

    fn into_localizations(self) -> (r: LocalizationsInternal) {
        LocalizationsInternal { fallback: self.fallback, localizations: Some(self.localizations) }
    }
}

impl IntoLocalizationsInternal for (String, Option<NameLocalizations>) {
    open spec fn spec_fallback(&self) -> Seq<char> {
        self.0@
    }

    open spec fn spec_localizations(&self) -> Option<Seq<(String, String)>> {
        match self.1 {
            Some(l) => Some(l.localizations@),
            None => None,
        }
    }

    fn into_localizations(self) -> (r: LocalizationsInternal) {
        let (fallback, locs) = self;
        match locs {
            Some(l) => LocalizationsInternal {
                fallback,
                localizations: Some(l.localizations),
            },
            None => LocalizationsInternal { fallback, localizations: None },
        }
    }
}

impl IntoLocalizationsInternal for String {
    open spec fn spec_fallback(&self) -> Seq<char> {
        self@
    }

    open spec fn spec_localizations(&self) -> Option<Seq<(String, String)>> {
        None
    }

    fn into_localizations(self) -> (r: LocalizationsInternal) {
        LocalizationsInternal { fallback: self, localizations: None }
    }
}

} // verus!
