//! The attribute value model: typed literal values extracted from
//! metadata, with validated conversions, and the parsed attribute records
//! of a command type and of one field.

use vstd::prelude::*;
use crate::channel::{ChannelType, spec_parse_channel_list, ws_tokens};
use crate::constraint::CommandOptionValue;

verus! {

/// Whether a declared field is required or optional, derived from
/// whether its declared type is a nullable wrapper.
#[derive(Clone, Copy, Debug, PartialEq, Eq, Structural)]
pub enum FieldType {
    Required,
    Optional,
}

impl FieldType {
    /// Whether the field must be present when decoding.
    pub fn required(&self) -> (r: bool)
        ensures
            r == (*self == FieldType::Required),
    {
        match self {
            FieldType::Required => true,
            FieldType::Optional => false,
        }
    }
}

/// A typed literal value extracted from metadata. Floating-point
/// literals are carried as their IEEE-754 bit patterns.
#[derive(Debug, PartialEq, Eq)]
pub enum AttrValue {
    String(String),
    Int(i64),
    Number(u64),
    Bool(bool),
}

/// Why an attribute value was rejected.
#[derive(Clone, Copy, Debug, PartialEq, Eq, Structural)]
pub enum AttrErrorKind {
    /// A string literal was expected.
    ExpectedString,
    /// A boolean literal was expected.
    ExpectedBool,
    /// An integer or float literal was expected.
    ExpectedNumeric,
    /// The string is empty where a non-empty one is required.
    EmptyString,
    /// The attribute name is not recognized here.
    UnknownAttribute,
    /// The channel-type list holds an unknown keyword.
    InvalidChannelType,
}

/// An attribute error: the declared field it was found on, the attribute
/// name, and the reason.
#[derive(Debug, PartialEq, Eq)]
pub struct AttrError {
    pub field: String,
    pub attribute: String,
    pub kind: AttrErrorKind,
}

/// The string content of an attribute value: a non-empty string literal,
/// or the reason it is not one.
pub open spec fn spec_as_string(v: AttrValue) -> Result<String, AttrErrorKind> {
    match v {
        AttrValue::String(s) => if s@.len() == 0 {
            Err(AttrErrorKind::EmptyString)
        } else {
            Ok(s)
        },
        _ => Err(AttrErrorKind::ExpectedString),
    }
}

/// The boolean content of an attribute value, or the reason it has none.
pub open spec fn spec_as_bool(v: AttrValue) -> Result<bool, AttrErrorKind> {
    match v {
        AttrValue::Bool(b) => Ok(b),
        _ => Err(AttrErrorKind::ExpectedBool),
    }
}

/// The numeric bound an attribute value declares: an integer or float
/// literal, never a string.
pub open spec fn spec_as_numeric_bound(v: AttrValue) -> Result<CommandOptionValue, AttrErrorKind> {
    match v {
        AttrValue::Int(i) => Ok(CommandOptionValue::Integer(i)),
        AttrValue::Number(n) => Ok(CommandOptionValue::Number(n)),
        _ => Err(AttrErrorKind::ExpectedNumeric),
    }
}

impl AttrValue {
    /// The string content of this value; fails, naming the field and the
    /// attribute, unless it is a non-empty string literal.
    pub fn as_string(&self, field: &String, attribute: &String) -> (r: Result<String, AttrError>)
        ensures
            match (r, spec_as_string(*self)) {
                (Ok(s), Ok(s2)) => s == s2,
                (Err(e), Err(k)) => e == (AttrError {
                    field: *field,
                    attribute: *attribute,
                    kind: k,
                }),
                _ => false,
            },
    {
        match self {
            AttrValue::String(s) => {
                if s.unicode_len() == 0 {
                    Err(
                        AttrError {
                            field: field.clone(),
                            attribute: attribute.clone(),
                            kind: AttrErrorKind::EmptyString,
                        },
                    )
                } else {
                    Ok(s.clone())
                }
            },
            _ => Err(
                AttrError {
                    field: field.clone(),
                    attribute: attribute.clone(),
                    kind: AttrErrorKind::ExpectedString,
                },
            ),
        }
    }

    /// The boolean content of this value; fails, naming the field and
    /// the attribute, unless it is a boolean literal.
    pub fn as_bool(&self, field: &String, attribute: &String) -> (r: Result<bool, AttrError>)
        ensures
            match (r, spec_as_bool(*self)) {
                (Ok(b), Ok(b2)) => b == b2,
                (Err(e), Err(k)) => e == (AttrError {
                    field: *field,
                    attribute: *attribute,
                    kind: k,
                }),
                _ => false,
            },
    {
        match self {
            AttrValue::Bool(b) => Ok(*b),
            _ => Err(
                AttrError {
                    field: field.clone(),
                    attribute: attribute.clone(),
                    kind: AttrErrorKind::ExpectedBool,
                },
            ),
        }
    }

    /// The numeric bound this value declares; fails, naming the field
    /// and the attribute, unless it is an integer or float literal.
    pub fn as_numeric_bound(&self, field: &String, attribute: &String) -> (r: Result<
        CommandOptionValue,
        AttrError,
    >)
        ensures
            match (r, spec_as_numeric_bound(*self)) {
                (Ok(b), Ok(b2)) => b == b2,
                (Err(e), Err(k)) => e == (AttrError {
                    field: *field,
                    attribute: *attribute,
                    kind: k,
                }),
                _ => false,
            },
    {
        match self {
            AttrValue::Int(i) => Ok(CommandOptionValue::Integer(*i)),
            AttrValue::Number(n) => Ok(CommandOptionValue::Number(*n)),
            _ => Err(
                AttrError {
                    field: field.clone(),
                    attribute: attribute.clone(),
                    kind: AttrErrorKind::ExpectedNumeric,
                },
            ),
        }
    }
}

/// The first pair carrying the attribute `key`, scanning from position
/// `i`.
pub open spec fn spec_find_key_from(
    pairs: Seq<(String, AttrValue)>,
    key: Seq<char>,
    i: int,
) -> Option<int>
    decreases pairs.len() - i,
{
    if i < 0 || i >= pairs.len() {
        None
    } else if pairs[i].0@ == key {
        Some(i)
    } else {
        spec_find_key_from(pairs, key, i + 1)
    }
}

/// The first pair carrying the attribute `key`, if any.
pub open spec fn spec_find_key(pairs: Seq<(String, AttrValue)>, key: Seq<char>) -> Option<int> {
    spec_find_key_from(pairs, key, 0)
}

/// The first pair carrying the attribute `key`, if any.
fn find_key(pairs: &Vec<(String, AttrValue)>, key: &str) -> (r: Option<usize>)
    ensures
        match r {
            Some(j) => spec_find_key(pairs@, key@) == Some(j as int) && j < pairs@.len(),
            None => spec_find_key(pairs@, key@) is None,
        },
{
    let mut j: usize = 0;
    while j < pairs.len()
        invariant
            0 <= j <= pairs@.len(),
            spec_find_key(pairs@, key@) == spec_find_key_from(pairs@, key@, j as int),
        decreases pairs@.len() - j,
    {
        if crate::text::str_eq(pairs[j].0.as_str(), key) {
            return Some(j);
        }
        j = j + 1;
    }
    None
}

/// An optional string-valued attribute: absent, present and non-empty,
/// or an error naming the field and the attribute.
pub open spec fn spec_string_attr(
    field: String,
    pairs: Seq<(String, AttrValue)>,
    key: Seq<char>,
) -> Result<Option<String>, AttrError> {
    match spec_find_key(pairs, key) {
        Some(j) => match spec_as_string(pairs[j].1) {
            Ok(s) => Ok(Some(s)),
            Err(k) => Err(AttrError { field, attribute: pairs[j].0, kind: k }),
        },
        None => Ok(None),
    }
}

/// An optional boolean-valued attribute.
pub open spec fn spec_bool_attr(
    field: String,
    pairs: Seq<(String, AttrValue)>,
    key: Seq<char>,
) -> Result<Option<bool>, AttrError> {
    match spec_find_key(pairs, key) {
        Some(j) => match spec_as_bool(pairs[j].1) {
            Ok(b) => Ok(Some(b)),
            Err(k) => Err(AttrError { field, attribute: pairs[j].0, kind: k }),
        },
        None => Ok(None),
    }
}

/// An optional numeric-bound attribute.
pub open spec fn spec_numeric_attr(
    field: String,
    pairs: Seq<(String, AttrValue)>,
    key: Seq<char>,
) -> Result<Option<CommandOptionValue>, AttrError> {
    match spec_find_key(pairs, key) {
        Some(j) => match spec_as_numeric_bound(pairs[j].1) {
            Ok(b) => Ok(Some(b)),
            Err(k) => Err(AttrError { field, attribute: pairs[j].0, kind: k }),
        },
        None => Ok(None),
    }
}

/// The optional channel-type list attribute: a string literal holding
/// whitespace-separated keywords.
pub open spec fn spec_channel_attr(field: String, pairs: Seq<(String, AttrValue)>) -> Result<
    Seq<ChannelType>,
    AttrError,
> {
    match spec_find_key(pairs, "channel_types"@) {
        Some(j) => match spec_as_string(pairs[j].1) {
            Ok(s) => match spec_parse_channel_list(ws_tokens(s@)) {
                Ok(list) => Ok(list),
                Err(_) => Err(
                    AttrError {
                        field,
                        attribute: pairs[j].0,
                        kind: AttrErrorKind::InvalidChannelType,
                    },
                ),
            },
            Err(k) => Err(AttrError { field, attribute: pairs[j].0, kind: k }),
        },
        None => Ok(Seq::empty()),
    }
}

/// The parsed attribute record of a command type.
#[derive(Debug, PartialEq, Eq)]
pub struct TypeAttribute {
    /// Rename the command to the given name.
    pub name: Option<String>,
    /// Overwrite the command description.
    pub desc: Option<String>,
    /// Optional help.
    pub help: Option<String>,
    /// Whether the command should be enabled by default.
    pub default_permission: bool,
}

/// Whether a key is recognized on a command type.
pub open spec fn type_key_allowed(k: Seq<char>) -> bool {
    k == "name"@ || k == "desc"@ || k == "default_permission"@ || k == "help"@
}

/// The first pair whose key is not recognized on a command type,
/// scanning from position `i`.
pub open spec fn spec_unknown_type_key(pairs: Seq<(String, AttrValue)>, i: int) -> Option<int>
    decreases pairs.len() - i,
{
    if i < 0 || i >= pairs.len() {
        None
    } else if !type_key_allowed(pairs[i].0@) {
        Some(i)
    } else {
        spec_unknown_type_key(pairs, i + 1)
    }
}

/// What parsing a command type's attribute pairs yields: the first
/// unrecognized key fails, then each recognized attribute is taken from
/// its first occurrence and converted; `default_permission` defaults to
/// true.
pub open spec fn spec_parse_type_attrs(field: String, pairs: Seq<(String, AttrValue)>) -> Result<
    TypeAttribute,
    AttrError,
> {
    match spec_unknown_type_key(pairs, 0) {
        Some(j) => Err(
            AttrError { field, attribute: pairs[j].0, kind: AttrErrorKind::UnknownAttribute },
        ),
        None => match spec_string_attr(field, pairs, "name"@) {
            Err(e) => Err(e),
            Ok(name) => match spec_string_attr(field, pairs, "desc"@) {
                Err(e) => Err(e),
                Ok(desc) => match spec_string_attr(field, pairs, "help"@) {
                    Err(e) => Err(e),
                    Ok(help) => match spec_bool_attr(field, pairs, "default_permission"@) {
                        Err(e) => Err(e),
                        Ok(dp) => Ok(
                            TypeAttribute {
                                name,
                                desc,
                                help,
                                default_permission: match dp {
                                    Some(b) => b,
                                    None => true,
                                },
                            },
                        ),
                    },
                },
            },
        },
    }
}

impl TypeAttribute {
    /// Parse the attribute pairs of a command type named `field`.
    pub fn parse(field: &String, pairs: &Vec<(String, AttrValue)>) -> (r: Result<
        TypeAttribute,
        AttrError,
    >)
        ensures
            match (r, spec_parse_type_attrs(*field, pairs@)) {
                (Ok(a), Ok(a2)) => a == a2,
                (Err(e), Err(e2)) => e == e2,
                _ => false,
            },
    {
        match unknown_type_key(pairs) {
            Some(j) => Err(
                AttrError {
                    field: field.clone(),
                    attribute: pairs[j].0.clone(),
                    kind: AttrErrorKind::UnknownAttribute,
                },
            ),
            None => {
                let name = match string_attr(field, pairs, "name") {
                    Ok(v) => v,
                    Err(e) => {
                        return Err(e);
                    },
                };
                let desc = match string_attr(field, pairs, "desc") {
                    Ok(v) => v,
                    Err(e) => {
                        return Err(e);
                    },
                };
                let help = match string_attr(field, pairs, "help") {
                    Ok(v) => v,
                    Err(e) => {
                        return Err(e);
                    },
                };
                let dp = match bool_attr(field, pairs, "default_permission") {
                    Ok(v) => v,
                    Err(e) => {
                        return Err(e);
                    },
                };
                Ok(
                    TypeAttribute {
                        name,
                        desc,
                        help,
                        default_permission: match dp {
                            Some(b) => b,
                            None => true,
                        },
                    },
                )
            },
        }
    }
}

/// The first pair whose key is not recognized on a command type.
fn unknown_type_key(pairs: &Vec<(String, AttrValue)>) -> (r: Option<usize>)
    ensures
        match r {
            Some(j) => spec_unknown_type_key(pairs@, 0) == Some(j as int) && j < pairs@.len(),
            None => spec_unknown_type_key(pairs@, 0) is None,
        },
{
    let mut j: usize = 0;
    while j < pairs.len()
        invariant
            0 <= j <= pairs@.len(),
            spec_unknown_type_key(pairs@, 0) == spec_unknown_type_key(pairs@, j as int),
        decreases pairs@.len() - j,
    {
        let k = pairs[j].0.as_str();
        let allowed = crate::text::str_eq(k, "name") || crate::text::str_eq(k, "desc")
            || crate::text::str_eq(k, "default_permission") || crate::text::str_eq(k, "help");
        if !allowed {
            return Some(j);
        }
        j = j + 1;
    }
    None
}

/// Fetch and convert an optional string attribute.
fn string_attr(field: &String, pairs: &Vec<(String, AttrValue)>, key: &str) -> (r: Result<
    Option<String>,
    AttrError,
>)
    ensures
        match (r, spec_string_attr(*field, pairs@, key@)) {
            (Ok(v), Ok(v2)) => v == v2,
            (Err(e), Err(e2)) => e == e2,
            _ => false,
        },
{
    match find_key(pairs, key) {
        Some(j) => match pairs[j].1.as_string(field, &pairs[j].0) {
            Ok(s) => Ok(Some(s)),
            Err(e) => Err(e),
        },
        None => Ok(None),
    }
}

/// Fetch and convert an optional boolean attribute.
fn bool_attr(field: &String, pairs: &Vec<(String, AttrValue)>, key: &str) -> (r: Result<
    Option<bool>,
    AttrError,
>)
    ensures
        match (r, spec_bool_attr(*field, pairs@, key@)) {
            (Ok(v), Ok(v2)) => v == v2,
            (Err(e), Err(e2)) => e == e2,
            _ => false,
        },
{
    match find_key(pairs, key) {
        Some(j) => match pairs[j].1.as_bool(field, &pairs[j].0) {
            Ok(b) => Ok(Some(b)),
            Err(e) => Err(e),
        },
        None => Ok(None),
    }
}

/// Fetch and convert an optional numeric-bound attribute.
fn numeric_attr(field: &String, pairs: &Vec<(String, AttrValue)>, key: &str) -> (r: Result<
    Option<CommandOptionValue>,
    AttrError,
>)
    ensures
        match (r, spec_numeric_attr(*field, pairs@, key@)) {
            (Ok(v), Ok(v2)) => v == v2,
            (Err(e), Err(e2)) => e == e2,
            _ => false,
        },
{
    match find_key(pairs, key) {
        Some(j) => match pairs[j].1.as_numeric_bound(field, &pairs[j].0) {
            Ok(b) => Ok(Some(b)),
            Err(e) => Err(e),
        },
        None => Ok(None),
    }
}

/// The parsed attribute record of one field.
#[derive(Debug, PartialEq, Eq)]
pub struct FieldAttribute {
    /// Rename the field to the given name.
    pub rename: Option<String>,
    /// Overwrite the field description.
    pub desc: Option<String>,
    /// Optional help.
    pub help: Option<String>,
    /// Whether the field supports autocomplete.
    pub autocomplete: bool,
    /// Limit to specific channel types.
    pub channel_types: Vec<ChannelType>,
    /// Maximum value permitted.
    pub max_value: Option<CommandOptionValue>,
    /// Minimum value permitted.
    pub min_value: Option<CommandOptionValue>,
}

/// The abstract content of a parsed field attribute record.
pub struct FieldAttributeModel {
    pub rename: Option<String>,
    pub desc: Option<String>,
    pub help: Option<String>,
    pub autocomplete: bool,
    pub channel_types: Seq<ChannelType>,
    pub max_value: Option<CommandOptionValue>,
    pub min_value: Option<CommandOptionValue>,
}

impl FieldAttribute {
    /// The abstract content of this record.
    pub open spec fn model(&self) -> FieldAttributeModel {
        FieldAttributeModel {
            rename: self.rename,
            desc: self.desc,
            help: self.help,
            autocomplete: self.autocomplete,
            channel_types: self.channel_types@,
            max_value: self.max_value,
            min_value: self.min_value,
        }
    }

    /// The field's platform-facing name: the rename if one was given,
    /// else the declared default.
    pub fn name_default(&self, default: String) -> (r: String)
        ensures
            match self.rename {
                Some(n) => r == n,
                None => r == default,
            },
    {
        match &self.rename {
            Some(n) => n.clone(),
            None => default,
        }
    }
}

/// Whether a key is recognized on a field.
pub open spec fn field_key_allowed(k: Seq<char>) -> bool {
    k == "rename"@ || k == "desc"@ || k == "help"@ || k == "autocomplete"@
        || k == "channel_types"@ || k == "max_value"@ || k == "min_value"@
}

/// The first pair whose key is not recognized on a field, scanning from
/// position `i`.
pub open spec fn spec_unknown_field_key(pairs: Seq<(String, AttrValue)>, i: int) -> Option<int>
    decreases pairs.len() - i,
{
    if i < 0 || i >= pairs.len() {
        None
    } else if !field_key_allowed(pairs[i].0@) {
        Some(i)
    } else {
        spec_unknown_field_key(pairs, i + 1)
    }
}

/// What parsing a field's attribute pairs yields: the first unrecognized
/// key fails, then each recognized attribute is taken from its first
/// occurrence and converted.
pub open spec fn spec_parse_field_attrs(field: String, pairs: Seq<(String, AttrValue)>) -> Result<
    FieldAttributeModel,
    AttrError,
> {
    match spec_unknown_field_key(pairs, 0) {
        Some(j) => Err(
            AttrError { field, attribute: pairs[j].0, kind: AttrErrorKind::UnknownAttribute },
        ),
        None => match spec_string_attr(field, pairs, "rename"@) {
            Err(e) => Err(e),
            Ok(rename) => match spec_string_attr(field, pairs, "desc"@) {
                Err(e) => Err(e),
                Ok(desc) => match spec_string_attr(field, pairs, "help"@) {
                    Err(e) => Err(e),
                    Ok(help) => match spec_bool_attr(field, pairs, "autocomplete"@) {
                        Err(e) => Err(e),
                        Ok(ac) => match spec_channel_attr(field, pairs) {
                            Err(e) => Err(e),
                            Ok(channels) => match spec_numeric_attr(field, pairs, "max_value"@) {
                                Err(e) => Err(e),
                                Ok(maxv) => match spec_numeric_attr(
                                    field,
                                    pairs,
                                    "min_value"@,
                                ) {
                                    Err(e) => Err(e),
                                    Ok(minv) => Ok(
                                        FieldAttributeModel {
                                            rename,
                                            desc,
                                            help,
                                            autocomplete: match ac {
                                                Some(b) => b,
                                                None => false,
                                            },
                                            channel_types: channels,
                                            max_value: maxv,
                                            min_value: minv,
                                        },
                                    ),
                                },
                            },
                        },
                    },
                },
            },
        },
    }
}

impl FieldAttribute {
    /// Parse the attribute pairs of the field named `field`.
    pub fn parse(field: &String, pairs: &Vec<(String, AttrValue)>) -> (r: Result<
        FieldAttribute,
        AttrError,
    >)
        ensures
            match (r, spec_parse_field_attrs(*field, pairs@)) {
                (Ok(a), Ok(m)) => a.model() == m,
                (Err(e), Err(e2)) => e == e2,
                _ => false,
            },
    {
        match unknown_field_key(pairs) {
            Some(j) => Err(
                AttrError {
                    field: field.clone(),
                    attribute: pairs[j].0.clone(),
                    kind: AttrErrorKind::UnknownAttribute,
                },
            ),
            None => {
                let rename = match string_attr(field, pairs, "rename") {
                    Ok(v) => v,
                    Err(e) => {
                        return Err(e);
                    },
                };
                let desc = match string_attr(field, pairs, "desc") {
                    Ok(v) => v,
                    Err(e) => {
                        return Err(e);
                    },
                };
                let help = match string_attr(field, pairs, "help") {
                    Ok(v) => v,
                    Err(e) => {
                        return Err(e);
                    },
                };
                let ac = match bool_attr(field, pairs, "autocomplete") {
                    Ok(v) => v,
                    Err(e) => {
                        return Err(e);
                    },
                };
                let channels = match channel_attr(field, pairs) {
                    Ok(v) => v,
                    Err(e) => {
                        return Err(e);
                    },
                };
                let maxv = match numeric_attr(field, pairs, "max_value") {
                    Ok(v) => v,
                    Err(e) => {
                        return Err(e);
                    },
                };
                let minv = match numeric_attr(field, pairs, "min_value") {
                    Ok(v) => v,
                    Err(e) => {
                        return Err(e);
                    },
                };
                Ok(
                    FieldAttribute {
                        rename,
                        desc,
                        help,
                        autocomplete: match ac {
                            Some(b) => b,
                            None => false,
                        },
                        channel_types: channels,
                        max_value: maxv,
                        min_value: minv,
                    },
                )
            },
        }
    }
}

/// The first pair whose key is not recognized on a field.
fn unknown_field_key(pairs: &Vec<(String, AttrValue)>) -> (r: Option<usize>)
    ensures
        match r {
            Some(j) => spec_unknown_field_key(pairs@, 0) == Some(j as int) && j < pairs@.len(),
            None => spec_unknown_field_key(pairs@, 0) is None,
        },
{
    let mut j: usize = 0;
    while j < pairs.len()
        invariant
            0 <= j <= pairs@.len(),
            spec_unknown_field_key(pairs@, 0) == spec_unknown_field_key(pairs@, j as int),
        decreases pairs@.len() - j,
    {
        let k = pairs[j].0.as_str();
        let allowed = crate::text::str_eq(k, "rename") || crate::text::str_eq(k, "desc")
            || crate::text::str_eq(k, "help") || crate::text::str_eq(k, "autocomplete")
            || crate::text::str_eq(k, "channel_types") || crate::text::str_eq(k, "max_value")
            || crate::text::str_eq(k, "min_value");
        if !allowed {
            return Some(j);
        }
        j = j + 1;
    }
    None
}

/// Fetch and parse the optional channel-type list attribute.
fn channel_attr(field: &String, pairs: &Vec<(String, AttrValue)>) -> (r: Result<
    Vec<ChannelType>,
    AttrError,
>)
    ensures
        match (r, spec_channel_attr(*field, pairs@)) {
            (Ok(v), Ok(l)) => v@ == l,
            (Err(e), Err(e2)) => e == e2,
            _ => false,
        },
{
    match find_key(pairs, "channel_types") {
        Some(j) => match pairs[j].1.as_string(field, &pairs[j].0) {
            Ok(s) => match ChannelType::parse_attr(s.as_str()) {
                Ok(list) => Ok(list),
                Err(_) => Err(
                    AttrError {
                        field: field.clone(),
                        attribute: pairs[j].0.clone(),
                        kind: AttrErrorKind::InvalidChannelType,
                    },
                ),
            },
            Err(e) => Err(e),
        },
        None => Ok(Vec::new()),
    }
}

} // verus!
