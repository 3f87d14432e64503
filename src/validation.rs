use vstd::prelude::*;
use vstd::string::*;
use crate::error::CatalogError;
use crate::text::same_text;

verus! {

/// Largest dataset name, in bytes.
pub const MAX_DATASET_NAME_LEN: usize = 255;

/// Largest field name, in bytes.
pub const MAX_FIELD_NAME_LEN: usize = 255;

/// Largest tag, in bytes.
pub const MAX_TAG_LEN: usize = 100;

/// Largest tenant or domain identifier, in bytes.
pub const MAX_IDENTIFIER_LEN: usize = 100;

/// Largest full-text search query, in bytes.
pub const MAX_SEARCH_QUERY_LEN: usize = 500;

/// What `char::is_alphanumeric` returns for `c`.
pub uninterp spec fn alphanumeric(c: char) -> bool;

/// Relies on `char::is_alphanumeric`: Unicode Alphabetic or Numeric, which
/// holds of the ASCII letters and digits.
#[verifier::external_body]
fn is_alphanumeric(c: char) -> (r: bool)
    ensures
        r == alphanumeric(c),
        ('a' <= c <= 'z' || 'A' <= c <= 'Z' || '0' <= c <= '9') ==> r,
{
    c.is_alphanumeric()
}

pub open spec fn dataset_name_char(c: char) -> bool {
    alphanumeric(c) || c == '_' || c == '-' || c == '.'
}

pub open spec fn field_name_char(c: char) -> bool {
    alphanumeric(c) || c == '_'
}

pub open spec fn tag_char(c: char) -> bool {
    alphanumeric(c) || c == '_' || c == '-' || c == ':'
}

pub open spec fn identifier_char(c: char) -> bool {
    alphanumeric(c) || c == '_' || c == '-'
}

/// Which characters a kind of name admits.
#[derive(Clone, Copy, Debug, PartialEq, Eq, Structural)]
pub enum Charset {
    DatasetName,
    FieldName,
    Tag,
    Identifier,
}

pub open spec fn charset_admits(k: Charset, c: char) -> bool {
    match k {
        Charset::DatasetName => dataset_name_char(c),
        Charset::FieldName => field_name_char(c),
        Charset::Tag => tag_char(c),
        Charset::Identifier => identifier_char(c),
    }
}

/// Every character of `s` is admitted by `k`.
pub open spec fn all_admitted(k: Charset, s: Seq<char>) -> bool {
    forall|i: int| 0 <= i < s.len() ==> charset_admits(k, #[trigger] s[i])
}

fn admits(k: Charset, c: char) -> (r: bool)
    ensures
        r == charset_admits(k, c),
{
    let alnum = is_alphanumeric(c);
    match k {
        Charset::DatasetName => alnum || c == '_' || c == '-' || c == '.',
        Charset::FieldName => alnum || c == '_',
        Charset::Tag => alnum || c == '_' || c == '-' || c == ':',
        Charset::Identifier => alnum || c == '_' || c == '-',
    }
}

fn all_chars_admitted(k: Charset, s: &str) -> (r: bool)
    ensures
        r == all_admitted(k, s@),
{
    let n = s.unicode_len();
    let mut i: usize = 0;
    while i < n
        invariant
            n == s@.len(),
            i <= n,
            forall|j: int| 0 <= j < i ==> charset_admits(k, #[trigger] s@[j]),
        decreases n - i,
    {
        if !admits(k, s.get_char(i)) {
            return false;
        }
        i = i + 1;
    }
    true
}

/// The common shape of name rules: not empty, at most `max` bytes, every
/// character admitted.
pub open spec fn name_ok(k: Charset, s: &str, max: usize) -> bool {
    s@.len() > 0 && s.len() <= max && all_admitted(k, s@)
}

fn invalid(msg: &str) -> (r: Result<(), CatalogError>)
    ensures
        r matches Err(e) && e.is_validation(),
{
    Err(CatalogError::ValidationError(msg.to_owned()))
}

/// A dataset name: 1 to 255 bytes of alphanumerics, `_`, `-` and `.`, not
/// starting or ending with `-`.
pub fn validate_dataset_name(name: &str) -> (r: Result<(), CatalogError>)
    ensures
        r is Ok <==> name_ok(Charset::DatasetName, name, MAX_DATASET_NAME_LEN) && name@[0] != '-'
            && name@.last() != '-',
        r matches Err(e) ==> e.is_validation(),
{
    if name.is_empty() {
        return invalid("Dataset name cannot be empty");
    }
    if name.len() > MAX_DATASET_NAME_LEN {
        return invalid("Dataset name too long");
    }
    if !all_chars_admitted(Charset::DatasetName, name) {
        return invalid("Dataset name contains invalid characters (allowed: alphanumeric, _, -, .)");
    }
    let n = name.unicode_len();
    if name.get_char(0) == '-' || name.get_char(n - 1) == '-' {
        return invalid("Dataset name cannot start or end with hyphen");
    }
    Ok(())
}

/// A field name: 1 to 255 bytes of alphanumerics and `_`.
pub fn validate_field_name(name: &str) -> (r: Result<(), CatalogError>)
    ensures
        r is Ok <==> name_ok(Charset::FieldName, name, MAX_FIELD_NAME_LEN),
        r matches Err(e) ==> e.is_validation(),
{
    if name.is_empty() {
        return invalid("Field name cannot be empty");
    }
    if name.len() > MAX_FIELD_NAME_LEN {
        return invalid("Field name too long");
    }
    if !all_chars_admitted(Charset::FieldName, name) {
        return invalid("Field name contains invalid characters (allowed: alphanumeric, _)");
    }
    Ok(())
}

/// A tag: 1 to 100 bytes of alphanumerics, `_`, `-` and `:`.
pub fn validate_tag(tag: &str) -> (r: Result<(), CatalogError>)
    ensures
        r is Ok <==> name_ok(Charset::Tag, tag, MAX_TAG_LEN),
        r matches Err(e) ==> e.is_validation(),
{
    if tag.is_empty() {
        return invalid("Tag cannot be empty");
    }
    if tag.len() > MAX_TAG_LEN {
        return invalid("Tag too long");
    }
    if !all_chars_admitted(Charset::Tag, tag) {
        return invalid("Tag contains invalid characters (allowed: alphanumeric, _, -, :)");
    }
    Ok(())
}

/// A tenant or domain identifier: 1 to 100 bytes of alphanumerics, `_` and
/// `-`. `field_name` names the input in the error text.
pub fn validate_identifier(identifier: &str, field_name: &str) -> (r: Result<(), CatalogError>)
    ensures
        r is Ok <==> name_ok(Charset::Identifier, identifier, MAX_IDENTIFIER_LEN),
        r matches Err(e) ==> e.is_validation(),
{
    let mut msg = field_name.to_owned();
    if identifier.is_empty() {
        msg.append(" cannot be empty");
        return Err(CatalogError::ValidationError(msg));
    }
    if identifier.len() > MAX_IDENTIFIER_LEN {
        msg.append(" too long");
        return Err(CatalogError::ValidationError(msg));
    }
    if !all_chars_admitted(Charset::Identifier, identifier) {
        msg.append(" contains invalid characters (allowed: alphanumeric, _, -)");
        return Err(CatalogError::ValidationError(msg));
    }
    Ok(())
}

/// A full-text query: not empty and at most 500 bytes; search operators are
/// allowed and the query is returned as given.
pub fn validate_fts_query(query: &str) -> (r: Result<String, CatalogError>)
    ensures
        r is Ok <==> query@.len() > 0 && query.len() <= MAX_SEARCH_QUERY_LEN,
        r matches Ok(q) ==> q@ == query@,
        r matches Err(e) ==> e.is_validation(),
{
    if query.is_empty() {
        return Err(CatalogError::ValidationError(String::from_str("Search query cannot be empty")));
    }
    if query.len() > MAX_SEARCH_QUERY_LEN {
        return Err(CatalogError::ValidationError(String::from_str("Search query too long")));
    }
    Ok(query.to_owned())
}

/// The governance rule types that the catalog schema accepts.
pub open spec fn known_rule_type(s: Seq<char>) -> bool {
    s == "pii_detection"@ || s == "retention"@ || s == "access_control"@ || s == "custom"@
}

/// A governance rule type: one of the known types, case-sensitive.
pub fn validate_rule_type(rule_type: &str) -> (r: Result<(), CatalogError>)
    ensures
        r is Ok <==> known_rule_type(rule_type@),
        r matches Err(e) ==> e.is_validation(),
{
    if same_text(rule_type, "pii_detection") || same_text(rule_type, "retention")
        || same_text(rule_type, "access_control") || same_text(rule_type, "custom") {
        Ok(())
    } else {
        let mut msg = String::from_str("Invalid rule type '");
        msg.append(rule_type);
        msg.append("'. Valid types: pii_detection, retention, access_control, custom");
        Err(CatalogError::ValidationError(msg))
    }
}

/// `s` holds two consecutive dots.
pub open spec fn has_dot_dot(s: Seq<char>) -> bool {
    exists|i: int| 0 <= i && i + 1 < s.len() && #[trigger] s[i] == '.' && s[i + 1] == '.'
}

/// `s` holds a NUL character.
pub open spec fn has_nul(s: Seq<char>) -> bool {
    exists|i: int| 0 <= i < s.len() && #[trigger] s[i] == '\0'
}

/// A `file://` path: no `..` and no NUL character.
pub fn validate_file_uri_path(path: &str) -> (r: Result<(), CatalogError>)
    ensures
        r is Ok <==> !has_dot_dot(path@) && !has_nul(path@),
        r matches Err(e) ==> e.is_validation(),
{
    let n = path.unicode_len();
    let mut i: usize = 0;
    while i < n
        invariant
            n == path@.len(),
            i <= n,
            forall|j: int| 0 <= j && j + 1 < n && j < i ==> !(#[trigger] path@[j] == '.' && path@[j + 1] == '.'),
        decreases n - i,
    {
        if i + 1 < n && path.get_char(i) == '.' && path.get_char(i + 1) == '.' {
            return invalid("Path contains traversal pattern (..)");
        }
        i = i + 1;
    }
    let mut j: usize = 0;
    while j < n
        invariant
            n == path@.len(),
            j <= n,
            !has_dot_dot(path@),
            forall|k: int| 0 <= k < j ==> path@[k] != '\0',
        decreases n - j,
    {
        if path.get_char(j) == '\0' {
            return invalid("Path contains null byte");
        }
        j = j + 1;
    }
    Ok(())
}

} // verus!
