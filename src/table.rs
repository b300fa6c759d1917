//! The redirect table: parsing its text and resolving a request path in it.
use vstd::prelude::*;

verus! {

/// What a JSON value offers as a redirect table: each member of an object, by
/// key, mapped to its text when the member is a JSON string and to `None`
/// otherwise. A value that is not an object has no members.
pub uninterp spec fn json_members(v: serde_json::Value) -> Map<Seq<char>, Option<Seq<char>>>;

/// The text of a JSON value when it is a JSON string.
pub uninterp spec fn json_text(v: serde_json::Value) -> Option<Seq<char>>;

/// What parsing a table's text gives: the members of the parsed value, or the
/// parser's message when the text is not one JSON value.
pub uninterp spec fn json_table(text: Seq<char>) -> Result<Map<Seq<char>, Option<Seq<char>>>, Seq<char>>;

#[verifier::external_type_specification]
#[verifier::external_body]
pub struct ExValue(serde_json::Value);

/// Relies on serde_json::from_str: it parses the text as a single JSON value,
/// or fails with an error whose message depends on the text alone.
#[verifier::external_body]
fn parse_json(text: &str) -> (r: Result<serde_json::Value, String>)
    ensures
        match r {
            Ok(v) => json_table(text@) == Ok::<_, Seq<char>>(json_members(v)),
            Err(e) => json_table(text@) == Err::<Map<Seq<char>, Option<Seq<char>>>, _>(e@),
        },
{
    match serde_json::from_str::<serde_json::Value>(text) {
        Ok(v) => Ok(v),
        Err(e) => Err(e.to_string()),
    }
}

/// Relies on serde_json::Value::get with a string index: the member of an
/// object under that key, and `None` for an absent key or a value that is not
/// an object.
#[verifier::external_body]
fn member<'a>(v: &'a serde_json::Value, key: &str) -> (r: Option<&'a serde_json::Value>)
    ensures
        r is Some <==> json_members(*v).contains_key(key@),
        r matches Some(m) ==> json_text(*m) == json_members(*v)[key@],
{
    v.get(key)
}

/// Relies on serde_json::Value::as_str: the text of a JSON string, and `None`
/// for any other kind of value.
#[verifier::external_body]
fn as_text<'a>(v: &'a serde_json::Value) -> (r: Option<&'a str>)
    ensures
        match r {
            Some(s) => json_text(*v) == Some(s@),
            None => json_text(*v) is None,
        },
{
    v.as_str()
}

/// How a request path resolves against a parsed table.
pub enum Outcome {
    Found(String),
    NotFound,
    MalformedEntry,
}

/// Why a table could not be loaded.
pub enum LoadError {
    /// The table file could not be read; the message says why.
    Read(String),
    /// The table text is not JSON; the parser's message.
    Parse(String),
}

/// Every way in which a request can resolve.
pub enum Resolved {
    Found(Seq<char>),
    NotFound,
    MalformedEntry,
    ReadError(Seq<char>),
    ParseError(Seq<char>),
}

impl Outcome {
    pub open spec fn resolved(self) -> Resolved {
        match self {
            Outcome::Found(u) => Resolved::Found(u@),
            Outcome::NotFound => Resolved::NotFound,
            Outcome::MalformedEntry => Resolved::MalformedEntry,
        }
    }
}

impl LoadError {
    pub open spec fn resolved(self) -> Resolved {
        match self {
            LoadError::Read(m) => Resolved::ReadError(m@),
            LoadError::Parse(m) => Resolved::ParseError(m@),
        }
    }
}

/// The resolution that a loaded table, or the failure to load it, stands for.
pub open spec fn resolution(r: Result<Outcome, LoadError>) -> Resolved {
    match r {
        Ok(o) => o.resolved(),
        Err(e) => e.resolved(),
    }
}

/// Exact-key lookup of a path among a table's members.
pub open spec fn resolve_in(members: Map<Seq<char>, Option<Seq<char>>>, path: Seq<char>) -> Resolved {
    if !members.contains_key(path) {
        Resolved::NotFound
    } else {
        match members[path] {
            Some(url) => Resolved::Found(url),
            None => Resolved::MalformedEntry,
        }
    }
}

/// Resolution of a path against the text of a table.
pub open spec fn resolve_text(text: Seq<char>, path: Seq<char>) -> Resolved {
    match json_table(text) {
        Ok(members) => resolve_in(members, path),
        Err(msg) => Resolved::ParseError(msg),
    }
}

/// Resolution of a path against the result of reading the table file: its
/// text, or the message of the read error.
pub open spec fn resolve_request_spec(path: Seq<char>, table: Result<Seq<char>, Seq<char>>) -> Resolved {
    match table {
        Ok(text) => resolve_text(text, path),
        Err(msg) => Resolved::ReadError(msg),
    }
}

/// The view of the file-read result that the library is handed.
pub open spec fn table_view(table: &Result<String, String>) -> Result<Seq<char>, Seq<char>> {
    match table {
        Ok(t) => Ok(t@),
        Err(m) => Err(m@),
    }
}

/// Parses the text of a redirect table into a JSON value.
pub fn parse_table(text: &str) -> (r: Result<serde_json::Value, LoadError>)
    ensures
        match r {
            Ok(v) => json_table(text@) == Ok::<_, Seq<char>>(json_members(v)),
            Err(e) => e is Parse && json_table(text@) == Err::<Map<Seq<char>, Option<Seq<char>>>, _>(
                e->Parse_0@,
            ),
        },
{
    match parse_json(text) {
        Ok(v) => Ok(v),
        Err(msg) => Err(LoadError::Parse(msg)),
    }
}

/// Looks a request path up as an exact key of a parsed table.
pub fn resolve(table: &serde_json::Value, path: &str) -> (r: Outcome)
    ensures
        r.resolved() == resolve_in(json_members(*table), path@),
{
    match member(table, path) {
        None => Outcome::NotFound,
        Some(m) => match as_text(m) {
            Some(url) => Outcome::Found(url.to_owned()),
            None => Outcome::MalformedEntry,
        },
    }
}

/// Parses a table's text and resolves a request path against it.
pub fn lookup(text: &str, path: &str) -> (r: Result<Outcome, LoadError>)
    ensures
        resolution(r) == resolve_text(text@, path@),
{
    match parse_table(text) {
        Ok(v) => Ok(resolve(&v, path)),
        Err(e) => Err(e),
    }
}

/// Resolves a request path against the result of reading the table file.
pub fn resolve_request(path: &str, table: &Result<String, String>) -> (r: Result<Outcome, LoadError>)
    ensures
        resolution(r) == resolve_request_spec(path@, table_view(table)),
{
    match table {
        Ok(text) => lookup(text.as_str(), path),
        Err(msg) => Err(LoadError::Read(msg.clone())),
    }
}

} // verus!
