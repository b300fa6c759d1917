//! What holds of every request the service handles.
use vstd::prelude::*;

use crate::response::{handle_spec, not_found_body, response_for, Response, Status};
use crate::table::{json_table, resolve_text, Resolved};

verus! {

/// A path that a well-formed table maps to a URL string is answered with a
/// redirect to that URL.
pub proof fn lemma_mapped_path_redirects(text: Seq<char>, path: Seq<char>, url: Seq<char>)
    requires
        json_table(text) is Ok,
        json_table(text)->Ok_0.contains_key(path),
        json_table(text)->Ok_0[path] == Some(url),
    ensures
        handle_spec(path, Ok(text)).status == Status::Found,
        handle_spec(path, Ok(text)).status.spec_code() == 302,
        handle_spec(path, Ok(text)).location == Some(url),
{
}

/// A path that a well-formed table lacks is answered 404 with the body
/// "Not Found".
pub proof fn lemma_absent_path_not_found(text: Seq<char>, path: Seq<char>)
    requires
        json_table(text) is Ok,
        !json_table(text)->Ok_0.contains_key(path),
    ensures
        handle_spec(path, Ok(text)).status.spec_code() == 404,
        handle_spec(path, Ok(text)).body == not_found_body(),
        handle_spec(path, Ok(text)).location is None,
{
}

/// A table whose text is not JSON makes every request fail with 500.
pub proof fn lemma_unparsable_table_fails(text: Seq<char>, path: Seq<char>)
    requires
        json_table(text) is Err,
    ensures
        handle_spec(path, Ok(text)).status.spec_code() == 500,
        handle_spec(path, Ok(text)).location is None,
{
}

/// A table file that cannot be read makes every request fail with 500.
pub proof fn lemma_unreadable_table_fails(read_error: Seq<char>, path: Seq<char>)
    ensures
        handle_spec(path, Err(read_error)).status.spec_code() == 500,
        handle_spec(path, Err(read_error)).location is None,
{
}

/// A path whose entry is not a JSON string is answered 500.
pub proof fn lemma_non_string_entry_fails(text: Seq<char>, path: Seq<char>)
    requires
        json_table(text) is Ok,
        json_table(text)->Ok_0.contains_key(path),
        json_table(text)->Ok_0[path] is None,
    ensures
        handle_spec(path, Ok(text)).status.spec_code() == 500,
        handle_spec(path, Ok(text)).location is None,
{
}

/// Two responses that `handle` gave for identical requests against an
/// unchanged table have the same status, headers and body.
pub proof fn lemma_repeated_request_same_response(
    path: Seq<char>,
    table: Result<Seq<char>, Seq<char>>,
    first: Response,
    second: Response,
)
    requires
        first@ == handle_spec(path, table),
        second@ == handle_spec(path, table),
    ensures
        first.status == second.status,
        first@.location == second@.location,
        first@.content_type == second@.content_type,
        first@.body == second@.body,
{
}

/// The response follows the table text read for that request alone: when the
/// text changes so that a path resolves differently, the next request for it
/// gets a different status or `Location`.
pub proof fn lemma_response_follows_table(path: Seq<char>, before: Seq<char>, after: Seq<char>)
    requires
        json_table(before) is Ok,
        json_table(after) is Ok,
        resolve_text(before, path) != resolve_text(after, path),
    ensures
        handle_spec(path, Ok(after)) == response_for(path, resolve_text(after, path)),
        handle_spec(path, Ok(before)).status != handle_spec(path, Ok(after)).status
            || handle_spec(path, Ok(before)).location != handle_spec(path, Ok(after)).location,
{
}

} // verus!
