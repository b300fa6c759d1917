//! Mapping a resolution to an HTTP response and a log line.
use vstd::prelude::*;
use vstd::string::StringExecFns;

use crate::table::{resolution, resolve_request, resolve_request_spec, table_view, LoadError, Outcome, Resolved};

verus! {

/// The three statuses the service answers with.
#[derive(Clone, Copy, Debug, PartialEq, Eq, Structural)]
pub enum Status {
    Found,
    NotFound,
    InternalServerError,
}

impl Status {
    pub open spec fn spec_code(self) -> u16 {
        match self {
            Status::Found => 302,
            Status::NotFound => 404,
            Status::InternalServerError => 500,
        }
    }

    /// The numeric HTTP status code.
    pub fn code(&self) -> (r: u16)
        ensures
            r == self.spec_code(),
    {
        match self {
            Status::Found => 302,
            Status::NotFound => 404,
            Status::InternalServerError => 500,
        }
    }
}

/// Severity of the log line that goes with a response.
#[derive(Clone, Copy, Debug, PartialEq, Eq, Structural)]
pub enum Level {
    Info,
    Warning,
    Error,
}

/// An HTTP response, with the line to log about it.
pub struct Response {
    pub status: Status,
    /// The `Location` header, present on a redirect only.
    pub location: Option<String>,
    /// The `Content-Type` header, present when there is a body.
    pub content_type: Option<String>,
    pub body: String,
    pub level: Level,
    pub log_line: String,
}

/// The mathematical content of a [`Response`].
pub struct ResponseView {
    pub status: Status,
    pub location: Option<Seq<char>>,
    pub content_type: Option<Seq<char>>,
    pub body: Seq<char>,
    pub level: Level,
    pub log_line: Seq<char>,
}

pub open spec fn opt_view(o: Option<String>) -> Option<Seq<char>> {
    match o {
        Some(s) => Some(s@),
        None => None,
    }
}

impl View for Response {
    type V = ResponseView;

    open spec fn view(&self) -> ResponseView {
        ResponseView {
            status: self.status,
            location: opt_view(self.location),
            content_type: opt_view(self.content_type),
            body: self.body@,
            level: self.level,
            log_line: self.log_line@,
        }
    }
}

pub open spec fn text_plain() -> Seq<char> {
    "text/plain"@
}

pub open spec fn not_found_body() -> Seq<char> {
    "Not Found"@
}

pub open spec fn server_error_body() -> Seq<char> {
    "Internal Server Error"@
}

pub open spec fn malformed_detail() -> Seq<char> {
    "the entry is not a JSON string"@
}

/// The response and log line owed for a request path and its resolution.
pub open spec fn response_for(path: Seq<char>, res: Resolved) -> ResponseView {
    match res {
        Resolved::Found(url) => ResponseView {
            status: Status::Found,
            location: Some(url),
            content_type: None,
            body: Seq::empty(),
            level: Level::Info,
            log_line: "302 redirecting "@ + path + " to "@ + url,
        },
        Resolved::NotFound => ResponseView {
            status: Status::NotFound,
            location: None,
            content_type: Some(text_plain()),
            body: not_found_body(),
            level: Level::Warning,
            log_line: "404 not found "@ + path,
        },
        Resolved::MalformedEntry => server_error(path, malformed_detail()),
        Resolved::ReadError(detail) => server_error(path, detail),
        Resolved::ParseError(detail) => server_error(path, detail),
    }
}

pub open spec fn server_error(path: Seq<char>, detail: Seq<char>) -> ResponseView {
    ResponseView {
        status: Status::InternalServerError,
        location: None,
        content_type: Some(text_plain()),
        body: server_error_body(),
        level: Level::Error,
        log_line: "500 internal server error "@ + path + " "@ + detail,
    }
}

/// The response owed for a request path, given the result of reading the
/// table file.
pub open spec fn handle_spec(path: Seq<char>, table: Result<Seq<char>, Seq<char>>) -> ResponseView {
    response_for(path, resolve_request_spec(path, table))
}

fn server_error_response(path: &str, detail: &str) -> (r: Response)
    ensures
        r@ == server_error(path@, detail@),
{
    proof {
        reveal_strlit("text/plain");
        reveal_strlit("Internal Server Error");
        reveal_strlit("500 internal server error ");
        reveal_strlit(" ");
    }
    let mut log_line = "500 internal server error ".to_owned();
    log_line.append(path);
    log_line.append(" ");
    log_line.append(detail);
    Response {
        status: Status::InternalServerError,
        location: None,
        content_type: Some("text/plain".to_owned()),
        body: "Internal Server Error".to_owned(),
        level: Level::Error,
        log_line,
    }
}

/// Maps the resolution of a request path to its response and log line.
pub fn respond(path: &str, res: &Result<Outcome, LoadError>) -> (r: Response)
    ensures
        r@ == response_for(path@, resolution(*res)),
{
    match res {
        Ok(Outcome::Found(url)) => {
            proof {
                reveal_strlit("302 redirecting ");
                reveal_strlit(" to ");
            }
            let mut log_line = "302 redirecting ".to_owned();
            log_line.append(path);
            log_line.append(" to ");
            log_line.append(url.as_str());
            Response {
                status: Status::Found,
                location: Some(url.clone()),
                content_type: None,
                body: String::new(),
                level: Level::Info,
                log_line,
            }
        },
        Ok(Outcome::NotFound) => {
            proof {
                reveal_strlit("404 not found ");
                reveal_strlit("text/plain");
                reveal_strlit("Not Found");
            }
            let mut log_line = "404 not found ".to_owned();
            log_line.append(path);
            Response {
                status: Status::NotFound,
                location: None,
                content_type: Some("text/plain".to_owned()),
                body: "Not Found".to_owned(),
                level: Level::Warning,
                log_line,
            }
        },
        Ok(Outcome::MalformedEntry) => {
            proof {
                reveal_strlit("the entry is not a JSON string");
            }
            server_error_response(path, "the entry is not a JSON string")
        },
        Err(LoadError::Read(msg)) => server_error_response(path, msg.as_str()),
        Err(LoadError::Parse(msg)) => server_error_response(path, msg.as_str()),
    }
}

/// Handles one request: resolves its path against the result of reading the
/// table file (its text, or the read error's message) and maps the outcome to
/// the response. Every method is handled alike.
pub fn handle(path: &str, table: &Result<String, String>) -> (r: Response)
    ensures
        r@ == handle_spec(path@, table_view(table)),
{
    let res = resolve_request(path, table);
    respond(path, &res)
}

} // verus!
