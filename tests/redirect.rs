use akasio::config::Config;
use akasio::response::{handle, respond, Level, Response, Status};
use akasio::table::{lookup, parse_table, resolve, resolve_request, LoadError, Outcome};

fn request(table: &str, path: &str) -> Response {
    handle(path, &Ok(table.to_string()))
}

#[test]
fn go_redirects_to_golang() {
    let r = request(r#"{"/go": "https://golang.org"}"#, "/go");
    assert_eq!(r.status, Status::Found);
    assert_eq!(r.status.code(), 302);
    assert_eq!(r.location.as_deref(), Some("https://golang.org"));
    assert_eq!(r.body, "");
    assert_eq!(r.content_type, None);
    assert_eq!(r.level, Level::Info);
    assert_eq!(r.log_line, "302 redirecting /go to https://golang.org");
}

#[test]
fn empty_table_is_not_found() {
    let r = request("{}", "/anything");
    assert_eq!(r.status.code(), 404);
    assert_eq!(r.body, "Not Found");
    assert_eq!(r.content_type.as_deref(), Some("text/plain"));
    assert_eq!(r.location, None);
    assert_eq!(r.level, Level::Warning);
    assert_eq!(r.log_line, "404 not found /anything");
}

#[test]
fn missing_table_file_is_server_error() {
    let r = handle("/", &Err("No such file or directory (os error 2)".to_string()));
    assert_eq!(r.status.code(), 500);
    assert_eq!(r.body, "Internal Server Error");
    assert_eq!(r.content_type.as_deref(), Some("text/plain"));
    assert_eq!(r.level, Level::Error);
    assert_eq!(r.log_line, "500 internal server error / No such file or directory (os error 2)");
}

#[test]
fn number_entry_is_server_error() {
    let r = request(r#"{"/bad": 123}"#, "/bad");
    assert_eq!(r.status.code(), 500);
    assert_eq!(r.location, None);
    assert_eq!(r.body, "Internal Server Error");
    assert_eq!(r.log_line, "500 internal server error /bad the entry is not a JSON string");
}

#[test]
fn object_entry_is_server_error() {
    let r = request(r#"{"/obj": {"a": "b"}, "/n": null}"#, "/obj");
    assert_eq!(r.status.code(), 500);
    assert_eq!(request(r#"{"/obj": {"a": "b"}, "/n": null}"#, "/n").status.code(), 500);
}

#[test]
fn malformed_table_fails_every_path() {
    for path in ["/", "/go", "/anything", ""] {
        let r = request("{\"/go\": ", path);
        assert_eq!(r.status.code(), 500);
        assert_eq!(r.body, "Internal Server Error");
        assert_eq!(r.level, Level::Error);
    }
    assert_eq!(request("not json at all", "/go").status, Status::InternalServerError);
}

#[test]
fn missing_file_fails_every_path() {
    for path in ["/", "/go", "/x/y"] {
        let r = handle(path, &Err("denied".to_string()));
        assert_eq!(r.status, Status::InternalServerError);
    }
}

#[test]
fn absent_key_in_full_table_is_not_found() {
    let table = r#"{"/a": "https://a.example", "/b": "https://b.example"}"#;
    assert_eq!(request(table, "/c").status.code(), 404);
    assert_eq!(request(table, "/b").location.as_deref(), Some("https://b.example"));
}

#[test]
fn lookup_is_exact_and_case_sensitive() {
    let table = r#"{"/foo": "https://example.com/foo-target"}"#;
    assert_eq!(request(table, "/foo").status.code(), 302);
    assert_eq!(request(table, "/foo/").status.code(), 404);
    assert_eq!(request(table, "/FOO").status.code(), 404);
    assert_eq!(request(table, "/fo").status.code(), 404);
}

#[test]
fn url_is_taken_as_is() {
    let r = request(r#"{"/x": "not a url"}"#, "/x");
    assert_eq!(r.status.code(), 302);
    assert_eq!(r.location.as_deref(), Some("not a url"));
}

#[test]
fn table_that_is_not_an_object_has_no_entries() {
    assert_eq!(request(r#"["/go"]"#, "/go").status.code(), 404);
    assert_eq!(request(r#""/go""#, "/go").status.code(), 404);
}

#[test]
fn repeated_requests_get_identical_responses() {
    let table = r#"{"/go": "https://golang.org"}"#;
    for path in ["/go", "/nope"] {
        let a = request(table, path);
        let b = request(table, path);
        assert_eq!(a.status, b.status);
        assert_eq!(a.location, b.location);
        assert_eq!(a.content_type, b.content_type);
        assert_eq!(a.body, b.body);
    }
}

#[test]
fn changed_table_changes_next_response() {
    let before = request(r#"{"/go": "https://golang.org"}"#, "/go");
    let after = request(r#"{"/go": "https://go.dev"}"#, "/go");
    assert_eq!(before.location.as_deref(), Some("https://golang.org"));
    assert_eq!(after.location.as_deref(), Some("https://go.dev"));
    let removed = request("{}", "/go");
    assert_eq!(removed.status.code(), 404);
}

#[test]
fn parse_error_carries_parser_message() {
    match parse_table("{") {
        Err(LoadError::Parse(msg)) => assert!(!msg.is_empty()),
        _ => panic!("expected a parse error"),
    }
    let r = request("{", "/go");
    assert!(r.log_line.starts_with("500 internal server error /go "));
    assert!(r.log_line.len() > "500 internal server error /go ".len());
}

#[test]
fn resolve_reads_members() {
    let v = match parse_table(r#"{"/go": "https://golang.org", "/n": 1}"#) {
        Ok(v) => v,
        Err(_) => panic!("table should parse"),
    };
    assert!(matches!(resolve(&v, "/go"), Outcome::Found(u) if u == "https://golang.org"));
    assert!(matches!(resolve(&v, "/n"), Outcome::MalformedEntry));
    assert!(matches!(resolve(&v, "/z"), Outcome::NotFound));
}

#[test]
fn lookup_and_resolve_request_agree() {
    let text = r#"{"/go": "https://golang.org"}"#;
    assert!(matches!(lookup(text, "/go"), Ok(Outcome::Found(u)) if u == "https://golang.org"));
    assert!(matches!(resolve_request("/go", &Ok(text.to_string())), Ok(Outcome::Found(_))));
    assert!(matches!(resolve_request("/go", &Err("gone".to_string())), Err(LoadError::Read(m)) if m == "gone"));
}

#[test]
fn respond_maps_each_outcome() {
    let found = respond("/a", &Ok(Outcome::Found("https://a".to_string())));
    assert_eq!(found.status.code(), 302);
    let missing = respond("/a", &Ok(Outcome::NotFound));
    assert_eq!(missing.status.code(), 404);
    let parse = respond("/a", &Err(LoadError::Parse("bad".to_string())));
    assert_eq!(parse.status.code(), 500);
    assert_eq!(parse.log_line, "500 internal server error /a bad");
}

#[test]
fn status_codes() {
    assert_eq!(Status::Found.code(), 302);
    assert_eq!(Status::NotFound.code(), 404);
    assert_eq!(Status::InternalServerError.code(), 500);
}

#[test]
fn config_keeps_its_settings() {
    let c = Config::new("127.0.0.1:8000".to_string(), "/etc/akasio.json".to_string());
    assert_eq!(c.bind(), "127.0.0.1:8000");
    assert_eq!(c.redirect_table_path(), "/etc/akasio.json");
}
