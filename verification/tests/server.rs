use docserver::server::{
    file_response, not_found, respond, route, sanitize_name, CrateInfo, DocBody, DocResponse,
    HttpMethod, ReadOutcome, Route,
};

fn info() -> CrateInfo {
    CrateInfo { name: "my_crate".to_string(), doc_path: "/target/doc".to_string() }
}

#[test]
fn test_sanitize_name() {
    assert_eq!("my_crate", sanitize_name("my-crate"));
    assert_eq!("your_crate", sanitize_name("your-crate"));
    assert_eq!("plain", sanitize_name("plain"));
    assert_eq!("a_b_c", sanitize_name("a-b-c"));
}

#[test]
fn test_crate_info_new() {
    let info = CrateInfo::new("my-crate", "/project/target");
    assert_eq!("my_crate", info.name);
    assert_eq!("/project/target/doc", info.doc_path);
}

#[test]
fn test_root_redirects_regardless_of_files() {
    for outcome in [
        ReadOutcome::Missing,
        ReadOutcome::Failed,
        ReadOutcome::Content(b"anything".to_vec()),
    ] {
        let resp = respond(HttpMethod::Get, "/", &info(), outcome);
        assert_eq!(302, resp.status);
        assert_eq!(Some("/my_crate/index.html".to_string()), resp.location);
        assert_eq!(None, resp.content_type);
        assert_eq!(DocBody::Empty, resp.body);
    }
}

#[test]
fn test_existing_file_served() {
    let bytes = b"<html>OK</html>".to_vec();
    let resp = respond(
        HttpMethod::Get,
        "/my_crate/index.html",
        &info(),
        ReadOutcome::Content(bytes.clone()),
    );
    assert_eq!(200, resp.status);
    assert_eq!(Some("text/html".to_string()), resp.content_type);
    assert_eq!(None, resp.location);
    assert_eq!(DocBody::Bytes(bytes), resp.body);
}

#[test]
fn test_missing_file_not_found() {
    let resp = respond(HttpMethod::Get, "/no/such/page", &info(), ReadOutcome::Missing);
    assert_eq!(404, resp.status);
    assert_eq!(DocBody::Text("not found".to_string()), resp.body);
    assert_eq!(None, resp.content_type);
    assert_eq!(None, resp.location);
}

#[test]
fn test_post_not_found() {
    let resp = respond(HttpMethod::Post, "/anything", &info(), ReadOutcome::Missing);
    assert_eq!(404, resp.status);
    assert_eq!(DocBody::Text("not found".to_string()), resp.body);
    let resp = respond(HttpMethod::Put, "/", &info(), ReadOutcome::Missing);
    assert_eq!(404, resp.status);
}

#[test]
fn test_read_failure_is_500() {
    let resp = respond(HttpMethod::Get, "/my_crate/busy.html", &info(), ReadOutcome::Failed);
    assert_eq!(500, resp.status);
    assert_eq!(DocBody::Empty, resp.body);
    assert_eq!(None, resp.content_type);
}

#[test]
fn test_get_idempotent() {
    let bytes = b"same bytes".to_vec();
    let first = respond(
        HttpMethod::Get,
        "/my_crate/page.html",
        &info(),
        ReadOutcome::Content(bytes.clone()),
    );
    let second = respond(
        HttpMethod::Get,
        "/my_crate/page.html",
        &info(),
        ReadOutcome::Content(bytes.clone()),
    );
    assert_eq!(first, second);
    let first = respond(HttpMethod::Get, "/gone", &info(), ReadOutcome::Missing);
    let second = respond(HttpMethod::Get, "/gone", &info(), ReadOutcome::Missing);
    assert_eq!(first, second);
}

#[test]
fn test_route_resolves_under_doc_root() {
    let r = route(HttpMethod::Get, "/other/", &info());
    assert_eq!(Route::File { full_path: "/target/doc/other/index.html".to_string() }, r);
    let r = route(HttpMethod::Get, "///my_crate/fn.run.html", &info());
    assert_eq!(Route::File { full_path: "/target/doc/my_crate/fn.run.html".to_string() }, r);
}

#[test]
fn test_route_rejects_traversal() {
    let r = route(HttpMethod::Get, "/../secret.txt", &info());
    assert_eq!(Route::Rejected, r);
    let resp = respond(HttpMethod::Get, "/../secret.txt", &info(), ReadOutcome::Missing);
    assert_eq!(404, resp.status);
    assert_eq!(DocBody::Text("not found".to_string()), resp.body);
}

#[test]
fn test_content_type_follows_extension() {
    let resp = file_response("/target/doc/style.css", ReadOutcome::Content(Vec::new()));
    assert_eq!(Some("text/css".to_string()), resp.content_type);
    let resp = file_response("/target/doc/code.js", ReadOutcome::Content(Vec::new()));
    assert_eq!(Some("text/javascript".to_string()), resp.content_type);
    let resp = file_response("/target/doc/blob.nosuchext", ReadOutcome::Content(Vec::new()));
    assert_eq!(Some("application/octet-stream".to_string()), resp.content_type);
}

#[test]
fn test_not_found_body() {
    let resp = not_found();
    assert_eq!(404, resp.status);
    assert_eq!(DocBody::Text("not found".to_string()), resp.body);
}

#[test]
fn test_scenario_served_crate() {
    let info = CrateInfo::new("my-crate", "/target");
    let resp = respond(HttpMethod::Get, "/", &info, ReadOutcome::Missing);
    assert_eq!(302, resp.status);
    assert_eq!(Some("/my_crate/index.html".to_string()), resp.location);
    let r = route(HttpMethod::Get, "/my_crate/index.html", &info);
    assert_eq!(Route::File { full_path: "/target/doc/my_crate/index.html".to_string() }, r);
    let resp = respond(
        HttpMethod::Get,
        "/my_crate/index.html",
        &info,
        ReadOutcome::Content(b"<html>OK</html>".to_vec()),
    );
    assert_eq!(200, resp.status);
    assert_eq!(Some("text/html".to_string()), resp.content_type);
    assert_eq!(DocBody::Bytes(b"<html>OK</html>".to_vec()), resp.body);
}

#[test]
fn test_scenario_missing_crate() {
    let info = CrateInfo::new("my-crate", "/target");
    let r = route(HttpMethod::Get, "/other/", &info);
    assert_eq!(Route::File { full_path: "/target/doc/other/index.html".to_string() }, r);
    let resp = respond(HttpMethod::Get, "/other/", &info, ReadOutcome::Missing);
    assert_eq!(404, resp.status);
    assert_eq!(DocBody::Text("not found".to_string()), resp.body);
}

#[test]
fn test_response_shape() {
    let resp: DocResponse = respond(HttpMethod::Other, "/x", &info(), ReadOutcome::Missing);
    assert_eq!(404, resp.status);
}
