use static_serve::asset::{default_not_found, Asset, Response, STATUS_NOT_FOUND, STATUS_OK};
use static_serve::embedded::{get_file, get_index_html, StaticFiles};
use static_serve::request_path::{directory_index, is_contained, trim_leading_slashes};
use static_serve::resolve::{advance, first_stage, lookup_key, resolve, Stage, Step};

fn asset(data: &[u8], content_type: &str) -> Asset {
    Asset { data: data.to_vec(), content_type: content_type.to_string() }
}

fn store(entries: &[(&str, &[u8], &str)]) -> StaticFiles {
    let mut files = StaticFiles::new();
    for (path, data, content_type) in entries {
        files.insert(path.to_string(), asset(data, content_type));
    }
    files
}

fn check(r: &Response, status: u16, body: &[u8], content_type: &str) {
    assert_eq!(r.status, status);
    assert_eq!(r.body, body.to_vec());
    assert_eq!(r.content_type, content_type);
}

#[test]
fn only_index_with_fallback_serves_root_index() {
    let files = store(&[("index.html", b"<h1>home</h1>", "text/html")]);
    let r = resolve(&files, "/about", true);
    check(&r, 200, b"<h1>home</h1>", "text/html");
}

#[test]
fn only_index_without_fallback_gives_default_not_found() {
    let files = store(&[("index.html", b"<h1>home</h1>", "text/html")]);
    let r = resolve(&files, "/about", false);
    check(&r, 404, b"Not Found", "text/plain; charset=utf-8");
}

#[test]
fn exact_asset_and_custom_not_found_page() {
    let files = store(&[
        ("app.js", b"console.log(1)", "text/javascript"),
        ("404.html", b"gone", "text/html"),
    ]);
    check(&resolve(&files, "/app.js", true), 200, b"console.log(1)", "text/javascript");
    check(&resolve(&files, "/missing", true), 404, b"gone", "text/html");
    check(&resolve(&files, "/missing", false), 404, b"gone", "text/html");
}

#[test]
fn exact_match_wins_with_either_setting() {
    let files = store(&[
        ("docs", b"file", "application/octet-stream"),
        ("docs/index.html", b"dir", "text/html"),
        ("index.html", b"root", "text/html"),
    ]);
    check(&resolve(&files, "/docs", true), 200, b"file", "application/octet-stream");
    check(&resolve(&files, "/docs", false), 200, b"file", "application/octet-stream");
}

#[test]
fn directory_index_comes_before_root_index() {
    let files = store(&[
        ("docs/index.html", b"dir", "text/html"),
        ("index.html", b"root", "text/html"),
    ]);
    check(&resolve(&files, "/docs", true), 200, b"dir", "text/html");
    check(&resolve(&files, "/other", true), 200, b"root", "text/html");
}

#[test]
fn no_fallback_skips_both_index_documents() {
    let files = store(&[
        ("docs/index.html", b"dir", "text/html"),
        ("index.html", b"root", "text/html"),
        ("404.html", b"nope", "text/html"),
    ]);
    check(&resolve(&files, "/docs", false), 404, b"nope", "text/html");
}

#[test]
fn empty_store_gives_default_not_found() {
    let files = StaticFiles::new();
    check(&resolve(&files, "/", true), 404, b"Not Found", "text/plain; charset=utf-8");
    check(&resolve(&files, "", false), 404, b"Not Found", "text/plain; charset=utf-8");
}

#[test]
fn root_path_serves_index() {
    let files = store(&[("index.html", b"root", "text/html")]);
    check(&resolve(&files, "/", true), 200, b"root", "text/html");
    check(&resolve(&files, "", true), 200, b"root", "text/html");
    check(&resolve(&files, "", false), 404, b"Not Found", "text/plain; charset=utf-8");
}

#[test]
fn custom_not_found_page_requested_directly_is_success() {
    let files = store(&[("404.html", b"nope", "text/html")]);
    check(&resolve(&files, "/404.html", false), 200, b"nope", "text/html");
}

#[test]
fn repeated_resolution_is_identical() {
    let files = store(&[("a.txt", b"abc", "text/plain"), ("404.html", b"x", "text/html")]);
    let first = resolve(&files, "/a.txt", true);
    let second = resolve(&files, "/a.txt", true);
    assert_eq!(first.status, second.status);
    assert_eq!(first.body, second.body);
    assert_eq!(first.content_type, second.content_type);
    let miss1 = resolve(&files, "/b", true);
    let miss2 = resolve(&files, "/b", true);
    assert_eq!(miss1.body, miss2.body);
    assert_eq!(miss1.status, miss2.status);
}

#[test]
fn lookup_is_case_sensitive() {
    let files = store(&[("App.js", b"x", "text/javascript")]);
    check(&resolve(&files, "/app.js", false), 404, b"Not Found", "text/plain; charset=utf-8");
}

#[test]
fn later_insert_replaces_earlier() {
    let files = store(&[("a", b"old", "text/plain"), ("a", b"new", "text/plain")]);
    check(&resolve(&files, "/a", false), 200, b"new", "text/plain");
}

#[test]
fn get_file_trims_leading_slashes() {
    let files = store(&[("css/site.css", b"body{}", "text/css")]);
    let a = get_file(&files, "//css/site.css").unwrap();
    assert_eq!(a.data, b"body{}".to_vec());
    assert_eq!(a.content_type, "text/css");
    assert!(get_file(&files, "/css").is_none());
}

#[test]
fn get_index_html_of_directory_and_root() {
    let files = store(&[("blog/index.html", b"blog", "text/html"), ("index.html", b"root", "text/html")]);
    assert_eq!(get_index_html(&files, "/blog").unwrap().data, b"blog".to_vec());
    assert_eq!(get_index_html(&files, "").unwrap().data, b"root".to_vec());
    assert_eq!(get_index_html(&files, "/").unwrap().data, b"root".to_vec());
    assert!(get_index_html(&files, "/other").is_none());
}

#[test]
fn request_path_keys() {
    assert_eq!(trim_leading_slashes("///a/b"), "a/b");
    assert_eq!(trim_leading_slashes("a/"), "a/");
    assert_eq!(trim_leading_slashes(""), "");
    assert_eq!(directory_index("/docs"), "docs/index.html");
    assert_eq!(directory_index("/"), "index.html");
    assert_eq!(lookup_key(Stage::Exact, "/x.png"), "x.png");
    assert_eq!(lookup_key(Stage::DirectoryIndex, "/x"), "x/index.html");
    assert_eq!(lookup_key(Stage::RootIndex, "/x"), "index.html");
    assert_eq!(lookup_key(Stage::CustomNotFound, "/x"), "404.html");
}

#[test]
fn stage_machine_steps() {
    assert_eq!(first_stage(), Stage::Exact);
    assert!(matches!(advance(Stage::Exact, true, None), Step::Lookup(Stage::DirectoryIndex)));
    assert!(matches!(advance(Stage::Exact, false, None), Step::Lookup(Stage::CustomNotFound)));
    assert!(matches!(advance(Stage::DirectoryIndex, true, None), Step::Lookup(Stage::RootIndex)));
    assert!(matches!(advance(Stage::RootIndex, true, None), Step::Lookup(Stage::CustomNotFound)));
    match advance(Stage::CustomNotFound, true, None) {
        Step::Respond(r) => check(&r, STATUS_NOT_FOUND, b"Not Found", "text/plain; charset=utf-8"),
        Step::Lookup(_) => panic!("expected an answer"),
    }
    match advance(Stage::CustomNotFound, true, Some(asset(b"p", "text/html"))) {
        Step::Respond(r) => check(&r, STATUS_NOT_FOUND, b"p", "text/html"),
        Step::Lookup(_) => panic!("expected an answer"),
    }
    match advance(Stage::RootIndex, false, Some(asset(b"i", "text/html"))) {
        Step::Respond(r) => check(&r, STATUS_OK, b"i", "text/html"),
        Step::Lookup(_) => panic!("expected an answer"),
    }
    check(&default_not_found(), 404, b"Not Found", "text/plain; charset=utf-8");
}

#[test]
fn keys_that_leave_the_root_are_refused() {
    assert!(is_contained("index.html"));
    assert!(is_contained("a/b/c.txt"));
    assert!(is_contained("a/..b/c"));
    assert!(is_contained("a/b../c"));
    assert!(is_contained("./a"));
    assert!(is_contained(""));
    assert!(!is_contained(".."));
    assert!(!is_contained("../etc/passwd"));
    assert!(!is_contained("a/../../b"));
    assert!(!is_contained("a/.."));
    assert!(!is_contained("/etc/passwd"));
}
