use atac::auth::Auth;
use atac::curl::{
    bearer_token, detect_auth, extract_file_name, get_http_method, import_curl, parse_request,
    CurlCommand, ImportError,
};
use atac::request::{ContentType, KeyValue, Method};
use atac::text::{split_once, two_words};

fn pairs(items: &[(&str, &str)]) -> Vec<(String, String)> {
    items.iter().map(|(k, v)| (k.to_string(), v.to_string())).collect()
}

fn command(url: &str, options: &[(&str, &str)], headers: &[(&str, &str)], data: &str) -> CurlCommand {
    CurlCommand {
        url: url.to_string(),
        options: pairs(options),
        headers: pairs(headers),
        data_raw: data.to_string(),
    }
}

fn rows(kvs: &[KeyValue]) -> Vec<(bool, String, String)> {
    kvs.iter().map(|kv| (kv.enabled, kv.data.0.clone(), kv.data.1.clone())).collect()
}

#[test]
fn basic_auth_header_body_and_query() {
    let c = command(
        "http://example.com/api?x=1",
        &[("u", "alice:secret")],
        &[("X-Foo", "bar")],
        "{\"a\":1}",
    );
    let req = parse_request(&c, "req".to_string()).unwrap();
    assert_eq!(req.name, "req");
    assert_eq!(req.method, Method::POST);
    assert_eq!(req.url, "http://example.com/api");
    assert_eq!(rows(&req.params), vec![(true, "x".to_string(), "1".to_string())]);
    assert_eq!(rows(&req.headers), vec![(true, "X-Foo".to_string(), "bar".to_string())]);
    assert!(matches!(&req.auth, Auth::BasicAuth(u, p) if u == "alice" && p == "secret"));
    assert!(matches!(&req.body, ContentType::Raw(b) if b == "{\"a\":1}"));
}

#[test]
fn bearer_header_becomes_auth_and_is_withheld() {
    let c = command(
        "http://example.com/",
        &[],
        &[("Accept", "*/*"), ("Authorization", "Bearer tok123")],
        "",
    );
    let req = parse_request(&c, "r".to_string()).unwrap();
    assert!(matches!(&req.auth, Auth::BearerToken(t) if t == "tok123"));
    assert_eq!(rows(&req.headers), vec![(true, "Accept".to_string(), "*/*".to_string())]);
    assert!(req.headers.iter().all(|kv| !kv.data.0.eq_ignore_ascii_case("Authorization")));
}

#[test]
fn lower_case_authorization_is_withheld_too() {
    let c = command("http://example.com/", &[], &[("authorization", "Bearer abc")], "");
    let req = parse_request(&c, "r".to_string()).unwrap();
    assert!(req.headers.is_empty());
    assert!(matches!(&req.auth, Auth::BearerToken(t) if t == "abc"));
}

#[test]
fn put_without_body() {
    let c = command("http://example.com/", &[("X", "PUT")], &[], "");
    assert_eq!(get_http_method(&c), Method::PUT);
    let req = parse_request(&c, "r".to_string()).unwrap();
    assert_eq!(req.method, Method::PUT);
    assert!(matches!(&req.body, ContentType::Raw(b) if b.is_empty()));
}

#[test]
fn method_inference_order() {
    assert_eq!(get_http_method(&command("http://a/", &[("X", "DELETE")], &[], "x")), Method::DELETE);
    assert_eq!(get_http_method(&command("http://a/", &[("X", "PUT")], &[], "x")), Method::PUT);
    assert_eq!(get_http_method(&command("http://a/", &[], &[], "x")), Method::POST);
    assert_eq!(get_http_method(&command("http://a/", &[], &[], "")), Method::GET);
    assert_eq!(get_http_method(&command("http://a/", &[("X", "GET")], &[], "")), Method::GET);
    // an explicit GET with a body is not special-cased: the body decides
    assert_eq!(get_http_method(&command("http://a/", &[("X", "GET")], &[], "x")), Method::POST);
    assert_eq!(get_http_method(&command("http://a/", &[("X", "put")], &[], "")), Method::GET);
}

#[test]
fn malformed_user_falls_through_to_bearer() {
    let c = command("http://a/", &[("u", "alice")], &[("Authorization", "Bearer t")], "");
    assert!(matches!(&detect_auth(&c), Auth::BearerToken(t) if t == "t"));
    let c = command("http://a/", &[("u", "alice")], &[], "");
    assert!(matches!(detect_auth(&c), Auth::NoAuth));
    let c = command("http://a/", &[("u", "a:b:c")], &[("Authorization", "Bearer t")], "");
    assert!(matches!(&detect_auth(&c), Auth::BasicAuth(u, p) if u == "a" && p == "b:c"));
}

#[test]
fn malformed_bearer_gives_no_auth() {
    let c = command("http://a/", &[], &[("Authorization", "Bearer")], "");
    assert!(matches!(detect_auth(&c), Auth::NoAuth));
    let c = command("http://a/", &[], &[("Authorization", "Basic abc")], "");
    assert!(matches!(detect_auth(&c), Auth::NoAuth));
    assert_eq!(bearer_token("  Bearer \t tok  extra"), Some("tok".to_string()));
    assert_eq!(bearer_token("Bearerx tok"), None);
    let c = command("http://a/", &[], &[("Authorization", "Bearerx tok")], "");
    assert!(matches!(detect_auth(&c), Auth::NoAuth));
    assert_eq!(bearer_token("bearer tok"), None);
}

#[test]
fn query_round_trip() {
    let base = "http://x/y";
    let params = [("a", "1"), ("b", "2")];
    let query: Vec<String> = params.iter().map(|(k, v)| format!("{k}={v}")).collect();
    let full = format!("{base}?{}", query.join("&"));
    let req = parse_request(&command(&full, &[], &[], ""), "r".to_string()).unwrap();
    assert_eq!(req.url, "http://x/y");
    assert_eq!(
        rows(&req.params),
        vec![(true, "a".to_string(), "1".to_string()), (true, "b".to_string(), "2".to_string())]
    );
}

#[test]
fn query_pairs_are_decoded() {
    let req = parse_request(&command("http://x/y?q=a%20b&r=c+d", &[], &[], ""), "r".to_string()).unwrap();
    assert_eq!(
        rows(&req.params),
        vec![(true, "q".to_string(), "a b".to_string()), (true, "r".to_string(), "c d".to_string())]
    );
    assert_eq!(req.url, "http://x/y");
}

#[test]
fn invalid_url_is_an_error() {
    let r = parse_request(&command("not a url", &[], &[], ""), "r".to_string());
    assert_eq!(r.err(), Some(ImportError::InvalidUrl));
}

#[test]
fn file_name_is_the_stem() {
    assert_eq!(extract_file_name("requests/my_request.curl"), Ok("my_request".to_string()));
    assert_eq!(extract_file_name("plain"), Ok("plain".to_string()));
    assert_eq!(extract_file_name(""), Err("Filename not found".to_string()));
    assert_eq!(extract_file_name("/"), Err("Filename not found".to_string()));
}

#[test]
fn import_from_text() {
    let text = "curl 'http://example.com/api?x=1' -H 'X-Foo: bar' --data-raw '{\"a\":1}' -u 'alice:secret'";
    let req = import_curl(text, "dir/get_api.curl").unwrap();
    assert_eq!(req.name, "get_api");
    assert_eq!(req.url, "http://example.com/api");
    assert_eq!(req.method, Method::POST);
    assert_eq!(rows(&req.params), vec![(true, "x".to_string(), "1".to_string())]);
    assert_eq!(rows(&req.headers), vec![(true, "X-Foo".to_string(), "bar".to_string())]);
    assert!(matches!(&req.auth, Auth::BasicAuth(u, p) if u == "alice" && p == "secret"));
    assert!(matches!(&req.body, ContentType::Raw(b) if b == "{\"a\":1}"));
}

#[test]
fn import_errors() {
    assert_eq!(import_curl("curl 'http://a/'", "").err(), Some(ImportError::NoFileName));
    // the command is read before the file name is looked at
    assert_eq!(import_curl("hello", "").err(), Some(ImportError::MalformedCurl));
    assert_eq!(import_curl("hello", "a.curl").err(), Some(ImportError::MalformedCurl));
    assert_eq!(import_curl("curl 'nope'", "a.curl").err(), Some(ImportError::InvalidUrl));
}

#[test]
fn text_helpers() {
    assert_eq!(split_once("a:b:c", ':'), Some(("a".to_string(), "b:c".to_string())));
    assert_eq!(split_once(":", ':'), Some((String::new(), String::new())));
    assert_eq!(split_once("abc", ':'), None);
    assert_eq!(two_words(" one  two three"), Some(("one".to_string(), "two".to_string())));
    assert_eq!(two_words("one "), None);
}
