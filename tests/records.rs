use atac::access::AccessFlag;
use atac::app::{App, AppState, Collection, RequestSlot};
use atac::auth::Auth;
use atac::curl::ImportError;
use atac::environment::environment_name;
use atac::request::Request;

fn app_with(auth: Auth) -> App {
    let mut app = App::new();
    let mut other = Request::new();
    other.name = "other".to_string();
    let mut request = Request::new();
    request.name = "selected".to_string();
    request.auth = auth;
    app.records.push(RequestSlot { request: other, access: AccessFlag::new() });
    app.records.push(RequestSlot { request, access: AccessFlag::new() });
    app.collections.push(Collection { name: "c0".to_string(), requests: vec![0] });
    app.collections.push(Collection { name: "c1".to_string(), requests: vec![0, 1] });
    app.selected = Some((1, 1));
    app
}

#[test]
fn reads_share_and_writes_exclude() {
    let mut f = AccessFlag::new();
    assert!(f.try_read());
    assert!(f.try_read());
    assert!(!f.try_write());
    f.release_read();
    assert!(!f.try_write());
    f.release_read();
    assert!(f.is_idle());
    assert!(f.try_write());
    assert!(!f.try_read());
    assert!(!f.try_write());
    f.release_write();
    assert!(f.is_idle());
    assert!(f.try_read());
}

#[test]
fn modify_request_auth_cycles_the_selected_record() {
    let mut app = app_with(Auth::BasicAuth("alice".to_string(), "secret".to_string()));
    app.auth_basic_username_text_input = "alice".to_string();
    app.modify_request_auth();
    assert!(matches!(&app.records[1].request.auth, Auth::BearerToken(t) if t.is_empty()));
    assert!(matches!(app.records[0].request.auth, Auth::NoAuth));
    assert_eq!(app.collections_to_save, vec![1]);
    assert!(app.auth_basic_username_text_input.is_empty());
    assert!(app.records.iter().all(|s| s.access.is_idle()));
    app.modify_request_auth();
    app.modify_request_auth();
    assert!(matches!(&app.records[1].request.auth, Auth::BasicAuth(u, p) if u.is_empty() && p.is_empty()));
    assert_eq!(app.collections_to_save, vec![1, 1, 1]);
}

#[test]
fn modify_basic_fields() {
    let mut app = app_with(Auth::BasicAuth("alice".to_string(), "secret".to_string()));
    app.auth_basic_username_text_input = "bob".to_string();
    app.modify_request_auth_basic_username();
    app.auth_basic_password_text_input = "pw".to_string();
    app.modify_request_auth_basic_password();
    assert!(matches!(&app.records[1].request.auth, Auth::BasicAuth(u, p) if u == "bob" && p == "pw"));
    assert_eq!(app.records[1].request.name, "selected");
    assert_eq!(app.state, AppState::SelectedRequest);
    assert_eq!(app.collections_to_save, vec![1, 1]);
}

#[test]
fn modify_on_other_kind_keeps_auth() {
    let mut app = app_with(Auth::NoAuth);
    app.auth_bearer_token_text_input = "tok".to_string();
    app.modify_request_auth_bearer_token();
    assert!(matches!(app.records[1].request.auth, Auth::NoAuth));
    let mut app = app_with(Auth::BearerToken("old".to_string()));
    app.auth_bearer_token_text_input = "new".to_string();
    app.modify_request_auth_bearer_token();
    assert!(matches!(&app.records[1].request.auth, Auth::BearerToken(t) if t == "new"));
    app.auth_basic_username_text_input = "x".to_string();
    app.modify_request_auth_basic_username();
    assert!(matches!(&app.records[1].request.auth, Auth::BearerToken(t) if t == "new"));
}

#[test]
fn select_auth_input_by_kind() {
    let mut app = app_with(Auth::BasicAuth(String::new(), String::new()));
    app.select_request_auth_input_text();
    assert_eq!(app.state, AppState::EditingRequestAuthUsername);
    app.auth_text_input_selection = 1;
    app.select_request_auth_input_text();
    assert_eq!(app.state, AppState::EditingRequestAuthPassword);
    let mut app = app_with(Auth::BearerToken(String::new()));
    app.select_request_auth_input_text();
    assert_eq!(app.state, AppState::EditingRequestAuthBearerToken);
    let mut app = app_with(Auth::NoAuth);
    app.select_request_auth_input_text();
    assert_eq!(app.state, AppState::Normal);
    assert!(app.records[1].access.is_idle());
}

#[test]
fn import_curl_file_holds_the_request() {
    let mut app = App::new();
    let r = app.import_curl_file("curl 'https://example.com/a?b=c' -X 'PUT'", "x/put_a.curl");
    assert_eq!(r, Ok(()));
    assert_eq!(app.state, AppState::ChoosingElementToCreate);
    let req = app.tmp_request.as_ref().unwrap();
    assert_eq!(req.name, "put_a");
    assert_eq!(req.url, "https://example.com/a");
    assert_eq!(req.method, atac::request::Method::PUT);
    let mut app = App::new();
    assert_eq!(app.import_curl_file("nonsense", "x.curl"), Err(ImportError::MalformedCurl));
    assert!(app.tmp_request.is_none());
    assert_eq!(app.state, AppState::Normal);
}

#[test]
fn environment_from_file_name() {
    // the literal `.env.` is taken out, dots included
    assert_eq!(environment_name("config.env.staging"), "configstaging");
    assert_eq!(environment_name("a.env.b.env.c"), "abc");
    assert_eq!(environment_name("x.env.env.y"), "xenv.y");
    assert_eq!(environment_name(".env.local"), "local");
    assert_eq!(environment_name("plain"), "plain");
    assert_eq!(environment_name(""), "");
    let mut app = App::new();
    app.add_environment("config.env.staging", vec![("KEY".to_string(), "VAL".to_string())]);
    assert_eq!(app.environments.len(), 1);
    assert_eq!(app.environments[0].name, "configstaging");
    assert_eq!(app.environments[0].values, vec![("KEY".to_string(), "VAL".to_string())]);
}
