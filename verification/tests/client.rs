use fritzctl::client::{grants_reboot, reboot_permitted, FritzClient};
use fritzctl::json::text_at;
use fritzctl::session::{AuthError, ClientError, Config, Session};
use fritzctl::wire::{form_data, pair, Method, Request};

fn client() -> FritzClient {
    FritzClient::new_with_config(Config::new("http://fritz.box", "admin", "testpw"))
}

fn logged_in() -> FritzClient {
    let mut client = client();
    assert!(client.complete_login(Session::new("9c4a1b0f33d2e871", "1234567z", 0)).is_ok());
    client
}

fn post(request: Request) -> (String, String) {
    match request {
        Request::PostForm { url, body } => (url, body),
        Request::Get { .. } => panic!("a POST was expected"),
    }
}

fn get(request: Request) -> (String, Vec<(String, String)>) {
    match request {
        Request::Get { url, query } => (url, query),
        Request::PostForm { .. } => panic!("a GET was expected"),
    }
}

fn pairs(list: &[(&str, &str)]) -> Vec<(String, String)> {
    list.iter().map(|(n, v)| (n.to_string(), v.to_string())).collect()
}

#[test]
fn new_client_is_not_logged_in() {
    let client = client();
    assert!(!client.logged_in());
    assert_eq!(client.session().sid, "0000000000000000");
    assert_eq!(client.config().base_url, "http://fritz.box");
    assert_eq!(client.config().username, "admin");
}

#[test]
fn challenge_request_is_a_plain_get() {
    let (url, query) = get(client().challenge_request());
    assert_eq!(url, "http://fritz.box/login_sid.lua");
    assert!(query.is_empty());
}

#[test]
fn login_request_carries_user_and_response() {
    let challenge = Session::new("0000000000000000", "1234567z", 0);
    let (url, body) = post(client().login_request(&challenge));
    assert_eq!(url, "http://fritz.box/login_sid.lua");
    assert_eq!(body, "username=admin&response=1234567z-69ce27a1f1d7e9e19dcdf66ca260cb85");
}

#[test]
fn login_with_valid_session_replaces_the_session() {
    let mut client = client();
    let result = client.complete_login(Session::new("9c4a1b0f33d2e871", "1234567z", 3));
    assert!(result.is_ok());
    assert!(client.logged_in());
    assert_eq!(client.session().sid, "9c4a1b0f33d2e871");
    assert_eq!(client.session().challenge, "1234567z");
    assert_eq!(client.session().block_time, 3);
}

#[test]
fn login_with_sentinel_is_rejected() {
    let mut client = client();
    let result = client.complete_login(Session::new("0000000000000000", "abc", 16));
    assert_eq!(result.unwrap_err().message(), "Login was not successful!");
    assert!(!client.logged_in());
    assert_eq!(client.session().challenge, "");
    assert_eq!(client.session().block_time, 0);
}

#[test]
fn rejected_login_keeps_an_earlier_session() {
    let mut client = logged_in();
    assert!(client.complete_login(Session::new("0000000000000000", "zzz", 0)).is_err());
    assert!(client.logged_in());
    assert_eq!(client.session().sid, "9c4a1b0f33d2e871");
}

#[test]
fn requests_before_login_fail_as_not_logged_in() {
    let client = client();
    assert!(matches!(client.overview_request(), Err(AuthError::NotLoggedIn)));
    assert!(matches!(client.devices_request(), Err(AuthError::NotLoggedIn)));
    assert!(matches!(client.reboot_request(), Err(AuthError::NotLoggedIn)));
    assert!(matches!(client.reboot_confirmation(), Err(AuthError::NotLoggedIn)));
    assert!(matches!(client.disconnect(), Err(AuthError::NotLoggedIn)));
    assert!(matches!(client.connect(), Err(AuthError::NotLoggedIn)));
    assert!(matches!(
        client.authenticated_request(Method::Post, "/data.lua", Vec::new()),
        Err(AuthError::NotLoggedIn)
    ));
}

#[test]
fn overview_request_posts_the_page() {
    let (url, body) = post(logged_in().overview_request().unwrap());
    assert_eq!(url, "http://fritz.box/data.lua");
    assert_eq!(body, "sid=9c4a1b0f33d2e871&page=overview");
}

#[test]
fn devices_request_posts_page_and_xhr_id() {
    let (url, body) = post(logged_in().devices_request().unwrap());
    assert_eq!(url, "http://fritz.box/data.lua");
    assert_eq!(body, "sid=9c4a1b0f33d2e871&page=netDev&xhrId=all");
}

#[test]
fn reboot_request_asks_for_permission() {
    let (url, body) = post(logged_in().reboot_request().unwrap());
    assert_eq!(url, "http://fritz.box/data.lua");
    assert_eq!(body, "sid=9c4a1b0f33d2e871&page=reboot&reboot=0");
}

#[test]
fn reboot_confirmation_posts_ajax() {
    let (url, body) = post(logged_in().reboot_confirmation().unwrap());
    assert_eq!(url, "http://fritz.box/reboot.lua");
    assert_eq!(body, "sid=9c4a1b0f33d2e871&ajax=1");
}

#[test]
fn disconnect_and_connect_are_gets_on_the_monitor() {
    let (url, query) = get(logged_in().disconnect().unwrap());
    assert_eq!(url, "http://fritz.box/internet/inetstat_monitor.lua");
    assert_eq!(
        query,
        pairs(&[("sid", "9c4a1b0f33d2e871"), ("myXhr", "1"), ("action", "disconnect")])
    );
    let (url, query) = get(logged_in().connect().unwrap());
    assert_eq!(url, "http://fritz.box/internet/inetstat_monitor.lua");
    assert_eq!(
        query,
        pairs(&[("sid", "9c4a1b0f33d2e871"), ("myXhr", "1"), ("action", "connect")])
    );
}

#[test]
fn authenticated_request_puts_the_sid_first() {
    let request = logged_in()
        .authenticated_request(Method::Post, "/x.lua", pairs(&[("a", "1"), ("b", "2")]))
        .unwrap();
    let (url, body) = post(request);
    assert_eq!(url, "http://fritz.box/x.lua");
    assert_eq!(body, "sid=9c4a1b0f33d2e871&a=1&b=2");
    let request = logged_in()
        .authenticated_request(Method::Get, "/y.lua", pairs(&[("a", "1")]))
        .unwrap();
    let (_, query) = get(request);
    assert_eq!(query, pairs(&[("sid", "9c4a1b0f33d2e871"), ("a", "1")]));
}

#[test]
fn form_data_encodes_names_and_values() {
    assert_eq!(form_data(&Vec::new()), "");
    assert_eq!(form_data(&pairs(&[("username", "admin")])), "username=admin");
    assert_eq!(
        form_data(&pairs(&[("username", "fritz user"), ("response", "a&b=c/é")])),
        "username=fritz+user&response=a%26b%3Dc%2F%C3%A9"
    );
    assert_eq!(form_data(&pairs(&[("", ""), ("", "")])), "=&=");
}

#[test]
fn pair_owns_name_and_value() {
    assert_eq!(pair("page", "overview"), ("page".to_string(), "overview".to_string()));
}

#[test]
fn request_new_by_method() {
    let (url, body) = post(Request::new(Method::Post, "u".to_string(), pairs(&[("k", "v w")])));
    assert_eq!((url.as_str(), body.as_str()), ("u", "k=v+w"));
    let (url, query) = get(Request::new(Method::Get, "u".to_string(), pairs(&[("k", "v w")])));
    assert_eq!(url, "u");
    assert_eq!(query, pairs(&[("k", "v w")]));
}

#[test]
fn only_ok_grants_a_reboot() {
    assert!(grants_reboot(Some("ok")));
    assert!(!grants_reboot(Some("OK")));
    assert!(!grants_reboot(Some("ok ")));
    assert!(!grants_reboot(Some("")));
    assert!(!grants_reboot(Some("failed")));
    assert!(!grants_reboot(None));
}

#[test]
fn reboot_is_permitted_by_ok_at_data_reboot() {
    assert!(matches!(reboot_permitted(br#"{"data":{"reboot":"ok"}}"#), Ok(true)));
    assert!(matches!(reboot_permitted(br#"{"pid":"reboot","data":{"reboot":"ok","x":1}}"#), Ok(true)));
}

#[test]
fn reboot_is_not_permitted_by_anything_else() {
    assert!(matches!(reboot_permitted(br#"{"data":{"reboot":"no"}}"#), Ok(false)));
    assert!(matches!(reboot_permitted(br#"{"data":{"reboot":true}}"#), Ok(false)));
    assert!(matches!(reboot_permitted(br#"{"data":{"reboot":null}}"#), Ok(false)));
    assert!(matches!(reboot_permitted(br#"{"data":{}}"#), Ok(false)));
    assert!(matches!(reboot_permitted(br#"{"reboot":"ok"}"#), Ok(false)));
    assert!(matches!(reboot_permitted(br#"{"data":["ok"]}"#), Ok(false)));
    assert!(matches!(reboot_permitted(b"[]"), Ok(false)));
    assert!(matches!(reboot_permitted(br#""ok""#), Ok(false)));
}

#[test]
fn malformed_reboot_answer_is_a_decode_error() {
    assert!(matches!(reboot_permitted(b""), Err(ClientError::Decode(_))));
    assert!(matches!(reboot_permitted(b"<html>"), Err(ClientError::Decode(_))));
    assert!(matches!(reboot_permitted(br#"{"data":{"reboot":"ok"}"#), Err(ClientError::Decode(_))));
    assert!(matches!(reboot_permitted(&[0xff, 0xfe]), Err(ClientError::Decode(_))));
}

#[test]
fn text_at_follows_the_pointer() {
    let body = br#"{"a":{"b":["x","y"]},"c":"z","d":5}"#;
    assert_eq!(text_at(body, "/a/b/1").ok().unwrap(), Some("y".to_string()));
    assert_eq!(text_at(body, "/c").ok().unwrap(), Some("z".to_string()));
    assert_eq!(text_at(body, "/d").ok().unwrap(), None);
    assert_eq!(text_at(body, "/a/b/2").ok().unwrap(), None);
    assert_eq!(text_at(body, "c").ok().unwrap(), None);
    assert_eq!(text_at(br#""whole""#, "").ok().unwrap(), Some("whole".to_string()));
    match text_at(b"{", "/c") {
        Err(ClientError::Decode(text)) => assert!(!text.is_empty()),
        _ => panic!("a decode error was expected"),
    }
}
