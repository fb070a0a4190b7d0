use honeywell_rs::{
    Answer, Authentication, ErrorKind, Method, RenewStep, Request, SessionData, Status, TotalComfort,
    TotalComfortError, UserInfo, is_success, to_decimal,
};

fn user(id: u64) -> UserInfo {
    UserInfo {
        user_id: id,
        username: "u".to_string(),
        firstname: "First".to_string(),
        lastname: "Last".to_string(),
        street_address: "1 Main St".to_string(),
        city: "Springfield".to_string(),
        zipcode: "12345".to_string(),
        country: "US".to_string(),
        telephone: "555-0100".to_string(),
        user_language: "en-US".to_string(),
        is_activated: true,
        device_count: 1,
        tenant_id: 7,
        security_question1: "q1".to_string(),
        security_question2: "q2".to_string(),
        security_question3: "q3".to_string(),
        latest_eula_accepted: true,
    }
}

fn session(token: &str, id: u64) -> SessionData {
    SessionData { session_id: token.to_string(), user_info: user(id) }
}

fn status(code: u16, text: &str) -> Result<Status, String> {
    Ok(Status { code, text: text.to_string() })
}

fn pairs(v: &[(String, String)]) -> Vec<(&str, &str)> {
    v.iter().map(|(a, b)| (a.as_str(), b.as_str())).collect()
}

fn env_auth(a: &str, u: &str, p: &str) -> Authentication {
    Authentication::from_env(Some(a.to_string()), Some(u.to_string()), Some(p.to_string())).unwrap()
}

fn expect_err<T>(r: Result<T, TotalComfortError>, kind: ErrorKind, text: &str) {
    match r {
        Ok(_) => panic!("expected an error"),
        Err(e) => {
            assert_eq!(e.kind(), kind);
            assert_eq!(e.description().as_str(), text);
        }
    }
}

fn answer<T>(code: u16, text: &str, body: Result<T, String>) -> Result<Answer<T>, String> {
    Ok(Answer { status: Status { code, text: text.to_string() }, body })
}

fn logged_in_client(token: &str, id: u64) -> TotalComfort {
    let mut c = TotalComfort::new();
    c.authenticate_reply(env_auth("a", "u", "p"), answer(200, "200 OK", Ok(session(token, id))))
        .unwrap();
    c
}

fn some(v: &str) -> Option<String> {
    Some(v.to_string())
}

fn no_session_body() -> Result<SessionData, String> {
    Err("expected value at line 1 column 1".to_string())
}

#[test]
fn from_env_missing_application_id() {
    let r = Authentication::from_env(None, Some("u".to_string()), Some("p".to_string()));
    expect_err(r, ErrorKind::Authentication, "environment variable not found: HONEYWELL_APPLICATION_ID");
}

#[test]
fn from_env_missing_username() {
    let r = Authentication::from_env(Some("a".to_string()), None, Some("p".to_string()));
    expect_err(r, ErrorKind::Authentication, "environment variable not found: HONEYWELL_USERNAME");
}

#[test]
fn from_env_missing_password() {
    let r = Authentication::from_env(Some("a".to_string()), Some("u".to_string()), None);
    expect_err(r, ErrorKind::Authentication, "environment variable not found: HONEYWELL_PASSWORD");
}

#[test]
fn from_env_all_missing_names_first() {
    let r = Authentication::from_env(None, None, None);
    expect_err(r, ErrorKind::Authentication, "environment variable not found: HONEYWELL_APPLICATION_ID");
}

#[test]
fn from_env_complete() {
    let a = env_auth("a", "u", "p");
    assert_eq!(a.application_id().as_str(), "a");
    assert_eq!(a.username().as_str(), "u");
    assert_eq!(a.password().as_str(), "p");
}

#[test]
fn new_needs_application_id() {
    let r = Authentication::new("u", "p", None);
    expect_err(r, ErrorKind::Authentication, "environment variable not found: HONEYWELL_APPLICATION_ID");
    let a = Authentication::new("user", "pw", Some("app".to_string())).unwrap();
    assert_eq!(a.username().as_str(), "user");
    assert_eq!(a.password().as_str(), "pw");
    assert_eq!(a.application_id().as_str(), "app");
}

#[test]
fn credentials_summary_leaves_out_password() {
    let a = env_auth("a", "u", "secret");
    let text = a.summary();
    assert_eq!(text, "User { username: \"u\", application_id: \"a\" }");
    assert!(!text.contains("secret"));
}

#[test]
fn renew_without_session_fails_without_request() {
    let c = TotalComfort::new();
    assert!(!c.is_authenticated());
    expect_err(c.renew_request(), ErrorKind::Renew, "must authenticate first");
    expect_err(
        c.renew_reply(status(401, "401 Unauthorized"), some("a"), some("u"), some("p")),
        ErrorKind::Renew,
        "must authenticate first",
    );
}

#[test]
fn get_locations_without_session_fails_without_request() {
    let c = TotalComfort::default();
    assert!(c.session().is_none());
    expect_err(c.get_locations_request(), ErrorKind::Retrieve, "must authenticate first");
    expect_err(
        c.get_locations_reply(answer(200, "200 OK", Ok(vec![1u32]))),
        ErrorKind::Retrieve,
        "must authenticate first",
    );
}

#[test]
fn login_request_posts_credentials() {
    let r: Request = TotalComfort::authenticate_request(&env_auth("a", "u", "p"));
    assert_eq!(r.method, Method::Post);
    assert_eq!(r.url, "https://mytotalconnectcomfort.com/WebApi/api/Session");
    assert_eq!(
        pairs(&r.headers),
        vec![("Accept", "application/json"), ("Content-Type", "application/json")]
    );
    assert!(r.query.is_empty());
    assert_eq!(pairs(&r.body), vec![("username", "u"), ("password", "p"), ("applicationId", "a")]);
}

#[test]
fn login_reply_classification() {
    let mut c = TotalComfort::new();
    expect_err(
        c.authenticate_reply(env_auth("a", "u", "p"), answer(401, "401 Unauthorized", no_session_body())),
        ErrorKind::Authentication,
        "401 Unauthorized",
    );
    expect_err(
        c.authenticate_reply(env_auth("a", "u", "p"), Err("connection refused".to_string())),
        ErrorKind::Authentication,
        "connection refused",
    );
    expect_err(
        c.authenticate_reply(env_auth("a", "u", "p"), answer(500, "500 Internal Server Error", Ok(session("S", 1)))),
        ErrorKind::Authentication,
        "500 Internal Server Error",
    );
    assert!(!c.is_authenticated());
}

#[test]
fn login_success_stores_session() {
    let c = logged_in_client("S1", 42);
    assert!(c.is_authenticated());
    assert_eq!(c.session().unwrap().session_id.as_str(), "S1");
    assert_eq!(c.session().unwrap().user_info.user_id, 42);
}

#[test]
fn login_replaces_previous_session() {
    let mut c = logged_in_client("S1", 42);
    c.authenticate_reply(env_auth("a", "u", "p"), answer(200, "200 OK", Ok(session("S2", 43)))).unwrap();
    assert_eq!(c.session().unwrap().session_id.as_str(), "S2");
}

#[test]
fn login_undecodable_body_keeps_state() {
    let mut c = logged_in_client("S1", 42);
    let r = c.authenticate_reply(env_auth("a", "u", "p"), answer(200, "200 OK", Err("expected value".to_string())));
    expect_err(r, ErrorKind::Authentication, "expected value");
    assert_eq!(c.session().unwrap().session_id.as_str(), "S1");
}

#[test]
fn authenticate_with_session_installs_it() {
    let mut c = TotalComfort::new();
    c.authenticate_with_session(session("S9", 9));
    assert!(c.is_authenticated());
    let r = c.renew_request().unwrap();
    assert_eq!(pairs(&r.headers)[0], ("sessionId", "S9"));
}

#[test]
fn fetch_after_login_carries_token() {
    let c = logged_in_client("TOKEN", 5);
    let r = c.get_locations_request().unwrap();
    assert!(pairs(&r.headers).contains(&("sessionId", "TOKEN")));
}

#[test]
fn renew_request_shape() {
    let c = logged_in_client("S1", 42);
    let r = c.renew_request().unwrap();
    assert_eq!(r.method, Method::Put);
    assert_eq!(r.url, "https://mytotalconnectcomfort.com/WebApi/api/session");
    assert_eq!(
        pairs(&r.headers),
        vec![("sessionId", "S1"), ("Accept", "application/json"), ("Content-Length", "0")]
    );
    assert!(r.query.is_empty());
    assert!(r.body.is_empty());
}

#[test]
fn renew_reply_classification() {
    let c = logged_in_client("S1", 42);
    assert!(matches!(c.renew_reply(status(200, "200 OK"), None, None, None), Ok(RenewStep::Renewed)));
    assert!(matches!(c.renew_reply(status(204, "204 No Content"), None, None, None), Ok(RenewStep::Renewed)));
    expect_err(
        c.renew_reply(status(500, "500 Internal Server Error"), some("a"), some("u"), some("p")),
        ErrorKind::Renew,
        "500 Internal Server Error",
    );
    expect_err(
        c.renew_reply(Err("timed out".to_string()), some("a"), some("u"), some("p")),
        ErrorKind::Renew,
        "timed out",
    );
}

#[test]
fn renew_unauthorized_falls_back_to_login() {
    let mut c = logged_in_client("OLD", 42);
    let step = c.renew_reply(status(401, "401 Unauthorized"), some("a2"), some("u2"), some("p2")).unwrap();
    let RenewStep::Reauthenticate(auth, login) = step else { panic!("expected a fallback login") };
    assert_eq!(auth.username().as_str(), "u2");
    assert_eq!(login.method, Method::Post);
    assert_eq!(login.url, "https://mytotalconnectcomfort.com/WebApi/api/Session");
    assert_eq!(pairs(&login.body), vec![("username", "u2"), ("password", "p2"), ("applicationId", "a2")]);
    assert!(c.authenticate_reply(auth, answer(200, "200 OK", Ok(session("NEW", 42)))).is_ok());
    assert_eq!(c.session().unwrap().session_id.as_str(), "NEW");
}

#[test]
fn renew_unauthorized_missing_variable_is_returned() {
    let c = logged_in_client("OLD", 42);
    expect_err(
        c.renew_reply(status(401, "401 Unauthorized"), some("a"), None, some("p")),
        ErrorKind::Authentication,
        "environment variable not found: HONEYWELL_USERNAME",
    );
    expect_err(
        c.renew_reply(status(401, "401 Unauthorized"), None, None, None),
        ErrorKind::Authentication,
        "environment variable not found: HONEYWELL_APPLICATION_ID",
    );
}

#[test]
fn renew_unauthorized_fallback_login_failure_is_returned() {
    let mut c = logged_in_client("OLD", 42);
    let step = c.renew_reply(status(401, "401 Unauthorized"), some("a"), some("u"), some("p")).unwrap();
    let RenewStep::Reauthenticate(auth, _) = step else { panic!("expected a fallback login") };
    expect_err(
        c.authenticate_reply(auth, answer(403, "403 Forbidden", no_session_body())),
        ErrorKind::Authentication,
        "403 Forbidden",
    );
    assert_eq!(c.session().unwrap().session_id.as_str(), "OLD");
}

#[test]
fn fetch_unauthorized_is_authentication_failure() {
    let c = logged_in_client("S1", 42);
    expect_err(
        c.get_locations_reply::<Vec<u32>>(answer(401, "401 Unauthorized", Err("eof".to_string()))),
        ErrorKind::Authentication,
        "401 Unauthorized",
    );
}

#[test]
fn fetch_other_failure_is_retrieve_failure() {
    let c = logged_in_client("S1", 42);
    expect_err(
        c.get_locations_reply::<Vec<u32>>(answer(500, "500 Internal Server Error", Err("eof".to_string()))),
        ErrorKind::Retrieve,
        "500 Internal Server Error",
    );
    expect_err(
        c.get_locations_reply::<Vec<u32>>(answer(404, "404 Not Found", Ok(vec![1]))),
        ErrorKind::Retrieve,
        "404 Not Found",
    );
    expect_err(
        c.get_locations_reply::<Vec<u32>>(Err("dns error".to_string())),
        ErrorKind::Retrieve,
        "dns error",
    );
}

#[test]
fn fetch_decoding() {
    let c = logged_in_client("S1", 42);
    let ok = c.get_locations_reply(answer(200, "200 OK", Ok(vec![1u32, 2])));
    assert_eq!(ok.unwrap(), vec![1, 2]);
    let bad = c.get_locations_reply::<Vec<u32>>(answer(200, "200 OK", Err("missing field `name`".to_string())));
    expect_err(bad, ErrorKind::Retrieve, "missing field `name`");
}

#[test]
fn end_to_end_login_then_fetch() {
    let auth = Authentication::from_env(some("a"), some("u"), some("p")).unwrap();
    let login = TotalComfort::authenticate_request(&auth);
    assert_eq!(login.method, Method::Post);
    assert!(login.url.ends_with("api/Session"));
    let mut c = TotalComfort::new();
    c.authenticate_reply(auth, answer(200, "200 OK", Ok(session("S1", 42)))).unwrap();
    let fetch = c.get_locations_request().unwrap();
    assert_eq!(fetch.method, Method::Get);
    assert_eq!(fetch.url, "https://mytotalconnectcomfort.com/WebApi/api/locations");
    assert_eq!(pairs(&fetch.query), vec![("userId", "42"), ("allData", "true")]);
    assert!(pairs(&fetch.headers).contains(&("sessionId", "S1")));
    assert_eq!(
        pairs(&fetch.headers),
        vec![("Accept", "application/json"), ("sessionId", "S1")]
    );
}

#[test]
fn decimal_notation() {
    assert_eq!(to_decimal(0), "0");
    assert_eq!(to_decimal(7), "7");
    assert_eq!(to_decimal(42), "42");
    assert_eq!(to_decimal(1000), "1000");
    assert_eq!(to_decimal(u64::MAX), "18446744073709551615");
}

#[test]
fn success_class_bounds() {
    assert!(!is_success(199));
    assert!(is_success(200));
    assert!(is_success(299));
    assert!(!is_success(300));
    assert!(!is_success(401));
}

#[test]
fn error_text() {
    assert_eq!(
        TotalComfortError::AuthenticationFailed("x".to_string()).to_string(),
        "Authentication failed: x"
    );
    assert_eq!(TotalComfortError::RenewFailed("y".to_string()).to_string(), "Renew failed: y");
    assert_eq!(
        TotalComfortError::DataRetrive("z".to_string()).to_string(),
        "Data retrieve failed: z"
    );
}
