use bupt_rs::cookies::seed_cookies;
use bupt_rs::error::{LoginError, ProtocolError};
use bupt_rs::form::{login_form_body, token_form_body};
use bupt_rs::scrape::{extract_execution, join_set_cookies, login_context};
use bupt_rs::text::{chars_of, str_eq, string_of, trim_chars};
use bupt_rs::ticket::{extract_session_id, extract_ticket, find_ticket};

#[test]
fn execution_token_is_read_from_the_form() {
    let html = r#"<form><input name="execution" value="ABC123"/><input name="_eventId"/></form>"#;
    assert_eq!(extract_execution(html), Ok("ABC123".to_string()));
}

#[test]
fn execution_token_is_found_after_other_attributes() {
    let html = r#"<input type="hidden" name="execution" value="X"/>"#;
    assert_eq!(extract_execution(html), Ok("X".to_string()));
    assert_eq!(extract_execution(r#"name="execution" value="ABC123""#), Ok("ABC123".to_string()));
}

#[test]
fn missing_execution_token_is_reported() {
    let html = r#"<form><input name="username" value="x"/></form>"#;
    assert_eq!(
        extract_execution(html),
        Err(LoginError::Protocol(ProtocolError::MissingExecutionToken))
    );
}

#[test]
fn execution_token_takes_the_first_match_on_one_line() {
    let html = "<input name=\"execution\" value=\"a\nb\"/>\n<input name=\"execution\" value=\"E2\"/><input name=\"execution\" value=\"E3\"/>";
    assert_eq!(extract_execution(html), Ok("E2".to_string()));
    assert_eq!(extract_execution("<input name=\"execution\" value=\"\""), Ok(String::new()));
}

#[test]
fn set_cookie_values_are_joined() {
    let values = vec!["a=1; Path=/".to_string(), "b=2".to_string()];
    assert_eq!(join_set_cookies(&values), Ok("a=1; Path=/; b=2".to_string()));
    assert_eq!(
        join_set_cookies(&vec![]),
        Err(LoginError::Protocol(ProtocolError::MissingCookie))
    );
}

#[test]
fn login_context_wants_cookies_first() {
    let html = r#"<input name="execution" value="E1""#;
    assert_eq!(
        login_context(&vec![], "no token").unwrap_err(),
        LoginError::Protocol(ProtocolError::MissingCookie)
    );
    let ctx = login_context(&vec!["JSESSIONID=abc".to_string()], html).unwrap();
    assert_eq!(ctx.raw_cookies, "JSESSIONID=abc");
    assert_eq!(ctx.execution, "E1");
}

#[test]
fn seed_cookies_register_each_pair_under_the_domain() {
    let seeds = seed_cookies("JSESSIONID=abc;  route=x=y ; novalue;;", "auth.bupt.edu.cn");
    assert_eq!(
        seeds,
        vec![
            "JSESSIONID=abc; Domain=auth.bupt.edu.cn; Path=/".to_string(),
            "route=x=y; Domain=auth.bupt.edu.cn; Path=/".to_string(),
        ]
    );
    assert!(seed_cookies("", "auth.bupt.edu.cn").is_empty());
}

#[test]
fn ticket_is_read_from_the_redirect_target() {
    assert_eq!(extract_ticket("https://host/path?ticket=XYZ&other=1"), Ok("XYZ".to_string()));
    assert_eq!(extract_ticket("https://host/p?a=1&ticket=ST%2B1&ticket=2"), Ok("ST+1".to_string()));
}

#[test]
fn missing_ticket_is_reported() {
    let missing = Err(LoginError::Protocol(ProtocolError::MissingTicket));
    assert_eq!(extract_ticket("https://host/path?other=1"), missing);
    assert_eq!(extract_ticket("not a url"), missing);
    assert_eq!(find_ticket(&vec![("tickets".to_string(), "1".to_string())]), missing);
}

#[test]
fn session_id_is_read_by_prefix() {
    let headers = vec![
        "JSESSIONIDX=no; Path=/".to_string(),
        "JSESSIONID=ABCD; Path=/; HttpOnly".to_string(),
        "JSESSIONID=EFGH".to_string(),
    ];
    assert_eq!(extract_session_id(&headers, "JSESSIONID"), Ok("ABCD".to_string()));
    assert_eq!(
        extract_session_id(&vec!["other=1".to_string()], "JSESSIONID"),
        Err(LoginError::Protocol(ProtocolError::MissingSessionCookie))
    );
}

#[test]
fn login_form_encodes_the_credentials() {
    let body = login_form_body("u@x", "p&w 登", "LOGIN", "E1");
    assert_eq!(
        body,
        "username=u%40x&password=p%26w%20%E7%99%BB&submit=LOGIN&type=username_password&execution=E1&_eventId=submit"
    );
    assert_eq!(token_form_body("T1"), "ticket=T1&grant_type=third");
}

#[test]
fn text_helpers_work_on_characters() {
    let cs = chars_of(" \té a \u{3000}");
    assert_eq!(string_of(&trim_chars(&cs, 0, cs.len())), "é a");
    assert!(str_eq("登录", "登录"));
    assert!(!str_eq("a", "ab"));
}
