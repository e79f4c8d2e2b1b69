use bupt_rs::error::{AuthError, LoginError, ProtocolError};
use bupt_rs::handshake::{
    after_final_page, after_landing, after_mobile_answer, after_submission, after_token,
    login_page_url, mobile_request, submission, NextRequest, Session,
};
use bupt_rs::json::{mobile_login_result, user_info_from_json};
use bupt_rs::profile::{
    electricity_profile, information_portal_profile, mobile_academic_profile, ucloud_profile,
    Credential,
};

fn credential(user: &str, password: &str) -> Credential {
    Credential { username: user.to_string(), password: password.to_string() }
}

fn token_payload(access: &str, user_id: &str) -> String {
    let mut s = String::new();
    s.push_str(r#"{"access_token":""#);
    s.push_str(access);
    s.push_str(r#"","token_type":"bearer","refresh_token":"RT1","expires_in":3600,"#);
    s.push_str(r#""scope":"all","tenant_id":"000000","loginId":"L1","managementDept":"M","#);
    s.push_str(r#""user_name":"name","currentDomain":"D","real_name":"Real","avatar":"","#);
    s.push_str(r#""client_id":"portal","license":"lic","currentTerm":"T","belongDept":"B","#);
    s.push_str(r#""user_id":""#);
    s.push_str(user_id);
    s.push_str(r#"","currentRole":"student","account":"2021","jti":"J1","extra":1}"#);
    s
}

#[test]
fn login_page_url_encodes_the_service() {
    assert_eq!(
        login_page_url(&ucloud_profile()),
        "https://auth.bupt.edu.cn/authserver/login?service=https%3A%2F%2Fucloud.bupt.edu.cn"
    );
}

#[test]
fn refused_credentials_are_reported() {
    assert_eq!(
        after_submission(&ucloud_profile(), 401, None).unwrap_err(),
        LoginError::Auth(AuthError::InvalidCredentials)
    );
    assert_eq!(
        after_submission(&electricity_profile(), 401, None).unwrap_err(),
        LoginError::Auth(AuthError::InvalidCredentials)
    );
}

#[test]
fn ticket_mode_rejects_a_plain_success() {
    assert_eq!(
        after_submission(&ucloud_profile(), 200, None).unwrap_err(),
        LoginError::Auth(AuthError::UnexpectedStatus(200))
    );
    assert_eq!(
        after_submission(&electricity_profile(), 500, None).unwrap_err(),
        LoginError::Auth(AuthError::UnexpectedStatus(500))
    );
    assert_eq!(
        after_submission(&ucloud_profile(), 302, None).unwrap_err(),
        LoginError::Protocol(ProtocolError::MissingTicket)
    );
}

#[test]
fn follow_redirect_scenario_yields_the_cookie_header() {
    let profile = electricity_profile();
    let page = r#"<html><input name="execution" value="E1"/></html>"#;
    let sub = submission(&profile, &credential("2021", "pw"), &vec!["JSESSIONID=abc".to_string()], page)
        .unwrap();
    assert_eq!(sub.seed_url, "https://auth.bupt.edu.cn");
    assert_eq!(sub.seed_cookies, vec!["JSESSIONID=abc; Domain=auth.bupt.edu.cn; Path=/".to_string()]);
    assert!(sub.follow_redirects);
    assert!(sub.body.contains("&execution=E1&"));
    assert!(sub.body.starts_with("username=2021&password=pw&submit=%E7%99%BB%E5%BD%95"));
    assert_eq!(sub.referer, format!("https://auth.bupt.edu.cn/authserver/login?service={}", profile.service_url));
    assert_eq!(sub.url, sub.referer);
    let next = after_submission(&profile, 200, None).unwrap();
    let cookie_url = match next {
        NextRequest::FinalPage { url, cookie_url } => {
            assert_eq!(url, "https://app.bupt.edu.cn/buptdf/wap/default/chong");
            cookie_url
        }
        other => panic!("unexpected {:?}", other),
    };
    assert_eq!(cookie_url, "https://app.bupt.edu.cn");
    match after_final_page(200, Some("JSESSIONID=abc; eai-sess=z".to_string())).unwrap() {
        Session::Cookie { cookie_header } => assert!(cookie_header.contains("JSESSIONID=abc")),
        other => panic!("unexpected {:?}", other),
    }
    assert_eq!(
        after_final_page(200, None).unwrap_err(),
        LoginError::Protocol(ProtocolError::MissingCookie)
    );
    assert_eq!(
        after_final_page(404, Some("a=b".to_string())).unwrap_err(),
        LoginError::Auth(AuthError::UnexpectedStatus(404))
    );
}

#[test]
fn ticket_exchange_scenario_yields_the_token() {
    let profile = ucloud_profile();
    let sub = submission(
        &profile,
        &credential("2021", "pw"),
        &vec!["route=1".to_string()],
        r#"<input name="execution" value="E9""#,
    )
    .unwrap();
    assert!(!sub.follow_redirects);
    assert_eq!(sub.url, "https://auth.bupt.edu.cn/authserver/login");
    let next = after_submission(&profile, 302, Some("https://app/callback?ticket=T1".to_string())).unwrap();
    match next {
        NextRequest::Token { url, body } => {
            assert_eq!(url, "https://apiucloud.bupt.edu.cn/ykt-basics/oauth/token");
            assert_eq!(body, "ticket=T1&grant_type=third");
        }
        other => panic!("unexpected {:?}", other),
    }
    match after_token(200, &token_payload("AT1", "U1")).unwrap() {
        Session::Token(info) => {
            assert_eq!(info.access_token, "AT1");
            assert_eq!(info.user_id, "U1");
            assert_eq!(info.expires_in, 3600);
            assert_eq!(info.login_id, "L1");
        }
        other => panic!("unexpected {:?}", other),
    }
    assert_eq!(
        after_token(401, "{}").unwrap_err(),
        LoginError::Auth(AuthError::TokenExchangeFailed(401))
    );
}

#[test]
fn session_id_scenario_yields_the_identifier() {
    let profile = information_portal_profile();
    let next = after_submission(
        &profile,
        302,
        Some("http://my.bupt.edu.cn/system/resource/code/auth/clogin.jsp?owner=1664271694&ticket=ST-1".to_string()),
    )
    .unwrap();
    match next {
        NextRequest::Landing { url, cookie_name } => {
            assert_eq!(
                url,
                "http://my.bupt.edu.cn/system/resource/code/auth/clogin.jsp?owner=1664271694&ticket=ST-1"
            );
            assert_eq!(cookie_name, "JSESSIONID");
            match after_landing(&cookie_name, &vec!["JSESSIONID=S1; Path=/".to_string()]).unwrap() {
                Session::SessionId { session_id } => assert_eq!(session_id, "S1"),
                other => panic!("unexpected {:?}", other),
            }
        }
        other => panic!("unexpected {:?}", other),
    }
}

#[test]
fn attempts_do_not_share_cookies() {
    let page = r#"<input name="execution" value="E1""#;
    let a = submission(&electricity_profile(), &credential("a", "1"), &vec!["S=alpha".to_string()], page).unwrap();
    let b = submission(&electricity_profile(), &credential("b", "2"), &vec!["S=beta".to_string()], page).unwrap();
    assert!(a.seed_cookies.iter().all(|c| c.contains("alpha") && !c.contains("beta")));
    assert!(b.seed_cookies.iter().all(|c| c.contains("beta") && !c.contains("alpha")));
    assert!(a.body.starts_with("username=a&password=1&"));
    assert!(b.body.starts_with("username=b&password=2&"));
}

#[test]
fn token_payload_must_be_complete() {
    assert!(user_info_from_json(&token_payload("A", "U")).is_ok());
    assert!(matches!(
        user_info_from_json(r#"{"access_token":"A"}"#),
        Err(LoginError::Deserialization(_))
    ));
    assert!(matches!(user_info_from_json("not json"), Err(LoginError::Deserialization(_))));
    let wrong_type = token_payload("A", "U").replace("\"expires_in\":3600", "\"expires_in\":\"x\"");
    assert!(matches!(user_info_from_json(&wrong_type), Err(LoginError::Deserialization(_))));
}

#[test]
fn mobile_answer_is_read() {
    assert_eq!(
        mobile_login_result(r#"{"code":"1","data":{"token":"TK"},"Msg":"ok"}"#),
        Ok("TK".to_string())
    );
    assert_eq!(
        mobile_login_result(r#"{"code":"0","Msg":"wrong password"}"#),
        Err(LoginError::Auth(AuthError::Rejected("wrong password".to_string())))
    );
    assert_eq!(
        mobile_login_result(r#"{"code":1}"#),
        Err(LoginError::Auth(AuthError::Rejected("Unknown error".to_string())))
    );
    assert!(matches!(mobile_login_result("<html>"), Err(LoginError::Deserialization(_))));
    match after_mobile_answer(r#"{"code":"1","data":{"token":"TK"}}"#).unwrap() {
        Session::Bearer { token } => assert_eq!(token, "TK"),
        other => panic!("unexpected {:?}", other),
    }
}

#[test]
fn mobile_request_carries_the_encrypted_password() {
    let req = mobile_request(&mobile_academic_profile(), &credential("2021", "pw"));
    assert_eq!(req.url, "http://jwglweixin.bupt.edu.cn/bjyddx/login");
    let names: Vec<&str> = req.fields.iter().map(|(k, _)| k.as_str()).collect();
    assert_eq!(names, vec!["userNo", "pwd", "encode", "captchaData", "codeVal"]);
    assert_eq!(req.fields[0].1, "2021");
    assert_ne!(req.fields[1].1, "pw");
    assert_eq!(req.fields[2].1, "1");
    assert_eq!(req.fields[3].1, "");
}
