use bupt_rs::error::LoginError;
use bupt_rs::handshake::service_login_page;
use bupt_rs::json::card_balance;
use bupt_rs::signin::signin_info_from_qr;

#[test]
fn attendance_code_is_read() {
    let info = signin_info_from_qr(
        "checkwork|id=A1&siteId=S2&createTime=2025-01-01 10:00&classLessonId=L4 trailing",
    )
    .unwrap();
    assert_eq!(info.attendance_detail_info.attendance_id, "A1");
    assert_eq!(info.attendance_detail_info.site_id, "S2");
    assert_eq!(info.qr_code_create_time, "2025-01-01 10:00");
    assert_eq!(info.attendance_detail_info.class_lesson_id, "L4");
    assert_eq!(info.attendance_detail_info.user_id, "");
}

#[test]
fn attendance_code_takes_the_leftmost_match() {
    let info = signin_info_from_qr(
        "x checkwork|id=&siteId=1 checkwork|id=9&siteId=8&createTime=7&classLessonId=6&more",
    )
    .unwrap();
    assert_eq!(info.attendance_detail_info.attendance_id, "9");
    assert_eq!(info.attendance_detail_info.class_lesson_id, "6");
}

#[test]
fn other_codes_are_not_attendance() {
    assert!(signin_info_from_qr("https://example.com/").is_none());
    assert!(signin_info_from_qr("checkwork|id=1&siteId=2&createTime=3&classLessonId=").is_none());
}

#[test]
fn card_balance_is_read() {
    assert_eq!(card_balance(r#"{"oddfare":"12.50"}"#), Ok("12.50".to_string()));
    assert!(matches!(card_balance(r#"{"oddfare":12.5}"#), Err(LoginError::Deserialization(_))));
    assert!(matches!(card_balance("oops"), Err(LoginError::Deserialization(_))));
}

#[test]
fn service_login_page_encodes_the_service() {
    assert_eq!(
        service_login_page("http://my.bupt.edu.cn/a.jsp?x=1"),
        "https://auth.bupt.edu.cn/authserver/login?service=http%3A%2F%2Fmy.bupt.edu.cn%2Fa.jsp%3Fx%3D1"
    );
}
