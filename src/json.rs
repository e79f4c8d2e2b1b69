//! Reading the JSON bodies that end a handshake.

use crate::error::{AuthError, LoginError};
use crate::utils::types::UserInfo;
use vstd::prelude::*;
use vstd::string::StringExecFns;

verus! {

#[verifier::external_type_specification]
#[verifier::external_body]
pub struct ExValue(serde_json::Value);

/// Whether a text is one well-formed JSON value.
pub uninterp spec fn json_valid(text: Seq<char>) -> bool;

/// The string found at a JSON pointer inside a text, if the text is JSON and
/// a string stands there.
pub uninterp spec fn json_str_at(text: Seq<char>, pointer: Seq<char>) -> Option<Seq<char>>;

/// The integer found at a JSON pointer inside a text, if the text is JSON and
/// an integer that fits in `i64` stands there.
pub uninterp spec fn json_i64_at(text: Seq<char>, pointer: Seq<char>) -> Option<i64>;

/// Relies on `serde_json::from_str::<serde_json::Value>`: `Ok` exactly when the
/// text parses, else the parser's message.
#[verifier::external_body]
fn check_json(text: &str) -> (r: Result<(), String>)
    ensures
        r is Ok <==> json_valid(text@),
{
    serde_json::from_str::<serde_json::Value>(text).map(|_| ()).map_err(|e| e.to_string())
}

/// Relies on `serde_json::from_str::<serde_json::Value>`, `Value::pointer` and
/// `Value::as_str`: the string at the pointer.
#[verifier::external_body]
fn json_str(text: &str, pointer: &str) -> (r: Option<String>)
    ensures
        r is Some <==> json_str_at(text@, pointer@) is Some,
        r is Some ==> r->Some_0@ == json_str_at(text@, pointer@)->Some_0,
{
    serde_json::from_str::<serde_json::Value>(text).ok().and_then(
        |v| v.pointer(pointer).and_then(|x| x.as_str()).map(|s| s.to_string()),
    )
}

/// Relies on `serde_json::from_str::<serde_json::Value>`, `Value::pointer` and
/// `Value::as_i64`: the integer at the pointer.
#[verifier::external_body]
fn json_i64(text: &str, pointer: &str) -> (r: Option<i64>)
    ensures
        r == json_i64_at(text@, pointer@),
{
    serde_json::from_str::<serde_json::Value>(text).ok().and_then(
        |v| v.pointer(pointer).and_then(|x| x.as_i64()),
    )
}

fn str_field(text: &str, pointer: &str) -> (r: Result<String, LoginError>)
    ensures
        r is Ok <==> json_str_at(text@, pointer@) is Some,
        r is Ok ==> r->Ok_0@ == json_str_at(text@, pointer@)->Some_0,
        r is Err ==> r->Err_0 is Deserialization,
{
    match json_str(text, pointer) {
        Some(v) => Ok(v),
        None => {
            let mut msg = String::from_str("missing or mistyped field at ");
            msg.append(pointer);
            Err(LoginError::Deserialization(msg))
        },
    }
}


/// Every member of a token payload is present with the right type.
pub open spec fn user_info_present(text: Seq<char>) -> bool {
    &&& json_valid(text)
    &&& json_str_at(text, "/access_token"@) is Some
    &&& json_str_at(text, "/token_type"@) is Some
    &&& json_str_at(text, "/refresh_token"@) is Some
    &&& json_i64_at(text, "/expires_in"@) is Some
    &&& json_str_at(text, "/scope"@) is Some
    &&& json_str_at(text, "/tenant_id"@) is Some
    &&& json_str_at(text, "/loginId"@) is Some
    &&& json_str_at(text, "/managementDept"@) is Some
    &&& json_str_at(text, "/user_name"@) is Some
    &&& json_str_at(text, "/currentDomain"@) is Some
    &&& json_str_at(text, "/real_name"@) is Some
    &&& json_str_at(text, "/avatar"@) is Some
    &&& json_str_at(text, "/client_id"@) is Some
    &&& json_str_at(text, "/license"@) is Some
    &&& json_str_at(text, "/currentTerm"@) is Some
    &&& json_str_at(text, "/belongDept"@) is Some
    &&& json_str_at(text, "/user_id"@) is Some
    &&& json_str_at(text, "/currentRole"@) is Some
    &&& json_str_at(text, "/account"@) is Some
    &&& json_str_at(text, "/jti"@) is Some
}

/// Each field of the record is the member of the payload that it is read from.
pub open spec fn user_info_read_from(text: Seq<char>, u: UserInfo) -> bool {
    &&& u.access_token@ == json_str_at(text, "/access_token"@)->Some_0
    &&& u.token_type@ == json_str_at(text, "/token_type"@)->Some_0
    &&& u.refresh_token@ == json_str_at(text, "/refresh_token"@)->Some_0
    &&& u.expires_in == json_i64_at(text, "/expires_in"@)->Some_0
    &&& u.scope@ == json_str_at(text, "/scope"@)->Some_0
    &&& u.tenant_id@ == json_str_at(text, "/tenant_id"@)->Some_0
    &&& u.login_id@ == json_str_at(text, "/loginId"@)->Some_0
    &&& u.management_dept@ == json_str_at(text, "/managementDept"@)->Some_0
    &&& u.user_name@ == json_str_at(text, "/user_name"@)->Some_0
    &&& u.current_domain@ == json_str_at(text, "/currentDomain"@)->Some_0
    &&& u.real_name@ == json_str_at(text, "/real_name"@)->Some_0
    &&& u.avatar@ == json_str_at(text, "/avatar"@)->Some_0
    &&& u.client_id@ == json_str_at(text, "/client_id"@)->Some_0
    &&& u.license@ == json_str_at(text, "/license"@)->Some_0
    &&& u.current_term@ == json_str_at(text, "/currentTerm"@)->Some_0
    &&& u.belong_dept@ == json_str_at(text, "/belongDept"@)->Some_0
    &&& u.user_id@ == json_str_at(text, "/user_id"@)->Some_0
    &&& u.current_role@ == json_str_at(text, "/currentRole"@)->Some_0
    &&& u.account@ == json_str_at(text, "/account"@)->Some_0
    &&& u.jti@ == json_str_at(text, "/jti"@)->Some_0
}

/// Reads the bearer-token payload of the token endpoint. Any member that is
/// missing or mistyped, or a body that is no JSON, is a `Deserialization` error.
pub fn user_info_from_json(text: &str) -> (r: Result<UserInfo, LoginError>)
    ensures
        r is Ok <==> user_info_present(text@),
        r is Ok ==> user_info_read_from(text@, r->Ok_0),
        r is Err ==> r->Err_0 is Deserialization,
{
    match check_json(text) {
        Ok(()) => {},
        Err(msg) => return Err(LoginError::Deserialization(msg)),
    }
    let access_token = match str_field(text, "/access_token") {
        Ok(v) => v,
        Err(e) => return Err(e),
    };
    let token_type = match str_field(text, "/token_type") {
        Ok(v) => v,
        Err(e) => return Err(e),
    };
    let refresh_token = match str_field(text, "/refresh_token") {
        Ok(v) => v,
        Err(e) => return Err(e),
    };
    let expires_in = match json_i64(text, "/expires_in") {
        Some(v) => v,
        None => {
            return Err(LoginError::Deserialization(String::from_str("missing or mistyped field at /expires_in")));
        },
    };
    let scope = match str_field(text, "/scope") {
        Ok(v) => v,
        Err(e) => return Err(e),
    };
    let tenant_id = match str_field(text, "/tenant_id") {
        Ok(v) => v,
        Err(e) => return Err(e),
    };
    let login_id = match str_field(text, "/loginId") {
        Ok(v) => v,
        Err(e) => return Err(e),
    };
    let management_dept = match str_field(text, "/managementDept") {
        Ok(v) => v,
        Err(e) => return Err(e),
    };
    let user_name = match str_field(text, "/user_name") {
        Ok(v) => v,
        Err(e) => return Err(e),
    };
    let current_domain = match str_field(text, "/currentDomain") {
        Ok(v) => v,
        Err(e) => return Err(e),
    };
    let real_name = match str_field(text, "/real_name") {
        Ok(v) => v,
        Err(e) => return Err(e),
    };
    let avatar = match str_field(text, "/avatar") {
        Ok(v) => v,
        Err(e) => return Err(e),
    };
    let client_id = match str_field(text, "/client_id") {
        Ok(v) => v,
        Err(e) => return Err(e),
    };
    let license = match str_field(text, "/license") {
        Ok(v) => v,
        Err(e) => return Err(e),
    };
    let current_term = match str_field(text, "/currentTerm") {
        Ok(v) => v,
        Err(e) => return Err(e),
    };
    let belong_dept = match str_field(text, "/belongDept") {
        Ok(v) => v,
        Err(e) => return Err(e),
    };
    let user_id = match str_field(text, "/user_id") {
        Ok(v) => v,
        Err(e) => return Err(e),
    };
    let current_role = match str_field(text, "/currentRole") {
        Ok(v) => v,
        Err(e) => return Err(e),
    };
    let account = match str_field(text, "/account") {
        Ok(v) => v,
        Err(e) => return Err(e),
    };
    let jti = match str_field(text, "/jti") {
        Ok(v) => v,
        Err(e) => return Err(e),
    };
    Ok(UserInfo {
        access_token,
        token_type,
        refresh_token,
        expires_in,
        scope,
        tenant_id,
        login_id,
        management_dept,
        user_name,
        current_domain,
        real_name,
        avatar,
        client_id,
        license,
        current_term,
        belong_dept,
        user_id,
        current_role,
        account,
        jti,
    })
}

/// What the mobile portal's login answer means: with code `"1"` and a token at
/// `data.token`, that token; otherwise its `Msg`, or `"Unknown error"`.
pub open spec fn mobile_answer(text: Seq<char>) -> Result<Seq<char>, Seq<char>> {
    if json_str_at(text, "/code"@) == Some("1"@) && json_str_at(text, "/data/token"@) is Some {
        Ok(json_str_at(text, "/data/token"@)->Some_0)
    } else {
        match json_str_at(text, "/Msg"@) {
            Some(m) => Err(m),
            None => Err("Unknown error"@),
        }
    }
}

/// Reads the mobile portal's login answer: the token on success, `Rejected`
/// with the portal's message otherwise; a body that is no JSON is a
/// `Deserialization` error.
pub fn mobile_login_result(text: &str) -> (r: Result<String, LoginError>)
    ensures
        !json_valid(text@) ==> r is Err && r->Err_0 is Deserialization,
        json_valid(text@) ==> match mobile_answer(text@) {
            Ok(t) => r is Ok && r->Ok_0@ == t,
            Err(m) => r is Err && r->Err_0 is Auth && r->Err_0->Auth_0 is Rejected
                && r->Err_0->Auth_0->Rejected_0@ == m,
        },
{
    match check_json(text) {
        Ok(()) => {},
        Err(msg) => return Err(LoginError::Deserialization(msg)),
    }
    let code = json_str(text, "/code");
    let token = json_str(text, "/data/token");
    let ok = match &code {
        Some(c) => crate::text::str_eq(c.as_str(), "1"),
        None => false,
    };
    if ok {
        match token {
            Some(t) => return Ok(t),
            None => {},
        }
    }
    match json_str(text, "/Msg") {
        Some(m) => Err(LoginError::Auth(AuthError::Rejected(m))),
        None => Err(LoginError::Auth(AuthError::Rejected(String::from_str("Unknown error")))),
    }
}

/// Reads the campus-card balance answer: the string member `oddfare`.
pub fn card_balance(text: &str) -> (r: Result<String, LoginError>)
    ensures
        !json_valid(text@) ==> r is Err && r->Err_0 is Deserialization,
        json_valid(text@) ==> match json_str_at(text@, "/oddfare"@) {
            Some(v) => r is Ok && r->Ok_0@ == v,
            None => r is Err && r->Err_0 is Deserialization,
        },
{
    match check_json(text) {
        Ok(()) => {},
        Err(msg) => return Err(LoginError::Deserialization(msg)),
    }
    match json_str(text, "/oddfare") {
        Some(v) => Ok(v),
        None => Err(LoginError::Deserialization(String::from_str("Failed to parse balance"))),
    }
}

} // verus!
