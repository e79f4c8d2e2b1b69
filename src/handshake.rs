//! The handshake as a state machine. Each function below is one transition:
//! it takes what the previous request brought back and yields the next
//! request, the session, or the error that ends the attempt. The caller owns
//! the transport and the cookie store of one attempt and performs the requests;
//! nothing is shared between attempts.

use crate::cookies::{seed_cookie_lines, seed_cookies, views};
use crate::encoder::{encode_password, encoded_password};
use crate::error::{AuthError, LoginError, ProtocolError};
use crate::form::{login_form, login_form_body, token_form, token_form_body, url_encoded};
use crate::json::{mobile_answer, mobile_login_result, json_valid, user_info_from_json, user_info_present, user_info_read_from};
use crate::profile::{Credential, Handshake, LoginProfile, MobileProfile};
use crate::scrape::{execution_token, joined, login_context};
use crate::ticket::{extract_session_id, extract_ticket, session_id_in, ticket_in, url_query_pairs};
use crate::utils::types::UserInfo;
use vstd::prelude::*;
use vstd::string::StringExecFns;

verus! {

/// The credential that a successful login yields, by portal.
#[derive(Debug)]
pub enum Session {
    /// The full `Cookie:` header value for the portal's domain.
    Cookie { cookie_header: String },
    /// A bearer token with the account's attributes.
    Token(UserInfo),
    /// The value of the portal's session-identifier cookie.
    SessionId { session_id: String },
    /// The mobile portal's token.
    Bearer { token: String },
}

/// Where the login page for the profile's service is fetched (redirects off).
pub open spec fn login_page_target(p: LoginProfile) -> Seq<char> {
    p.cas_url@ + "?service="@ + url_encoded(p.service_url@)
}

/// The login page URL: the service, percent-encoded, as the `service` parameter.
pub fn login_page_url(profile: &LoginProfile) -> (r: String)
    ensures
        r@ == login_page_target(*profile),
{
    let mut url = profile.cas_url.clone();
    url.append("?service=");
    let s = crate::form::url_encode(profile.service_url.as_str());
    url.append(s.as_str());
    url
}

/// The login page of the central authentication service for any service URL.
pub fn service_login_page(service: &str) -> (r: String)
    ensures
        r@ == crate::profile::CAS_LOGIN_URL@ + "?service="@ + url_encoded(service@),
{
    let mut url = String::from_str(crate::profile::CAS_LOGIN_URL);
    url.append("?service=");
    let s = crate::form::url_encode(service);
    url.append(s.as_str());
    url
}

/// The credential submission that follows the login page.
#[derive(Debug)]
pub struct Submission {
    /// The URL under which the seed cookies are added to the store.
    pub seed_url: String,
    /// The cookie lines to add before posting.
    pub seed_cookies: Vec<String>,
    pub url: String,
    pub referer: String,
    pub body: String,
    pub follow_redirects: bool,
}

/// The login page named with the raw service, as the submission's referer.
pub open spec fn referer_of(p: LoginProfile) -> Seq<char> {
    p.cas_url@ + "?service="@ + p.service_url@
}

/// Where the credentials are posted.
pub open spec fn submit_target(p: LoginProfile) -> Seq<char> {
    if p.service_in_submit_url {
        referer_of(p)
    } else {
        p.cas_url@
    }
}

/// The submission that a profile, a credential and a scraped login page give.
pub open spec fn submission_matches(
    p: LoginProfile,
    c: Credential,
    set_cookies: Seq<Seq<char>>,
    html: Seq<char>,
    s: Submission,
) -> bool {
    &&& s.seed_url@ == "https://"@ + p.seed_domain@
    &&& views(s.seed_cookies@) == seed_cookie_lines(joined(set_cookies, "; "@), p.seed_domain@)
    &&& s.url@ == submit_target(p)
    &&& s.referer@ == referer_of(p)
    &&& s.body@ == login_form(
        c.username@,
        encoded_password(p.policy, c.password@),
        p.submit_label@,
        execution_token(html)->Some_0,
    )
    &&& s.follow_redirects == (p.handshake is FollowRedirect)
}

/// From the login page to the credential submission (Init, then CookieSeeded,
/// then Submitted). A page that set no cookie, or has no `execution` token,
/// ends the attempt.
pub fn submission(
    profile: &LoginProfile,
    credential: &Credential,
    set_cookies: &Vec<String>,
    html: &str,
) -> (r: Result<Submission, LoginError>)
    ensures
        set_cookies@.len() == 0 ==> r == Err::<Submission, LoginError>(
            LoginError::Protocol(ProtocolError::MissingCookie),
        ),
        set_cookies@.len() > 0 && execution_token(html@) is None ==> r == Err::<
            Submission,
            LoginError,
        >(LoginError::Protocol(ProtocolError::MissingExecutionToken)),
        set_cookies@.len() > 0 && execution_token(html@) is Some ==> r is Ok
            && submission_matches(*profile, *credential, views(set_cookies@), html@, r->Ok_0),
{
    let ctx = match login_context(set_cookies, html) {
        Ok(c) => c,
        Err(e) => return Err(e),
    };
    let seeds = seed_cookies(ctx.raw_cookies.as_str(), profile.seed_domain.as_str());
    let mut seed_url = String::from_str("https://");
    seed_url.append(profile.seed_domain.as_str());
    let mut referer = profile.cas_url.clone();
    referer.append("?service=");
    referer.append(profile.service_url.as_str());
    let url = if profile.service_in_submit_url {
        referer.clone()
    } else {
        profile.cas_url.clone()
    };
    let password = encode_password(&profile.policy, credential.password.as_str());
    let body = login_form_body(
        credential.username.as_str(),
        password.as_str(),
        profile.submit_label.as_str(),
        ctx.execution.as_str(),
    );
    let follow_redirects = match &profile.handshake {
        Handshake::FollowRedirect { .. } => true,
        _ => false,
    };
    Ok(Submission { seed_url, seed_cookies: seeds, url, referer, body, follow_redirects })
}

/// The request that follows an accepted submission.
#[derive(Debug)]
pub enum NextRequest {
    /// Fetch the final page (redirects followed), then read the cookie header
    /// for `cookie_url` from the store.
    FinalPage { url: String, cookie_url: String },
    /// Post `body` to the token endpoint.
    Token { url: String, body: String },
    /// Fetch the landing page (redirects off) and read its `Set-Cookie` values.
    Landing { url: String, cookie_name: String },
}

/// Whether a status code is a success (2xx).
pub open spec fn is_success(status: u16) -> bool {
    200 <= status <= 299
}

/// The ticket that the submission's `Location` header carries.
pub open spec fn ticket_of(location: Option<Seq<char>>) -> Option<Seq<char>> {
    match location {
        Some(l) => match url_query_pairs(l) {
            Some(pairs) => ticket_in(pairs),
            None => None,
        },
        None => None,
    }
}

/// The views of an optional string.
pub open spec fn opt_view(o: Option<String>) -> Option<Seq<char>> {
    match o {
        Some(s) => Some(s@),
        None => None,
    }
}

/// The landing page with the ticket as a query parameter.
pub open spec fn landing_target(landing_url: Seq<char>, ticket: Seq<char>) -> Seq<char> {
    landing_url + (if landing_url.contains('?') {
        "&"@
    } else {
        "?"@
    }) + "ticket="@ + url_encoded(ticket)
}

/// The error that a status other than the expected one gives: 401 means the
/// credentials were refused.
pub open spec fn status_error(status: u16) -> LoginError {
    if status == 401 {
        LoginError::Auth(AuthError::InvalidCredentials)
    } else {
        LoginError::Auth(AuthError::UnexpectedStatus(status))
    }
}

fn status_failure(status: u16) -> (r: LoginError)
    ensures
        r == status_error(status),
{
    if status == 401 {
        LoginError::Auth(AuthError::InvalidCredentials)
    } else {
        LoginError::Auth(AuthError::UnexpectedStatus(status))
    }
}

fn has_char(s: &str, c: char) -> (r: bool)
    ensures
        r == s@.contains(c),
{
    let cs = crate::text::chars_of(s);
    let mut i: usize = 0;
    while i < cs.len()
        invariant
            cs@ == s@,
            i <= cs@.len(),
            forall|j: int| 0 <= j < i ==> cs@[j] != c,
        decreases cs@.len() - i,
    {
        if cs[i] == c {
            return true;
        }
        i = i + 1;
    }
    false
}

/// From the answer to the credential submission (Submitted) to the next
/// request, or to the error that ends the attempt. Following redirects, any
/// 2xx is success; otherwise only a 302 whose `Location` carries a ticket is.
pub fn after_submission(profile: &LoginProfile, status: u16, location: Option<String>) -> (r: Result<
    NextRequest,
    LoginError,
>)
    ensures
        match profile.handshake {
            Handshake::FollowRedirect { final_page_url, cookie_url } => if is_success(status) {
                r is Ok && r->Ok_0 is FinalPage && r->Ok_0->FinalPage_url@ == final_page_url@
                    && r->Ok_0->FinalPage_cookie_url@ == cookie_url@
            } else {
                r == Err::<NextRequest, LoginError>(status_error(status))
            },
            Handshake::TicketToToken { token_url } => if status != 302 {
                r == Err::<NextRequest, LoginError>(status_error(status))
            } else {
                match ticket_of(opt_view(location)) {
                    Some(t) => r is Ok && r->Ok_0 is Token && r->Ok_0->Token_url@ == token_url@
                        && r->Ok_0->Token_body@ == token_form(t),
                    None => r == Err::<NextRequest, LoginError>(
                        LoginError::Protocol(ProtocolError::MissingTicket),
                    ),
                }
            },
            Handshake::TicketToSessionId { landing_url, cookie_name } => if status != 302 {
                r == Err::<NextRequest, LoginError>(status_error(status))
            } else {
                match ticket_of(opt_view(location)) {
                    Some(t) => r is Ok && r->Ok_0 is Landing && r->Ok_0->Landing_url@
                        == landing_target(landing_url@, t) && r->Ok_0->Landing_cookie_name@
                        == cookie_name@,
                    None => r == Err::<NextRequest, LoginError>(
                        LoginError::Protocol(ProtocolError::MissingTicket),
                    ),
                }
            },
        },
{
    match &profile.handshake {
        Handshake::FollowRedirect { final_page_url, cookie_url } => {
            if 200 <= status && status <= 299 {
                Ok(NextRequest::FinalPage { url: final_page_url.clone(), cookie_url: cookie_url.clone() })
            } else {
                Err(status_failure(status))
            }
        },
        Handshake::TicketToToken { token_url } => {
            if status != 302 {
                return Err(status_failure(status));
            }
            let ticket = match location {
                Some(l) => match extract_ticket(l.as_str()) {
                    Ok(t) => t,
                    Err(e) => return Err(e),
                },
                None => return Err(LoginError::Protocol(ProtocolError::MissingTicket)),
            };
            Ok(NextRequest::Token { url: token_url.clone(), body: token_form_body(ticket.as_str()) })
        },
        Handshake::TicketToSessionId { landing_url, cookie_name } => {
            if status != 302 {
                return Err(status_failure(status));
            }
            let ticket = match location {
                Some(l) => match extract_ticket(l.as_str()) {
                    Ok(t) => t,
                    Err(e) => return Err(e),
                },
                None => return Err(LoginError::Protocol(ProtocolError::MissingTicket)),
            };
            let mut url = landing_url.clone();
            if has_char(landing_url.as_str(), '?') {
                url.append("&");
            } else {
                url.append("?");
            }
            url.append("ticket=");
            let t = crate::form::url_encode(ticket.as_str());
            url.append(t.as_str());
            Ok(NextRequest::Landing { url, cookie_name: cookie_name.clone() })
        },
    }
}

/// From the final page (follow-redirect profiles) to the cookie session: the
/// page must answer 2xx, and the store must hold cookies for the portal.
pub fn after_final_page(status: u16, cookie_header: Option<String>) -> (r: Result<
    Session,
    LoginError,
>)
    ensures
        !is_success(status) ==> r == Err::<Session, LoginError>(
            LoginError::Auth(AuthError::UnexpectedStatus(status)),
        ),
        is_success(status) && cookie_header is None ==> r == Err::<Session, LoginError>(
            LoginError::Protocol(ProtocolError::MissingCookie),
        ),
        is_success(status) && cookie_header is Some ==> r is Ok && r->Ok_0 is Cookie
            && r->Ok_0->Cookie_cookie_header@ == cookie_header->Some_0@,
{
    if !(200 <= status && status <= 299) {
        return Err(LoginError::Auth(AuthError::UnexpectedStatus(status)));
    }
    match cookie_header {
        Some(h) => Ok(Session::Cookie { cookie_header: h }),
        None => Err(LoginError::Protocol(ProtocolError::MissingCookie)),
    }
}

/// From the token endpoint's answer to the token session: a non-success
/// status is `TokenExchangeFailed`; the body must be the full token payload.
pub fn after_token(status: u16, body: &str) -> (r: Result<Session, LoginError>)
    ensures
        !is_success(status) ==> r == Err::<Session, LoginError>(
            LoginError::Auth(AuthError::TokenExchangeFailed(status)),
        ),
        is_success(status) ==> (r is Ok <==> user_info_present(body@)),
        is_success(status) && r is Ok ==> r->Ok_0 is Token && user_info_read_from(
            body@,
            r->Ok_0->Token_0,
        ),
        is_success(status) && r is Err ==> r->Err_0 is Deserialization,
{
    if !(200 <= status && status <= 299) {
        return Err(LoginError::Auth(AuthError::TokenExchangeFailed(status)));
    }
    match user_info_from_json(body) {
        Ok(u) => Ok(Session::Token(u)),
        Err(e) => Err(e),
    }
}

/// From the landing page's cookies to the session-identifier session.
pub fn after_landing(cookie_name: &str, set_cookies: &Vec<String>) -> (r: Result<
    Session,
    LoginError,
>)
    ensures
        match session_id_in(views(set_cookies@), cookie_name@) {
            Some(v) => r is Ok && r->Ok_0 is SessionId && r->Ok_0->SessionId_session_id@ == v,
            None => r == Err::<Session, LoginError>(
                LoginError::Protocol(ProtocolError::MissingSessionCookie),
            ),
        },
{
    match extract_session_id(set_cookies, cookie_name) {
        Ok(v) => Ok(Session::SessionId { session_id: v }),
        Err(e) => Err(e),
    }
}

/// The mobile portal's login form.
#[derive(Debug)]
pub struct MobileRequest {
    pub url: String,
    pub fields: Vec<(String, String)>,
}

/// The fields of the mobile portal's login form, in order.
pub open spec fn mobile_fields(username: Seq<char>, password: Seq<char>) -> Seq<(Seq<char>, Seq<char>)> {
    seq![
        ("userNo"@, username),
        ("pwd"@, password),
        ("encode"@, "1"@),
        ("captchaData"@, Seq::empty()),
        ("codeVal"@, Seq::empty()),
    ]
}

/// The mobile portal's login form: the account, the password under the
/// profile's policy, `encode=1` and empty captcha fields.
pub fn mobile_request(profile: &MobileProfile, credential: &Credential) -> (r: MobileRequest)
    ensures
        r.url@ == profile.login_url@,
        crate::ticket::pair_views(r.fields@) == mobile_fields(
            credential.username@,
            encoded_password(profile.policy, credential.password@),
        ),
{
    let pwd = encode_password(&profile.policy, credential.password.as_str());
    let mut fields: Vec<(String, String)> = Vec::new();
    fields.push((String::from_str("userNo"), credential.username.clone()));
    fields.push((String::from_str("pwd"), pwd));
    fields.push((String::from_str("encode"), String::from_str("1")));
    fields.push((String::from_str("captchaData"), String::new()));
    fields.push((String::from_str("codeVal"), String::new()));
    assert(crate::ticket::pair_views(fields@) =~= mobile_fields(
        credential.username@,
        encoded_password(profile.policy, credential.password@),
    ));
    MobileRequest { url: profile.login_url.clone(), fields }
}

/// From the mobile portal's answer to its session.
pub fn after_mobile_answer(body: &str) -> (r: Result<Session, LoginError>)
    ensures
        !json_valid(body@) ==> r is Err && r->Err_0 is Deserialization,
        json_valid(body@) ==> match mobile_answer(body@) {
            Ok(t) => r is Ok && r->Ok_0 is Bearer && r->Ok_0->Bearer_token@ == t,
            Err(m) => r is Err && r->Err_0 is Auth && r->Err_0->Auth_0 is Rejected
                && r->Err_0->Auth_0->Rejected_0@ == m,
        },
{
    match mobile_login_result(body) {
        Ok(t) => Ok(Session::Bearer { token: t }),
        Err(e) => Err(e),
    }
}

} // verus!
