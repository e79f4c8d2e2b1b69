//! Static configuration of each portal's handshake.

use crate::encoder::PasswordPolicy;
use vstd::prelude::*;

verus! {

/// A username and password, held only for the duration of one login call. It
/// has no `Debug`, so that the password cannot end up in a log.
pub struct Credential {
    pub username: String,
    pub password: String,
}

/// How a portal completes the handshake once the credentials are accepted.
#[derive(Debug)]
pub enum Handshake {
    /// Redirects are followed; success is a 2xx answer, after which the final
    /// page is fetched and the cookie header for `cookie_url` is read back.
    FollowRedirect { final_page_url: String, cookie_url: String },
    /// Redirects are not followed; a 302 carries a ticket, which the token
    /// endpoint trades for a bearer token.
    TicketToToken { token_url: String },
    /// Redirects are not followed; a 302 carries a ticket, with which the
    /// landing page sets the session cookie `cookie_name`.
    TicketToSessionId { landing_url: String, cookie_name: String },
}

/// A portal without central authentication: one form is posted to
/// `login_url`, and the JSON answer holds a token.
#[derive(Debug)]
pub struct MobileProfile {
    pub login_url: String,
    pub policy: PasswordPolicy,
}

/// One central-authentication portal's handshake parameters.
#[derive(Debug)]
pub struct LoginProfile {
    /// The central authentication login endpoint.
    pub cas_url: String,
    /// The service that the login is for.
    pub service_url: String,
    /// Whether the credential submission names the service in its URL.
    pub service_in_submit_url: bool,
    /// The label of the submit button, already form-encoded.
    pub submit_label: String,
    /// The domain under which the scraped cookies are registered.
    pub seed_domain: String,
    pub policy: PasswordPolicy,
    pub handshake: Handshake,
}

/// The central authentication login endpoint shared by the campus portals.
pub const CAS_LOGIN_URL: &'static str = "https://auth.bupt.edu.cn/authserver/login";

/// The host that serves the login page and must receive its cookies.
pub const CAS_HOST: &'static str = "auth.bupt.edu.cn";

/// The key of the mobile portal's password cipher: an interoperability
/// constant of that service, not a secret of this library.
pub open spec fn mobile_cipher_key() -> Seq<u8> {
    seq![113u8, 122, 107, 106, 49, 107, 106, 103, 104, 100, 61, 56, 55, 54, 38, 42]
}

/// The dormitory-utilities portal: cookies, after following the redirects.
pub fn electricity_profile() -> (r: LoginProfile)
    ensures
        r.cas_url@ == CAS_LOGIN_URL@,
        r.service_url@ == "https://app.bupt.edu.cn/a_bupt/api/sso/cas?redirect=https%3A%2F%2Fapp.bupt.edu.cn%2Fbuptdf%2Fwap%2Fdefault%2Fchong&from=wap"@,
        r.service_in_submit_url,
        r.submit_label@ == "%E7%99%BB%E5%BD%95"@,
        r.seed_domain@ == CAS_HOST@,
        r.policy is Plain,
        r.handshake is FollowRedirect,
        r.handshake->FollowRedirect_final_page_url@ == "https://app.bupt.edu.cn/buptdf/wap/default/chong"@,
        r.handshake->FollowRedirect_cookie_url@ == "https://app.bupt.edu.cn"@,
{
    LoginProfile {
        cas_url: String::from_str(CAS_LOGIN_URL),
        service_url: String::from_str(
            "https://app.bupt.edu.cn/a_bupt/api/sso/cas?redirect=https%3A%2F%2Fapp.bupt.edu.cn%2Fbuptdf%2Fwap%2Fdefault%2Fchong&from=wap",
        ),
        service_in_submit_url: true,
        submit_label: String::from_str("%E7%99%BB%E5%BD%95"),
        seed_domain: String::from_str(CAS_HOST),
        policy: PasswordPolicy::Plain,
        handshake: Handshake::FollowRedirect {
            final_page_url: String::from_str("https://app.bupt.edu.cn/buptdf/wap/default/chong"),
            cookie_url: String::from_str("https://app.bupt.edu.cn"),
        },
    }
}

/// The learning-management portal: a bearer token for the ticket.
pub fn ucloud_profile() -> (r: LoginProfile)
    ensures
        r.cas_url@ == CAS_LOGIN_URL@,
        r.service_url@ == "https://ucloud.bupt.edu.cn"@,
        !r.service_in_submit_url,
        r.submit_label@ == "%E7%99%BB%E5%BD%95"@,
        r.seed_domain@ == CAS_HOST@,
        r.policy is Plain,
        r.handshake is TicketToToken,
        r.handshake->TicketToToken_token_url@ == "https://apiucloud.bupt.edu.cn/ykt-basics/oauth/token"@,
{
    LoginProfile {
        cas_url: String::from_str(CAS_LOGIN_URL),
        service_url: String::from_str("https://ucloud.bupt.edu.cn"),
        service_in_submit_url: false,
        submit_label: String::from_str("%E7%99%BB%E5%BD%95"),
        seed_domain: String::from_str(CAS_HOST),
        policy: PasswordPolicy::Plain,
        handshake: Handshake::TicketToToken {
            token_url: String::from_str("https://apiucloud.bupt.edu.cn/ykt-basics/oauth/token"),
        },
    }
}

/// The general information portal: the `JSESSIONID` that its landing page sets.
pub fn information_portal_profile() -> (r: LoginProfile)
    ensures
        r.cas_url@ == CAS_LOGIN_URL@,
        r.service_url@ == "http://my.bupt.edu.cn/system/resource/code/auth/clogin.jsp?owner=1664271694"@,
        r.service_in_submit_url,
        r.submit_label@ == "LOGIN"@,
        r.seed_domain@ == CAS_HOST@,
        r.policy is Plain,
        r.handshake is TicketToSessionId,
        r.handshake->TicketToSessionId_landing_url@ == "http://my.bupt.edu.cn/system/resource/code/auth/clogin.jsp?owner=1664271694"@,
        r.handshake->TicketToSessionId_cookie_name@ == "JSESSIONID"@,
{
    LoginProfile {
        cas_url: String::from_str(CAS_LOGIN_URL),
        service_url: String::from_str(
            "http://my.bupt.edu.cn/system/resource/code/auth/clogin.jsp?owner=1664271694",
        ),
        service_in_submit_url: true,
        submit_label: String::from_str("LOGIN"),
        seed_domain: String::from_str(CAS_HOST),
        policy: PasswordPolicy::Plain,
        handshake: Handshake::TicketToSessionId {
            landing_url: String::from_str(
                "http://my.bupt.edu.cn/system/resource/code/auth/clogin.jsp?owner=1664271694",
            ),
            cookie_name: String::from_str("JSESSIONID"),
        },
    }
}

/// The mobile academic-affairs portal: a direct form post with the password
/// under the block cipher.
pub fn mobile_academic_profile() -> (r: MobileProfile)
    ensures
        r.login_url@ == "http://jwglweixin.bupt.edu.cn/bjyddx/login"@,
        r.policy is BlockCipher,
        r.policy->BlockCipher_key@ == mobile_cipher_key(),
{
    let key: [u8; 16] = [113u8, 122, 107, 106, 49, 107, 106, 103, 104, 100, 61, 56, 55, 54, 38, 42];
    assert(key@ =~= mobile_cipher_key());
    MobileProfile {
        login_url: String::from_str("http://jwglweixin.bupt.edu.cn/bjyddx/login"),
        policy: PasswordPolicy::BlockCipher { key },
    }
}

} // verus!
