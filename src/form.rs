//! The request bodies of the handshake.

use vstd::prelude::*;
use vstd::string::StringExecFns;
use vstd::utf8::encode_utf8;

verus! {

/// Bytes that form encoding leaves as they are: ASCII letters, digits, `-._~`.
pub open spec fn is_unreserved(b: u8) -> bool {
    (48 <= b <= 57) || (65 <= b <= 90) || (97 <= b <= 122) || b == 45 || b == 46 || b == 95
        || b == 126
}

/// The upper-case hexadecimal digit of a value below 16.
pub open spec fn hex_digit(d: u8) -> char {
    if d < 10 {
        ((48 + d) as u8) as char
    } else {
        ((55 + d) as u8) as char
    }
}

/// Percent-encoding of bytes: unreserved ones kept, every other byte as `%XY`.
pub open spec fn percent_encoded(bytes: Seq<u8>) -> Seq<char>
    decreases bytes.len(),
{
    if bytes.len() == 0 {
        Seq::empty()
    } else {
        let b = bytes.last();
        let prev = percent_encoded(bytes.drop_last());
        if is_unreserved(b) {
            prev.push(b as char)
        } else {
            prev + seq!['%', hex_digit(b / 16), hex_digit(b % 16)]
        }
    }
}

/// The percent-encoded UTF-8 form of a text.
pub open spec fn url_encoded(s: Seq<char>) -> Seq<char> {
    percent_encoded(encode_utf8(s))
}

/// Relies on `urlencoding::encode`: every byte of the UTF-8 text but ASCII
/// letters, digits and `-._~` becomes `%` and two upper-case hex digits.
#[verifier::external_body]
pub(crate) fn url_encode(s: &str) -> (r: String)
    ensures
        r@ == url_encoded(s@),
{
    urlencoding::encode(s).into_owned()
}

/// The form body of a credential submission.
pub open spec fn login_form(
    username: Seq<char>,
    password: Seq<char>,
    submit_label: Seq<char>,
    execution: Seq<char>,
) -> Seq<char> {
    "username="@ + url_encoded(username) + "&password="@ + url_encoded(password) + "&submit="@
        + submit_label + "&type=username_password&execution="@ + execution
        + "&_eventId=submit"@
}

/// Builds the credential submission: username and (already policy-encoded)
/// password are percent-encoded; the submit label and the `execution` token go
/// in as they are.
pub fn login_form_body(username: &str, password: &str, submit_label: &str, execution: &str) -> (r:
    String)
    ensures
        r@ == login_form(username@, password@, submit_label@, execution@),
{
    let mut body = String::from_str("username=");
    let u = url_encode(username);
    body.append(u.as_str());
    body.append("&password=");
    let p = url_encode(password);
    body.append(p.as_str());
    body.append("&submit=");
    body.append(submit_label);
    body.append("&type=username_password&execution=");
    body.append(execution);
    body.append("&_eventId=submit");
    body
}

/// The form body that trades a ticket for a token.
pub open spec fn token_form(ticket: Seq<char>) -> Seq<char> {
    "ticket="@ + ticket + "&grant_type=third"@
}

/// Builds the ticket exchange body.
pub fn token_form_body(ticket: &str) -> (r: String)
    ensures
        r@ == token_form(ticket@),
{
    let mut body = String::from_str("ticket=");
    body.append(ticket);
    body.append("&grant_type=third");
    body
}

} // verus!
