//! What the CAS login page yields: the raw cookie set and the `execution` token.

use crate::cookies::views;
use crate::error::{LoginError, ProtocolError};
use vstd::prelude::*;
use vstd::string::StringExecFns;

verus! {

/// The text that precedes the token in the login form's hidden field.
pub open spec fn execution_marker() -> Seq<char> {
    "name=\"execution\" value=\""@
}

/// Index of the first `"` at or after `j`, unless a line break or the end of
/// the text comes first.
pub open spec fn closing_quote(h: Seq<char>, j: int) -> Option<int>
    decreases h.len() - j,
{
    if j < 0 || j >= h.len() || h[j] == '\n' {
        None
    } else if h[j] == '"' {
        Some(j)
    } else {
        closing_quote(h, j + 1)
    }
}

/// The token of a match that starts at `i`, if one does.
pub open spec fn execution_at(h: Seq<char>, i: int) -> Option<Seq<char>> {
    let m = execution_marker();
    if 0 <= i && i + m.len() <= h.len() && h.subrange(i, i + m.len()) == m {
        match closing_quote(h, i + m.len()) {
            Some(e) => Some(h.subrange(i + m.len(), e)),
            None => None,
        }
    } else {
        None
    }
}

/// The token of the leftmost match at or after `i`: the characters between the
/// marker and the next `"` on the same line.
pub open spec fn execution_from(h: Seq<char>, i: int) -> Option<Seq<char>>
    decreases h.len() - i,
{
    if i < 0 || i > h.len() {
        None
    } else {
        match execution_at(h, i) {
            Some(v) => Some(v),
            None => if i < h.len() {
                execution_from(h, i + 1)
            } else {
                None
            },
        }
    }
}

/// The `execution` token of a login page, if it has one.
pub open spec fn execution_token(html: Seq<char>) -> Option<Seq<char>> {
    execution_from(html, 0)
}

/// Relies on `regex::Regex::new` and `Regex::captures` with the pattern
/// `name="execution" value="(.*?)"`: the leftmost match, whose lazy
/// group ends at the first `"` and, as `.` does, never crosses a `\n`.
#[verifier::external_body]
fn capture_execution(html: &str) -> (r: Option<String>)
    ensures
        r is Some <==> execution_token(html@) is Some,
        r is Some ==> r->Some_0@ == execution_token(html@)->Some_0,
{
    regex::Regex::new(r#"name="execution" value="(.*?)""#).ok().and_then(
        |re| re.captures(html).and_then(|caps| caps.get(1)).map(|m| m.as_str().to_string()),
    )
}

/// The `execution` token of a login page, or `MissingExecutionToken`.
pub fn extract_execution(html: &str) -> (r: Result<String, LoginError>)
    ensures
        match execution_token(html@) {
            Some(v) => r is Ok && r->Ok_0@ == v,
            None => r == Err::<String, LoginError>(
                LoginError::Protocol(ProtocolError::MissingExecutionToken),
            ),
        },
{
    match capture_execution(html) {
        Some(v) => Ok(v),
        None => Err(LoginError::Protocol(ProtocolError::MissingExecutionToken)),
    }
}

/// The values joined with `sep` between neighbours.
pub open spec fn joined(vals: Seq<Seq<char>>, sep: Seq<char>) -> Seq<char>
    decreases vals.len(),
{
    if vals.len() == 0 {
        Seq::empty()
    } else if vals.len() == 1 {
        vals[0]
    } else {
        joined(vals.drop_last(), sep) + sep + vals.last()
    }
}

/// The raw cookie set of a response: its `Set-Cookie` values joined by `"; "`.
/// A response that set no cookie gives `MissingCookie`.
pub fn join_set_cookies(values: &Vec<String>) -> (r: Result<String, LoginError>)
    ensures
        values@.len() == 0 ==> r == Err::<String, LoginError>(
            LoginError::Protocol(ProtocolError::MissingCookie),
        ),
        values@.len() > 0 ==> r is Ok && r->Ok_0@ == joined(views(values@), "; "@),
{
    if values.len() == 0 {
        return Err(LoginError::Protocol(ProtocolError::MissingCookie));
    }
    let mut out = values[0].clone();
    let mut i: usize = 1;
    assert(views(values@).take(1).drop_last() =~= Seq::<Seq<char>>::empty());
    while i < values.len()
        invariant
            1 <= i <= values@.len(),
            out@ == joined(views(values@).take(i as int), "; "@),
        decreases values@.len() - i,
    {
        out.append("; ");
        out.append(values[i].as_str());
        assert(views(values@).take(i + 1).drop_last() =~= views(values@).take(i as int));
        i = i + 1;
    }
    assert(views(values@).take(i as int) =~= views(values@));
    Ok(out)
}

/// What the login page hands on to the submission: the raw cookie set and the
/// single-use `execution` token.
#[derive(Debug)]
pub struct LoginContext {
    pub raw_cookies: String,
    pub execution: String,
}

/// Reads a login-page response: the cookies are required first, then the token.
pub fn login_context(set_cookies: &Vec<String>, html: &str) -> (r: Result<
    LoginContext,
    LoginError,
>)
    ensures
        set_cookies@.len() == 0 ==> r == Err::<LoginContext, LoginError>(
            LoginError::Protocol(ProtocolError::MissingCookie),
        ),
        set_cookies@.len() > 0 && execution_token(html@) is None ==> r == Err::<
            LoginContext,
            LoginError,
        >(LoginError::Protocol(ProtocolError::MissingExecutionToken)),
        set_cookies@.len() > 0 && execution_token(html@) is Some ==> r is Ok
            && r->Ok_0.raw_cookies@ == joined(views(set_cookies@), "; "@)
            && r->Ok_0.execution@ == execution_token(html@)->Some_0,
{
    let raw_cookies = match join_set_cookies(set_cookies) {
        Ok(c) => c,
        Err(e) => return Err(e),
    };
    let execution = match extract_execution(html) {
        Ok(x) => x,
        Err(e) => return Err(e),
    };
    Ok(LoginContext { raw_cookies, execution })
}

} // verus!
