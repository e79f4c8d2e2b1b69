//! Reading the one-time ticket out of a redirect target, and the session
//! identifier out of a landing page's cookies.

use crate::cookies::views;
use crate::error::{LoginError, ProtocolError};
use vstd::prelude::*;

verus! {

#[verifier::external_type_specification]
#[verifier::external_body]
pub struct ExParseError(url::ParseError);

/// The decoded query pairs of a URL, or `None` where the text is no URL.
pub uninterp spec fn url_query_pairs(s: Seq<char>) -> Option<Seq<(Seq<char>, Seq<char>)>>;

/// The views of a list of string pairs.
pub open spec fn pair_views(v: Seq<(String, String)>) -> Seq<(Seq<char>, Seq<char>)> {
    v.map_values(|p: (String, String)| (p.0@, p.1@))
}

/// Relies on `url::Url::parse` and `Url::query_pairs`: the query of the parsed
/// URL as percent-decoded `(key, value)` pairs, in order.
#[verifier::external_body]
fn parse_query_pairs(location: &str) -> (r: Result<Vec<(String, String)>, url::ParseError>)
    ensures
        r is Ok <==> url_query_pairs(location@) is Some,
        r is Ok ==> pair_views(r->Ok_0@) == url_query_pairs(location@)->Some_0,
{
    url::Url::parse(location).map(
        |u| u.query_pairs().map(|(k, v)| (k.into_owned(), v.into_owned())).collect(),
    )
}

/// Index of the first pair whose key is `key`.
pub open spec fn first_with_key(pairs: Seq<(Seq<char>, Seq<char>)>, key: Seq<char>) -> Option<int>
    decreases pairs.len(),
{
    if pairs.len() == 0 {
        None
    } else {
        match first_with_key(pairs.drop_last(), key) {
            Some(i) => Some(i),
            None => if pairs.last().0 == key {
                Some(pairs.len() - 1)
            } else {
                None
            },
        }
    }
}

/// The value of the first `ticket` pair, if any.
pub open spec fn ticket_in(pairs: Seq<(Seq<char>, Seq<char>)>) -> Option<Seq<char>> {
    match first_with_key(pairs, "ticket"@) {
        Some(i) => Some(pairs[i].1),
        None => None,
    }
}

/// The first `ticket` value among query pairs, or `MissingTicket`.
pub fn find_ticket(pairs: &Vec<(String, String)>) -> (r: Result<String, LoginError>)
    ensures
        match ticket_in(pair_views(pairs@)) {
            Some(t) => r is Ok && r->Ok_0@ == t,
            None => r == Err::<String, LoginError>(
                LoginError::Protocol(ProtocolError::MissingTicket),
            ),
        },
{
    let mut i: usize = 0;
    while i < pairs.len()
        invariant
            i <= pairs@.len(),
            first_with_key(pair_views(pairs@).take(i as int), "ticket"@) is None,
        decreases pairs@.len() - i,
    {
        let ghost pv = pair_views(pairs@);
        assert(pv.take(i + 1).drop_last() =~= pv.take(i as int));
        if crate::text::str_eq(pairs[i].0.as_str(), "ticket") {
            proof {
                lemma_first_with_key_prefix(pv, "ticket"@, i + 1);
            }
            return Ok(pairs[i].1.clone());
        }
        i = i + 1;
    }
    assert(pair_views(pairs@).take(i as int) =~= pair_views(pairs@));
    Err(LoginError::Protocol(ProtocolError::MissingTicket))
}

/// A match found in a prefix is the match of the whole sequence.
proof fn lemma_first_with_key_prefix(pairs: Seq<(Seq<char>, Seq<char>)>, key: Seq<char>, n: int)
    requires
        0 <= n <= pairs.len(),
        first_with_key(pairs.take(n), key) is Some,
    ensures
        first_with_key(pairs, key) == first_with_key(pairs.take(n), key),
    decreases pairs.len() - n,
{
    if n < pairs.len() {
        assert(pairs.take(n + 1).drop_last() =~= pairs.take(n));
        lemma_first_with_key_prefix(pairs, key, n + 1);
    } else {
        assert(pairs.take(n) =~= pairs);
    }
}

/// The ticket that a redirect target carries: the first `ticket` query
/// parameter, percent-decoded. A target that does not parse as a URL, or has
/// no such parameter, gives `MissingTicket`.
pub fn extract_ticket(location: &str) -> (r: Result<String, LoginError>)
    ensures
        match url_query_pairs(location@) {
            Some(pairs) => match ticket_in(pairs) {
                Some(t) => r is Ok && r->Ok_0@ == t,
                None => r == Err::<String, LoginError>(
                    LoginError::Protocol(ProtocolError::MissingTicket),
                ),
            },
            None => r == Err::<String, LoginError>(
                LoginError::Protocol(ProtocolError::MissingTicket),
            ),
        },
{
    match parse_query_pairs(location) {
        Ok(pairs) => find_ticket(&pairs),
        Err(_) => Err(LoginError::Protocol(ProtocolError::MissingTicket)),
    }
}

/// Where the value that starts at `from` ends: at the first `c`, or the end.
pub open spec fn value_end(s: Seq<char>, from: int, c: char) -> int
    decreases s.len() - from,
{
    if from < 0 || from >= s.len() || s[from] == c {
        from
    } else {
        value_end(s, from + 1, c)
    }
}

/// A `Set-Cookie` value that sets the cookie `name`: it starts with `name=`.
pub open spec fn sets_cookie(header: Seq<char>, name: Seq<char>) -> bool {
    header.len() > name.len() && header.take(name.len() as int) == name && header[name.len() as int]
        == '='
}

/// The value that a `Set-Cookie` header gives the cookie `name`: from after
/// `name=` up to the first `;`.
pub open spec fn cookie_value(header: Seq<char>, name: Seq<char>) -> Seq<char> {
    header.subrange(name.len() + 1 as int, value_end(header, name.len() + 1 as int, ';'))
}

/// Index of the first header that sets the cookie `name`.
pub open spec fn first_setting(headers: Seq<Seq<char>>, name: Seq<char>) -> Option<int>
    decreases headers.len(),
{
    if headers.len() == 0 {
        None
    } else {
        match first_setting(headers.drop_last(), name) {
            Some(i) => Some(i),
            None => if sets_cookie(headers.last(), name) {
                Some(headers.len() - 1)
            } else {
                None
            },
        }
    }
}

/// The session identifier that a response's `Set-Cookie` values give, if any.
pub open spec fn session_id_in(headers: Seq<Seq<char>>, name: Seq<char>) -> Option<Seq<char>> {
    match first_setting(headers, name) {
        Some(i) => Some(cookie_value(headers[i], name)),
        None => None,
    }
}

/// A match found in a prefix is the match of the whole sequence.
proof fn lemma_first_setting_prefix(headers: Seq<Seq<char>>, name: Seq<char>, n: int)
    requires
        0 <= n <= headers.len(),
        first_setting(headers.take(n), name) is Some,
    ensures
        first_setting(headers, name) == first_setting(headers.take(n), name),
    decreases headers.len() - n,
{
    if n < headers.len() {
        assert(headers.take(n + 1).drop_last() =~= headers.take(n));
        lemma_first_setting_prefix(headers, name, n + 1);
    } else {
        assert(headers.take(n) =~= headers);
    }
}

fn sets_cookie_exec(header: &Vec<char>, name: &Vec<char>) -> (r: bool)
    ensures
        r == sets_cookie(header@, name@),
{
    if header.len() <= name.len() {
        return false;
    }
    let mut i: usize = 0;
    while i < name.len()
        invariant
            header@.len() > name@.len(),
            i <= name@.len(),
            forall|j: int| 0 <= j < i ==> header@[j] == name@[j],
        decreases name@.len() - i,
    {
        if header[i] != name[i] {
            assert(header@.take(name@.len() as int)[i as int] != name@[i as int]);
            return false;
        }
        i = i + 1;
    }
    assert(header@.take(name@.len() as int) =~= name@);
    header[name.len()] == '='
}

fn cookie_value_exec(header: &Vec<char>, name_len: usize) -> (r: String)
    requires
        header@.len() > name_len,
    ensures
        r@ == header@.subrange(name_len + 1, value_end(header@, name_len + 1, ';')),
{
    let hl = header.len();
    assert(name_len < hl);
    let start = name_len + 1;
    let mut j: usize = start;
    while j < header.len() && header[j] != ';'
        invariant
            start <= j <= header@.len(),
            value_end(header@, start as int, ';') == value_end(header@, j as int, ';'),
        decreases header@.len() - j,
    {
        j = j + 1;
    }
    let mut out: Vec<char> = Vec::new();
    let mut k: usize = start;
    while k < j
        invariant
            start <= k <= j <= header@.len(),
            out@ == header@.subrange(start as int, k as int),
        decreases j - k,
    {
        out.push(header[k]);
        k = k + 1;
        assert(out@ =~= header@.subrange(start as int, k as int));
    }
    crate::text::string_of(out.as_slice())
}

/// The session identifier set by a landing page: the value of the first
/// `Set-Cookie` that sets `name`, up to its first `;`; or `MissingSessionCookie`.
pub fn extract_session_id(set_cookies: &Vec<String>, name: &str) -> (r: Result<String, LoginError>)
    ensures
        match session_id_in(views(set_cookies@), name@) {
            Some(v) => r is Ok && r->Ok_0@ == v,
            None => r == Err::<String, LoginError>(
                LoginError::Protocol(ProtocolError::MissingSessionCookie),
            ),
        },
{
    let name_chars = crate::text::chars_of(name);
    let mut i: usize = 0;
    while i < set_cookies.len()
        invariant
            i <= set_cookies@.len(),
            name_chars@ == name@,
            first_setting(views(set_cookies@).take(i as int), name@) is None,
        decreases set_cookies@.len() - i,
    {
        let ghost hv = views(set_cookies@);
        assert(hv.take(i + 1).drop_last() =~= hv.take(i as int));
        let h = crate::text::chars_of(set_cookies[i].as_str());
        if sets_cookie_exec(&h, &name_chars) {
            proof {
                lemma_first_setting_prefix(hv, name@, i + 1);
            }
            return Ok(cookie_value_exec(&h, name_chars.len()));
        }
        i = i + 1;
    }
    assert(views(set_cookies@).take(i as int) =~= views(set_cookies@));
    Err(LoginError::Protocol(ProtocolError::MissingSessionCookie))
}

} // verus!
