//! Seeding the cookie store: the raw `Set-Cookie` values scraped from the login
//! page are re-registered under the profile's seed domain at the root path,
//! because the authentication host may differ from the host that was scraped.

use crate::text::{chars_of, split_on, string_of, trim_chars, trimmed};
use vstd::prelude::*;
use vstd::string::StringExecFns;

verus! {

/// The cookie line that registers one `key=value` pair under a domain.
pub open spec fn seed_line(pair: Seq<char>, domain: Seq<char>) -> Seq<char> {
    pair + "; Domain="@ + domain + "; Path=/"@
}

/// One seed line for each piece that, once trimmed, holds a `=`.
pub open spec fn seed_lines(pieces: Seq<Seq<char>>, domain: Seq<char>) -> Seq<Seq<char>>
    decreases pieces.len(),
{
    if pieces.len() == 0 {
        Seq::empty()
    } else {
        let prev = seed_lines(pieces.drop_last(), domain);
        let t = trimmed(pieces.last());
        if t.contains('=') {
            prev.push(seed_line(t, domain))
        } else {
            prev
        }
    }
}

/// The seed lines for a raw cookie set: its `;`-separated pieces, in order.
pub open spec fn seed_cookie_lines(raw: Seq<char>, domain: Seq<char>) -> Seq<Seq<char>> {
    seed_lines(split_on(raw, ';'), domain)
}

/// The views of a list of strings.
pub open spec fn views(v: Seq<String>) -> Seq<Seq<char>> {
    v.map_values(|s: String| s@)
}

fn contains_char(cs: &Vec<char>, c: char) -> (r: bool)
    ensures
        r == cs@.contains(c),
{
    let mut i: usize = 0;
    while i < cs.len()
        invariant
            i <= cs@.len(),
            forall|j: int| 0 <= j < i ==> cs@[j] != c,
        decreases cs@.len() - i,
    {
        if cs[i] == c {
            return true;
        }
        i = i + 1;
    }
    false
}

/// Appends the seed line of the piece `cs[from..to]`, if it holds a pair.
fn push_seed(out: &mut Vec<String>, cs: &Vec<char>, from: usize, to: usize, domain: &str)
    requires
        from <= to <= cs@.len(),
    ensures
        ({
            let t = trimmed(cs@.subrange(from as int, to as int));
            views(final(out)@) == if t.contains('=') {
                views(old(out)@).push(seed_line(t, domain@))
            } else {
                views(old(out)@)
            }
        }),
{
    let t = trim_chars(cs.as_slice(), from, to);
    if contains_char(&t, '=') {
        let mut line = string_of(t.as_slice());
        line.append("; Domain=");
        line.append(domain);
        line.append("; Path=/");
        let ghost before = out@;
        out.push(line);
        assert(views(out@) =~= views(before).push(seed_line(t@, domain@)));
    }
}

/// The cookie lines that register each `key=value` pair of a raw cookie set
/// (its `;`-separated pieces, trimmed) under `domain` at path `/`; pieces
/// without a `=` are skipped.
pub fn seed_cookies(raw: &str, domain: &str) -> (r: Vec<String>)
    ensures
        views(r@) == seed_cookie_lines(raw@, domain@),
{
    let cs = chars_of(raw);
    let mut out: Vec<String> = Vec::new();
    let mut start: usize = 0;
    let mut i: usize = 0;
    let ghost mut done: Seq<Seq<char>> = Seq::empty();
    assert(cs@.take(0) =~= Seq::<char>::empty());
    assert(done.push(cs@.subrange(0, 0)) =~= seq![Seq::<char>::empty()]);
    while i < cs.len()
        invariant
            cs@ == raw@,
            start <= i <= cs@.len(),
            split_on(cs@.take(i as int), ';') == done.push(cs@.subrange(start as int, i as int)),
            views(out@) == seed_lines(done, domain@),
        decreases cs@.len() - i,
    {
        let ghost prefix = cs@.take(i as int);
        assert(cs@.take(i + 1).drop_last() =~= prefix);
        if cs[i] == ';' {
            push_seed(&mut out, &cs, start, i, domain);
            proof {
                let piece = cs@.subrange(start as int, i as int);
                assert(done.push(piece).drop_last() =~= done);
                done = done.push(piece);
            }
            start = i + 1;
            assert(cs@.subrange(start as int, i + 1) =~= Seq::<char>::empty());
        } else {
            let ghost piece = cs@.subrange(start as int, i as int);
            assert(cs@.subrange(start as int, i + 1) =~= piece.push(cs@[i as int]));
            assert(done.push(piece).update(done.len() as int, piece.push(cs@[i as int])) =~= done.push(
                cs@.subrange(start as int, i + 1),
            ));
        }
        i = i + 1;
    }
    push_seed(&mut out, &cs, start, i, domain);
    proof {
        let piece = cs@.subrange(start as int, i as int);
        assert(cs@.take(i as int) =~= raw@);
        assert(done.push(piece).drop_last() =~= done);
    }
    out
}

/// Each seed line is made from one of the given pieces.
pub proof fn lemma_seed_lines_from_pieces(pieces: Seq<Seq<char>>, domain: Seq<char>)
    ensures
        forall|k: int|
            0 <= k < seed_lines(pieces, domain).len() ==> exists|j: int|
                0 <= j < pieces.len() && #[trigger] seed_lines(pieces, domain)[k] == seed_line(
                    trimmed(pieces[j]),
                    domain,
                ),
    decreases pieces.len(),
{
    if pieces.len() > 0 {
        let init = pieces.drop_last();
        lemma_seed_lines_from_pieces(init, domain);
        let prev = seed_lines(init, domain);
        assert forall|k: int| 0 <= k < seed_lines(pieces, domain).len() implies exists|j: int|
            0 <= j < pieces.len() && #[trigger] seed_lines(pieces, domain)[k] == seed_line(
                trimmed(pieces[j]),
                domain,
            ) by {
            if k < prev.len() {
                let j = choose|j: int|
                    0 <= j < init.len() && prev[k] == seed_line(trimmed(init[j]), domain);
                assert(pieces[j] == init[j]);
            } else {
                assert(pieces[pieces.len() - 1] == pieces.last());
            }
        }
    }
}

/// Isolation of attempts: every cookie that an attempt seeds into its store is
/// one `key=value` piece of that attempt's own raw cookie set, registered under
/// the seed domain. Nothing else, in particular nothing from another attempt,
/// can enter it.
pub proof fn lemma_seeds_from_own_cookies(raw: Seq<char>, domain: Seq<char>)
    ensures
        forall|k: int|
            0 <= k < seed_cookie_lines(raw, domain).len() ==> exists|j: int|
                0 <= j < split_on(raw, ';').len() && #[trigger] seed_cookie_lines(raw, domain)[k]
                    == seed_line(trimmed(split_on(raw, ';')[j]), domain),
{
    lemma_seed_lines_from_pieces(split_on(raw, ';'), domain);
}

} // verus!
