//! Comma-separated lists, as request parameters carry them.
use vstd::prelude::*;

verus! {

/// Whether a character has the Unicode `White_Space` property: the 25 code
/// points listed in the Unicode Character Database.
pub open spec fn unicode_whitespace(c: char) -> bool {
    let u = c as u32;
    (0x09 <= u <= 0x0d) || u == 0x20 || u == 0x85 || u == 0xa0 || u == 0x1680 || (0x2000 <= u
        <= 0x200a) || u == 0x2028 || u == 0x2029 || u == 0x202f || u == 0x205f || u == 0x3000
}

/// Relies on `char::is_whitespace`, which is true exactly for the characters
/// with the Unicode `White_Space` property.
#[verifier::external_body]
fn is_whitespace(c: char) -> (r: bool)
    ensures
        r == unicode_whitespace(c),
{
    c.is_whitespace()
}

/// The pieces of `s` between occurrences of `sep`: one more than there are
/// separators, empty pieces included.
pub open spec fn split_on(s: Seq<char>, sep: char) -> Seq<Seq<char>>
    decreases s.len(),
{
    if s.len() == 0 {
        seq![Seq::empty()]
    } else {
        let init = split_on(s.drop_last(), sep);
        if s.last() == sep {
            init.push(Seq::empty())
        } else {
            init.update(init.len() - 1, init.last().push(s.last()))
        }
    }
}

/// `t` is `s` without leading and trailing whitespace.
pub open spec fn is_trim_of(t: Seq<char>, s: Seq<char>) -> bool {
    exists|a: int, b: int|
        0 <= a <= b <= s.len() && t == s.subrange(a, b) && (forall|i: int|
            0 <= i < a ==> unicode_whitespace(#[trigger] s[i])) && (forall|i: int|
            b <= i < s.len() ==> unicode_whitespace(#[trigger] s[i])) && (a < b ==> !unicode_whitespace(
            s[a],
        ) && !unicode_whitespace(s[b - 1]))
}

/// The text without leading and trailing whitespace.
pub fn trim_whitespace(s: &str) -> (r: String)
    ensures
        is_trim_of(r@, s@),
{
    let n = s.unicode_len();
    let mut a: usize = 0;
    while a < n && is_whitespace(s.get_char(a))
        invariant
            n == s@.len(),
            a <= n,
            forall|i: int| 0 <= i < a ==> unicode_whitespace(#[trigger] s@[i]),
        decreases n - a,
    {
        a = a + 1;
    }
    let mut b: usize = n;
    while b > a && is_whitespace(s.get_char(b - 1))
        invariant
            n == s@.len(),
            a <= b <= n,
            forall|i: int| b <= i < n ==> unicode_whitespace(#[trigger] s@[i]),
            a < n ==> !unicode_whitespace(s@[a as int]),
        decreases b - a,
    {
        b = b - 1;
    }
    let t = s.substring_char(a, b);
    let r = String::from_str(t);
    assert(0 <= a <= b <= s@.len() && r@ == s@.subrange(a as int, b as int));
    r
}

/// Splits the text at each separator.
pub fn split_at_char(s: &str, sep: char) -> (r: Vec<String>)
    ensures
        r@.map_values(|p: String| p@) == split_on(s@, sep),
{
    let n = s.unicode_len();
    let mut pieces: Vec<String> = Vec::new();
    let mut start: usize = 0;
    let mut i: usize = 0;
    assert(s@.subrange(0, 0) =~= Seq::<char>::empty());
    assert(pieces@.map_values(|p: String| p@).push(s@.subrange(0, 0)) =~= seq![Seq::<char>::empty()]);
    while i < n
        invariant
            n == s@.len(),
            start <= i <= n,
            pieces@.map_values(|p: String| p@).push(s@.subrange(start as int, i as int)) == split_on(
                s@.subrange(0, i as int),
                sep,
            ),
        decreases n - i,
    {
        let c = s.get_char(i);
        let ghost prefix = s@.subrange(0, i as int);
        let ghost next = s@.subrange(0, i + 1);
        assert(next.drop_last() =~= prefix);
        assert(next.last() == c);
        if c == sep {
            let piece = String::from_str(s.substring_char(start, i));
            pieces.push(piece);
            start = i + 1;
            assert(s@.subrange(start as int, i + 1) =~= Seq::<char>::empty());
        } else {
            assert(s@.subrange(start as int, i + 1) =~= s@.subrange(start as int, i as int).push(c));
        }
        i = i + 1;
        assert(pieces@.map_values(|p: String| p@).push(s@.subrange(start as int, i as int)) =~= split_on(
            s@.subrange(0, i as int),
            sep,
        ));
    }
    let last = String::from_str(s.substring_char(start, n));
    pieces.push(last);
    assert(s@.subrange(0, n as int) =~= s@);
    assert(pieces@.map_values(|p: String| p@) =~= split_on(s@, sep));
    pieces
}

/// The non-empty entries of a list, in order.
pub open spec fn nonempty_of(ts: Seq<Seq<char>>) -> Seq<Seq<char>>
    decreases ts.len(),
{
    if ts.len() == 0 {
        Seq::empty()
    } else {
        let init = nonempty_of(ts.drop_last());
        if ts.last().len() > 0 {
            init.push(ts.last())
        } else {
            init
        }
    }
}

/// `entries` are the pieces, each trimmed, with the empty ones left out.
pub open spec fn list_entries(pieces: Seq<Seq<char>>, entries: Seq<Seq<char>>) -> bool {
    exists|ts: Seq<Seq<char>>|
        ts.len() == pieces.len() && (forall|k: int|
            0 <= k < ts.len() ==> is_trim_of(#[trigger] ts[k], pieces[k])) && entries == nonempty_of(
            ts,
        )
}

/// The entries of a comma-separated list: each trimmed, empty ones left out.
pub fn parse_url_list(list: &str) -> (r: Vec<String>)
    ensures
        list_entries(split_on(list@, ','), r@.map_values(|p: String| p@)),
{
    let pieces = split_at_char(list, ',');
    let ghost pv = pieces@.map_values(|p: String| p@);
    let ghost mut ts: Seq<Seq<char>> = Seq::empty();
    let mut out: Vec<String> = Vec::new();
    let mut i: usize = 0;
    while i < pieces.len()
        invariant
            i <= pieces@.len(),
            pv == pieces@.map_values(|p: String| p@),
            ts.len() == i,
            forall|k: int| 0 <= k < i ==> is_trim_of(#[trigger] ts[k], pv[k]),
            out@.map_values(|p: String| p@) == nonempty_of(ts),
        decreases pieces@.len() - i,
    {
        let t = trim_whitespace(pieces[i].as_str());
        let ghost old_ts = ts;
        let ghost old_out = out@.map_values(|p: String| p@);
        proof {
            ts = ts.push(t@);
            assert(ts.drop_last() =~= old_ts);
        }
        if t.unicode_len() > 0 {
            out.push(t);
            assert(out@.map_values(|p: String| p@) =~= old_out.push(ts.last()));
        }
        i = i + 1;
    }
    proof {
        entries_from_trims(pv, ts, out@.map_values(|p: String| p@));
    }
    out
}

proof fn entries_from_trims(pieces: Seq<Seq<char>>, ts: Seq<Seq<char>>, entries: Seq<Seq<char>>)
    requires
        ts.len() == pieces.len(),
        forall|k: int| 0 <= k < ts.len() ==> is_trim_of(#[trigger] ts[k], pieces[k]),
        entries == nonempty_of(ts),
    ensures
        list_entries(pieces, entries),
{
}

} // verus!
