//! Verified text helpers.
//!
//! Substring replacement over character sequences — the engine behind
//! positional `{0}`-style message arguments — and decimal rendering
//! of integers, used to build placeholder patterns and socket
//! addresses.

use vstd::prelude::*;

verus! {

/// Leftmost, non-overlapping replacement of `pat` by `sub` in `s`,
/// scanning left to right and never rescanning what `sub` brought in.
/// An empty pattern replaces nothing.
pub open spec fn replace_chars(s: Seq<char>, pat: Seq<char>, sub: Seq<char>) -> Seq<char>
    decreases s.len(),
{
    if pat.len() == 0 || s.len() < pat.len() {
        s
    } else if s.take(pat.len() as int) == pat {
        sub + replace_chars(s.skip(pat.len() as int), pat, sub)
    } else {
        seq![s[0]] + replace_chars(s.skip(1), pat, sub)
    }
}

/// Whether `pat` occurs in `s` at position `k`.
pub open spec fn occurs_at(s: Seq<char>, pat: Seq<char>, k: int) -> bool {
    0 <= k && k + pat.len() <= s.len() && s.subrange(k, k + pat.len()) == pat
}

/// Peeling one unmatched character off the front commutes with
/// replacement.
proof fn lemma_replace_step(s: Seq<char>, pat: Seq<char>, sub: Seq<char>)
    requires
        pat.len() > 0,
        s.len() > 0,
        !occurs_at(s, pat, 0),
    ensures
        replace_chars(s, pat, sub) == seq![s[0]] + replace_chars(s.skip(1), pat, sub),
{
    if s.len() < pat.len() {
        assert(s.skip(1).len() < pat.len());
        assert(seq![s[0]] + s.skip(1) =~= s);
    } else {
        assert(s.take(pat.len() as int) =~= s.subrange(0, pat.len() as int));
    }
}

/// If the first occurrence of `pat` is at `i`, replacement copies the
/// first `i` characters, emits `sub`, and goes on after the match.
proof fn lemma_replace_at_first(s: Seq<char>, pat: Seq<char>, sub: Seq<char>, i: int)
    requires
        pat.len() > 0,
        occurs_at(s, pat, i),
        forall|k: int| 0 <= k < i ==> !occurs_at(s, pat, k),
    ensures
        replace_chars(s, pat, sub) == s.take(i) + sub + replace_chars(
            s.skip(i + pat.len()),
            pat,
            sub,
        ),
    decreases i,
{
    if i == 0 {
        assert(s.take(pat.len() as int) =~= s.subrange(0, pat.len() as int));
        assert(replace_chars(s, pat, sub) == sub + replace_chars(s.skip(pat.len() as int), pat, sub));
        assert(s.take(0) + sub =~= sub);
        assert(s.take(0) + sub + replace_chars(s.skip(pat.len() as int), pat, sub) =~= sub
            + replace_chars(s.skip(pat.len() as int), pat, sub));
    } else {
        lemma_replace_step(s, pat, sub);
        let t = s.skip(1);
        assert(occurs_at(t, pat, i - 1)) by {
            assert(t.subrange(i - 1, i - 1 + pat.len()) =~= s.subrange(i, i + pat.len()));
        }
        assert(forall|k: int| 0 <= k < i - 1 ==> !occurs_at(t, pat, k)) by {
            assert forall|k: int| 0 <= k < i - 1 implies !occurs_at(t, pat, k) by {
                if k + pat.len() <= t.len() {
                    assert(t.subrange(k, k + pat.len()) =~= s.subrange(k + 1, k + 1 + pat.len()));
                    assert(!occurs_at(s, pat, k + 1));
                }
            }
        }
        lemma_replace_at_first(t, pat, sub, i - 1);
        assert(seq![s[0]] + (t.take(i - 1) + sub + replace_chars(t.skip(i - 1 + pat.len()), pat, sub))
            =~= s.take(i) + sub + replace_chars(s.skip(i + pat.len()), pat, sub)) by {
            assert(t.skip(i - 1 + pat.len()) =~= s.skip(i + pat.len()));
            assert(seq![s[0]] + t.take(i - 1) =~= s.take(i));
        }
    }
}

/// With no occurrence anywhere, replacement is the identity.
proof fn lemma_replace_absent(s: Seq<char>, pat: Seq<char>, sub: Seq<char>)
    requires
        pat.len() > 0,
        forall|k: int| !occurs_at(s, pat, k),
    ensures
        replace_chars(s, pat, sub) == s,
    decreases s.len(),
{
    if s.len() >= pat.len() {
        lemma_replace_step(s, pat, sub);
        let t = s.skip(1);
        assert(forall|k: int| !occurs_at(t, pat, k)) by {
            assert forall|k: int| !occurs_at(t, pat, k) by {
                if 0 <= k && k + pat.len() <= t.len() {
                    assert(t.subrange(k, k + pat.len()) =~= s.subrange(k + 1, k + 1 + pat.len()));
                    assert(!occurs_at(s, pat, k + 1));
                }
            }
        }
        lemma_replace_absent(t, pat, sub);
        assert(seq![s[0]] + t =~= s);
    }
}

/// Whether `pat` stands at position `i` of `s`, compared character by
/// character.
fn match_at(s: &str, pat: &str, i: usize, slen: usize, plen: usize) -> (b: bool)
    requires
        slen == s@.len(),
        plen == pat@.len(),
        i + plen <= slen,
    ensures
        b == occurs_at(s@, pat@, i as int),
{
    let mut j: usize = 0;
    while j < plen
        invariant
            slen == s@.len(),
            plen == pat@.len(),
            i + plen <= slen,
            j <= plen,
            forall|k: int| 0 <= k < j ==> s@[i + k] == pat@[k],
        decreases plen - j,
    {
        if s.get_char(i + j) != pat.get_char(j) {
            proof {
                assert(s@.subrange(i as int, i as int + pat@.len())[j as int] == s@[i + j]);
            }
            return false;
        }
        j = j + 1;
    }
    proof {
        assert(s@.subrange(i as int, i as int + pat@.len()) =~= pat@);
    }
    true
}

/// Replaces every occurrence of `pat` in `s` by `sub`, scanning left
/// to right over non-overlapping matches, exactly as
/// [`replace_chars`] lays it down.
pub fn replace_str(s: &str, pat: &str, sub: &str) -> (r: String)
    ensures
        r@ == replace_chars(s@, pat@, sub@),
    decreases s@.len(),
{
    let slen = s.unicode_len();
    let plen = pat.unicode_len();
    if plen == 0 || slen < plen {
        return s.to_owned();
    }
    let mut i: usize = 0;
    while i <= slen - plen
        invariant
            slen == s@.len(),
            plen == pat@.len(),
            0 < plen <= slen,
            i <= slen - plen + 1,
            forall|k: int| 0 <= k < i ==> !occurs_at(s@, pat@, k),
        decreases slen + 1 - plen - i,
    {
        if match_at(s, pat, i, slen, plen) {
            let head = s.substring_char(0, i);
            let rest = s.substring_char(i + plen, slen);
            proof {
                assert(rest@ =~= s@.skip(i + plen));
                assert(head@ =~= s@.take(i as int));
            }
            let tail_done = replace_str(rest, pat, sub);
            proof {
                lemma_replace_at_first(s@, pat@, sub@, i as int);
            }
            return String::from_str(head).concat(sub).concat(tail_done.as_str());
        }
        i = i + 1;
    }
    proof {
        assert(forall|k: int| !occurs_at(s@, pat@, k)) by {
            assert forall|k: int| !occurs_at(s@, pat@, k) by {
                if 0 <= k && k + pat@.len() <= s@.len() {
                    assert(k < i);
                }
            }
        }
        lemma_replace_absent(s@, pat@, sub@);
    }
    s.to_owned()
}

/// The character of one decimal digit.
pub open spec fn dec_digit(d: int) -> char {
    if d == 0 {
        '0'
    } else if d == 1 {
        '1'
    } else if d == 2 {
        '2'
    } else if d == 3 {
        '3'
    } else if d == 4 {
        '4'
    } else if d == 5 {
        '5'
    } else if d == 6 {
        '6'
    } else if d == 7 {
        '7'
    } else if d == 8 {
        '8'
    } else {
        '9'
    }
}

/// The decimal rendering of a non-negative integer, most significant
/// digit first, without leading zeros (except for zero itself).
pub open spec fn dec_chars(n: int) -> Seq<char>
    decreases n,
{
    if n < 10 {
        seq![dec_digit(n)]
    } else {
        dec_chars(n / 10) + seq![dec_digit(n % 10)]
    }
}

/// One decimal digit as text.
fn digit_str(d: u64) -> (r: &'static str)
    requires
        d < 10,
    ensures
        r@ == seq![dec_digit(d as int)],
{
    proof {
        reveal_strlit("0");
        reveal_strlit("1");
        reveal_strlit("2");
        reveal_strlit("3");
        reveal_strlit("4");
        reveal_strlit("5");
        reveal_strlit("6");
        reveal_strlit("7");
        reveal_strlit("8");
        reveal_strlit("9");
    }
    let r = if d == 0 {
        "0"
    } else if d == 1 {
        "1"
    } else if d == 2 {
        "2"
    } else if d == 3 {
        "3"
    } else if d == 4 {
        "4"
    } else if d == 5 {
        "5"
    } else if d == 6 {
        "6"
    } else if d == 7 {
        "7"
    } else if d == 8 {
        "8"
    } else {
        "9"
    };
    proof {
        assert(r@ =~= seq![dec_digit(d as int)]);
    }
    r
}

/// Renders an integer in decimal.
pub fn u64_to_dec(n: u64) -> (r: String)
    ensures
        r@ == dec_chars(n as int),
    decreases n,
{
    if n < 10 {
        String::from_str(digit_str(n))
    } else {
        let high = u64_to_dec(n / 10);
        high.concat(digit_str(n % 10))
    }
}

} // verus!
