//! Verified building blocks for the string work the negotiation engine does:
//! finding a character, matching a substring at a position, finding the first
//! occurrence of a substring, replacing that first occurrence, and testing a
//! prefix.

use vstd::prelude::*;
use vstd::string::StrSliceExecFns;
use vstd::string::StringExecFns;

verus! {

/// Index of the first occurrence of `c` in `s`, or `s.len()` when `c` does
/// not occur.
pub open spec fn spec_find(s: Seq<char>, c: char) -> int
    decreases s.len(),
{
    if s.len() == 0 {
        0
    } else if s[0] == c {
        0
    } else {
        1 + spec_find(s.drop_first(), c)
    }
}

pub proof fn lemma_spec_find(s: Seq<char>, c: char)
    ensures
        0 <= spec_find(s, c) <= s.len(),
        spec_find(s, c) < s.len() ==> s[spec_find(s, c)] == c,
        forall|j: int| 0 <= j < spec_find(s, c) ==> s[j] != c,
    decreases s.len(),
{
    if s.len() == 0 {
    } else if s[0] == c {
    } else {
        lemma_spec_find(s.drop_first(), c);
        assert forall|j: int| 0 <= j < spec_find(s, c) implies s[j] != c by {
            if j > 0 {
                assert(s.drop_first()[j - 1] == s[j]);
            }
        }
    }
}

/// First occurrence of `c` in `s`, as an index; `s` fully scanned without a
/// hit yields its length.
pub fn find_char(s: &str, c: char) -> (r: usize)
    ensures
        r as int == spec_find(s@, c),
{
    let n = s.unicode_len();
    let mut i: usize = 0;
    while i < n
        invariant
            n == s@.len(),
            0 <= i <= n,
            forall|j: int| 0 <= j < i ==> s@[j] != c,
        decreases n - i,
    {
        if s.get_char(i) == c {
            proof {
                lemma_spec_find(s@, c);
            }
            return i;
        }
        i += 1;
    }
    proof {
        lemma_spec_find(s@, c);
    }
    n
}

/// `p` occurs in `s` starting at position `i`.
pub open spec fn spec_match_at(s: Seq<char>, p: Seq<char>, i: int) -> bool {
    0 <= i && i + p.len() <= s.len() && s.subrange(i, i + p.len()) == p
}

/// Index of the first position where `p` occurs in `s`; when `p` does not
/// occur the scan runs off the end and the result is `s.len()`.
pub open spec fn spec_find_sub(s: Seq<char>, p: Seq<char>) -> int
    decreases s.len(),
{
    if p.len() <= s.len() && s.take(p.len() as int) == p {
        0
    } else if s.len() == 0 {
        0
    } else {
        1 + spec_find_sub(s.drop_first(), p)
    }
}

/// `p` occurs somewhere in `s`.
pub open spec fn spec_has_sub(s: Seq<char>, p: Seq<char>) -> bool {
    spec_find_sub(s, p) + p.len() <= s.len()
}

pub proof fn lemma_spec_find_sub(s: Seq<char>, p: Seq<char>)
    requires
        p.len() > 0,
    ensures
        0 <= spec_find_sub(s, p) <= s.len(),
        spec_has_sub(s, p) ==> spec_match_at(s, p, spec_find_sub(s, p)),
        forall|j: int| 0 <= j < spec_find_sub(s, p) ==> !spec_match_at(s, p, j),
        !spec_has_sub(s, p) ==> forall|j: int| !spec_match_at(s, p, j),
    decreases s.len(),
{
    if p.len() <= s.len() && s.take(p.len() as int) == p {
        assert(s.subrange(0, p.len() as int) == s.take(p.len() as int));
    } else if s.len() == 0 {
    } else {
        lemma_spec_find_sub(s.drop_first(), p);
        let k = spec_find_sub(s, p);
        assert forall|j: int| 1 <= j && j + p.len() <= s.len() implies (spec_match_at(s, p, j)
            <==> spec_match_at(s.drop_first(), p, j - 1)) by {
            assert(s.drop_first().subrange(j - 1, j - 1 + p.len() as int) =~= s.subrange(
                j,
                j + p.len() as int,
            ));
        }
        assert(!spec_match_at(s, p, 0)) by {
            assert(s.subrange(0, p.len() as int) == s.take(p.len() as int));
        }
        assert forall|j: int| 0 <= j < k implies !spec_match_at(s, p, j) by {
            if j >= 1 && j + p.len() <= s.len() {
                assert(!spec_match_at(s.drop_first(), p, j - 1));
            }
        }
        if !spec_has_sub(s, p) {
            assert forall|j: int| !spec_match_at(s, p, j) by {
                if 1 <= j && j + p.len() <= s.len() {
                    assert(!spec_match_at(s.drop_first(), p, j - 1));
                }
            }
        }
    }
}

/// When `p` occurs nowhere in `s`, the scan result is exactly `s.len()`.
pub proof fn lemma_find_sub_absent(s: Seq<char>, p: Seq<char>)
    requires
        p.len() > 0,
        forall|j: int| !spec_match_at(s, p, j),
    ensures
        spec_find_sub(s, p) == s.len(),
    decreases s.len(),
{
    if p.len() <= s.len() && s.take(p.len() as int) == p {
        assert(spec_match_at(s, p, 0)) by {
            assert(s.subrange(0, p.len() as int) == s.take(p.len() as int));
        }
    } else if s.len() == 0 {
    } else {
        assert forall|j: int| !spec_match_at(s.drop_first(), p, j) by {
            if 0 <= j && j + p.len() <= s.len() - 1 {
                assert(s.drop_first().subrange(j, j + p.len() as int) =~= s.subrange(
                    j + 1,
                    j + 1 + p.len() as int,
                ));
                assert(!spec_match_at(s, p, j + 1));
            }
        }
        lemma_find_sub_absent(s.drop_first(), p);
    }
}

/// Compare `p` against `s` at position `i`, character by character.
pub fn match_at(s: &str, p: &str, i: usize) -> (r: bool)
    requires
        i + p@.len() <= s@.len(),
    ensures
        r == spec_match_at(s@, p@, i as int),
{
    let n = s.unicode_len();
    let m = p.unicode_len();
    let mut j: usize = 0;
    while j < m
        invariant
            n == s@.len(),
            m == p@.len(),
            i + m <= s@.len(),
            0 <= j <= m,
            forall|k: int| 0 <= k < j ==> s@[i + k] == p@[k],
        decreases m - j,
    {
        if s.get_char(i + j) != p.get_char(j) {
            assert(s@.subrange(i as int, i + m) != p@) by {
                assert(s@.subrange(i as int, i + m)[j as int] == s@[i + j]);
            }
            return false;
        }
        j += 1;
    }
    assert(s@.subrange(i as int, i + m) =~= p@);
    true
}

/// First position where `p` occurs in `s`, or `s`'s length when it does not.
pub fn find_sub(s: &str, p: &str) -> (r: usize)
    requires
        p@.len() > 0,
    ensures
        r as int == spec_find_sub(s@, p@),
{
    let n = s.unicode_len();
    let m = p.unicode_len();
    if m > n {
        proof {
            lemma_spec_find_sub(s@, p@);
            lemma_find_sub_absent(s@, p@);
        }
        return n;
    }
    let mut i: usize = 0;
    while i <= n - m
        invariant
            n == s@.len(),
            m == p@.len(),
            0 < m <= n,
            0 <= i <= n,
            forall|j: int| 0 <= j < i ==> !spec_match_at(s@, p@, j),
        decreases n - i,
    {
        if match_at(s, p, i) {
            proof {
                lemma_spec_find_sub(s@, p@);
            }
            return i;
        }
        i += 1;
    }
    proof {
        assert forall|j: int| !spec_match_at(s@, p@, j) by {
            if 0 <= j < i {
                assert(!spec_match_at(s@, p@, j));
            }
        }
        lemma_spec_find_sub(s@, p@);
        lemma_find_sub_absent(s@, p@);
    }
    n
}

/// `s` with the first occurrence of `p` replaced by `r`; `s` unchanged when
/// `p` does not occur.
pub open spec fn spec_replace_first(s: Seq<char>, p: Seq<char>, r: Seq<char>) -> Seq<char> {
    if spec_has_sub(s, p) {
        s.take(spec_find_sub(s, p)) + r + s.skip(spec_find_sub(s, p) + p.len())
    } else {
        s
    }
}

/// Replace the first occurrence of `p` in `s` with `r`.
pub fn replace_first(s: &str, p: &str, r: &str) -> (res: String)
    requires
        p@.len() > 0,
    ensures
        res@ == spec_replace_first(s@, p@, r@),
{
    let n = s.unicode_len();
    let m = p.unicode_len();
    let i = find_sub(s, p);
    proof {
        lemma_spec_find_sub(s@, p@);
    }
    if m <= n && i <= n - m {
        let mut out = String::from_str(s.substring_char(0, i));
        out.append(r);
        out.append(s.substring_char(i + m, n));
        proof {
            assert(out@ =~= spec_replace_first(s@, p@, r@));
        }
        out
    } else {
        String::from_str(s)
    }
}

/// `p` is a prefix of `s`.
pub open spec fn spec_starts_with(s: Seq<char>, p: Seq<char>) -> bool {
    p.len() <= s.len() && s.take(p.len() as int) == p
}

/// Test whether `s` starts with `p`.
pub fn starts_with(s: &str, p: &str) -> (r: bool)
    ensures
        r == spec_starts_with(s@, p@),
{
    let n = s.unicode_len();
    let m = p.unicode_len();
    if m > n {
        return false;
    }
    let r = match_at(s, p, 0);
    proof {
        assert(s@.subrange(0, m as int) == s@.take(m as int));
    }
    r
}

/// Replacing the sole occurrence of a `/<code>/` pattern with `/` leaves a
/// string in which the pattern no longer occurs, provided the code itself
/// contains no `/`. (With a second occurrence present, or a `/` inside the
/// code, removal can expose a fresh occurrence.)
pub proof fn lemma_replace_sole_occurrence(s: Seq<char>, code: Seq<char>, i: int)
    requires
        forall|u: int| 0 <= u < code.len() ==> code[u] != '/',
        spec_match_at(s, seq!['/'] + code + seq!['/'], i),
        forall|j: int| spec_match_at(s, seq!['/'] + code + seq!['/'], j) ==> j == i,
    ensures
        !spec_has_sub(
            spec_replace_first(s, seq!['/'] + code + seq!['/'], seq!['/']),
            seq!['/'] + code + seq!['/'],
        ),
{
    let p = seq!['/'] + code + seq!['/'];
    let m = p.len();
    let n = s.len();
    lemma_spec_find_sub(s, p);
    assert(spec_has_sub(s, p));
    assert(spec_find_sub(s, p) == i);
    let s2 = spec_replace_first(s, p, seq!['/']);
    assert(s2 == s.take(i) + seq!['/'] + s.skip(i + m));
    assert(s2.len() == n - m + 1);
    // The two ways positions of s2 read back into s.
    assert forall|k: int| 0 <= k <= i implies s2[k] == s[k] by {
        if k < i {
        } else {
            assert(s[i] == p[0]);
        }
    }
    assert forall|k: int| i <= k < s2.len() implies s2[k] == s[k + m - 1] by {
        if k == i {
            assert(s[i + m - 1] == p[m - 1]);
        }
    }
    // Only 0 and m - 1 carry '/' in the pattern.
    assert(p[0] == '/' && p[m - 1] == '/');
    assert forall|u: int| 0 < u < m - 1 implies p[u] != '/' by {
        assert(p[u] == code[u - 1]);
    }
    assert forall|j: int| !spec_match_at(s2, p, j) by {
        if 0 <= j && j + m <= s2.len() {
            if spec_match_at(s2, p, j) {
                if j + m <= i {
                    // The window precedes the splice and reads straight from s.
                    assert forall|u: int| 0 <= u < m implies s[j + u] == p[u] by {
                        assert(s2[j + u] == s[j + u]);
                        assert(s2.subrange(j, j + m)[u] == s2[j + u]);
                    }
                    assert(s.subrange(j, j + m) =~= p);
                    assert(spec_match_at(s, p, j));
                    assert(false);
                } else if j >= i {
                    // The window follows the splice and reads from s shifted
                    // by the removed text.
                    assert forall|u: int| 0 <= u < m implies s[j + m - 1 + u] == p[u] by {
                        assert(s2[j + u] == s[j + u + m - 1]);
                        assert(s2.subrange(j, j + m)[u] == s2[j + u]);
                    }
                    assert(s.subrange(j + m - 1, j + m - 1 + m) =~= p);
                    assert(spec_match_at(s, p, j + m - 1));
                    assert(j + m - 1 == i);
                    assert(false);
                } else {
                    // The window straddles the spliced '/', which sits at
                    // offset i - j inside the pattern; a slash-free code
                    // forces that offset to the pattern's last position, so
                    // the whole window reads straight from s.
                    let d = i - j;
                    assert(0 < d < m);
                    assert(s2.subrange(j, j + m)[d] == s2[i]);
                    assert(s2[i] == '/');
                    assert(p[d] == '/');
                    assert(d == m - 1);
                    assert forall|u: int| 0 <= u < m implies s[j + u] == p[u] by {
                        assert(j + u <= i);
                        assert(s2[j + u] == s[j + u]);
                        assert(s2.subrange(j, j + m)[u] == s2[j + u]);
                    }
                    assert(s.subrange(j, j + m) =~= p);
                    assert(spec_match_at(s, p, j));
                    assert(j == i);
                    assert(false);
                }
            }
        }
    }
    lemma_find_sub_absent(s2, p);
}

} // verus!
