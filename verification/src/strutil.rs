//! Character-level string utilities: prefix matching, substring
//! search, ASCII trimming, case folding and equality.

use vstd::prelude::*;
use vstd::string::StrSliceExecFns;

verus! {

/// Whether `p` occurs in `s` starting at offset `off`.
pub open spec fn spec_match_at(s: Seq<char>, off: int, p: Seq<char>) -> bool {
    0 <= off && off + p.len() <= s.len() && s.subrange(off, off + p.len()) == p
}

/// Whether `needle` occurs somewhere in `hay`.
pub open spec fn spec_contains(hay: Seq<char>, needle: Seq<char>) -> bool {
    exists|i: int| spec_match_at(hay, i, needle)
}

/// Whether the characters of `p` match `s` at `off`, position by
/// position; equivalent to `spec_match_at` once the bounds hold.
pub open spec fn chars_match_at(s: Seq<char>, off: int, p: Seq<char>) -> bool {
    forall|m: int| 0 <= m < p.len() ==> s[off + m] == p[m]
}

proof fn lemma_match_at_chars(s: Seq<char>, off: int, p: Seq<char>)
    requires
        0 <= off,
        off + p.len() <= s.len(),
    ensures
        spec_match_at(s, off, p) == chars_match_at(s, off, p),
{
    if chars_match_at(s, off, p) {
        assert(s.subrange(off, off + p.len()) =~= p);
    } else {
        let m = choose|m: int| 0 <= m < p.len() && s[off + m] != p[m];
        assert(s.subrange(off, off + p.len())[m] == s[off + m]);
    }
}

/// Whether `p` occurs in `s` at offset `off`, by characters.
pub fn match_at(s: &str, off: usize, p: &str) -> (r: bool)
    ensures
        r == spec_match_at(s@, off as int, p@),
{
    let n = s.unicode_len();
    let pn = p.unicode_len();
    if off > n || pn > n - off {
        return false;
    }
    proof {
        lemma_match_at_chars(s@, off as int, p@);
    }
    let mut m: usize = 0;
    while m < pn
        invariant
            off + pn <= n == s@.len(),
            pn == p@.len(),
            m <= pn,
            forall|m2: int| 0 <= m2 < m ==> s@[off + m2] == p@[m2],
        decreases pn - m,
    {
        if s.get_char(off + m) != p.get_char(m) {
            assert(!chars_match_at(s@, off as int, p@));
            proof {
                lemma_match_at_chars(s@, off as int, p@);
            }
            return false;
        }
        m = m + 1;
    }
    true
}

/// Whether `needle` occurs somewhere in `hay`, by characters.
pub fn contains_str(hay: &str, needle: &str) -> (r: bool)
    ensures
        r == spec_contains(hay@, needle@),
{
    let n = hay.unicode_len();
    let pn = needle.unicode_len();
    if pn == 0 {
        assert(spec_match_at(hay@, 0, needle@)) by {
            assert(hay@.subrange(0, 0) =~= needle@);
        }
        return true;
    }
    if pn > n {
        assert forall|i2: int| !spec_match_at(hay@, i2, needle@) by {}
        return false;
    }
    let mut i: usize = 0;
    while i <= n - pn
        invariant
            n == hay@.len(),
            pn == needle@.len(),
            1 <= pn <= n,
            i <= n - pn + 1,
            forall|i2: int| 0 <= i2 < i ==> !spec_match_at(hay@, i2, needle@),
        decreases n - pn - i + 1,
    {
        if match_at(hay, i, needle) {
            return true;
        }
        i = i + 1;
    }
    assert forall|i2: int| !spec_match_at(hay@, i2, needle@) by {
        if 0 <= i2 && i2 + needle@.len() <= hay@.len() {
            assert(i2 < i);
        }
    }
    false
}

/// ASCII whitespace, as trimmed from batch-file lines: space, tab,
/// line feed, carriage return.
pub open spec fn is_ws_char(c: char) -> bool {
    c == ' ' || c == '\t' || c == '\n' || c == '\r'
}

/// The first index at or after `i` holding a non-whitespace character.
pub open spec fn ws_run_end(s: Seq<char>, i: int) -> int
    decreases s.len() - i,
{
    if 0 <= i < s.len() && is_ws_char(s[i]) {
        ws_run_end(s, i + 1)
    } else {
        i
    }
}

/// The index just after the last non-whitespace character before `j`.
pub open spec fn ws_run_start(s: Seq<char>, j: int) -> int
    decreases j,
{
    if 0 < j <= s.len() && is_ws_char(s[j - 1]) {
        ws_run_start(s, j - 1)
    } else {
        j
    }
}

/// `s` with leading and trailing ASCII whitespace removed.
pub open spec fn spec_trim(s: Seq<char>) -> Seq<char> {
    let a = ws_run_end(s, 0);
    let b = ws_run_start(s, s.len() as int);
    if a <= b {
        s.subrange(a, b)
    } else {
        Seq::empty()
    }
}

fn char_is_ws(c: char) -> (r: bool)
    ensures
        r == is_ws_char(c),
{
    c == ' ' || c == '\t' || c == '\n' || c == '\r'
}

/// Removes leading and trailing ASCII whitespace.
pub fn trim_str(s: &str) -> (r: &str)
    ensures
        r@ == spec_trim(s@),
{
    let n = s.unicode_len();
    let mut a: usize = 0;
    while a < n && char_is_ws(s.get_char(a))
        invariant
            n == s@.len(),
            a <= n,
            ws_run_end(s@, 0) == ws_run_end(s@, a as int),
        decreases n - a,
    {
        a = a + 1;
    }
    let mut b: usize = n;
    while b > 0 && char_is_ws(s.get_char(b - 1))
        invariant
            n == s@.len(),
            b <= n,
            ws_run_start(s@, n as int) == ws_run_start(s@, b as int),
        decreases b,
    {
        b = b - 1;
    }
    if a <= b {
        s.substring_char(a, b)
    } else {
        proof {
            reveal_strlit("");
            assert(""@ =~= Seq::<char>::empty());
        }
        ""
    }
}

/// Relies on String::push: appends exactly one character.
#[verifier::external_body]
pub(crate) fn push_char(s: &mut String, c: char)
    ensures
        final(s)@ == old(s)@ + seq![c],
{
    s.push(c);
}

/// Relies on str's `PartialEq`: two string slices are equal exactly
/// when their characters are.
#[verifier::external_body]
pub(crate) fn str_eq(a: &str, b: &str) -> (r: bool)
    ensures
        r == (a@ == b@),
{
    a == b
}

/// What `str::to_lowercase` returns for a given character sequence.
/// The result depends on the characters alone.
pub uninterp spec fn lower_of(s: Seq<char>) -> Seq<char>;

/// Relies on str::to_lowercase: Unicode lowercasing, a pure function
/// of the text; an empty string stays empty.
#[verifier::external_body]
pub(crate) fn to_lowercase_str(s: &str) -> (r: String)
    ensures
        r@ == lower_of(s@),
        s@.len() == 0 ==> r@.len() == 0,
{
    s.to_lowercase()
}

} // verus!
