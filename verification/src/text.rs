//! Small string utilities used by the name-based lookups of the library.

use vstd::prelude::*;
use vstd::string::StrSliceExecFns;
use vstd::string::StringSliceAdditionalSpecFns;

verus! {

broadcast use vstd::utf8::encode_utf8_decode_utf8;

/// Compares two strings for equality, byte by byte.
pub fn str_eq(a: &str, b: &str) -> (r: bool)
    ensures
        r == (a@ == b@),
{
    let ab = a.as_bytes();
    let bb = b.as_bytes();
    proof {
        // UTF-8 encoding is injective
        assert(vstd::utf8::decode_utf8(a.spec_bytes()) == a@);
        assert(vstd::utf8::decode_utf8(b.spec_bytes()) == b@);
    }
    if ab.len() != bb.len() {
        assert(ab@ != bb@);
        return false;
    }
    let n = ab.len();
    let mut i: usize = 0;
    while i < n
        invariant
            n == ab@.len(),
            n == bb@.len(),
            ab@ == a.spec_bytes(),
            bb@ == b.spec_bytes(),
            i <= n,
            forall|j: int| 0 <= j < i ==> ab@[j] == bb@[j],
        decreases n - i,
    {
        if ab[i] != bb[i] {
            assert(ab@ != bb@);
            return false;
        }
        i = i + 1;
    }
    assert(ab@ =~= bb@);
    true
}

/// Whether `s` begins with `prefix`.
pub open spec fn spec_starts_with(s: Seq<char>, prefix: Seq<char>) -> bool {
    prefix.len() <= s.len() && s.subrange(0, prefix.len() as int) == prefix
}

/// Whether `s` begins with `prefix`, compared character by character.
pub fn str_starts_with(s: &str, prefix: &str) -> (r: bool)
    ensures
        r == spec_starts_with(s@, prefix@),
{
    let n = prefix.unicode_len();
    let m = s.unicode_len();
    if n > m {
        return false;
    }
    let mut i: usize = 0;
    while i < n
        invariant
            n == prefix@.len(),
            m == s@.len(),
            n <= m,
            i <= n,
            forall|j: int| 0 <= j < i ==> s@[j] == prefix@[j],
        decreases n - i,
    {
        if s.get_char(i) != prefix.get_char(i) {
            assert(s@.subrange(0, n as int)[i as int] != prefix@[i as int]);
            return false;
        }
        i = i + 1;
    }
    assert(s@.subrange(0, n as int) =~= prefix@);
    true
}

/// Whether `pat` occurs in `s`.
pub open spec fn spec_contains_str(s: Seq<char>, pat: Seq<char>) -> bool {
    exists|i: int| 0 <= i && i + pat.len() <= s.len() && #[trigger] s.subrange(i, i + pat.len()) == pat
}

/// Whether `pat` occurs in `s`, compared character by character.
pub fn str_contains(s: &str, pat: &str) -> (r: bool)
    ensures
        r == spec_contains_str(s@, pat@),
{
    let n = s.unicode_len();
    let m = pat.unicode_len();
    if m > n {
        return false;
    }
    let last = n - m;
    let mut i: usize = 0;
    loop
        invariant
            n == s@.len(),
            m == pat@.len(),
            m <= n,
            last == n - m,
            i <= last,
            forall|j: int| 0 <= j < i ==> #[trigger] s@.subrange(j, j + m) != pat@,
        decreases last - i,
    {
        let piece = s.substring_char(i, i + m);
        if str_eq(piece, pat) {
            return true;
        }
        if i == last {
            assert forall|j: int| 0 <= j && j + pat@.len() <= s@.len() implies #[trigger] s@.subrange(
                j,
                j + pat@.len(),
            ) != pat@ by {
                if j == i {
                    assert(s@.subrange(j, j + m) == piece@);
                }
            }
            return false;
        }
        i = i + 1;
    }
}

/// The uppercase form of a string, as Rust's `str::to_uppercase` computes it
/// (Unicode uppercase mapping).
pub uninterp spec fn spec_to_uppercase(s: Seq<char>) -> Seq<char>;

/// Every character of `s` is ASCII.
pub open spec fn spec_is_ascii(s: Seq<char>) -> bool {
    forall|i: int| 0 <= i < s.len() ==> (#[trigger] s[i] as u32) < 128
}

/// A character's ASCII uppercase form: `a`-`z` become `A`-`Z`, every other
/// character stays.
pub open spec fn spec_ascii_upper_char(c: char) -> char {
    if 'a' <= c && c <= 'z' {
        ((c as u32) - 32) as char
    } else {
        c
    }
}

/// The ASCII uppercase form of a string.
pub open spec fn spec_ascii_upper(s: Seq<char>) -> Seq<char> {
    s.map_values(|c: char| spec_ascii_upper_char(c))
}

/// A character's ASCII lowercase form: `A`-`Z` become `a`-`z`, every other
/// character stays.
pub open spec fn spec_ascii_lower_char(c: char) -> char {
    if 'A' <= c && c <= 'Z' {
        ((c as u32) + 32) as char
    } else {
        c
    }
}

/// The ASCII lowercase form of a string.
pub open spec fn spec_ascii_lower(s: Seq<char>) -> Seq<char> {
    s.map_values(|c: char| spec_ascii_lower_char(c))
}

/// The ASCII case forms of an ASCII string are ASCII, and uppercasing either
/// of them gives the uppercase form of the string itself.
pub proof fn lemma_ascii_case_forms(s: Seq<char>)
    requires
        spec_is_ascii(s),
    ensures
        spec_is_ascii(spec_ascii_upper(s)),
        spec_is_ascii(spec_ascii_lower(s)),
        spec_ascii_upper(spec_ascii_upper(s)) == spec_ascii_upper(s),
        spec_ascii_upper(spec_ascii_lower(s)) == spec_ascii_upper(s),
{
    let up = spec_ascii_upper(s);
    let low = spec_ascii_lower(s);
    assert forall|i: int| 0 <= i < s.len() implies (#[trigger] up[i] as u32) < 128 && (low[i] as u32) < 128
        && spec_ascii_upper_char(up[i]) == up[i] && spec_ascii_upper_char(low[i]) == up[i] by {
        assert(up[i] == spec_ascii_upper_char(s[i]));
        assert(low[i] == spec_ascii_lower_char(s[i]));
    }
    assert(spec_ascii_upper(up) =~= up);
    assert(spec_ascii_upper(low) =~= up);
}

/// Converts a string to uppercase.
///
/// Trusted: calls `str::to_uppercase`. The contract names its result (the
/// Unicode uppercase mapping of the argument) and states the ASCII case: an
/// ASCII string is mapped character by character, `a`-`z` to `A`-`Z`.
#[verifier::external_body]
pub(crate) fn to_uppercase(s: &str) -> (r: String)
    ensures
        r@ == spec_to_uppercase(s@),
        spec_is_ascii(s@) ==> r@ == spec_ascii_upper(s@),
{
    s.to_uppercase()
}

} // verus!
