//! Small string helpers shared across the crate: equality, ASCII
//! case-insensitive comparison over bytes, substring search, and path
//! joining with a forward slash.

use vstd::prelude::*;

verus! {

use vstd::string::StringSliceAdditionalSpecFns;
use vstd::string::StringExecFns;
use vstd::string::StrSliceExecFns;

/// Equality of two string slices, stated over their character views.
pub fn str_eq(a: &str, b: &str) -> (r: bool)
    ensures
        r == (a@ == b@),
{
    let owned_a = a.to_owned();
    let owned_b = b.to_owned();
    owned_a == owned_b
}

/// ASCII lower-casing of one byte: letters `A` through `Z` fold to their
/// lower-case counterparts, every other byte stays as it is.
pub open spec fn spec_lower_byte(b: u8) -> u8 {
    if 65 <= b <= 90 {
        (b + 32) as u8
    } else {
        b
    }
}

/// Byte sequences equal up to ASCII case.
pub open spec fn spec_eq_ignore_ascii_case(a: Seq<u8>, b: Seq<u8>) -> bool {
    a.len() == b.len() && forall|i: int|
        0 <= i < a.len() ==> spec_lower_byte(a[i]) == spec_lower_byte(b[i])
}

fn lower_byte(b: u8) -> (r: u8)
    ensures
        r == spec_lower_byte(b),
{
    if 65 <= b && b <= 90 {
        b + 32
    } else {
        b
    }
}

/// Compare two strings for equality ignoring ASCII case, byte by byte.
pub fn eq_ignore_ascii_case(a: &str, b: &str) -> (r: bool)
    ensures
        r == spec_eq_ignore_ascii_case(a.spec_bytes(), b.spec_bytes()),
{
    let ab = a.as_bytes();
    let bb = b.as_bytes();
    if ab.len() != bb.len() {
        return false;
    }
    let n = ab.len();
    let mut i: usize = 0;
    while i < n
        invariant
            ab@ == a.spec_bytes(),
            bb@ == b.spec_bytes(),
            n == ab@.len() == bb@.len(),
            0 <= i <= n,
            forall|j: int| 0 <= j < i ==> spec_lower_byte(ab@[j]) == spec_lower_byte(bb@[j]),
        decreases n - i,
    {
        if lower_byte(ab[i]) != lower_byte(bb[i]) {
            assert(spec_lower_byte(a.spec_bytes()[i as int]) != spec_lower_byte(
                b.spec_bytes()[i as int],
            ));
            return false;
        }
        i = i + 1;
    }
    true
}

/// The UTF-8 bytes of a character sequence; the byte-level view of a
/// string.
pub open spec fn spec_utf8_bytes(s: Seq<char>) -> Seq<u8> {
    vstd::utf8::encode_utf8(s)
}

/// A byte sequence holds another as a contiguous run.
pub open spec fn spec_contains_bytes(s: Seq<u8>, p: Seq<u8>) -> bool {
    exists|i: int| 0 <= i && i + p.len() <= s.len() && #[trigger] s.subrange(i, i + p.len()) =~= p
}

fn matches_at(s: &[u8], p: &[u8], at: usize) -> (r: bool)
    requires
        at + p@.len() <= s@.len(),
    ensures
        r == (s@.subrange(at as int, at + p@.len()) =~= p@),
{
    let m = p.len();
    let n = s.len();
    let mut j: usize = 0;
    while j < m
        invariant
            m == p@.len(),
            n == s@.len(),
            at + m <= n,
            0 <= j <= m,
            forall|k: int| 0 <= k < j ==> s@[at + k] == p@[k],
        decreases m - j,
    {
        if s[at + j] != p[j] {
            assert(s@.subrange(at as int, at + p@.len())[j as int] != p@[j as int]);
            return false;
        }
        j = j + 1;
    }
    assert forall|k: int| 0 <= k < m implies s@.subrange(at as int, at + m as int)[k] == p@[k] by {
        assert(s@.subrange(at as int, at + m as int)[k] == s@[at + k]);
    }
    true
}

/// Whether `s` holds `pat` as a substring, compared byte-wise.
pub fn str_contains(s: &str, pat: &str) -> (r: bool)
    ensures
        r == spec_contains_bytes(s.spec_bytes(), pat.spec_bytes()),
{
    let sb = s.as_bytes();
    let pb = pat.as_bytes();
    if pb.len() > sb.len() {
        assert(!spec_contains_bytes(s.spec_bytes(), pat.spec_bytes()));
        return false;
    }
    let last = sb.len() - pb.len();
    let mut i: usize = 0;
    loop
        invariant
            sb@ == s.spec_bytes(),
            pb@ == pat.spec_bytes(),
            last == sb@.len() - pb@.len(),
            0 <= i <= last,
            forall|k: int| 0 <= k < i ==> !(#[trigger] sb@.subrange(k, k + pb@.len()) =~= pb@),
        decreases last - i,
    {
        if matches_at(sb, pb, i) {
            assert(spec_contains_bytes(s.spec_bytes(), pat.spec_bytes()));
            return true;
        }
        if i == last {
            assert(!spec_contains_bytes(s.spec_bytes(), pat.spec_bytes()));
            return false;
        }
        i = i + 1;
    }
}

/// Join two path fragments with a forward slash.
pub fn join_path(dir: &str, name: &str) -> (r: String)
    ensures
        r@ == dir@ + "/"@ + name@,
{
    let mut out = dir.to_owned();
    out.append("/");
    out.append(name);
    out
}

} // verus!
