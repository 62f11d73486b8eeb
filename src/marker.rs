use vstd::prelude::*;

verus! {

/// The text `TUNNEL_MANAGER MAIN LOOP`, as ASCII bytes, that the client writes to its error stream once its tunnel is up.
pub open spec fn marker() -> Seq<u8> {
    seq![
        84u8, 85u8, 78u8, 78u8, 69u8, 76u8, 95u8, 77u8, 65u8, 78u8, 65u8, 71u8, 69u8, 82u8, 32u8,
        77u8, 65u8, 73u8, 78u8, 32u8, 76u8, 79u8, 79u8, 80u8,
    ]
}

/// `pat` occurs in `s` starting at position `i`.
pub open spec fn occurs_at(s: Seq<u8>, pat: Seq<u8>, i: int) -> bool {
    0 <= i && i + pat.len() <= s.len() && s.subrange(i, i + pat.len()) == pat
}

/// The readiness marker occurs somewhere in `line`.
pub open spec fn has_marker(line: Seq<u8>) -> bool {
    exists|i: int| occurs_at(line, marker(), i)
}

/// The readiness marker as bytes.
pub fn marker_bytes() -> (r: Vec<u8>)
    ensures
        r@ == marker(),
{
    let r = vec![
        84u8, 85u8, 78u8, 78u8, 69u8, 76u8, 95u8, 77u8, 65u8, 78u8, 65u8, 71u8, 69u8, 82u8, 32u8,
        77u8, 65u8, 73u8, 78u8, 32u8, 76u8, 79u8, 79u8, 80u8,
    ];
    assert(r@ =~= marker());
    r
}

/// Whether `pat` occurs in `s` at position `i`.
fn matches_at(s: &[u8], pat: &[u8], i: usize) -> (r: bool)
    requires
        i + pat@.len() <= s@.len(),
    ensures
        r == occurs_at(s@, pat@, i as int),
{
    let mut j: usize = 0;
    let n = s.len();
    while j < pat.len()
        invariant
            i + pat@.len() <= s@.len(),
            n == s@.len(),
            j <= pat@.len(),
            forall|k: int| 0 <= k < j ==> s@[i + k] == pat@[k],
        decreases pat@.len() - j,
    {
        assert(i + j < n);
        if s[i + j] != pat[j] {
            assert(s@.subrange(i as int, i + pat@.len())[j as int] != pat@[j as int]);
            return false;
        }
        j = j + 1;
    }
    assert(s@.subrange(i as int, i + pat@.len()) =~= pat@);
    true
}

/// Whether the readiness marker occurs anywhere in `line`.
pub fn contains_marker(line: &[u8]) -> (r: bool)
    ensures
        r == has_marker(line@),
{
    let pat = marker_bytes();
    let m = pat.len();
    if line.len() < m {
        assert forall|i: int| !occurs_at(line@, marker(), i) by {}
        return false;
    }
    let mut i: usize = 0;
    while i <= line.len() - m
        invariant
            m == marker().len(),
            pat@ == marker(),
            m <= line@.len(),
            i <= line@.len() - m + 1,
            forall|k: int| 0 <= k < i ==> !occurs_at(line@, marker(), k),
        decreases line@.len() + 1 - i,
    {
        if matches_at(line, pat.as_slice(), i) {
            return true;
        }
        i = i + 1;
    }
    assert forall|k: int| !occurs_at(line@, marker(), k) by {}
    false
}

} // verus!
