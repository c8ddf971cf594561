//! Fixed-capacity byte strings.
//!
//! Record fields hold UTF-8 text in buffers of a fixed byte capacity.
//! Copying into such a buffer either keeps the longest prefix of whole
//! characters that fits, or refuses the value, depending on the caller's
//! overflow policy.

use vstd::prelude::*;
use vstd::slice::{slice_subrange, slice_to_vec};

verus! {

/// A UTF-8 continuation byte: the second or a later byte of a multi-byte
/// encoded character.
pub open spec fn is_continuation_byte(b: u8) -> bool {
    b & 0xC0 == 0x80
}

/// The largest index at most `limit` that does not fall inside a
/// multi-byte encoded character of `s`.
pub open spec fn boundary_at_or_before(s: Seq<u8>, limit: int) -> int
    decreases limit,
{
    if limit <= 0 {
        0
    } else if limit >= s.len() || !is_continuation_byte(s[limit]) {
        limit
    } else {
        boundary_at_or_before(s, limit - 1)
    }
}

/// The longest prefix of `s` holding only whole characters that fits in
/// `cap` bytes: what a character-by-character copy keeps when it stops at
/// the first character that does not fit.
pub open spec fn truncated_to(s: Seq<u8>, cap: int) -> Seq<u8> {
    if s.len() <= cap {
        s
    } else {
        s.take(boundary_at_or_before(s, cap))
    }
}

pub proof fn lemma_boundary_at_or_before_bounds(s: Seq<u8>, limit: int)
    requires
        0 <= limit,
    ensures
        0 <= boundary_at_or_before(s, limit) <= limit,
    decreases limit,
{
    if limit > 0 && limit < s.len() && is_continuation_byte(s[limit]) {
        lemma_boundary_at_or_before_bounds(s, limit - 1);
    }
}

proof fn lemma_boundary_at_or_before_properties(s: Seq<u8>, limit: int)
    requires
        0 <= limit,
    ensures
        ({
            let b = boundary_at_or_before(s, limit);
            &&& 0 <= b <= limit
            &&& (b == 0 || b >= s.len() || !is_continuation_byte(s[b]))
            &&& forall|j: int| b < j <= limit && j < s.len() ==> is_continuation_byte(s[j])
        }),
    decreases limit,
{
    if limit > 0 && limit < s.len() && is_continuation_byte(s[limit]) {
        lemma_boundary_at_or_before_properties(s, limit - 1);
    }
}

/// A truncating copy keeps exactly the longest prefix of whole
/// characters that fits the capacity: the result is a prefix of the
/// text, it fits, it does not stop inside a multi-byte character, and
/// any longer prefix within the capacity would.
pub proof fn lemma_truncated_to_exact(s: Seq<u8>, cap: int)
    requires
        0 <= cap,
    ensures
        truncated_to(s, cap) == s.take(truncated_to(s, cap).len() as int),
        truncated_to(s, cap).len() <= cap,
        s.len() <= cap ==> truncated_to(s, cap) == s,
        ({
            let n = truncated_to(s, cap).len() as int;
            &&& (n == 0 || n == s.len() || !is_continuation_byte(s[n]))
            &&& forall|j: int| n < j <= cap && j < s.len() ==> is_continuation_byte(s[j])
        }),
{
    if s.len() <= cap {
        assert(truncated_to(s, cap) =~= s.take(s.len() as int));
    } else {
        lemma_boundary_at_or_before_properties(s, cap);
    }
}

/// Whether two byte slices hold the same bytes.
pub fn bytes_eq(a: &[u8], b: &[u8]) -> (r: bool)
    ensures
        r == (a@ == b@),
{
    if a.len() != b.len() {
        assert(a@.len() != b@.len());
        return false;
    }
    let mut i: usize = 0;
    while i < a.len()
        invariant
            i <= a.len(),
            a.len() == b.len(),
            forall|j: int| 0 <= j < i ==> a@[j] == b@[j],
        decreases a.len() - i,
    {
        if a[i] != b[i] {
            return false;
        }
        i += 1;
    }
    assert(a@ =~= b@);
    true
}

/// Append the bytes of `s` to `v`.
pub fn append_bytes(v: &mut Vec<u8>, s: &[u8])
    ensures
        final(v)@ == old(v)@ + s@,
{
    let mut i: usize = 0;
    while i < s.len()
        invariant
            i <= s.len(),
            v@ == old(v)@ + s@.take(i as int),
        decreases s.len() - i,
    {
        let b = s[i];
        v.push(b);
        assert(s@.take(i + 1).drop_last() =~= s@.take(i as int));
        assert(old(v)@ + s@.take(i + 1) =~= (old(v)@ + s@.take(i as int)).push(s@[i as int]));
        i += 1;
    }
    assert(v@ =~= old(v)@ + s@);
}

/// A byte string of at most `N` bytes, holding whole UTF-8 characters of
/// the text copied into it.
#[derive(Debug, PartialEq, Eq)]
pub struct BoundedString<const N: usize> {
    bytes: Vec<u8>,
}

impl<const N: usize> View for BoundedString<N> {
    type V = Seq<u8>;

    closed spec fn view(&self) -> Seq<u8> {
        self.bytes@
    }
}

impl<const N: usize> BoundedString<N> {
    /// The buffer never holds more than its capacity.
    pub open spec fn wf(&self) -> bool {
        self@.len() <= N
    }

    /// The empty string.
    pub fn new() -> (r: Self)
        ensures
            r@ == Seq::<u8>::empty(),
            r.wf(),
    {
        BoundedString { bytes: Vec::new() }
    }

    /// Copy of `s`, keeping the longest prefix of whole characters that
    /// fits in `N` bytes and dropping the rest.
    pub fn from_bytes_truncate(s: &[u8]) -> (r: Self)
        ensures
            r@ == truncated_to(s@, N as int),
            r.wf(),
    {
        if s.len() <= N {
            BoundedString { bytes: slice_to_vec(s) }
        } else {
            let mut end: usize = N;
            while end > 0 && (s[end] & 0xC0) == 0x80
                invariant
                    0 <= end <= N,
                    (N as int) < s@.len(),
                    boundary_at_or_before(s@, N as int) == boundary_at_or_before(s@, end as int),
                decreases end,
            {
                end -= 1;
            }
            proof {
                lemma_boundary_at_or_before_bounds(s@, end as int);
                assert(boundary_at_or_before(s@, end as int) == end as int);
            }
            BoundedString { bytes: slice_to_vec(slice_subrange(s, 0, end)) }
        }
    }

    /// Copy of `s` if it fits in `N` bytes whole; `None` otherwise.
    pub fn from_bytes_exact(s: &[u8]) -> (r: Option<Self>)
        ensures
            s@.len() <= N ==> (r matches Some(v) && v@ == s@ && v.wf()),
            s@.len() > N ==> r is None,
    {
        if s.len() <= N {
            Some(BoundedString { bytes: slice_to_vec(s) })
        } else {
            None
        }
    }

    /// The stored bytes.
    pub fn as_bytes(&self) -> (r: &[u8])
        ensures
            r@ == self@,
    {
        self.bytes.as_slice()
    }

    /// Number of stored bytes.
    pub fn len(&self) -> (r: usize)
        ensures
            r == self@.len(),
    {
        self.bytes.len()
    }
}

impl<const N: usize> Default for BoundedString<N> {
    /// The empty string.
    fn default() -> (r: Self)
        ensures
            r@ == Seq::<u8>::empty(),
            r.wf(),
    {
        BoundedString::new()
    }
}

impl<const N: usize> Clone for BoundedString<N> {
    /// An exact copy.
    fn clone(&self) -> (r: Self)
        ensures
            r@ == self@,
    {
        BoundedString { bytes: self.bytes.clone() }
    }
}

} // verus!
