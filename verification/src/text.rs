//! Text as the store compares it: byte by byte over its UTF-8 encoding.

use vstd::prelude::*;
use vstd::utf8::encode_utf8;

verus! {

/// `a` and `b` agree on their first `k` bytes, and there `a` ends while `b`
/// goes on, or `a` holds the smaller byte.
pub open spec fn parts_at(a: Seq<u8>, b: Seq<u8>, k: int) -> bool {
    &&& 0 <= k <= a.len()
    &&& k < b.len()
    &&& forall|j: int| 0 <= j < k ==> a[j] == b[j]
    &&& k < a.len() ==> a[k] < b[k]
}

/// `a` comes strictly before `b` in lexicographic order.
pub open spec fn bytes_before(a: Seq<u8>, b: Seq<u8>) -> bool {
    exists|k: int| parts_at(a, b, k)
}

/// `needle` occurs in `hay` at position `i`.
pub open spec fn occurs_at(needle: Seq<u8>, hay: Seq<u8>, i: int) -> bool {
    &&& 0 <= i
    &&& i + needle.len() <= hay.len()
    &&& forall|j: int| 0 <= j < needle.len() ==> hay[i + j] == needle[j]
}

/// `needle` occurs somewhere in `hay`.
pub open spec fn bytes_within(needle: Seq<u8>, hay: Seq<u8>) -> bool {
    exists|i: int| occurs_at(needle, hay, i)
}

/// The text `a` sorts strictly before the text `b`.
pub open spec fn text_before(a: Seq<char>, b: Seq<char>) -> bool {
    bytes_before(encode_utf8(a), encode_utf8(b))
}

/// The text `hay` contains the text `needle`.
pub open spec fn text_contains(hay: Seq<char>, needle: Seq<char>) -> bool {
    bytes_within(encode_utf8(needle), encode_utf8(hay))
}

/// What `str::to_lowercase` makes of a text.
pub uninterp spec fn lowercase_of(s: Seq<char>) -> Seq<char>;

/// `str::to_lowercase` of std: the text with every character replaced by its
/// lowercase form. The result depends on the text alone; nothing more is
/// claimed of it here.
#[verifier::external_body]
pub(crate) fn lowercase(s: &str) -> (r: String)
    ensures
        r@ == lowercase_of(s@),
{
    s.to_lowercase()
}

/// Tests whether `a` comes strictly before `b` in lexicographic order.
pub fn slice_before(a: &[u8], b: &[u8]) -> (r: bool)
    ensures
        r == bytes_before(a@, b@),
{
    let mut i: usize = 0;
    while i < a.len() && i < b.len()
        invariant
            i <= a.len(),
            i <= b.len(),
            forall|j: int| 0 <= j < i ==> a@[j] == b@[j],
        decreases a.len() - i,
    {
        if a[i] != b[i] {
            proof {
                if a@[i as int] < b@[i as int] {
                    assert(parts_at(a@, b@, i as int));
                } else {
                    assert forall|k: int| !parts_at(a@, b@, k) by {
                        if parts_at(a@, b@, k) {
                            if k > i {
                                assert(a@[i as int] == b@[i as int]);
                            }
                        }
                    }
                }
            }
            return a[i] < b[i];
        }
        i += 1;
    }
    proof {
        if a.len() < b.len() {
            assert(parts_at(a@, b@, a.len() as int));
        } else {
            assert forall|k: int| !parts_at(a@, b@, k) by {}
        }
    }
    a.len() < b.len()
}

/// Tests whether `needle` occurs somewhere in `hay`.
pub fn slice_within(needle: &[u8], hay: &[u8]) -> (r: bool)
    ensures
        r == bytes_within(needle@, hay@),
{
    if needle.len() > hay.len() {
        assert forall|i: int| !occurs_at(needle@, hay@, i) by {}
        return false;
    }
    let last: usize = hay.len() - needle.len();
    let mut i: usize = 0;
    while i <= last
        invariant
            last == hay.len() - needle.len(),
            i <= last + 1,
            forall|k: int| 0 <= k < i ==> !occurs_at(needle@, hay@, k),
        decreases last + 1 - i,
    {
        let mut j: usize = 0;
        while j < needle.len() && hay[i + j] == needle[j]
            invariant
                i <= last,
                last == hay.len() - needle.len(),
                j <= needle.len(),
                forall|m: int| 0 <= m < j ==> hay@[i + m] == needle@[m],
            decreases needle.len() - j,
        {
            j += 1;
        }
        if j == needle.len() {
            assert(occurs_at(needle@, hay@, i as int));
            return true;
        }
        assert(!occurs_at(needle@, hay@, i as int));
        i += 1;
    }
    assert forall|k: int| !occurs_at(needle@, hay@, k) by {}
    false
}

/// Tests whether two sequences of bytes are the same.
pub fn slice_eq(a: &[u8], b: &[u8]) -> (r: bool)
    ensures
        r == (a@ == b@),
{
    if a.len() != b.len() {
        return false;
    }
    let mut i: usize = 0;
    while i < a.len()
        invariant
            i <= a.len(),
            a.len() == b.len(),
            forall|j: int| 0 <= j < i ==> a@[j] == b@[j],
        decreases a.len() - i,
    {
        if a[i] != b[i] {
            return false;
        }
        i += 1;
    }
    assert(a@ =~= b@);
    true
}

/// Tests whether two texts are the same.
pub fn str_eq(a: &str, b: &str) -> (r: bool)
    ensures
        r == (a@ == b@),
{
    proof {
        vstd::utf8::encode_utf8_decode_utf8(a@);
        vstd::utf8::encode_utf8_decode_utf8(b@);
    }
    slice_eq(a.as_bytes(), b.as_bytes())
}

/// Tests whether the text `a` sorts strictly before the text `b`.
pub fn str_before(a: &str, b: &str) -> (r: bool)
    ensures
        r == text_before(a@, b@),
{
    slice_before(a.as_bytes(), b.as_bytes())
}

/// Tests whether the text `hay` contains the text `needle`.
pub fn str_contains(hay: &str, needle: &str) -> (r: bool)
    ensures
        r == text_contains(hay@, needle@),
{
    slice_within(needle.as_bytes(), hay.as_bytes())
}

/// Tests whether `hay` contains `needle` when the case of letters is set aside.
pub fn contains_ignoring_case(hay: &str, needle: &str) -> (r: bool)
    ensures
        r == text_contains(lowercase_of(hay@), lowercase_of(needle@)),
{
    let h = lowercase(hay);
    let n = lowercase(needle);
    str_contains(h.as_str(), n.as_str())
}

/// The first position at which `b` differs from `a`, among the positions
/// before `k` that both have; the end of them where there is none.
proof fn lemma_first_difference(a: Seq<u8>, b: Seq<u8>, k: int) -> (m: int)
    requires
        0 <= k <= a.len(),
        k <= b.len(),
    ensures
        0 <= m <= k,
        forall|j: int| 0 <= j < m ==> a[j] == b[j],
        m < k ==> a[m] != b[m],
    decreases k,
{
    if k == 0 {
        0
    } else {
        let m = lemma_first_difference(a, b, k - 1);
        if m < k - 1 {
            m
        } else if a[k - 1] != b[k - 1] {
            k - 1
        } else {
            k
        }
    }
}

/// Of two sequences of bytes at most one comes before the other.
pub proof fn law_bytes_one_way(a: Seq<u8>, b: Seq<u8>)
    ensures
        !(bytes_before(a, b) && bytes_before(b, a)),
{
    if bytes_before(a, b) && bytes_before(b, a) {
        let k1 = choose|k: int| parts_at(a, b, k);
        let k2 = choose|k: int| parts_at(b, a, k);
        if k1 < k2 {
            assert(b[k1] == a[k1]);
        } else if k2 < k1 {
            assert(a[k2] == b[k2]);
        }
    }
}

/// Two sequences of bytes of which neither comes before the other are the same.
pub proof fn law_bytes_total(a: Seq<u8>, b: Seq<u8>)
    ensures
        bytes_before(a, b) || bytes_before(b, a) || a == b,
{
    let shorter = if a.len() <= b.len() {
        a.len() as int
    } else {
        b.len() as int
    };
    let m = lemma_first_difference(a, b, shorter);
    if m < shorter {
        if a[m] < b[m] {
            assert(parts_at(a, b, m));
        } else {
            assert forall|j: int| 0 <= j < m implies b[j] == a[j] by {}
            assert(parts_at(b, a, m));
        }
    } else if a.len() < b.len() {
        assert(parts_at(a, b, a.len() as int));
    } else if b.len() < a.len() {
        assert forall|j: int| 0 <= j < b.len() implies b[j] == a[j] by {}
        assert(parts_at(b, a, b.len() as int));
    } else {
        assert(a =~= b);
    }
}

/// What comes before `c` comes before everything that `c` does not come
/// before: where `a` comes before `c`, it comes before `b`, or `b` comes
/// before `c`.
pub proof fn law_bytes_between(a: Seq<u8>, b: Seq<u8>, c: Seq<u8>)
    requires
        bytes_before(a, c),
    ensures
        bytes_before(a, b) || bytes_before(b, c),
{
    let k = choose|k: int| parts_at(a, c, k);
    if b.len() < k {
        let m = lemma_first_difference(a, b, b.len() as int);
        if m < b.len() {
            if a[m] < b[m] {
                assert(parts_at(a, b, m));
            } else {
                assert forall|j: int| 0 <= j < m implies b[j] == c[j] by {
                    assert(a[j] == c[j]);
                }
                assert(a[m] == c[m]);
                assert(parts_at(b, c, m));
            }
        } else {
            assert forall|j: int| 0 <= j < b.len() implies b[j] == c[j] by {
                assert(a[j] == c[j]);
            }
            assert(parts_at(b, c, b.len() as int));
        }
    } else {
        let m = lemma_first_difference(a, b, k);
        if m < k {
            if a[m] < b[m] {
                assert(parts_at(a, b, m));
            } else {
                assert forall|j: int| 0 <= j < m implies b[j] == c[j] by {
                    assert(a[j] == c[j]);
                }
                assert(a[m] == c[m]);
                assert(parts_at(b, c, m));
            }
        } else {
            assert forall|j: int| 0 <= j < k implies b[j] == c[j] by {
                assert(a[j] == c[j]);
            }
            if b.len() == k {
                assert(parts_at(b, c, k));
            } else if k == a.len() {
                assert(parts_at(a, b, k));
            } else if a[k] < b[k] {
                assert(parts_at(a, b, k));
            } else {
                assert(parts_at(b, c, k));
            }
        }
    }
}

/// Texts sort as a ranking does: of two texts at most one sorts before the
/// other; two of which neither sorts before the other are the same text;
/// and what sorts before a text sorts before everything that the text does
/// not sort before.
pub proof fn law_text_order(a: Seq<char>, b: Seq<char>, c: Seq<char>)
    ensures
        !(text_before(a, b) && text_before(b, a)),
        text_before(a, b) || text_before(b, a) || a == b,
        text_before(a, c) ==> text_before(a, b) || text_before(b, c),
{
    law_bytes_one_way(encode_utf8(a), encode_utf8(b));
    law_bytes_total(encode_utf8(a), encode_utf8(b));
    if text_before(a, c) {
        law_bytes_between(encode_utf8(a), encode_utf8(b), encode_utf8(c));
    }
    if encode_utf8(a) == encode_utf8(b) {
        vstd::utf8::encode_utf8_decode_utf8(a);
        vstd::utf8::encode_utf8_decode_utf8(b);
    }
}

} // verus!
