//! The order of names, strings compared byte by byte over their UTF-8
//! encoding, and the fingerprint of a path.

use vstd::prelude::*;
use vstd::utf8::{decode_utf8, encode_utf8, encode_utf8_decode_utf8};

verus! {

/// How one name stands to another.
#[derive(Clone, Copy, Debug, PartialEq, Eq, Structural)]
pub enum NameOrder {
    Less,
    Equal,
    Greater,
}

/// `a` and `b` hold the same bytes at every position below `k`.
pub open spec fn agree_upto(a: Seq<u8>, b: Seq<u8>, k: int) -> bool {
    &&& 0 <= k <= a.len()
    &&& k <= b.len()
    &&& forall|j: int| 0 <= j < k ==> a[j] == b[j]
}

/// `a` and `b` agree below `k`, and at `k` either `a` ends or holds the smaller byte.
pub open spec fn precedes_at(a: Seq<u8>, b: Seq<u8>, k: int) -> bool {
    &&& agree_upto(a, b, k)
    &&& k < b.len()
    &&& (k == a.len() || a[k] < b[k])
}

/// Strict lexicographic order on byte sequences.
pub open spec fn bytes_lt(a: Seq<u8>, b: Seq<u8>) -> bool {
    exists|k: int| precedes_at(a, b, k)
}

/// Strict order on names: the lexicographic order of their UTF-8 bytes.
pub open spec fn name_lt(a: Seq<char>, b: Seq<char>) -> bool {
    bytes_lt(encode_utf8(a), encode_utf8(b))
}

/// The three-way comparison of two names.
pub open spec fn name_order(a: Seq<char>, b: Seq<char>) -> NameOrder {
    if name_lt(a, b) {
        NameOrder::Less
    } else if name_lt(b, a) {
        NameOrder::Greater
    } else {
        NameOrder::Equal
    }
}

/// No byte sequence lies before itself, and two sequences never lie before each other.
pub proof fn lemma_bytes_lt_asymmetric(a: Seq<u8>, b: Seq<u8>)
    requires
        bytes_lt(a, b),
    ensures
        !bytes_lt(b, a),
        a != b,
{
    let k = choose|k: int| precedes_at(a, b, k);
    if bytes_lt(b, a) {
        let m = choose|m: int| precedes_at(b, a, m);
        if m < k {
            assert(a[m] == b[m]);
        } else if k < m {
            assert(b[k] == a[k]);
        }
    }
}

/// The order on byte sequences is transitive.
pub proof fn lemma_bytes_lt_transitive(a: Seq<u8>, b: Seq<u8>, c: Seq<u8>)
    requires
        bytes_lt(a, b),
        bytes_lt(b, c),
    ensures
        bytes_lt(a, c),
{
    let k = choose|k: int| precedes_at(a, b, k);
    let m = choose|m: int| precedes_at(b, c, m);
    let n = if k <= m { k } else { m };
    assert(agree_upto(a, c, n)) by {
        assert forall|j: int| 0 <= j < n implies a[j] == c[j] by {
            assert(a[j] == b[j]);
            assert(b[j] == c[j]);
        }
    }
    if k < m {
        assert(b[k] == c[k]);
    }
    assert(precedes_at(a, c, n));
}

proof fn lemma_bytes_total_from(a: Seq<u8>, b: Seq<u8>, k: int)
    requires
        agree_upto(a, b, k),
        a != b,
    ensures
        bytes_lt(a, b) || bytes_lt(b, a),
    decreases a.len() - k,
{
    if k == a.len() {
        if k == b.len() {
            assert(a =~= b);
        } else {
            assert(precedes_at(a, b, k));
        }
    } else if k == b.len() {
        assert(precedes_at(b, a, k));
    } else if a[k] < b[k] {
        assert(precedes_at(a, b, k));
    } else if b[k] < a[k] {
        assert(precedes_at(b, a, k));
    } else {
        lemma_bytes_total_from(a, b, k + 1);
    }
}

/// Of two different byte sequences one lies before the other.
pub proof fn lemma_bytes_lt_total(a: Seq<u8>, b: Seq<u8>)
    requires
        a != b,
    ensures
        bytes_lt(a, b) || bytes_lt(b, a),
{
    lemma_bytes_total_from(a, b, 0);
}

/// Two names compare `Equal` exactly when they are the same name; `Less` one
/// way round is `Greater` the other way round.
pub proof fn lemma_name_order_total(a: Seq<char>, b: Seq<char>)
    ensures
        name_order(a, b) == NameOrder::Equal <==> a == b,
        name_order(a, b) == NameOrder::Less <==> name_order(b, a) == NameOrder::Greater,
        name_lt(a, b) ==> !name_lt(b, a),
{
    let x = encode_utf8(a);
    let y = encode_utf8(b);
    if bytes_lt(x, y) {
        lemma_bytes_lt_asymmetric(x, y);
    }
    if bytes_lt(y, x) {
        lemma_bytes_lt_asymmetric(y, x);
    }
    if x != y {
        lemma_bytes_lt_total(x, y);
    } else {
        encode_utf8_decode_utf8(a);
        encode_utf8_decode_utf8(b);
        assert(a == decode_utf8(x));
    }
}

/// The order on names is transitive.
pub proof fn lemma_name_lt_transitive(a: Seq<char>, b: Seq<char>, c: Seq<char>)
    requires
        name_lt(a, b),
        name_lt(b, c),
    ensures
        name_lt(a, c),
{
    lemma_bytes_lt_transitive(encode_utf8(a), encode_utf8(b), encode_utf8(c));
}

/// Compares two names byte by byte.
pub fn compare_names(a: &str, b: &str) -> (r: NameOrder)
    ensures
        r == name_order(a@, b@),
{
    let x = a.as_bytes();
    let y = b.as_bytes();
    let mut i: usize = 0;
    while i < x.len() && i < y.len()
        invariant
            agree_upto(x@, y@, i as int),
            x@ == encode_utf8(a@),
            y@ == encode_utf8(b@),
        decreases x.len() - i,
    {
        if x[i] < y[i] {
            proof {
                assert(precedes_at(x@, y@, i as int));
                lemma_bytes_lt_asymmetric(x@, y@);
            }
            return NameOrder::Less;
        }
        if y[i] < x[i] {
            proof {
                assert(agree_upto(y@, x@, i as int));
                assert(precedes_at(y@, x@, i as int));
                lemma_bytes_lt_asymmetric(y@, x@);
            }
            return NameOrder::Greater;
        }
        i += 1;
    }
    if i < y.len() {
        proof {
            assert(precedes_at(x@, y@, i as int));
            lemma_bytes_lt_asymmetric(x@, y@);
        }
        NameOrder::Less
    } else if i < x.len() {
        proof {
            assert(agree_upto(y@, x@, i as int));
            assert(precedes_at(y@, x@, i as int));
            lemma_bytes_lt_asymmetric(y@, x@);
        }
        NameOrder::Greater
    } else {
        proof {
            assert(x@ =~= y@);
            if bytes_lt(x@, y@) {
                lemma_bytes_lt_asymmetric(x@, y@);
            }
        }
        NameOrder::Equal
    }
}

/// Where the fingerprint of the empty path starts.
pub const FNV_OFFSET: u64 = 0xcbf2_9ce4_8422_2325;

/// The factor by which the fingerprint grows with each byte.
pub const FNV_PRIME: u64 = 0x0000_0100_0000_01b3;

/// The FNV-1a hash of the first `n` bytes: byte by byte, the hash so far is
/// combined with the byte by exclusive or, and multiplied by the prime
/// modulo 2^64.
pub open spec fn fnv1a(bytes: Seq<u8>, n: nat) -> u64
    decreases n,
{
    if n == 0 || n > bytes.len() {
        FNV_OFFSET
    } else {
        (fnv1a(bytes, (n - 1) as nat) ^ (bytes[n - 1] as u64)).wrapping_mul(FNV_PRIME)
    }
}

/// The fingerprint of a path: the FNV-1a hash of its UTF-8 bytes.
pub open spec fn fingerprint_of(path: Seq<char>) -> u64 {
    fnv1a(encode_utf8(path), encode_utf8(path).len())
}

/// The fingerprint of a path.
pub fn fingerprint(path: &str) -> (h: u64)
    ensures
        h == fingerprint_of(path@),
{
    let bytes = path.as_bytes();
    let mut h: u64 = FNV_OFFSET;
    let mut i: usize = 0;
    while i < bytes.len()
        invariant
            i <= bytes.len(),
            h == fnv1a(bytes@, i as nat),
        decreases bytes.len() - i,
    {
        h = (h ^ (bytes[i] as u64)).wrapping_mul(FNV_PRIME);
        i += 1;
    }
    h
}

} // verus!
