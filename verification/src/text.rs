use vstd::prelude::*;
use vstd::utf8::encode_utf8;
use vstd::utf8::encode_utf8_decode_utf8;

verus! {

/// How two strings stand to each other in the order of their UTF-8 bytes.
#[derive(Debug, Clone, Copy, PartialEq, Eq, Structural)]
pub enum Standing {
    Before,
    Same,
    After,
}

/// `a` and `b` agree on their first `k` bytes, and there `a` ends or holds the smaller byte.
pub open spec fn bytes_before_at(a: Seq<u8>, b: Seq<u8>, k: int) -> bool {
    &&& 0 <= k <= a.len()
    &&& k < b.len()
    &&& forall|j: int| 0 <= j < k ==> a[j] == b[j]
    &&& (k == a.len() || a[k] < b[k])
}

/// Strict lexicographic order on byte strings.
pub open spec fn bytes_before(a: Seq<u8>, b: Seq<u8>) -> bool {
    exists|k: int| bytes_before_at(a, b, k)
}

/// Strict lexicographic order on strings, by their UTF-8 bytes.
pub open spec fn label_before(a: Seq<char>, b: Seq<char>) -> bool {
    bytes_before(encode_utf8(a), encode_utf8(b))
}

/// The byte order is transitive.
pub proof fn lemma_bytes_before_transitive(a: Seq<u8>, b: Seq<u8>, c: Seq<u8>)
    requires
        bytes_before(a, b),
        bytes_before(b, c),
    ensures
        bytes_before(a, c),
{
    let k1 = choose|k: int| bytes_before_at(a, b, k);
    let k2 = choose|k: int| bytes_before_at(b, c, k);
    if k1 <= k2 {
        assert(bytes_before_at(a, c, k1));
    } else {
        assert(bytes_before_at(a, c, k2));
    }
}

/// No byte string stands before itself, and no two stand before each other.
pub proof fn lemma_bytes_before_asymmetric(a: Seq<u8>, b: Seq<u8>)
    requires
        bytes_before(a, b),
    ensures
        !bytes_before(b, a),
        a != b,
{
    let k1 = choose|k: int| bytes_before_at(a, b, k);
    if bytes_before(b, a) {
        let k2 = choose|k: int| bytes_before_at(b, a, k);
        if k1 < k2 {
            assert(b[k1] == a[k1]);
        } else if k2 < k1 {
            assert(a[k2] == b[k2]);
        }
    }
}

/// Compares two strings by their UTF-8 bytes.
pub fn compare_labels(a: &str, b: &str) -> (out: Standing)
    ensures
        out == Standing::Before <==> label_before(a@, b@),
        out == Standing::Same <==> a@ == b@,
        out == Standing::After <==> label_before(b@, a@),
{
    let x = a.as_bytes();
    let y = b.as_bytes();
    let mut k: usize = 0;
    while k < x.len() && k < y.len() && x[k] == y[k]
        invariant
            k <= x.len(),
            k <= y.len(),
            forall|j: int| 0 <= j < k ==> x@[j] == y@[j],
        decreases x.len() - k,
    {
        k += 1;
    }
    proof {
        encode_utf8_decode_utf8(a@);
        encode_utf8_decode_utf8(b@);
    }
    if k == x.len() && k == y.len() {
        proof {
            assert(x@ =~= y@);
            if label_before(a@, b@) {
                lemma_bytes_before_asymmetric(x@, y@);
            }
        }
        Standing::Same
    } else if k == x.len() || (k < y.len() && x[k] < y[k]) {
        proof {
            assert(bytes_before_at(x@, y@, k as int));
            lemma_bytes_before_asymmetric(x@, y@);
        }
        Standing::Before
    } else {
        proof {
            assert(bytes_before_at(y@, x@, k as int));
            lemma_bytes_before_asymmetric(y@, x@);
        }
        Standing::After
    }
}

} // verus!
