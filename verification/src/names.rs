//! The order of field names: by the bytes of their UTF-8 form, as strings
//! order themselves.

use vstd::prelude::*;
use vstd::utf8::{encode_utf8, encode_utf8_decode_utf8};

verus! {

/// Whether `a` comes before `b` from position `i` on, byte by byte; a string
/// that ends first comes first.
pub open spec fn lt_from(a: Seq<u8>, b: Seq<u8>, i: int) -> bool
    decreases a.len() - i,
{
    if i < 0 || i >= b.len() {
        false
    } else if i >= a.len() {
        true
    } else if a[i] != b[i] {
        a[i] < b[i]
    } else {
        lt_from(a, b, i + 1)
    }
}

/// Whether the byte string `a` comes strictly before `b`.
pub open spec fn bytes_lt(a: Seq<u8>, b: Seq<u8>) -> bool {
    lt_from(a, b, 0)
}

/// Whether the name `a` comes strictly before the name `b`.
pub open spec fn name_lt(a: Seq<char>, b: Seq<char>) -> bool {
    bytes_lt(encode_utf8(a), encode_utf8(b))
}

/// How one name stands to another.
#[derive(Clone, Copy, Debug, PartialEq, Eq, Structural)]
pub enum NameOrder {
    Before,
    Same,
    After,
}

/// What [`compare_names`] returns for two names.
pub open spec fn name_order(a: Seq<char>, b: Seq<char>) -> NameOrder {
    if name_lt(a, b) {
        NameOrder::Before
    } else if a == b {
        NameOrder::Same
    } else {
        NameOrder::After
    }
}

proof fn lemma_lt_from_irreflexive(a: Seq<u8>, i: int)
    ensures
        !lt_from(a, a, i),
    decreases a.len() - i,
{
    if 0 <= i < a.len() {
        lemma_lt_from_irreflexive(a, i + 1);
    }
}

proof fn lemma_lt_from_transitive(a: Seq<u8>, b: Seq<u8>, c: Seq<u8>, i: int)
    requires
        lt_from(a, b, i),
        lt_from(b, c, i),
    ensures
        lt_from(a, c, i),
    decreases a.len() - i,
{
    if i < a.len() && a[i] == b[i] && b[i] == c[i] {
        lemma_lt_from_transitive(a, b, c, i + 1);
    }
}

proof fn lemma_lt_from_total(a: Seq<u8>, b: Seq<u8>, i: int)
    requires
        0 <= i,
        !lt_from(a, b, i),
        !lt_from(b, a, i),
    ensures
        a.len() == b.len() || (i >= a.len() && i >= b.len()),
        forall|j: int| i <= j < a.len() ==> a[j] == b[j],
    decreases a.len() - i,
{
    if i < a.len() && i < b.len() {
        lemma_lt_from_total(a, b, i + 1);
    }
}

/// No byte string comes before itself.
pub proof fn lemma_bytes_lt_irreflexive(a: Seq<u8>)
    ensures
        !bytes_lt(a, a),
{
    lemma_lt_from_irreflexive(a, 0);
}

/// The order of byte strings is transitive.
pub proof fn lemma_bytes_lt_transitive(a: Seq<u8>, b: Seq<u8>, c: Seq<u8>)
    requires
        bytes_lt(a, b),
        bytes_lt(b, c),
    ensures
        bytes_lt(a, c),
{
    lemma_lt_from_transitive(a, b, c, 0);
}

/// Of two different byte strings one comes before the other.
pub proof fn lemma_bytes_lt_total(a: Seq<u8>, b: Seq<u8>)
    ensures
        bytes_lt(a, b) || bytes_lt(b, a) || a == b,
        !(bytes_lt(a, b) && bytes_lt(b, a)),
{
    if !bytes_lt(a, b) && !bytes_lt(b, a) {
        lemma_lt_from_total(a, b, 0);
        assert(a =~= b);
    }
    if bytes_lt(a, b) && bytes_lt(b, a) {
        lemma_bytes_lt_transitive(a, b, a);
        lemma_bytes_lt_irreflexive(a);
    }
}

/// Two names with the same bytes are the same name.
pub proof fn lemma_name_bytes_injective(a: Seq<char>, b: Seq<char>)
    requires
        encode_utf8(a) == encode_utf8(b),
    ensures
        a == b,
{
    encode_utf8_decode_utf8(a);
    encode_utf8_decode_utf8(b);
}

/// The order of names is a strict total order.
pub proof fn lemma_name_order_total(a: Seq<char>, b: Seq<char>)
    ensures
        name_lt(a, b) || name_lt(b, a) || a == b,
        !(name_lt(a, b) && name_lt(b, a)),
        !name_lt(a, a),
        name_order(a, b) == NameOrder::Same <==> a == b,
        name_order(a, b) == NameOrder::After <==> name_lt(b, a),
{
    lemma_bytes_lt_total(encode_utf8(a), encode_utf8(b));
    lemma_bytes_lt_irreflexive(encode_utf8(a));
    if encode_utf8(a) == encode_utf8(b) {
        lemma_name_bytes_injective(a, b);
    }
}

/// Compares two names by their bytes.
pub fn compare_names(a: &str, b: &str) -> (out: NameOrder)
    ensures
        out == name_order(a@, b@),
{
    let x = a.as_bytes();
    let y = b.as_bytes();
    let n = x.len();
    let m = y.len();
    let mut i: usize = 0;
    while i < n && i < m
        invariant
            n == x@.len(),
            m == y@.len(),
            i <= n,
            i <= m,
            x@ == encode_utf8(a@),
            y@ == encode_utf8(b@),
            forall|j: int| 0 <= j < i ==> x@[j] == y@[j],
            lt_from(x@, y@, 0) == lt_from(x@, y@, i as int),
            lt_from(y@, x@, 0) == lt_from(y@, x@, i as int),
        decreases n - i,
    {
        if x[i] < y[i] {
            proof {
                lemma_name_order_total(a@, b@);
            }
            return NameOrder::Before;
        }
        if x[i] > y[i] {
            proof {
                lemma_name_order_total(a@, b@);
            }
            return NameOrder::After;
        }
        i = i + 1;
    }
    proof {
        lemma_name_order_total(a@, b@);
        if n == m {
            assert(x@ =~= y@);
        }
    }
    if n < m {
        NameOrder::Before
    } else if n == m {
        NameOrder::Same
    } else {
        NameOrder::After
    }
}

} // verus!
