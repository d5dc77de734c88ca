//! Serialized points of the G1 group of BLS12-381: which byte strings encode
//! a point, and the membership test built on the host's two checks.

use vstd::prelude::*;
use crate::host::{g1_in_subgroup, g1_is_in_subgroup, g1_is_on_curve};

verus! {

/// The modulus of the base field, big-endian. A serialized point is two
/// coordinates of 48 bytes each, and each must be below this number.
pub const FP_MODULUS: [u8; 48] = [
    0x1a, 0x01, 0x11, 0xea, 0x39, 0x7f, 0xe6, 0x9a, 0x4b, 0x1b, 0xa7, 0xb6, 0x43, 0x4b, 0xac, 0xd7,
    0x64, 0x77, 0x4b, 0x84, 0xf3, 0x85, 0x12, 0xbf, 0x67, 0x30, 0xd2, 0xa0, 0xf6, 0xb0, 0xf6, 0x24,
    0x1e, 0xab, 0xff, 0xfe, 0xb1, 0x53, 0xff, 0xff, 0xb9, 0xfe, 0xff, 0xff, 0xff, 0xff, 0xaa, 0xab,
];

/// The number that `bytes` is, read big-endian.
pub open spec fn be_value(bytes: Seq<u8>) -> nat
    decreases bytes.len(),
{
    if bytes.len() == 0 {
        0
    } else {
        be_value(bytes.drop_last()) * 256 + bytes.last() as nat
    }
}

/// The coordinate is an element of the base field: a number below the
/// modulus.
pub open spec fn in_field(coordinate: Seq<u8>) -> bool {
    be_value(coordinate) < be_value(FP_MODULUS@)
}

/// `a` comes before `b` byte by byte: at the first byte where they differ,
/// `a` has the smaller one.
spec fn comes_before(a: Seq<u8>, b: Seq<u8>) -> bool {
    exists|i: int|
        0 <= i < a.len() && i < b.len() && #[trigger] a[i] < b[i] && forall|j: int|
            0 <= j < i ==> a[j] == b[j]
}

/// Byte strings of one length that are the same number are the same string.
proof fn lemma_value_decides(a: Seq<u8>, b: Seq<u8>)
    requires
        a.len() == b.len(),
        be_value(a) == be_value(b),
    ensures
        a == b,
    decreases a.len(),
{
    if a.len() > 0 {
        lemma_value_decides(a.drop_last(), b.drop_last());
        assert(a =~= a.drop_last().push(a.last()));
        assert(b =~= b.drop_last().push(b.last()));
    } else {
        assert(a =~= b);
    }
}

/// For byte strings of one length, the order byte by byte is the order of
/// the numbers.
proof fn lemma_order_of_values(a: Seq<u8>, b: Seq<u8>)
    requires
        a.len() == b.len(),
    ensures
        comes_before(a, b) <==> be_value(a) < be_value(b),
    decreases a.len(),
{
    if a.len() > 0 {
        let front_a = a.drop_last();
        let front_b = b.drop_last();
        let last = a.len() - 1;
        lemma_order_of_values(front_a, front_b);
        if comes_before(a, b) {
            let i = choose|i: int|
                0 <= i < a.len() && i < b.len() && #[trigger] a[i] < b[i] && forall|j: int|
                    0 <= j < i ==> a[j] == b[j];
            if i < last {
                assert(front_a[i] < front_b[i]);
                assert forall|j: int| 0 <= j < i implies front_a[j] == front_b[j] by {
                    assert(a[j] == b[j]);
                }
                assert(comes_before(front_a, front_b));
            } else {
                assert(front_a =~= front_b) by {
                    assert forall|j: int| 0 <= j < last implies front_a[j] == front_b[j] by {
                        assert(a[j] == b[j]);
                    }
                }
            }
        }
        if be_value(a) < be_value(b) {
            if be_value(front_a) < be_value(front_b) {
                let i = choose|i: int|
                    0 <= i < front_a.len() && i < front_b.len() && #[trigger] front_a[i]
                        < front_b[i] && forall|j: int| 0 <= j < i ==> front_a[j] == front_b[j];
                assert(a[i] < b[i]);
                assert forall|j: int| 0 <= j < i implies a[j] == b[j] by {
                    assert(front_a[j] == front_b[j]);
                }
            } else {
                lemma_value_decides(front_a, front_b);
                assert(a[last] < b[last]);
                assert forall|j: int| 0 <= j < last implies a[j] == b[j] by {
                    assert(front_a[j] == front_b[j]);
                }
            }
        }
    }
}

/// The encoding of the point at infinity: the infinity flag and nothing else.
pub open spec fn g1_is_identity(point: Seq<u8>) -> bool {
    &&& point.len() == 96
    &&& point[0] == 0x40
    &&& forall|i: int| 1 <= i < 96 ==> point[i] == 0
}

/// `point` is an uncompressed encoding that the host decodes: either the point
/// at infinity, or no flag bit set and both coordinates below the field
/// modulus.
pub open spec fn g1_encoded(point: Seq<u8>) -> bool {
    &&& point.len() == 96
    &&& (g1_is_identity(point) || {
        &&& point[0] < 0x20
        &&& in_field(point.subrange(0, 48))
        &&& in_field(point.subrange(48, 96))
    })
}

/// The coordinates that `point` holds satisfy the equation of the curve,
/// `y^2 = x^3 + 4` in the field of integers modulo the field modulus.
pub open spec fn g1_on_curve(point: Seq<u8>) -> bool {
    let x = be_value(point.subrange(0, 48));
    let y = be_value(point.subrange(48, 96));
    let modulus = be_value(FP_MODULUS@);
    (y * y) % modulus == (x * x * x + 4) % modulus
}

/// `point` encodes a point of the curve.
pub open spec fn g1_curve_point(point: Seq<u8>) -> bool {
    g1_encoded(point) && (g1_is_identity(point) || g1_on_curve(point))
}

/// `point` encodes a member of G1, the prime-order subgroup of the curve.
pub open spec fn g1_member(point: Seq<u8>) -> bool {
    g1_encoded(point) && (g1_is_identity(point) || (g1_on_curve(point) && g1_in_subgroup(point)))
}

/// The encoding of the point at infinity.
pub fn g1_identity() -> (point: [u8; 96])
    ensures
        g1_is_identity(point@),
{
    let mut point = [0u8; 96];
    point[0] = 0x40;
    point
}

/// Whether `point` is the encoding of the point at infinity.
pub fn is_identity(point: &[u8; 96]) -> (identity: bool)
    ensures
        identity == g1_is_identity(point@),
{
    if point[0] != 0x40 {
        return false;
    }
    let mut i: usize = 1;
    while i < 96
        invariant
            1 <= i <= 96,
            point@[0] == 0x40,
            forall|k: int| 1 <= k < i ==> point@[k] == 0,
        decreases 96 - i,
    {
        if point[i] != 0 {
            return false;
        }
        i += 1;
    }
    true
}

/// Whether the coordinate that starts at `start` is below the field modulus.
fn coordinate_in_field(point: &[u8; 96], start: usize) -> (below: bool)
    requires
        start == 0 || start == 48,
    ensures
        below == in_field(point@.subrange(start as int, start + 48)),
{
    let ghost a = point@.subrange(start as int, start + 48);
    let ghost b = FP_MODULUS@;
    proof {
        lemma_order_of_values(a, b);
    }
    let mut i: usize = 0;
    while i < 48
        invariant
            i <= 48,
            start == 0 || start == 48,
            a == point@.subrange(start as int, start + 48),
            b == FP_MODULUS@,
            b.len() == 48,
            comes_before(a, b) <==> in_field(a),
            forall|j: int| 0 <= j < i ==> a[j] == b[j],
        decreases 48 - i,
    {
        let x = point[start + i];
        let m = FP_MODULUS[i];
        assert(x == a[i as int]);
        assert(m == b[i as int]);
        if x < m {
            assert(comes_before(a, b));
            return true;
        }
        if x > m {
            assert(!comes_before(a, b));
            return false;
        }
        i += 1;
    }
    assert(!comes_before(a, b));
    false
}

/// Whether `point` is an encoding that the host decodes.
pub fn is_encoded(point: &[u8; 96]) -> (encoded: bool)
    ensures
        encoded == g1_encoded(point@),
{
    if is_identity(point) {
        return true;
    }
    point[0] < 0x20 && coordinate_in_field(point, 0) && coordinate_in_field(point, 48)
}

/// Whether `point` encodes a member of G1. Total: bytes that do not decode are
/// reported as no member, and the host is asked only about those that do.
pub fn g1_is_member(env: &soroban_sdk::Env, point: &[u8; 96]) -> (member: bool)
    ensures
        member == g1_member(point@),
{
    if !is_encoded(point) {
        return false;
    }
    if is_identity(point) {
        return true;
    }
    if !g1_is_on_curve(env, point) {
        return false;
    }
    g1_is_in_subgroup(env, point)
}

} // verus!
