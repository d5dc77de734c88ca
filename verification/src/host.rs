//! The calls into the Soroban SDK. Nothing in this file is proved: each
//! function below states what the SDK and its host are relied on to do.
//!
//! The host meters the work it does and stops a call that exceeds the budget
//! it was given. Like running out of memory, that is outside what is stated
//! here.

use vstd::prelude::*;
use crate::curve::{g1_curve_point, g1_encoded, g1_is_identity, g1_member, g1_on_curve};

verus! {

/// `soroban_sdk::Env`, the handle through which the SDK reaches its host. Its
/// contents are never inspected here; it is only passed on to the calls below.
#[verifier::external_type_specification]
#[verifier::external_body]
pub struct ExEnv(soroban_sdk::Env);

/// The SHA-256 digest of a byte string, as `Crypto::sha256` computes it.
pub uninterp spec fn sha256_digest(data: Seq<u8>) -> Seq<u8>;

/// Whether a point of the curve lies in the prime-order subgroup, as
/// `Bls12_381::g1_is_in_subgroup` reports it.
pub uninterp spec fn g1_in_subgroup(point: Seq<u8>) -> bool;

/// The encoding of `scalar * point`, as `Bls12_381::g1_mul` computes it.
pub uninterp spec fn g1_product(point: Seq<u8>, scalar: u128) -> Seq<u8>;

/// The encoding of `a + b`, as `Bls12_381::g1_add` computes it.
pub uninterp spec fn g1_sum(a: Seq<u8>, b: Seq<u8>) -> Seq<u8>;

/// The encoding of the point that `Bls12_381::hash_to_g1` derives from a
/// message under a domain separation tag.
pub uninterp spec fn g1_hash(msg: Seq<u8>, dst: Seq<u8>) -> Seq<u8>;

/// Calls `Crypto::sha256` on a copy of `data`.
///
/// Trusted: the 32 bytes returned are the SHA-256 digest of `data`, a function
/// of `data` alone. The SDK holds byte strings whose length fits in 32 bits,
/// hence the bound.
#[verifier::external_body]
pub(crate) fn sha256(env: &soroban_sdk::Env, data: &Vec<u8>) -> (digest: [u8; 32])
    requires
        data@.len() <= u32::MAX,
    ensures
        digest@ == sha256_digest(data@),
{
    let bytes = soroban_sdk::Bytes::from_slice(env, data.as_slice());
    env.crypto().sha256(&bytes).to_array()
}

/// Calls `Bls12_381::g1_is_on_curve`.
///
/// Trusted: on a well-encoded input the host decodes the two coordinates
/// without failing and answers whether the point is on the curve: the point
/// at infinity is, and any other point is if its coordinates satisfy the
/// equation of the curve in the base field. On any other input the host
/// rejects the call, so those are left out.
#[verifier::external_body]
pub(crate) fn g1_is_on_curve(env: &soroban_sdk::Env, point: &[u8; 96]) -> (on_curve: bool)
    requires
        g1_encoded(point@),
    ensures
        on_curve == (g1_is_identity(point@) || g1_on_curve(point@)),
{
    let p = soroban_sdk::crypto::bls12_381::Bls12381G1Affine::from_array(env, point);
    env.crypto().bls12_381().g1_is_on_curve(&p)
}

/// Calls `Bls12_381::g1_is_in_subgroup`.
///
/// Trusted: the host first requires the input to be a well-encoded point of
/// the curve (it rejects the call otherwise) and then answers whether the
/// point lies in the prime-order subgroup.
#[verifier::external_body]
pub(crate) fn g1_is_in_subgroup(env: &soroban_sdk::Env, point: &[u8; 96]) -> (in_subgroup: bool)
    requires
        g1_curve_point(point@),
    ensures
        in_subgroup == g1_in_subgroup(point@),
{
    let p = soroban_sdk::crypto::bls12_381::Bls12381G1Affine::from_array(env, point);
    env.crypto().bls12_381().g1_is_in_subgroup(&p)
}

/// Calls `Bls12_381::g1_mul` with the scalar widened to 256 bits.
///
/// Trusted: the host requires a well-encoded point of the subgroup (it rejects
/// the call otherwise), reduces the scalar modulo the group order, and returns
/// the canonical encoding of the multiple, which is again in the subgroup. The
/// result depends on the point and the scalar alone.
#[verifier::external_body]
pub(crate) fn g1_mul(env: &soroban_sdk::Env, point: &[u8; 96], scalar: u128) -> (product: [u8; 96])
    requires
        g1_member(point@),
    ensures
        product@ == g1_product(point@, scalar),
        g1_member(product@),
{
    let p = soroban_sdk::crypto::bls12_381::Bls12381G1Affine::from_array(env, point);
    let s = soroban_sdk::crypto::bls12_381::Bls12381Fr::from_u256(
        soroban_sdk::U256::from_u128(env, scalar),
    );
    env.crypto().bls12_381().g1_mul(&p, &s).to_array()
}

/// Calls `Bls12_381::g1_add`.
///
/// Trusted: the host requires both inputs to be well-encoded points of the
/// curve (it rejects the call otherwise; it does not ask for the subgroup) and
/// returns the canonical encoding of their sum, a point of the curve. The sum
/// of two points of the subgroup is in the subgroup. The result depends on the
/// two points alone.
#[verifier::external_body]
pub(crate) fn g1_add(env: &soroban_sdk::Env, a: &[u8; 96], b: &[u8; 96]) -> (sum: [u8; 96])
    requires
        g1_curve_point(a@),
        g1_curve_point(b@),
    ensures
        sum@ == g1_sum(a@, b@),
        g1_curve_point(sum@),
        g1_member(a@) && g1_member(b@) ==> g1_member(sum@),
{
    let p = soroban_sdk::crypto::bls12_381::Bls12381G1Affine::from_array(env, a);
    let q = soroban_sdk::crypto::bls12_381::Bls12381G1Affine::from_array(env, b);
    env.crypto().bls12_381().g1_add(&p, &q).to_array()
}

/// Calls `Bls12_381::hash_to_g1`.
///
/// Trusted: the host requires a domain separation tag of 1 to 255 bytes (it
/// rejects the call otherwise), hashes the message to the curve and clears the
/// cofactor, so the point returned is in the subgroup, canonically encoded. The
/// result depends on the message and the tag alone.
#[verifier::external_body]
pub(crate) fn hash_to_g1(env: &soroban_sdk::Env, msg: &Vec<u8>, dst: &Vec<u8>) -> (point: [u8; 96])
    requires
        msg@.len() <= u32::MAX,
        0 < dst@.len() <= 255,
    ensures
        point@ == g1_hash(msg@, dst@),
        g1_member(point@),
{
    let m = soroban_sdk::Bytes::from_slice(env, msg.as_slice());
    let d = soroban_sdk::Bytes::from_slice(env, dst.as_slice());
    env.crypto().bls12_381().hash_to_g1(&m, &d).to_array()
}

} // verus!
