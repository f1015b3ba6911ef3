//! Solidity ABI words and Keccak-256, as alloy computes them.
use crate::address::Address;
use crate::u256::U256;
use alloy::sol_types::SolValue;
use vstd::prelude::*;

verus! {

/// The eight bytes of a 64-bit limb, most significant first.
pub open spec fn u64_be_bytes(x: u64) -> Seq<u8> {
    Seq::new(8, |i: int| ((x >> ((8 * (7 - i)) as u64)) & 0xff) as u8)
}

/// A 256-bit number as a 32-byte big-endian ABI word.
pub open spec fn u256_word(v: U256) -> Seq<u8> {
    u64_be_bytes(v.l3) + u64_be_bytes(v.l2) + u64_be_bytes(v.l1) + u64_be_bytes(v.l0)
}

/// A small number as a 32-byte big-endian ABI word.
pub open spec fn u64_word(n: u64) -> Seq<u8> {
    Seq::new(24, |i: int| 0u8) + u64_be_bytes(n)
}

/// An address as an ABI word: twelve zero bytes, then the twenty address bytes.
pub open spec fn address_word(a: Seq<u8>) -> Seq<u8> {
    Seq::new(12, |i: int| 0u8) + a
}

/// Data followed by zero bytes up to the next multiple of 32.
pub open spec fn zero_padded(data: Seq<u8>) -> Seq<u8> {
    data + Seq::new(((32 - data.len() % 32) % 32) as nat, |i: int| 0u8)
}

/// `abi.encode(address, uint256, bytes)`: two head words, the offset of the
/// dynamic tail (three words in), then the tail: length word and padded data.
pub open spec fn abi_params_address_u256_bytes(a: Seq<u8>, v: U256, data: Seq<u8>) -> Seq<u8> {
    address_word(a) + u256_word(v) + u64_word(96) + u64_word(data.len() as u64) + zero_padded(data)
}

/// `abi.encode(uint256, address)`: two static words.
pub open spec fn abi_params_u256_address(v: U256, a: Seq<u8>) -> Seq<u8> {
    u256_word(v) + address_word(a)
}

/// The Keccak-256 digest of some bytes.
pub uninterp spec fn keccak256_digest(data: Seq<u8>) -> Seq<u8>;

/// Calls alloy's `keccak256`; the digest is named, not computed here.
#[verifier::external_body]
pub(crate) fn keccak256(data: &[u8]) -> (r: [u8; 32])
    ensures
        r@ == keccak256_digest(data@),
{
    alloy::primitives::keccak256(data).0
}

/// Calls alloy's `SolValue::abi_encode_params` on `(Address, U256, Bytes)`.
#[verifier::external_body]
pub(crate) fn abi_encode_address_u256_bytes(a: &Address, v: &U256, data: &[u8]) -> (r: Vec<u8>)
    ensures
        r@ == abi_params_address_u256_bytes(a@, *v, data@),
{
    let a = alloy::primitives::Address::from(a.bytes);
    let v = alloy::primitives::U256::from_limbs([v.l0, v.l1, v.l2, v.l3]);
    let d = alloy::primitives::Bytes::copy_from_slice(data);
    (a, v, d).abi_encode_params()
}

/// Calls alloy's `SolValue::abi_encode_params` on `(U256, Address)`.
#[verifier::external_body]
pub(crate) fn abi_encode_u256_address(v: &U256, a: &Address) -> (r: Vec<u8>)
    ensures
        r@ == abi_params_u256_address(*v, a@),
{
    let v = alloy::primitives::U256::from_limbs([v.l0, v.l1, v.l2, v.l3]);
    let a = alloy::primitives::Address::from(a.bytes);
    (v, a).abi_encode_params()
}

} // verus!
