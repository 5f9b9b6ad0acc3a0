//! The elliptic-curve and hashing primitives, provided by `ethers_core`, and
//! the randomness that feeds them, provided by `rand`.
use crate::address::Address;
use ethers_core::k256::ecdsa::SigningKey;
use ethers_core::types::{H160, H256, U256};
use ethers_core::utils::{get_contract_address, get_create2_address_from_hash, secret_key_to_address};
use rand::rngs::ThreadRng;
use vstd::prelude::*;

verus! {

/// A thread-local, cryptographically secure random generator.
#[verifier::external_type_specification]
#[verifier::external_body]
pub struct ExThreadRng(ThreadRng);

/// The value of `s` read as a big-endian unsigned integer.
pub open spec fn be_value(s: Seq<u8>) -> nat
    decreases s.len(),
{
    if s.len() == 0 {
        0
    } else {
        be_value(s.drop_last()) * 256 + s.last() as nat
    }
}

/// The order of the secp256k1 group.
pub open spec fn curve_order() -> nat {
    0xFFFFFFFFFFFFFFFFFFFFFFFFFFFFFFFEBAAEDCE6AF48A03BBFD25E8CD0364141nat
}

/// `s` is the 32-byte big-endian encoding of a secp256k1 secret scalar:
/// non-zero and below the group order.
pub open spec fn valid_secret(s: Seq<u8>) -> bool {
    &&& s.len() == 32
    &&& 0 < be_value(s)
    &&& be_value(s) < curve_order()
}

/// The account address controlled by the secret scalar `secret`.
pub uninterp spec fn eoa_address_of(secret: Seq<u8>) -> Seq<u8>;

/// The address of the contract that `deployer` creates when its nonce is the
/// big-endian 256-bit value `nonce`.
pub uninterp spec fn contract_address_of(deployer: Seq<u8>, nonce: Seq<u8>) -> Seq<u8>;

/// The create2 address of a contract deployed by `factory` with `salt` and
/// the init-code hash `code_hash`.
pub uninterp spec fn create2_address_of(factory: Seq<u8>, salt: Seq<u8>, code_hash: Seq<u8>) -> Seq<u8>;

/// Relies on `SigningKey::random` (ecdsa) and `SigningKey::to_bytes`: a random
/// non-zero scalar below the group order, serialized as 32 big-endian bytes.
#[verifier::external_body]
pub(crate) fn random_secret(rng: &mut ThreadRng) -> (r: [u8; 32])
    ensures
        valid_secret(r@),
{
    SigningKey::random(rng).to_bytes().into()
}

/// Relies on `ethers_core::utils::secret_key_to_address`: the address depends
/// on the secret scalar alone. `SigningKey::from_bytes` only rebuilds the key,
/// and accepts every non-zero scalar below the group order.
#[verifier::external_body]
pub(crate) fn eoa_address(secret: &[u8; 32]) -> (r: Address)
    requires
        valid_secret(secret@),
    ensures
        r@ == eoa_address_of(secret@),
{
    let key = SigningKey::from_bytes(secret.into()).expect("scalar in range");
    Address { bytes: secret_key_to_address(&key).0 }
}

/// Relies on `ethers_core::utils::get_contract_address`: the address depends on
/// the deployer and the nonce alone.
#[verifier::external_body]
pub(crate) fn contract_address(deployer: &Address, nonce: &[u8; 32]) -> (r: Address)
    ensures
        r@ == contract_address_of(deployer@, nonce@),
{
    let nonce = U256::from_big_endian(nonce);
    Address { bytes: get_contract_address(H160(deployer.bytes), nonce).0 }
}

/// Relies on `ethers_core::utils::get_create2_address_from_hash`: the address
/// depends on the factory, the salt and the init-code hash alone.
#[verifier::external_body]
pub(crate) fn create2_address(factory: &Address, salt: &[u8; 32], code_hash: &[u8; 32]) -> (r:
    Address)
    ensures
        r@ == create2_address_of(factory@, salt@, code_hash@),
{
    Address { bytes: get_create2_address_from_hash(H160(factory.bytes), &salt[..], &code_hash[..]).0 }
}

/// Relies on `H256::random_using` (fixed-hash): 32 bytes drawn from `rng`.
#[verifier::external_body]
pub(crate) fn random_salt(rng: &mut ThreadRng) -> (r: [u8; 32]) {
    H256::random_using(rng).0
}

} // verus!
