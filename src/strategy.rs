//! The three ways of turning fresh randomness into a candidate address, and
//! what each hands back so that the address can be recreated.
use crate::address::{same_address, Address};
use crate::crypto::{
    contract_address, contract_address_of, create2_address, create2_address_of, eoa_address,
    eoa_address_of, random_salt, random_secret, valid_secret,
};
use rand::rngs::ThreadRng;
use vstd::prelude::*;

verus! {

/// A secp256k1 secret key, kept as its 32-byte big-endian scalar.
#[derive(Clone, Copy, Debug, PartialEq, Eq)]
pub struct PrivateKey {
    bytes: [u8; 32],
}

impl View for PrivateKey {
    type V = Seq<u8>;

    closed spec fn view(&self) -> Seq<u8> {
        self.bytes@
    }
}

impl PrivateKey {
    #[verifier::type_invariant]
    spec fn well_formed(self) -> bool {
        valid_secret(self.bytes@)
    }

    /// The scalar's 32 big-endian bytes.
    pub fn to_bytes(&self) -> (r: [u8; 32])
        ensures
            r@ == self@,
            valid_secret(r@),
    {
        proof {
            use_type_invariant(self);
        }
        self.bytes
    }

    /// The account address that this key controls.
    pub fn address(&self) -> (r: Address)
        ensures
            r@ == eoa_address_of(self@),
    {
        proof {
            use_type_invariant(self);
        }
        eoa_address(&self.bytes)
    }

    /// A fresh key drawn from `rng`.
    fn random(rng: &mut ThreadRng) -> (r: PrivateKey) {
        PrivateKey { bytes: random_secret(rng) }
    }
}

/// How a candidate address is derived, with the parameters fixed for a run.
#[derive(Clone, Copy, Debug, PartialEq, Eq)]
pub enum Strategy {
    /// The account address of a fresh private key.
    Address,
    /// The address of the contract that a fresh account deploys at `nonce`
    /// (a big-endian 256-bit value).
    ContractAddress { nonce: [u8; 32] },
    /// The create2 address of a contract that `factory` deploys from code with
    /// hash `codehash`, under a fresh salt.
    Create2Address { factory: Address, codehash: [u8; 32] },
}

/// What recreates a candidate address: the variant that produced it and its
/// reconstruction material.
#[derive(Clone, Copy, Debug, PartialEq, Eq)]
pub enum Output {
    /// The private key of the matched account.
    Address(PrivateKey),
    /// The private key of the deploying account, and that account's address.
    ContractAddress(PrivateKey, Address),
    /// The salt; no key is ever generated for this variant.
    Create2Address([u8; 32]),
}

/// The address that `output` recreates under `strategy`, or `None` when the
/// two disagree: the variants differ, or a recorded deployer is not the
/// key's account.
pub open spec fn recreated(strategy: Strategy, output: Output) -> Option<Seq<u8>> {
    match output {
        Output::Address(key) => match strategy {
            Strategy::Address => Some(eoa_address_of(key@)),
            _ => None,
        },
        Output::ContractAddress(key, deployer) => match strategy {
            Strategy::ContractAddress { nonce } => if deployer@ == eoa_address_of(key@) {
                Some(contract_address_of(deployer@, nonce@))
            } else {
                None
            },
            _ => None,
        },
        Output::Create2Address(salt) => match strategy {
            Strategy::Create2Address { factory, codehash } => Some(
                create2_address_of(factory@, salt@, codehash@),
            ),
            _ => None,
        },
    }
}

/// `output` recreates exactly `address` under `strategy`.
pub open spec fn derives(strategy: Strategy, address: Address, output: Output) -> bool {
    recreated(strategy, output) == Some(address@)
}

/// Derivation is a function of its inputs: one strategy and one piece of
/// reconstruction material never stand for two different addresses.
pub proof fn lemma_derivation_deterministic(strategy: Strategy, output: Output, a: Address, b: Address)
    requires
        derives(strategy, a, output),
        derives(strategy, b, output),
    ensures
        a@ == b@,
{
}

/// A fresh account: its address, and its key.
pub fn generate_address(rng: &mut ThreadRng) -> (r: (Address, Output))
    ensures
        derives(Strategy::Address, r.0, r.1),
{
    let private_key = PrivateKey::random(rng);
    let address = private_key.address();
    (address, Output::Address(private_key))
}

/// The contract that a fresh account deploys at `nonce`: its address, and the
/// account's key and address.
pub fn generate_contract_address(rng: &mut ThreadRng, nonce: &[u8; 32]) -> (r: (Address, Output))
    ensures
        derives(Strategy::ContractAddress { nonce: *nonce }, r.0, r.1),
{
    let private_key = PrivateKey::random(rng);
    let address = private_key.address();
    let contract = contract_address(&address, nonce);
    (contract, Output::ContractAddress(private_key, address))
}

/// The create2 address under a fresh salt: the address, and the salt.
pub fn generate_create2_address(rng: &mut ThreadRng, factory: &Address, codehash: &[u8; 32]) -> (r:
    (Address, Output))
    ensures
        derives(Strategy::Create2Address { factory: *factory, codehash: *codehash }, r.0, r.1),
        r.1 is Create2Address,
{
    let salt = random_salt(rng);
    let contract = create2_address(factory, &salt, codehash);
    (contract, Output::Create2Address(salt))
}

/// One candidate under `strategy`.
pub fn generate(rng: &mut ThreadRng, strategy: &Strategy) -> (r: (Address, Output))
    ensures
        derives(*strategy, r.0, r.1),
{
    match strategy {
        Strategy::Address => generate_address(rng),
        Strategy::ContractAddress { nonce } => generate_contract_address(rng, nonce),
        Strategy::Create2Address { factory, codehash } => generate_create2_address(
            rng,
            factory,
            codehash,
        ),
    }
}

/// Recreates the address that `output` stands for under `strategy`, from the
/// material alone; `None` when the two do not fit together.
pub fn recreate(strategy: &Strategy, output: &Output) -> (r: Option<Address>)
    ensures
        r matches Some(a) ==> recreated(*strategy, *output) == Some(a@),
        r is None <==> recreated(*strategy, *output) is None,
{
    match output {
        Output::Address(key) => match strategy {
            Strategy::Address => Some(key.address()),
            _ => None,
        },
        Output::ContractAddress(key, deployer) => match strategy {
            Strategy::ContractAddress { nonce } => {
                let account = key.address();
                if same_address(&account, deployer) {
                    Some(contract_address(deployer, nonce))
                } else {
                    None
                }
            },
            _ => None,
        },
        Output::Create2Address(salt) => match strategy {
            Strategy::Create2Address { factory, codehash } => Some(
                create2_address(factory, salt, codehash),
            ),
            _ => None,
        },
    }
}

} // verus!
