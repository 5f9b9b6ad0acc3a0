use ethers_core::k256::ecdsa::SigningKey;
use ethers_core::types::{H160, U256};
use ethers_core::utils::{
    get_contract_address, get_create2_address_from_hash, keccak256, secret_key_to_address,
};
use vanity::address::Address;
use vanity::strategy::{
    generate, generate_address, generate_contract_address, generate_create2_address, recreate,
    Output, Strategy,
};

fn hex20(s: &str) -> Address {
    let mut bytes = [0u8; 20];
    for i in 0..20 {
        bytes[i] = u8::from_str_radix(&s[2 * i..2 * i + 2], 16).unwrap();
    }
    Address::new(bytes)
}

#[test]
fn direct_address_is_the_key_account() {
    let mut rng = rand::thread_rng();
    let (address, output) = generate_address(&mut rng);
    let key = match output {
        Output::Address(key) => key,
        other => panic!("unexpected output {other:?}"),
    };
    let signing = SigningKey::from_bytes((&key.to_bytes()).into()).unwrap();
    assert_eq!(secret_key_to_address(&signing).0, address.bytes);
    assert_eq!(key.address(), address);
    assert_eq!(recreate(&Strategy::Address, &output), Some(address));
}

#[test]
fn contract_address_at_nonce_zero() {
    let mut rng = rand::thread_rng();
    let nonce = [0u8; 32];
    let (contract, output) = generate_contract_address(&mut rng, &nonce);
    let (key, deployer) = match output {
        Output::ContractAddress(key, deployer) => (key, deployer),
        other => panic!("unexpected output {other:?}"),
    };
    assert_eq!(key.address(), deployer);
    let expected = get_contract_address(H160(deployer.bytes), U256::zero());
    assert_eq!(expected.0, contract.bytes);
    assert_ne!(contract, deployer);
    let strategy = Strategy::ContractAddress { nonce };
    assert_eq!(recreate(&strategy, &output), Some(contract));
    assert_eq!(recreate(&strategy, &output), recreate(&strategy, &output));
}

#[test]
fn contract_address_depends_on_nonce() {
    let mut rng = rand::thread_rng();
    let mut nonce = [0u8; 32];
    nonce[31] = 1;
    let (contract, output) = generate_contract_address(&mut rng, &nonce);
    let Output::ContractAddress(_, deployer) = output else { panic!("wrong variant") };
    assert_eq!(get_contract_address(H160(deployer.bytes), U256::one()).0, contract.bytes);
    let at_zero = recreate(&Strategy::ContractAddress { nonce: [0u8; 32] }, &output).unwrap();
    assert_ne!(at_zero, contract);
}

#[test]
fn create2_salt_recreates_the_address_and_holds_no_key() {
    let mut rng = rand::thread_rng();
    let factory = hex20("0123456789abcdef0123456789abcdef01234567");
    let codehash = keccak256([0x60u8, 0x80, 0x60, 0x40]);
    let (contract, output) = generate_create2_address(&mut rng, &factory, &codehash);
    let salt = match output {
        Output::Create2Address(salt) => salt,
        other => panic!("a create2 search must not hold a key: {other:?}"),
    };
    let expected = get_create2_address_from_hash(H160(factory.bytes), salt, codehash);
    assert_eq!(expected.0, contract.bytes);
    let strategy = Strategy::Create2Address { factory, codehash };
    let first = recreate(&strategy, &Output::Create2Address(salt));
    let second = recreate(&strategy, &Output::Create2Address(salt));
    assert_eq!(first, Some(contract));
    assert_eq!(first, second);
}

#[test]
fn create2_known_vector() {
    // zero factory, zero salt, init code 0x00
    let strategy =
        Strategy::Create2Address { factory: Address::zero(), codehash: keccak256([0u8]) };
    let got = recreate(&strategy, &Output::Create2Address([0u8; 32])).unwrap();
    assert_eq!(got, hex20("4d1a2e2bb4f88f0250f26ffff098b0b30b26bf38"));
}

#[test]
fn generate_follows_the_strategy() {
    let mut rng = rand::thread_rng();
    let strategies = [
        Strategy::Address,
        Strategy::ContractAddress { nonce: [0u8; 32] },
        Strategy::Create2Address { factory: Address::zero(), codehash: [7u8; 32] },
    ];
    for strategy in strategies {
        let (address, output) = generate(&mut rng, &strategy);
        assert_eq!(recreate(&strategy, &output), Some(address));
    }
}

#[test]
fn recreate_rejects_material_of_another_strategy() {
    let mut rng = rand::thread_rng();
    let (_, direct) = generate_address(&mut rng);
    assert_eq!(recreate(&Strategy::ContractAddress { nonce: [0u8; 32] }, &direct), None);
    let (_, salted) = generate_create2_address(&mut rng, &Address::zero(), &[0u8; 32]);
    assert_eq!(recreate(&Strategy::Address, &salted), None);
}

#[test]
fn recreate_rejects_a_deployer_that_is_not_the_key_account() {
    let mut rng = rand::thread_rng();
    let (_, output) = generate_contract_address(&mut rng, &[0u8; 32]);
    let Output::ContractAddress(key, deployer) = output else { panic!("wrong variant") };
    let mut other = deployer.bytes;
    other[0] ^= 1;
    let forged = Output::ContractAddress(key, Address::new(other));
    assert_eq!(recreate(&Strategy::ContractAddress { nonce: [0u8; 32] }, &forged), None);
}

#[test]
fn fresh_keys_differ() {
    let mut rng = rand::thread_rng();
    let (a, _) = generate_address(&mut rng);
    let (b, _) = generate_address(&mut rng);
    assert_ne!(a, b);
}
