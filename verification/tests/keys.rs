use rand::rngs::OsRng;
use solana_sdk::signature::{Keypair, Signer};
use solkit::addr::Address;

fn address_of(pubkey: &solana_sdk::pubkey::Pubkey) -> Address {
    let b = pubkey.to_bytes();
    Address::new(
        u64::from_le_bytes(b[0..8].try_into().unwrap()),
        u64::from_le_bytes(b[8..16].try_into().unwrap()),
        u64::from_le_bytes(b[16..24].try_into().unwrap()),
        u64::from_le_bytes(b[24..32].try_into().unwrap()),
    )
}

#[test]
#[allow(deprecated)]
fn freshly_generated_keypairs_do_not_collide() {
    let first = Keypair::generate(&mut OsRng);
    let second = Keypair::generate(&mut OsRng);
    assert_ne!(first.pubkey(), second.pubkey());
    assert_ne!(address_of(&first.pubkey()), address_of(&second.pubkey()));
}

#[test]
fn sequential_runs_get_distinct_recipient_addresses() {
    let first = address_of(&Keypair::new().pubkey());
    let second = address_of(&Keypair::new().pubkey());
    assert_ne!(first, second);
}
