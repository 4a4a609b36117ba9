use solana_program::program_pack::Pack;
use solkit::addr::{
    Address, BlockRef, native_mint_address, rent_sysvar_address, system_program_address,
    token_program_address,
};
use solkit::flows::{
    plan_close_native_token_account, plan_create_native_token_account, plan_transfer,
};
use solkit::sdk::{sdk_instructions, token_account_len};

fn bytes_of(a: &Address) -> [u8; 32] {
    let mut b = [0u8; 32];
    let words = [a.w0, a.w1, a.w2, a.w3];
    for (k, w) in words.iter().enumerate() {
        b[k * 8..(k + 1) * 8].copy_from_slice(&w.to_le_bytes());
    }
    b
}

fn pubkey_of(a: &Address) -> solana_sdk::pubkey::Pubkey {
    solana_sdk::pubkey::Pubkey::new_from_array(bytes_of(a))
}

#[test]
fn program_addresses_match_the_sdk_constants() {
    assert_eq!(bytes_of(&token_program_address()), spl_token::id().to_bytes());
    assert_eq!(bytes_of(&native_mint_address()), spl_token::native_mint::id().to_bytes());
    assert_eq!(
        bytes_of(&rent_sysvar_address()),
        solana_program::sysvar::rent::id().to_bytes()
    );
    assert_eq!(
        bytes_of(&system_program_address()),
        solana_program::system_program::id().to_bytes()
    );
}

#[test]
fn token_account_len_matches_the_packed_layout() {
    assert_eq!(token_account_len(), spl_token::state::Account::LEN);
}

#[test]
#[allow(deprecated)]
fn rebuilt_transfer_equals_the_sdk_builder() {
    let from = Address::new(11, 12, 13, 14);
    let to = Address::new(21, 22, 23, 24);
    let plan = plan_transfer(from, to, 75000, BlockRef::new(1, 1, 1, 1));
    let built = sdk_instructions(&plan).unwrap();
    let expected =
        solana_sdk::system_instruction::transfer(&pubkey_of(&from), &pubkey_of(&to), 75000);
    assert_eq!(built.len(), 1);
    assert_eq!(built[0], expected);
}

#[test]
#[allow(deprecated)]
fn rebuilt_create_and_initialize_equal_the_sdk_builders() {
    let payer = Address::new(11, 12, 13, 14);
    let token_account = Address::new(21, 22, 23, 24);
    let plan = plan_create_native_token_account(
        payer,
        token_account,
        5_000_000_000,
        2_039_280,
        BlockRef::new(1, 1, 1, 1),
    )
    .unwrap();
    let built = sdk_instructions(&plan).unwrap();
    let expected_create = solana_sdk::system_instruction::create_account(
        &pubkey_of(&payer),
        &pubkey_of(&token_account),
        5_000_000_000 + 2_039_280,
        spl_token::state::Account::LEN as u64,
        &spl_token::id(),
    );
    let expected_initialize = spl_token::instruction::initialize_account(
        &spl_token::id(),
        &pubkey_of(&token_account),
        &spl_token::native_mint::id(),
        &pubkey_of(&payer),
    )
    .unwrap();
    assert_eq!(built.len(), 2);
    assert_eq!(built[0], expected_create);
    assert_eq!(built[1], expected_initialize);
}

#[test]
fn rebuilt_close_equals_the_sdk_builder() {
    let owner = Address::new(11, 12, 13, 14);
    let token_account = Address::new(21, 22, 23, 24);
    let recipient = Address::new(31, 32, 33, 34);
    let plan = plan_close_native_token_account(
        token_account,
        owner,
        recipient,
        BlockRef::new(1, 1, 1, 1),
    );
    let built = sdk_instructions(&plan).unwrap();
    let owner_pk = pubkey_of(&owner);
    let expected = spl_token::instruction::close_account(
        &spl_token::id(),
        &pubkey_of(&token_account),
        &pubkey_of(&recipient),
        &owner_pk,
        &[&owner_pk],
    )
    .unwrap();
    assert_eq!(built.len(), 1);
    assert_eq!(built[0], expected);
}
