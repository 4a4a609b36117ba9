use rand::rngs::OsRng;
use solana_sdk::signature::{Keypair, Signer};
use solkit::addr::{Address, BlockRef};
use solkit::flows::{plan_close_native_token_account, plan_create_native_token_account, whole_sol_to_lamports};
use solkit::ledger::Ledger;

const TOKEN_ACCOUNT_BALANCE_SOLS: u64 = 5;
const RENT_EXEMPT_BALANCE: u64 = 2_039_280;
const LAMPORTS_PER_SIGNATURE: u64 = 5000;

fn address_of(pubkey: &solana_sdk::pubkey::Pubkey) -> Address {
    let b = pubkey.to_bytes();
    Address::new(
        u64::from_le_bytes(b[0..8].try_into().unwrap()),
        u64::from_le_bytes(b[8..16].try_into().unwrap()),
        u64::from_le_bytes(b[16..24].try_into().unwrap()),
        u64::from_le_bytes(b[24..32].try_into().unwrap()),
    )
}

#[allow(deprecated)]
fn new_keys() -> Keypair {
    Keypair::generate(&mut OsRng)
}

fn funded_fee_payer(ledger: &mut Ledger) -> Address {
    let wallet = new_keys();
    let fee_payer = address_of(&wallet.pubkey());
    ledger.fund(fee_payer, whole_sol_to_lamports(100).unwrap());
    fee_payer
}

#[test]
fn open_native_token_account_example() {
    let mut ledger = Ledger::new();
    let fee_payer = funded_fee_payer(&mut ledger);
    let token_account = new_keys();
    let token_account_address = address_of(&token_account.pubkey());

    // let 1st create some native token account
    let plan = plan_create_native_token_account(
        fee_payer,
        token_account_address,
        whole_sol_to_lamports(TOKEN_ACCOUNT_BALANCE_SOLS).unwrap(),
        RENT_EXEMPT_BALANCE,
        BlockRef::new(1, 2, 3, 4),
    )
    .unwrap();
    ledger.submit(&plan, LAMPORTS_PER_SIGNATURE).unwrap();

    // the token account should have expected balance
    println!(
        "token account[{:?}] balance = {}",
        token_account.pubkey(),
        ledger.balance(token_account_address).unwrap()
    );
}

#[test]
fn close_native_token_account_example() {
    let mut ledger = Ledger::new();
    let fee_payer = funded_fee_payer(&mut ledger);
    let token_account = new_keys();
    let token_account_address = address_of(&token_account.pubkey());

    // let 1st create some native token account
    let plan = plan_create_native_token_account(
        fee_payer,
        token_account_address,
        whole_sol_to_lamports(TOKEN_ACCOUNT_BALANCE_SOLS).unwrap(),
        RENT_EXEMPT_BALANCE,
        BlockRef::new(1, 2, 3, 4),
    )
    .unwrap();
    ledger.submit(&plan, LAMPORTS_PER_SIGNATURE).unwrap();

    // now let's close the token account and transfer it's balance to a new account
    let recipient = new_keys();
    let recipient_address = address_of(&recipient.pubkey());
    let close = plan_close_native_token_account(
        token_account_address,
        fee_payer,
        recipient_address,
        BlockRef::new(5, 6, 7, 8),
    );
    ledger.submit(&close, LAMPORTS_PER_SIGNATURE).unwrap();

    // full balance of the token account should have been transferred to the new account
    println!(
        "recipient account[{:?}] balance = {}",
        token_account.pubkey(),
        ledger.balance(recipient_address).unwrap()
    );
}
