use solkit::addr::{Address, BlockRef};
use solkit::errors::{RunError, SubmitError, TxError, exit_code};
use solkit::flows::{
    lamports_gained, lamports_spent, plan_close_native_token_account,
    plan_create_native_token_account, plan_transfer, whole_sol_to_lamports,
};
use solkit::instr::{funded_lamports, initialize_token_account, transfer};
use solkit::ledger::Ledger;
use solkit::plan::{Plan, assemble};

const FEE: u64 = 5000;

fn block() -> BlockRef {
    BlockRef::new(7, 7, 7, 7)
}

#[test]
fn transfer_decreases_source_by_amount_plus_fee() {
    let x = Address::new(1, 0, 0, 0);
    let y = Address::new(2, 0, 0, 0);
    let mut ledger = Ledger::new();
    ledger.fund(x, 1_000_000);
    let plan = plan_transfer(x, y, 75000, block());
    ledger.submit(&plan, FEE).unwrap();
    assert_eq!(ledger.balance(x), Some(1_000_000 - 75000 - FEE));
    assert_eq!(ledger.balance(y), Some(75000));
}

#[test]
fn transfer_to_existing_account_adds_exactly_amount() {
    let x = Address::new(1, 0, 0, 0);
    let y = Address::new(2, 0, 0, 0);
    let mut ledger = Ledger::new();
    ledger.fund(x, 500_000);
    ledger.fund(y, 11);
    let plan = plan_transfer(x, y, 123, block());
    ledger.submit(&plan, FEE).unwrap();
    assert_eq!(ledger.balance(x), Some(500_000 - 123 - FEE));
    assert_eq!(ledger.balance(y), Some(11 + 123));
}

#[test]
fn create_token_account_holds_funding_plus_rent() {
    let payer = Address::new(1, 0, 0, 0);
    let token_account = Address::new(9, 9, 9, 9);
    let funding = whole_sol_to_lamports(5).unwrap();
    let rent = 2_039_280;
    let mut ledger = Ledger::new();
    ledger.fund(payer, whole_sol_to_lamports(10).unwrap());
    let plan = plan_create_native_token_account(payer, token_account, funding, rent, block())
        .unwrap();
    ledger.submit(&plan, FEE).unwrap();
    assert_eq!(ledger.balance(token_account), Some(funding + rent));
    assert_eq!(
        ledger.balance(payer),
        Some(whole_sol_to_lamports(10).unwrap() - funding - rent - 2 * FEE)
    );
}

#[test]
fn close_token_account_moves_all_and_removes_account() {
    let owner = Address::new(1, 0, 0, 0);
    let token_account = Address::new(9, 9, 9, 9);
    let recipient = Address::new(3, 0, 0, 0);
    let funding = whole_sol_to_lamports(5).unwrap();
    let rent = 2_039_280;
    let mut ledger = Ledger::new();
    ledger.fund(owner, whole_sol_to_lamports(10).unwrap());
    let create = plan_create_native_token_account(owner, token_account, funding, rent, block())
        .unwrap();
    ledger.submit(&create, FEE).unwrap();
    let held = ledger.balance(token_account).unwrap();
    let close = plan_close_native_token_account(token_account, owner, recipient, block());
    ledger.submit(&close, FEE).unwrap();
    assert_eq!(ledger.balance(recipient), Some(held));
    assert_eq!(ledger.balance(token_account), None);
}

#[test]
fn missing_signer_is_rejected_and_nothing_changes() {
    let x = Address::new(1, 0, 0, 0);
    let y = Address::new(2, 0, 0, 0);
    let mut ledger = Ledger::new();
    ledger.fund(x, 1_000_000);
    let unsigned = Plan {
        instructions: vec![transfer(x, y, 75000)],
        fee_payer: x,
        recent_block: block(),
        signers: Vec::new(),
    };
    let r = ledger.submit(&unsigned, FEE);
    assert_eq!(r, Err(SubmitError::MissingSigner(x)));
    assert_eq!(ledger.balance(x), Some(1_000_000));
    assert_eq!(ledger.balance(y), None);
}

#[test]
fn assemble_rejects_uncovered_signer_set() {
    let x = Address::new(1, 0, 0, 0);
    let y = Address::new(2, 0, 0, 0);
    let r = assemble(vec![transfer(x, y, 10)], x, block(), vec![y]);
    assert_eq!(r.err(), Some(SubmitError::MissingSigner(x)));
}

#[test]
fn failed_instruction_rolls_back_everything() {
    let x = Address::new(1, 0, 0, 0);
    let y = Address::new(2, 0, 0, 0);
    let z = Address::new(3, 0, 0, 0);
    let mut ledger = Ledger::new();
    ledger.fund(x, 100_000);
    // The first transfer would succeed, the second asks too much: the
    // whole plan is rejected and the first leaves no trace.
    let plan = assemble(
        vec![transfer(x, y, 10_000), transfer(x, z, 10_000_000)],
        x,
        block(),
        vec![x],
    )
    .unwrap();
    let r = ledger.submit(&plan, FEE);
    assert_eq!(r, Err(SubmitError::Failed(TxError::InsufficientFunds(x))));
    assert_eq!(ledger.balance(x), Some(100_000));
    assert_eq!(ledger.balance(y), None);
    assert_eq!(ledger.balance(z), None);
}

#[test]
fn transfer_from_unknown_account_is_rejected() {
    let x = Address::new(1, 0, 0, 0);
    let y = Address::new(2, 0, 0, 0);
    let mut ledger = Ledger::new();
    let r = ledger.transfer(x, y, 5);
    assert_eq!(r, Err(TxError::UnknownAccount(x)));
}

#[test]
fn transfer_with_insufficient_funds_is_rejected() {
    let x = Address::new(1, 0, 0, 0);
    let y = Address::new(2, 0, 0, 0);
    let mut ledger = Ledger::new();
    ledger.fund(x, 4);
    let r = ledger.transfer(x, y, 5);
    assert_eq!(r, Err(TxError::InsufficientFunds(x)));
    assert_eq!(ledger.balance(x), Some(4));
}

#[test]
fn credit_past_u64_max_is_rejected() {
    let x = Address::new(1, 0, 0, 0);
    let y = Address::new(2, 0, 0, 0);
    let mut ledger = Ledger::new();
    ledger.fund(x, 100);
    ledger.fund(y, u64::MAX);
    let r = ledger.transfer(x, y, 1);
    assert_eq!(r, Err(TxError::BalanceOverflow(y)));
    assert_eq!(ledger.balance(x), Some(100));
    assert_eq!(ledger.balance(y), Some(u64::MAX));
}

#[test]
fn creating_an_existing_account_is_rejected() {
    let payer = Address::new(1, 0, 0, 0);
    let taken = Address::new(2, 0, 0, 0);
    let mut ledger = Ledger::new();
    ledger.fund(payer, 1_000_000);
    ledger.fund(taken, 1);
    let r = ledger.create_account(payer, taken, 500);
    assert_eq!(r, Err(TxError::AccountExists(taken)));
    assert_eq!(ledger.balance(payer), Some(1_000_000));
}

#[test]
fn closing_towards_oneself_is_rejected() {
    let a = Address::new(1, 0, 0, 0);
    let mut ledger = Ledger::new();
    ledger.fund(a, 77);
    let r = ledger.close_account(a, a);
    assert_eq!(r, Err(TxError::InvalidClose));
    assert_eq!(ledger.balance(a), Some(77));
}

#[test]
fn self_transfer_costs_only_the_fee() {
    let x = Address::new(1, 0, 0, 0);
    let mut ledger = Ledger::new();
    ledger.fund(x, 1_000_000);
    let plan = plan_transfer(x, x, 75000, block());
    ledger.submit(&plan, FEE).unwrap();
    assert_eq!(ledger.balance(x), Some(1_000_000 - FEE));
}

#[test]
fn exit_codes_follow_the_result() {
    assert_eq!(exit_code(&Ok(())), 0);
    assert_eq!(exit_code(&Err(RunError::IoError(String::from("no such file")))), 1);
    assert_eq!(exit_code(&Err(RunError::RpcError(String::from("connection refused")))), 1);
    assert_eq!(
        exit_code(&Err(RunError::SubmissionError(SubmitError::MissingSigner(Address::new(
            1, 0, 0, 0
        ))))),
        1
    );
}

#[test]
fn funded_lamports_is_a_checked_sum() {
    assert_eq!(funded_lamports(5_000_000_000, 2_039_280), Some(5_002_039_280));
    assert_eq!(funded_lamports(u64::MAX, 1), None);
}

#[test]
fn whole_sol_conversion_is_exact() {
    assert_eq!(whole_sol_to_lamports(5), Some(5_000_000_000));
    assert_eq!(whole_sol_to_lamports(0), Some(0));
    assert_eq!(whole_sol_to_lamports(u64::MAX), None);
}

#[test]
fn balance_deltas_are_checked() {
    assert_eq!(lamports_spent(100, 60), Some(40));
    assert_eq!(lamports_spent(60, 100), None);
    assert_eq!(lamports_gained(60, 100), Some(40));
    assert_eq!(lamports_gained(100, 60), None);
}

#[test]
fn initialize_token_account_checks_the_program_id() {
    let wrong = Address::new(1, 2, 3, 4);
    let a = Address::new(5, 0, 0, 0);
    let r = initialize_token_account(wrong, a, a, a);
    assert_eq!(r.err(), Some(TxError::IncorrectProgramId));
}

#[test]
fn wallet_path_without_tilde_is_unchanged() {
    assert_eq!(solkit::wallet::expand_wallet_path("/tmp/wallet.json"), "/tmp/wallet.json");
    assert_eq!(solkit::wallet::expand_wallet_path(""), "");
}

#[test]
fn wallet_path_with_user_tilde_is_unchanged() {
    assert_eq!(
        solkit::wallet::expand_wallet_path("~alice/wallets/id.json"),
        "~alice/wallets/id.json"
    );
}

#[test]
fn wallet_path_with_tilde_keeps_its_tail() {
    let expanded = solkit::wallet::expand_wallet_path("~/.config/solana/id.json");
    assert!(expanded.ends_with("/.config/solana/id.json"));
}

#[test]
fn config_carries_what_it_was_given() {
    let c = solkit::config::Config::new(
        String::from("http://localhost:8899"),
        String::from("~/.config/solana/id.json"),
        75000,
        solkit::config::Commitment::Confirmed,
    );
    assert_eq!(c.cluster_url, "http://localhost:8899");
    assert_eq!(c.wallet_path, "~/.config/solana/id.json");
    assert_eq!(c.amount, 75000);
    assert_eq!(c.commitment, solkit::config::Commitment::Confirmed);
}
