//! The boundary to the Solana SDK and token-program crates: type
//! declarations, contracts assumed of their pure instruction builders, and
//! thin wrappers whose contracts Verus believes.  Everything else in the
//! crate is verified against what is stated here.
use vstd::prelude::*;
use solana_program::instruction::Instruction;
use solana_program::program_error::ProgramError;
use solana_program::pubkey::Pubkey;
use crate::addr::{Address, spec_native_mint, spec_rent_sysvar, spec_system_program, spec_token_program};
use crate::errors::TxError;
use crate::instr::{Instr, OpKind};
use crate::plan::Plan;

verus! {

#[verifier::external_type_specification]
#[verifier::external_body]
pub struct ExPubkey(Pubkey);

#[verifier::external_type_specification]
#[verifier::external_body]
pub struct ExInstruction(Instruction);

#[verifier::external_type_specification]
#[verifier::external_body]
pub struct ExProgramError(ProgramError);

/// Relies on Pubkey::new_from_array: re-keys the library's address as the
/// SDK's public-key type, word by word in little-endian byte order.
#[verifier::external_body]
fn to_pubkey(a: &Address) -> Pubkey {
    let mut b = [0u8; 32];
    b[0..8].copy_from_slice(&a.w0.to_le_bytes());
    b[8..16].copy_from_slice(&a.w1.to_le_bytes());
    b[16..24].copy_from_slice(&a.w2.to_le_bytes());
    b[24..32].copy_from_slice(&a.w3.to_le_bytes());
    Pubkey::new_from_array(b)
}

/// Relies on solana_program::system_instruction::transfer: builds the
/// system-program transfer instruction.  Nothing of the opaque result is
/// stated; the library's own descriptor carries the verified shape.
#[allow(deprecated)]
#[verifier::external_body]
fn sdk_transfer_instruction(from: &Pubkey, to: &Pubkey, lamports: u64) -> Instruction {
    solana_program::system_instruction::transfer(from, to, lamports)
}

/// Relies on solana_program::system_instruction::create_account: builds
/// the system-program account-creation instruction.
#[allow(deprecated)]
#[verifier::external_body]
fn sdk_create_account_instruction(
    payer: &Pubkey,
    new_account: &Pubkey,
    lamports: u64,
    space: u64,
    owner: &Pubkey,
) -> Instruction {
    solana_program::system_instruction::create_account(payer, new_account, lamports, space, owner)
}

/// Relies on spl_token::instruction::initialize_account, which checks the
/// program id against spl_token::id() and errs exactly on a mismatch.
#[verifier::external_body]
fn sdk_initialize_token_account(
    token_program: &Address,
    account: &Pubkey,
    mint: &Pubkey,
    owner: &Pubkey,
) -> (r: Result<Instruction, ProgramError>)
    ensures
        (r is Ok) <==> *token_program == spec_token_program(),
{
    spl_token::instruction::initialize_account(&to_pubkey(token_program), account, mint, owner)
}

/// Relies on spl_token::instruction::close_account, which checks the
/// program id against spl_token::id() and errs exactly on a mismatch.
/// The owner is passed as the sole multisig signer.
#[verifier::external_body]
fn sdk_close_token_account(
    token_program: &Address,
    account: &Pubkey,
    destination: &Pubkey,
    owner: &Pubkey,
) -> (r: Result<Instruction, ProgramError>)
    ensures
        (r is Ok) <==> *token_program == spec_token_program(),
{
    spl_token::instruction::close_account(
        &to_pubkey(token_program),
        account,
        destination,
        owner,
        &[owner],
    )
}

/// Relies on spl_token::id: the token program's address is the base58
/// constant `TokenkegQfeZyiNwAJbNbGKPFXCWuBvf9Ss623VQ5DA`.
#[verifier::external_body]
pub(crate) fn sdk_token_program_id() -> (a: Address)
    ensures
        a == spec_token_program(),
{
    let b = spl_token::id().to_bytes();
    Address {
        w0: u64::from_le_bytes(b[0..8].try_into().unwrap()),
        w1: u64::from_le_bytes(b[8..16].try_into().unwrap()),
        w2: u64::from_le_bytes(b[16..24].try_into().unwrap()),
        w3: u64::from_le_bytes(b[24..32].try_into().unwrap()),
    }
}

/// Relies on spl_token::native_mint::id: the native mint's address is the
/// base58 constant `So11111111111111111111111111111111111111112`.
#[verifier::external_body]
pub(crate) fn sdk_native_mint_id() -> (a: Address)
    ensures
        a == spec_native_mint(),
{
    let b = spl_token::native_mint::id().to_bytes();
    Address {
        w0: u64::from_le_bytes(b[0..8].try_into().unwrap()),
        w1: u64::from_le_bytes(b[8..16].try_into().unwrap()),
        w2: u64::from_le_bytes(b[16..24].try_into().unwrap()),
        w3: u64::from_le_bytes(b[24..32].try_into().unwrap()),
    }
}

/// Relies on solana_program::sysvar::rent::id: the rent sysvar's address
/// is the base58 constant `SysvarRent111111111111111111111111111111111`.
#[verifier::external_body]
pub(crate) fn sdk_rent_sysvar_id() -> (a: Address)
    ensures
        a == spec_rent_sysvar(),
{
    let b = solana_program::sysvar::rent::id().to_bytes();
    Address {
        w0: u64::from_le_bytes(b[0..8].try_into().unwrap()),
        w1: u64::from_le_bytes(b[8..16].try_into().unwrap()),
        w2: u64::from_le_bytes(b[16..24].try_into().unwrap()),
        w3: u64::from_le_bytes(b[24..32].try_into().unwrap()),
    }
}

/// Relies on solana_program::system_program::id: the system program's
/// address is all zero bytes (base58 `11111111111111111111111111111111`).
#[verifier::external_body]
pub(crate) fn sdk_system_program_id() -> (a: Address)
    ensures
        a == spec_system_program(),
{
    let b = solana_program::system_program::id().to_bytes();
    Address {
        w0: u64::from_le_bytes(b[0..8].try_into().unwrap()),
        w1: u64::from_le_bytes(b[8..16].try_into().unwrap()),
        w2: u64::from_le_bytes(b[16..24].try_into().unwrap()),
        w3: u64::from_le_bytes(b[24..32].try_into().unwrap()),
    }
}

/// Relies on the token program's packed account layout: a token account
/// occupies exactly 165 bytes (spl_token::state::Account::LEN).
#[verifier::external_body]
pub fn token_account_len() -> (n: usize)
    ensures
        n == 165,
{
    <spl_token::state::Account as solana_program::program_pack::Pack>::LEN
}

/// Whether the SDK boundary can rebuild this descriptor as a real
/// instruction: the account list fits the operation, and token-program
/// operations address the token program, the close in the single-owner
/// multisig form the library builds.
pub open spec fn sdk_buildable(i: Instr) -> bool {
    match i.kind {
        OpKind::Transfer { .. } => i.accounts@.len() == 2,
        OpKind::CreateAccount { .. } => i.accounts@.len() == 2,
        OpKind::InitializeTokenAccount { .. } => i.accounts@.len() == 4 && i.program
            == spec_token_program(),
        OpKind::CloseTokenAccount => i.accounts@.len() == 4 && i.program == spec_token_program()
            && i.accounts@[3].address == i.accounts@[2].address,
    }
}

/// Rebuilds one descriptor as the SDK's instruction type, through the
/// SDK's own builders.
#[allow(deprecated)]
fn sdk_instruction(i: &Instr) -> (r: Result<Instruction, TxError>)
    ensures
        (r is Ok) <==> sdk_buildable(*i),
        r matches Err(e) ==> e == TxError::BadInstruction,
{
    match i.kind {
        OpKind::Transfer { lamports } => {
            if i.accounts.len() != 2 {
                return Err(TxError::BadInstruction);
            }
            let from = to_pubkey(&i.accounts[0].address);
            let to = to_pubkey(&i.accounts[1].address);
            Ok(sdk_transfer_instruction(&from, &to, lamports))
        },
        OpKind::CreateAccount { lamports, space, owner } => {
            if i.accounts.len() != 2 {
                return Err(TxError::BadInstruction);
            }
            let payer = to_pubkey(&i.accounts[0].address);
            let new_account = to_pubkey(&i.accounts[1].address);
            let owner_pk = to_pubkey(&owner);
            Ok(sdk_create_account_instruction(&payer, &new_account, lamports, space, &owner_pk))
        },
        OpKind::InitializeTokenAccount { mint } => {
            if i.accounts.len() != 4 {
                return Err(TxError::BadInstruction);
            }
            let account = to_pubkey(&i.accounts[0].address);
            let mint_pk = to_pubkey(&mint);
            let owner = to_pubkey(&i.accounts[2].address);
            match sdk_initialize_token_account(&i.program, &account, &mint_pk, &owner) {
                Ok(ins) => Ok(ins),
                Err(_) => Err(TxError::BadInstruction),
            }
        },
        OpKind::CloseTokenAccount => {
            if i.accounts.len() != 4 {
                return Err(TxError::BadInstruction);
            }
            if i.accounts[3].address != i.accounts[2].address {
                return Err(TxError::BadInstruction);
            }
            let account = to_pubkey(&i.accounts[0].address);
            let destination = to_pubkey(&i.accounts[1].address);
            let owner = to_pubkey(&i.accounts[2].address);
            match sdk_close_token_account(&i.program, &account, &destination, &owner) {
                Ok(ins) => Ok(ins),
                Err(_) => Err(TxError::BadInstruction),
            }
        },
    }
}

/// Rebuilds every descriptor of a plan as a real SDK instruction, in
/// order; fails exactly when some descriptor cannot be rebuilt.
pub fn sdk_instructions(p: &Plan) -> (r: Result<Vec<Instruction>, TxError>)
    ensures
        (r is Ok) <==> (forall|k: int|
            0 <= k < p.instructions@.len() ==> sdk_buildable(#[trigger] p.instructions@[k])),
        r matches Ok(v) ==> v@.len() == p.instructions@.len(),
        r matches Err(e) ==> e == TxError::BadInstruction,
{
    let mut out: Vec<Instruction> = Vec::new();
    let mut k: usize = 0;
    while k < p.instructions.len()
        invariant
            0 <= k <= p.instructions@.len(),
            out@.len() == k,
            forall|m: int| 0 <= m < k ==> sdk_buildable(#[trigger] p.instructions@[m]),
        decreases p.instructions@.len() - k,
    {
        match sdk_instruction(&p.instructions[k]) {
            Ok(ins) => {
                out.push(ins);
            },
            Err(e) => {
                return Err(e);
            },
        }
        k = k + 1;
    }
    Ok(out)
}

} // verus!
