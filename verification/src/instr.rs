use vstd::prelude::*;
use crate::addr::{
    Address, spec_system_program, spec_token_program, spec_rent_sysvar, system_program_address,
    token_program_address, rent_sysvar_address,
};
use crate::errors::TxError;

verus! {

/// One account an instruction touches, with the roles the cluster reads:
/// whether the account must sign the transaction and whether it is written.
#[derive(Clone, Copy, PartialEq, Eq, Structural, Debug)]
pub struct AccountRef {
    pub address: Address,
    pub is_signer: bool,
    pub is_writable: bool,
}

/// The operation an instruction asks of its program.
#[derive(Clone, Copy, PartialEq, Eq, Structural, Debug)]
pub enum OpKind {
    /// Move `lamports` from the first account to the second.
    Transfer { lamports: u64 },
    /// Create the second account with `lamports` starting balance and
    /// `space` bytes of storage owned by `owner`, funded by the first.
    CreateAccount { lamports: u64, space: u64, owner: Address },
    /// Initialize the first account as a token account of `mint`.
    InitializeTokenAccount { mint: Address },
    /// Close the first account and move its whole balance to the second.
    CloseTokenAccount,
}

/// A typed operation descriptor: the program addressed, the accounts it
/// touches in order, and the operation asked of it.
#[derive(Clone, Debug)]
pub struct Instr {
    pub program: Address,
    pub accounts: Vec<AccountRef>,
    pub kind: OpKind,
}

/// Builds the system-program transfer of `lamports` from `from` to `to`.
/// Only `from` must sign; both accounts are written.
pub fn transfer(from: Address, to: Address, lamports: u64) -> (r: Instr)
    ensures
        r.program == spec_system_program(),
        r.accounts@ =~= seq![
            (AccountRef { address: from, is_signer: true, is_writable: true }),
            (AccountRef { address: to, is_signer: false, is_writable: true }),
        ],
        r.kind == (OpKind::Transfer { lamports }),
{
    let mut accounts: Vec<AccountRef> = Vec::new();
    accounts.push(AccountRef { address: from, is_signer: true, is_writable: true });
    accounts.push(AccountRef { address: to, is_signer: false, is_writable: true });
    Instr { program: system_program_address(), accounts, kind: OpKind::Transfer { lamports } }
}

/// Builds the system-program account creation: `payer` funds `new_account`
/// with `lamports`, allocating `space` bytes owned by program `owner`.
/// Both the payer and the created account must sign.
pub fn create_account(
    payer: Address,
    new_account: Address,
    lamports: u64,
    space: u64,
    owner: Address,
) -> (r: Instr)
    ensures
        r.program == spec_system_program(),
        r.accounts@ =~= seq![
            (AccountRef { address: payer, is_signer: true, is_writable: true }),
            (AccountRef { address: new_account, is_signer: true, is_writable: true }),
        ],
        r.kind == (OpKind::CreateAccount { lamports, space, owner }),
{
    let mut accounts: Vec<AccountRef> = Vec::new();
    accounts.push(AccountRef { address: payer, is_signer: true, is_writable: true });
    accounts.push(AccountRef { address: new_account, is_signer: true, is_writable: true });
    Instr {
        program: system_program_address(),
        accounts,
        kind: OpKind::CreateAccount { lamports, space, owner },
    }
}

/// Builds the token-program initialization of `account` as a token account
/// of `mint` owned by `owner`.  Mirrors the token program's builder: it is
/// rejected if and only if `token_program` is not the token program's
/// address, and no account needs to sign.
pub fn initialize_token_account(
    token_program: Address,
    account: Address,
    mint: Address,
    owner: Address,
) -> (r: Result<Instr, TxError>)
    ensures
        (r is Ok) <==> token_program == spec_token_program(),
        r matches Ok(i) ==> {
            &&& i.program == token_program
            &&& i.accounts@ =~= seq![
                (AccountRef { address: account, is_signer: false, is_writable: true }),
                (AccountRef { address: mint, is_signer: false, is_writable: false }),
                (AccountRef { address: owner, is_signer: false, is_writable: false }),
                (AccountRef { address: spec_rent_sysvar(), is_signer: false, is_writable: false }),
            ]
            &&& i.kind == (OpKind::InitializeTokenAccount { mint })
        },
        r matches Err(e) ==> e == TxError::IncorrectProgramId,
{
    let expected = token_program_address();
    if token_program != expected {
        return Err(TxError::IncorrectProgramId);
    }
    let mut accounts: Vec<AccountRef> = Vec::new();
    accounts.push(AccountRef { address: account, is_signer: false, is_writable: true });
    accounts.push(AccountRef { address: mint, is_signer: false, is_writable: false });
    accounts.push(AccountRef { address: owner, is_signer: false, is_writable: false });
    accounts.push(AccountRef { address: rent_sysvar_address(), is_signer: false, is_writable: false });
    Ok(Instr { program: token_program, accounts, kind: OpKind::InitializeTokenAccount { mint } })
}

/// Builds the token-program close of `account`, sending its whole balance
/// to `destination` under the authority of `owner`.  Mirrors the token
/// program's builder: rejected if and only if `token_program` is not the
/// token program's address; `owner` itself signs when `signers` is empty,
/// otherwise each listed multisig signer signs.
pub fn close_token_account(
    token_program: Address,
    account: Address,
    destination: Address,
    owner: Address,
    signers: &Vec<Address>,
) -> (r: Result<Instr, TxError>)
    ensures
        (r is Ok) <==> token_program == spec_token_program(),
        r matches Ok(i) ==> {
            &&& i.program == token_program
            &&& i.accounts@.len() == 3 + signers@.len()
            &&& i.accounts@[0] == (AccountRef { address: account, is_signer: false, is_writable: true })
            &&& i.accounts@[1] == (AccountRef { address: destination, is_signer: false, is_writable: true })
            &&& i.accounts@[2] == (AccountRef {
                address: owner,
                is_signer: signers@.len() == 0,
                is_writable: false,
            })
            &&& forall|j: int| 0 <= j < signers@.len()
                ==> i.accounts@[3 + j] == (AccountRef {
                    address: signers@[j],
                    is_signer: true,
                    is_writable: false,
                })
            &&& i.kind == OpKind::CloseTokenAccount
        },
        r matches Err(e) ==> e == TxError::IncorrectProgramId,
{
    let expected = token_program_address();
    if token_program != expected {
        return Err(TxError::IncorrectProgramId);
    }
    let mut accounts: Vec<AccountRef> = Vec::new();
    accounts.push(AccountRef { address: account, is_signer: false, is_writable: true });
    accounts.push(AccountRef { address: destination, is_signer: false, is_writable: true });
    accounts.push(AccountRef { address: owner, is_signer: signers.len() == 0, is_writable: false });
    let mut j: usize = 0;
    while j < signers.len()
        invariant
            0 <= j <= signers@.len(),
            accounts@.len() == 3 + j,
            accounts@[0] == (AccountRef { address: account, is_signer: false, is_writable: true }),
            accounts@[1] == (AccountRef { address: destination, is_signer: false, is_writable: true }),
            accounts@[2] == (AccountRef {
                address: owner,
                is_signer: signers@.len() == 0,
                is_writable: false,
            }),
            forall|k: int| 0 <= k < j
                ==> accounts@[3 + k] == (AccountRef {
                    address: signers@[k],
                    is_signer: true,
                    is_writable: false,
                }),
        decreases signers@.len() - j,
    {
        accounts.push(AccountRef { address: signers[j], is_signer: true, is_writable: false });
        j = j + 1;
    }
    Ok(Instr { program: token_program, accounts, kind: OpKind::CloseTokenAccount })
}

/// The lamports a new account must hold on top of its funding balance:
/// the checked sum of the funding balance and the rent-exempt minimum the
/// cluster reported; `None` exactly when the sum does not fit in 64 bits.
pub fn funded_lamports(balance: u64, rent_exempt: u64) -> (r: Option<u64>)
    ensures
        (r is Some) <==> balance + rent_exempt <= u64::MAX,
        r matches Some(v) ==> v == balance + rent_exempt,
{
    balance.checked_add(rent_exempt)
}

} // verus!
