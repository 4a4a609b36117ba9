use vstd::prelude::*;
use crate::addr::{
    Address, BlockRef, spec_native_mint, spec_rent_sysvar, spec_system_program,
    spec_token_program, native_mint_address, token_program_address,
};
use crate::errors::TxError;
use crate::instr::{
    AccountRef, Instr, OpKind, create_account, funded_lamports, initialize_token_account,
    close_token_account, transfer,
};
use crate::plan::{Plan, assemble, covers};
use crate::sdk::token_account_len;

verus! {

/// Lamports per whole SOL.
pub const LAMPORTS_PER_SOL: u64 = 1000000000;

/// Converts a whole number of SOL to lamports; `None` exactly when the
/// product does not fit in 64 bits.
pub fn whole_sol_to_lamports(sols: u64) -> (r: Option<u64>)
    ensures
        (r is Some) <==> sols * LAMPORTS_PER_SOL <= u64::MAX,
        r matches Some(v) ==> v == sols * LAMPORTS_PER_SOL,
{
    sols.checked_mul(LAMPORTS_PER_SOL)
}

/// What a balance lost between two readings; `None` when it grew.
pub fn lamports_spent(before: u64, after: u64) -> (r: Option<u64>)
    ensures
        (r is Some) <==> after <= before,
        r matches Some(v) ==> v == before - after,
{
    before.checked_sub(after)
}

/// What a balance gained between two readings; `None` when it shrank.
pub fn lamports_gained(before: u64, after: u64) -> (r: Option<u64>)
    ensures
        (r is Some) <==> before <= after,
        r matches Some(v) ==> v == after - before,
{
    after.checked_sub(before)
}

/// The plan a plain transfer program submits: one transfer instruction,
/// the sender paying the fee and signing alone.  Such a plan always covers
/// its required signers.
pub fn plan_transfer(
    payer: Address,
    recipient: Address,
    amount: u64,
    recent_block: BlockRef,
) -> (p: Plan)
    ensures
        p.fee_payer == payer,
        p.recent_block == recent_block,
        p.signers@ =~= seq![payer],
        p.instructions@.len() == 1,
        p.instructions@[0].kind == (OpKind::Transfer { lamports: amount }),
        p.instructions@[0].program == spec_system_program(),
        p.instructions@[0].accounts@.len() == 2,
        p.instructions@[0].accounts@[0] == (AccountRef {
            address: payer,
            is_signer: true,
            is_writable: true,
        }),
        p.instructions@[0].accounts@[1] == (AccountRef {
            address: recipient,
            is_signer: false,
            is_writable: true,
        }),
        covers(p.instructions@, p.fee_payer, p.signers@),
{
    let i = transfer(payer, recipient, amount);
    let mut instructions: Vec<Instr> = Vec::new();
    instructions.push(i);
    let mut signers: Vec<Address> = Vec::new();
    signers.push(payer);
    proof {
        assert(signers@[0] == payer);
        assert(signers@.contains(payer));
        assert(instructions@[0] == i);
        assert forall|x: int, j: int|
            0 <= x < instructions@.len() && 0 <= j < instructions@[x].accounts@.len() && (
            #[trigger] instructions@[x].accounts@[j]).is_signer implies signers@.contains(
            instructions@[x].accounts@[j].address,
        ) by {
            assert(x == 0);
            assert(instructions@[0].accounts@[j].is_signer ==> j == 0);
        }
        assert(covers(instructions@, payer, signers@));
    }
    match assemble(instructions, payer, recent_block, signers) {
        Ok(p) => p,
        Err(_) => {
            proof {
                assert(false);
            }
            unreached()
        },
    }
}

/// The plan that creates and initializes a native-mint token account:
/// the fee payer funds `funding_lamports` plus the rent-exempt minimum the
/// cluster reported, and both the fee payer and the new account sign.
/// Fails exactly when that sum does not fit in 64 bits.
pub fn plan_create_native_token_account(
    fee_payer: Address,
    token_account: Address,
    funding_lamports: u64,
    rent_exempt: u64,
    recent_block: BlockRef,
) -> (r: Result<Plan, TxError>)
    ensures
        (r is Ok) <==> funding_lamports + rent_exempt <= u64::MAX,
        r matches Err(e) ==> e == TxError::BalanceOverflow(token_account),
        r matches Ok(p) ==> {
            &&& p.fee_payer == fee_payer
            &&& p.recent_block == recent_block
            &&& p.signers@ =~= seq![fee_payer, token_account]
            &&& p.instructions@.len() == 2
            &&& p.instructions@[0].kind == (OpKind::CreateAccount {
                lamports: (funding_lamports + rent_exempt) as u64,
                space: 165,
                owner: spec_token_program(),
            })
            &&& p.instructions@[0].program == spec_system_program()
            &&& p.instructions@[0].accounts@ =~= seq![
                (AccountRef { address: fee_payer, is_signer: true, is_writable: true }),
                (AccountRef { address: token_account, is_signer: true, is_writable: true }),
            ]
            &&& p.instructions@[1].kind == (OpKind::InitializeTokenAccount {
                mint: spec_native_mint(),
            })
            &&& p.instructions@[1].program == spec_token_program()
            &&& p.instructions@[1].accounts@ =~= seq![
                (AccountRef { address: token_account, is_signer: false, is_writable: true }),
                (AccountRef { address: spec_native_mint(), is_signer: false, is_writable: false }),
                (AccountRef { address: fee_payer, is_signer: false, is_writable: false }),
                (AccountRef { address: spec_rent_sysvar(), is_signer: false, is_writable: false }),
            ]
            &&& covers(p.instructions@, p.fee_payer, p.signers@)
        },
{
    let total = match funded_lamports(funding_lamports, rent_exempt) {
        Some(t) => t,
        None => {
            return Err(TxError::BalanceOverflow(token_account));
        },
    };
    let token_program = token_program_address();
    let space = token_account_len() as u64;
    let c = create_account(fee_payer, token_account, total, space, token_program);
    let ini = match initialize_token_account(
        token_program,
        token_account,
        native_mint_address(),
        fee_payer,
    ) {
        Ok(ini) => ini,
        Err(_) => {
            proof {
                assert(false);
            }
            unreached()
        },
    };
    let mut instructions: Vec<Instr> = Vec::new();
    instructions.push(c);
    instructions.push(ini);
    let mut signers: Vec<Address> = Vec::new();
    signers.push(fee_payer);
    signers.push(token_account);
    proof {
        assert(signers@[0] == fee_payer);
        assert(signers@[1] == token_account);
        assert(signers@.contains(fee_payer));
        assert(signers@.contains(token_account));
        assert(instructions@[0] == c);
        assert(instructions@[1] == ini);
        assert forall|x: int, j: int|
            0 <= x < instructions@.len() && 0 <= j < instructions@[x].accounts@.len() && (
            #[trigger] instructions@[x].accounts@[j]).is_signer implies signers@.contains(
            instructions@[x].accounts@[j].address,
        ) by {
            if x == 0 {
                assert(instructions@[0].accounts@[j].is_signer ==> j == 0 || j == 1);
            } else {
                assert(x == 1);
                assert(!instructions@[1].accounts@[j].is_signer);
            }
        }
        assert(covers(instructions@, fee_payer, signers@));
    }
    match assemble(instructions, fee_payer, recent_block, signers) {
        Ok(p) => Ok(p),
        Err(_) => {
            proof {
                assert(false);
            }
            unreached()
        },
    }
}

/// The plan that closes a native-mint token account, sending its whole
/// balance to `recipient`: the owner authorizes the close, pays the fee
/// and signs alone, listed as the token program's sole multisig signer as
/// the close builder is called with `[owner]`.
pub fn plan_close_native_token_account(
    token_account: Address,
    owner: Address,
    recipient: Address,
    recent_block: BlockRef,
) -> (p: Plan)
    ensures
        p.fee_payer == owner,
        p.recent_block == recent_block,
        p.signers@ =~= seq![owner],
        p.instructions@.len() == 1,
        p.instructions@[0].kind == OpKind::CloseTokenAccount,
        p.instructions@[0].program == spec_token_program(),
        p.instructions@[0].accounts@.len() == 4,
        p.instructions@[0].accounts@[0] == (AccountRef {
            address: token_account,
            is_signer: false,
            is_writable: true,
        }),
        p.instructions@[0].accounts@[1] == (AccountRef {
            address: recipient,
            is_signer: false,
            is_writable: true,
        }),
        p.instructions@[0].accounts@[2] == (AccountRef {
            address: owner,
            is_signer: false,
            is_writable: false,
        }),
        p.instructions@[0].accounts@[3] == (AccountRef {
            address: owner,
            is_signer: true,
            is_writable: false,
        }),
        covers(p.instructions@, p.fee_payer, p.signers@),
{
    let token_program = token_program_address();
    let mut close_signers: Vec<Address> = Vec::new();
    close_signers.push(owner);
    let cl = match close_token_account(token_program, token_account, recipient, owner, &close_signers) {
        Ok(cl) => cl,
        Err(_) => {
            proof {
                assert(false);
            }
            unreached()
        },
    };
    let mut instructions: Vec<Instr> = Vec::new();
    instructions.push(cl);
    let mut signers: Vec<Address> = Vec::new();
    signers.push(owner);
    proof {
        assert(signers@[0] == owner);
        assert(signers@.contains(owner));
        assert(instructions@[0] == cl);
        assert forall|x: int, j: int|
            0 <= x < instructions@.len() && 0 <= j < instructions@[x].accounts@.len() && (
            #[trigger] instructions@[x].accounts@[j]).is_signer implies signers@.contains(
            instructions@[x].accounts@[j].address,
        ) by {
            assert(x == 0);
            assert(instructions@[0].accounts@[j].is_signer ==> j == 3);
        }
        assert(covers(instructions@, owner, signers@));
    }
    match assemble(instructions, owner, recent_block, signers) {
        Ok(p) => p,
        Err(_) => {
            proof {
                assert(false);
            }
            unreached()
        },
    }
}

} // verus!
