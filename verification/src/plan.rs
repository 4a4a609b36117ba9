use vstd::prelude::*;
use crate::addr::{Address, BlockRef};
use crate::errors::SubmitError;
use crate::instr::Instr;

verus! {

/// A transaction plan: an ordered list of instructions, the account that
/// pays the fee, a reference to a recent ledger state, and the set of
/// addresses whose keys will sign.
#[derive(Clone, Debug)]
pub struct Plan {
    pub instructions: Vec<Instr>,
    pub fee_payer: Address,
    pub recent_block: BlockRef,
    pub signers: Vec<Address>,
}

/// Whether `a` is declared a required signer by some instruction.
pub open spec fn requires_signature(instrs: Seq<Instr>, a: Address) -> bool {
    exists|i: int, j: int|
        0 <= i < instrs.len() && 0 <= j < instrs[i].accounts@.len()
            && (#[trigger] instrs[i].accounts@[j]).is_signer && instrs[i].accounts@[j].address == a
}

/// Whether the signer set covers the fee payer and every account some
/// instruction declares as a required signer.
pub open spec fn covers(instrs: Seq<Instr>, fee_payer: Address, signers: Seq<Address>) -> bool {
    &&& signers.contains(fee_payer)
    &&& forall|i: int, j: int|
        0 <= i < instrs.len() && 0 <= j < instrs[i].accounts@.len()
            && (#[trigger] instrs[i].accounts@[j]).is_signer ==> signers.contains(
            instrs[i].accounts@[j].address,
        )
}

/// Whether the signer list contains `a`.
pub fn contains_address(signers: &Vec<Address>, a: Address) -> (r: bool)
    ensures
        r == signers@.contains(a),
{
    let mut k: usize = 0;
    while k < signers.len()
        invariant
            0 <= k <= signers@.len(),
            forall|m: int| 0 <= m < k ==> signers@[m] != a,
        decreases signers@.len() - k,
    {
        if signers[k] == a {
            return true;
        }
        k = k + 1;
    }
    false
}

/// Finds an address that must sign but is not in the signer set: the fee
/// payer, or a signer account of some instruction.  Returns `None` exactly
/// when the signer set covers everything required.
pub fn find_missing_signer(
    instructions: &Vec<Instr>,
    fee_payer: Address,
    signers: &Vec<Address>,
) -> (r: Option<Address>)
    ensures
        (r is None) <==> covers(instructions@, fee_payer, signers@),
        r matches Some(a) ==> !signers@.contains(a) && (a == fee_payer || requires_signature(
            instructions@,
            a,
        )),
{
    if !contains_address(signers, fee_payer) {
        return Some(fee_payer);
    }
    let mut i: usize = 0;
    while i < instructions.len()
        invariant
            0 <= i <= instructions@.len(),
            signers@.contains(fee_payer),
            forall|x: int, j: int|
                0 <= x < i && 0 <= j < instructions@[x].accounts@.len()
                    && (#[trigger] instructions@[x].accounts@[j]).is_signer
                    ==> signers@.contains(instructions@[x].accounts@[j].address),
        decreases instructions@.len() - i,
    {
        let accounts = &instructions[i].accounts;
        let mut j: usize = 0;
        while j < accounts.len()
            invariant
                0 <= j <= accounts@.len(),
                accounts@ == instructions@[i as int].accounts@,
                0 <= i < instructions@.len(),
                forall|k: int|
                    0 <= k < j && (#[trigger] accounts@[k]).is_signer ==> signers@.contains(
                        accounts@[k].address,
                    ),
            decreases accounts@.len() - j,
        {
            if accounts[j].is_signer && !contains_address(signers, accounts[j].address) {
                return Some(accounts[j].address);
            }
            j = j + 1;
        }
        i = i + 1;
    }
    None
}

/// Packages instructions into a plan, checking the one invariant the
/// cluster enforces at submission: the signer set must cover the fee payer
/// and every required signer.  Construction fails with the first missing
/// signer exactly when it does not.
pub fn assemble(
    instructions: Vec<Instr>,
    fee_payer: Address,
    recent_block: BlockRef,
    signers: Vec<Address>,
) -> (r: Result<Plan, SubmitError>)
    ensures
        (r is Ok) <==> covers(instructions@, fee_payer, signers@),
        r matches Ok(p) ==> {
            &&& p.instructions@ == instructions@
            &&& p.fee_payer == fee_payer
            &&& p.recent_block == recent_block
            &&& p.signers@ == signers@
        },
        r matches Err(e) ==> (e matches SubmitError::MissingSigner(a) && !signers@.contains(a)),
{
    match find_missing_signer(&instructions, fee_payer, &signers) {
        Some(a) => Err(SubmitError::MissingSigner(a)),
        None => Ok(Plan { instructions, fee_payer, recent_block, signers }),
    }
}

} // verus!
