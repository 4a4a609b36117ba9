use vstd::prelude::*;
use crate::addr::Address;
use crate::instr::{Instr, OpKind};
use crate::ledger::{spec_apply_seq, spec_submit_covered};

verus! {

/// Law: a confirmed transfer plan moving `amount` from `from` to a
/// different account `to`, with `from` paying a fee of `fee`, lowers
/// `from`'s balance by exactly `amount` plus `fee`, raises `to`'s balance
/// by exactly `amount` (creating it at `amount` when absent), and touches
/// no other account.
pub proof fn law_transfer_effect(
    m: Map<Address, u64>,
    i: Instr,
    from: Address,
    to: Address,
    amount: u64,
    fee: u64,
)
    requires
        from != to,
        i.kind == (OpKind::Transfer { lamports: amount }),
        i.accounts@.len() == 2,
        i.accounts@[0].address == from,
        i.accounts@[1].address == to,
        spec_submit_covered(m, seq![i], from, fee) is Ok,
    ensures
        ({
            let m2 = spec_submit_covered(m, seq![i], from, fee).unwrap();
            &&& m.dom().contains(from)
            &&& m[from] >= amount + fee
            &&& m2.dom().contains(from)
            &&& m2[from] == m[from] - amount - fee
            &&& m2.dom().contains(to)
            &&& m2[to] == if m.dom().contains(to) {
                m[to] + amount
            } else {
                amount as int
            }
            &&& forall|b: Address|
                b != from && b != to ==> #[trigger] m2.dom().contains(b) == m.dom().contains(b) && (
                m.dom().contains(b) ==> m2[b] == m[b])
        }),
{
    reveal_with_fuel(spec_apply_seq, 3);
    let s = seq![i];
    assert(s.drop_first() =~= Seq::<Instr>::empty());
}

/// Law: a confirmed plan that creates `new_account` funded with `lamports`
/// from `payer` and then initializes it as a token account leaves
/// `new_account` holding exactly `lamports`, lowers `payer` by `lamports`
/// plus the fee, and touches no other account.  The created address was
/// necessarily free beforehand.
pub proof fn law_create_token_account_effect(
    m: Map<Address, u64>,
    c: Instr,
    ini: Instr,
    payer: Address,
    new_account: Address,
    lamports: u64,
    space: u64,
    owner: Address,
    fee: u64,
)
    requires
        c.kind == (OpKind::CreateAccount { lamports, space, owner }),
        c.accounts@.len() == 2,
        c.accounts@[0].address == payer,
        c.accounts@[1].address == new_account,
        ini.kind matches OpKind::InitializeTokenAccount { .. },
        spec_submit_covered(m, seq![c, ini], payer, fee) is Ok,
    ensures
        ({
            let m2 = spec_submit_covered(m, seq![c, ini], payer, fee).unwrap();
            &&& payer != new_account
            &&& !m.dom().contains(new_account)
            &&& m.dom().contains(payer)
            &&& m[payer] >= lamports + fee
            &&& m2.dom().contains(new_account)
            &&& m2[new_account] == lamports
            &&& m2.dom().contains(payer)
            &&& m2[payer] == m[payer] - lamports - fee
            &&& forall|b: Address|
                b != payer && b != new_account ==> #[trigger] m2.dom().contains(b)
                    == m.dom().contains(b) && (m.dom().contains(b) ==> m2[b] == m[b])
        }),
{
    reveal_with_fuel(spec_apply_seq, 4);
    let s = seq![c, ini];
    assert(s.drop_first() =~= seq![ini]);
    assert(seq![ini].drop_first() =~= Seq::<Instr>::empty());
}

/// Law: a confirmed plan that closes `account` towards `destination`, the
/// fee paid by a third account `owner`, moves the closed account's whole
/// balance to `destination`, removes `account` from the ledger, lowers
/// `owner` by the fee, and touches no other account.
pub proof fn law_close_token_account_effect(
    m: Map<Address, u64>,
    cl: Instr,
    account: Address,
    destination: Address,
    owner: Address,
    fee: u64,
)
    requires
        cl.kind == OpKind::CloseTokenAccount,
        cl.accounts@.len() >= 3,
        cl.accounts@[0].address == account,
        cl.accounts@[1].address == destination,
        owner != account,
        owner != destination,
        spec_submit_covered(m, seq![cl], owner, fee) is Ok,
    ensures
        ({
            let m2 = spec_submit_covered(m, seq![cl], owner, fee).unwrap();
            &&& account != destination
            &&& m.dom().contains(account)
            &&& m.dom().contains(owner)
            &&& m[owner] >= fee
            &&& !m2.dom().contains(account)
            &&& m2.dom().contains(destination)
            &&& m2[destination] == if m.dom().contains(destination) {
                m[destination] + m[account]
            } else {
                m[account] as int
            }
            &&& m2.dom().contains(owner)
            &&& m2[owner] == m[owner] - fee
            &&& forall|b: Address|
                b != account && b != destination && b != owner ==> #[trigger] m2.dom().contains(b)
                    == m.dom().contains(b) && (m.dom().contains(b) ==> m2[b] == m[b])
        }),
{
    reveal_with_fuel(spec_apply_seq, 3);
    let s = seq![cl];
    assert(s.drop_first() =~= Seq::<Instr>::empty());
}

} // verus!
