use vstd::prelude::*;
use crate::addr::Address;
use crate::errors::{SubmitError, TxError};
use crate::instr::{Instr, OpKind};
use crate::plan::{Plan, covers, find_missing_signer};

verus! {

/// One account of the cluster model: its address and its lamport balance.
#[derive(Clone, Copy, PartialEq, Eq, Structural, Debug)]
pub struct AccountState {
    pub address: Address,
    pub lamports: u64,
}

/// No two entries of the backing store share an address.
pub open spec fn wf_accounts(s: Seq<AccountState>) -> bool {
    forall|i: int, j: int|
        0 <= i < j < s.len() ==> (#[trigger] s[i]).address != (#[trigger] s[j]).address
}

/// Whether the store holds an account at address `a`.
pub open spec fn has_addr(s: Seq<AccountState>, a: Address) -> bool {
    exists|i: int| 0 <= i < s.len() && (#[trigger] s[i]).address == a
}

/// The index of the account at address `a`, assuming there is one.
pub open spec fn idx_of(s: Seq<AccountState>, a: Address) -> int {
    choose|i: int| 0 <= i < s.len() && (#[trigger] s[i]).address == a
}

/// The store read as a finite map from address to balance.
pub open spec fn accounts_map(s: Seq<AccountState>) -> Map<Address, u64> {
    Map::new(|a: Address| has_addr(s, a), |a: Address| s[idx_of(s, a)].lamports)
}

proof fn lemma_map_at(s: Seq<AccountState>, i: int)
    requires
        wf_accounts(s),
        0 <= i < s.len(),
    ensures
        accounts_map(s).dom().contains(s[i].address),
        accounts_map(s)[s[i].address] == s[i].lamports,
{
    assert(has_addr(s, s[i].address));
    let k = idx_of(s, s[i].address);
    assert(0 <= k < s.len() && s[k].address == s[i].address);
    if k != i {
        if k < i {
            assert(s[k].address != s[i].address);
        } else {
            assert(s[i].address != s[k].address);
        }
    }
}

proof fn lemma_map_update(s: Seq<AccountState>, i: int, v: u64)
    requires
        wf_accounts(s),
        0 <= i < s.len(),
    ensures
        wf_accounts(s.update(i, AccountState { address: s[i].address, lamports: v })),
        accounts_map(s.update(i, AccountState { address: s[i].address, lamports: v }))
            =~= accounts_map(s).insert(s[i].address, v),
{
    let a = s[i].address;
    let s2 = s.update(i, AccountState { address: a, lamports: v });
    assert forall|x: int, y: int| 0 <= x < y < s2.len() implies (#[trigger] s2[x]).address != (
    #[trigger] s2[y]).address by {
        assert(s2[x].address == s[x].address);
        assert(s2[y].address == s[y].address);
    }
    assert forall|b: Address| #[trigger] has_addr(s2, b) == has_addr(s, b) by {
        if has_addr(s2, b) {
            let k = choose|k: int| 0 <= k < s2.len() && (#[trigger] s2[k]).address == b;
            assert(s[k].address == b);
        }
        if has_addr(s, b) {
            let k = choose|k: int| 0 <= k < s.len() && (#[trigger] s[k]).address == b;
            assert(s2[k].address == b);
        }
    }
    assert forall|b: Address| has_addr(s2, b) implies accounts_map(s2)[b] == accounts_map(s).insert(
        a,
        v,
    )[b] by {
        let k = idx_of(s2, b);
        assert(0 <= k < s2.len() && s2[k].address == b);
        lemma_map_at(s2, k);
        if b == a {
            if k != i {
                assert(s2[i].address == a);
                assert(s2[k].address != s2[i].address || k == i);
            }
            assert(k == i);
            assert(accounts_map(s2)[b] == v);
        } else {
            assert(k != i);
            assert(s[k] == s2[k]);
            lemma_map_at(s, k);
        }
    }
}

proof fn lemma_map_push(s: Seq<AccountState>, a: Address, v: u64)
    requires
        wf_accounts(s),
        !has_addr(s, a),
    ensures
        wf_accounts(s.push(AccountState { address: a, lamports: v })),
        accounts_map(s.push(AccountState { address: a, lamports: v })) =~= accounts_map(s).insert(
            a,
            v,
        ),
{
    let s2 = s.push(AccountState { address: a, lamports: v });
    assert forall|x: int, y: int| 0 <= x < y < s2.len() implies (#[trigger] s2[x]).address != (
    #[trigger] s2[y]).address by {
        if y == s.len() {
            assert(s2[x] == s[x]);
            assert(has_addr(s, s[x].address));
        } else {
            assert(s2[x] == s[x] && s2[y] == s[y]);
        }
    }
    assert forall|b: Address| #[trigger] has_addr(s2, b) == (has_addr(s, b) || b == a) by {
        if has_addr(s2, b) {
            let k = choose|k: int| 0 <= k < s2.len() && (#[trigger] s2[k]).address == b;
            if k < s.len() {
                assert(s[k].address == b);
            }
        }
        if has_addr(s, b) {
            let k = choose|k: int| 0 <= k < s.len() && (#[trigger] s[k]).address == b;
            assert(s2[k].address == b);
        }
        assert(s2[s.len() as int].address == a);
    }
    assert forall|b: Address| has_addr(s2, b) implies accounts_map(s2)[b] == accounts_map(s).insert(
        a,
        v,
    )[b] by {
        let k = idx_of(s2, b);
        assert(0 <= k < s2.len() && s2[k].address == b);
        lemma_map_at(s2, k);
        if b == a {
            if k < s.len() {
                assert(s[k].address == a);
                assert(has_addr(s, a));
            }
            assert(accounts_map(s2)[b] == v);
        } else {
            assert(k < s.len());
            assert(s[k] == s2[k]);
            lemma_map_at(s, k);
        }
    }
}

proof fn lemma_map_remove(s: Seq<AccountState>, i: int)
    requires
        wf_accounts(s),
        0 <= i < s.len(),
    ensures
        wf_accounts(s.remove(i)),
        accounts_map(s.remove(i)) =~= accounts_map(s).remove(s[i].address),
{
    let a = s[i].address;
    let s2 = s.remove(i);
    assert forall|x: int, y: int| 0 <= x < y < s2.len() implies (#[trigger] s2[x]).address != (
    #[trigger] s2[y]).address by {
        let x0: int = if x < i { x } else { x + 1 };
        let y0: int = if y < i { y } else { y + 1 };
        assert(s2[x] == s[x0] && s2[y] == s[y0]);
    }
    assert forall|b: Address| #[trigger] has_addr(s2, b) == (has_addr(s, b) && b != a) by {
        if has_addr(s2, b) {
            let k = choose|k: int| 0 <= k < s2.len() && (#[trigger] s2[k]).address == b;
            let k0: int = if k < i { k } else { k + 1 };
            assert(s[k0].address == b);
            assert(k0 != i);
            if b == a {
                if k0 < i {
                    assert(s[k0].address != s[i].address);
                } else {
                    assert(s[i].address != s[k0].address);
                }
            }
        }
        if has_addr(s, b) && b != a {
            let k = choose|k: int| 0 <= k < s.len() && (#[trigger] s[k]).address == b;
            assert(k != i);
            if k < i {
                assert(s2[k] == s[k]);
                assert(s2[k].address == b);
            } else {
                assert(s2[k - 1] == s[k]);
                assert(s2[k - 1].address == b);
            }
        }
    }
    assert forall|b: Address| has_addr(s2, b) implies accounts_map(s2)[b] == accounts_map(s).remove(
        a,
    )[b] by {
        let k = idx_of(s2, b);
        assert(0 <= k < s2.len() && s2[k].address == b);
        lemma_map_at(s2, k);
        let k0: int = if k < i { k } else { k + 1 };
        assert(s2[k] == s[k0]);
        lemma_map_at(s, k0);
    }
}

/// Takes `amount` lamports from the account at `a`: fails when the account
/// is unknown or holds too little.
pub open spec fn spec_debit(m: Map<Address, u64>, a: Address, amount: u64) -> Result<
    Map<Address, u64>,
    TxError,
> {
    if !m.dom().contains(a) {
        Err(TxError::UnknownAccount(a))
    } else if m[a] < amount {
        Err(TxError::InsufficientFunds(a))
    } else {
        Ok(m.insert(a, (m[a] - amount) as u64))
    }
}

/// Gives `amount` lamports to the account at `a`, creating it when absent:
/// fails when the balance would pass `u64::MAX`.
pub open spec fn spec_credit(m: Map<Address, u64>, a: Address, amount: u64) -> Result<
    Map<Address, u64>,
    TxError,
> {
    let prior: u64 = if m.dom().contains(a) {
        m[a]
    } else {
        0u64
    };
    if prior + amount > u64::MAX {
        Err(TxError::BalanceOverflow(a))
    } else {
        Ok(m.insert(a, (prior + amount) as u64))
    }
}

/// Moves `amount` lamports from `from` to `to`: a debit followed by a
/// credit, so a transfer to oneself only checks the balance.
pub open spec fn spec_transfer(
    m: Map<Address, u64>,
    from: Address,
    to: Address,
    amount: u64,
) -> Result<Map<Address, u64>, TxError> {
    match spec_debit(m, from, amount) {
        Ok(m1) => spec_credit(m1, to, amount),
        Err(e) => Err(e),
    }
}

/// Creates `new_account` holding `lamports` taken from `payer`: fails when
/// the address is already in use or the payer cannot fund it.
pub open spec fn spec_create(
    m: Map<Address, u64>,
    payer: Address,
    new_account: Address,
    lamports: u64,
) -> Result<Map<Address, u64>, TxError> {
    if m.dom().contains(new_account) {
        Err(TxError::AccountExists(new_account))
    } else {
        match spec_debit(m, payer, lamports) {
            Ok(m1) => Ok(m1.insert(new_account, lamports)),
            Err(e) => Err(e),
        }
    }
}

/// Removes `account` and moves its whole balance to `destination`: fails
/// when the account is unknown, names itself as recipient, or the credit
/// would overflow.
pub open spec fn spec_close(m: Map<Address, u64>, account: Address, destination: Address) -> Result<
    Map<Address, u64>,
    TxError,
> {
    if account == destination {
        Err(TxError::InvalidClose)
    } else if !m.dom().contains(account) {
        Err(TxError::UnknownAccount(account))
    } else {
        spec_credit(m.remove(account), destination, m[account])
    }
}

/// The balance effect of one instruction.  An instruction whose account
/// list does not fit its operation is rejected; initializing a token
/// account moves no lamports.
pub open spec fn spec_apply(m: Map<Address, u64>, i: Instr) -> Result<Map<Address, u64>, TxError> {
    match i.kind {
        OpKind::Transfer { lamports } => if i.accounts@.len() == 2 {
            spec_transfer(m, i.accounts@[0].address, i.accounts@[1].address, lamports)
        } else {
            Err(TxError::BadInstruction)
        },
        OpKind::CreateAccount { lamports, space, owner } => if i.accounts@.len() == 2 {
            spec_create(m, i.accounts@[0].address, i.accounts@[1].address, lamports)
        } else {
            Err(TxError::BadInstruction)
        },
        OpKind::InitializeTokenAccount { mint } => Ok(m),
        OpKind::CloseTokenAccount => if i.accounts@.len() >= 3 {
            spec_close(m, i.accounts@[0].address, i.accounts@[1].address)
        } else {
            Err(TxError::BadInstruction)
        },
    }
}

/// The balance effect of a list of instructions applied in order, stopping
/// at the first failure.
pub open spec fn spec_apply_seq(m: Map<Address, u64>, instrs: Seq<Instr>) -> Result<
    Map<Address, u64>,
    TxError,
>
    decreases instrs.len(),
{
    if instrs.len() == 0 {
        Ok(m)
    } else {
        match spec_apply(m, instrs[0]) {
            Ok(m1) => spec_apply_seq(m1, instrs.drop_first()),
            Err(e) => Err(e),
        }
    }
}

/// The balance effect of a covered plan: the fee leaves the fee payer,
/// then the instructions run in order; the first failure rejects the whole
/// plan.
pub open spec fn spec_submit_covered(
    m: Map<Address, u64>,
    instrs: Seq<Instr>,
    fee_payer: Address,
    fee: u64,
) -> Result<Map<Address, u64>, TxError> {
    match spec_debit(m, fee_payer, fee) {
        Ok(m1) => spec_apply_seq(m1, instrs),
        Err(e) => Err(e),
    }
}

/// The cluster model: every account the model knows, with unique addresses.
#[derive(Clone, Debug)]
pub struct Ledger {
    accounts: Vec<AccountState>,
}

impl View for Ledger {
    type V = Map<Address, u64>;

    closed spec fn view(&self) -> Map<Address, u64> {
        accounts_map(self.accounts@)
    }
}

impl Ledger {
    /// The internal invariant: account addresses are unique.
    pub closed spec fn wf(&self) -> bool {
        wf_accounts(self.accounts@)
    }

    /// An empty ledger with no accounts.
    pub fn new() -> (l: Ledger)
        ensures
            l.wf(),
            l@ =~= Map::<Address, u64>::empty(),
    {
        let l = Ledger { accounts: Vec::new() };
        proof {
            assert forall|b: Address| !has_addr(l.accounts@, b) by {}
        }
        l
    }

    /// The index of the account at `a`, if the model holds one.
    fn find(&self, a: Address) -> (r: Option<usize>)
        requires
            self.wf(),
        ensures
            (r is Some) <==> self@.dom().contains(a),
            r matches Some(i) ==> {
                &&& 0 <= i < self.accounts@.len()
                &&& self.accounts@[i as int].address == a
                &&& self.accounts@[i as int].lamports == self@[a]
            },
    {
        let mut k: usize = 0;
        while k < self.accounts.len()
            invariant
                self.wf(),
                0 <= k <= self.accounts@.len(),
                forall|m: int| 0 <= m < k ==> (#[trigger] self.accounts@[m]).address != a,
            decreases self.accounts@.len() - k,
        {
            if self.accounts[k].address == a {
                proof {
                    lemma_map_at(self.accounts@, k as int);
                }
                return Some(k);
            }
            k = k + 1;
        }
        proof {
            assert(!has_addr(self.accounts@, a));
        }
        None
    }

    /// The balance at `a`, or `None` when no such account exists.
    pub fn balance(&self, a: Address) -> (r: Option<u64>)
        requires
            self.wf(),
        ensures
            r == (if self@.dom().contains(a) {
                Some(self@[a])
            } else {
                None::<u64>
            }),
    {
        match self.find(a) {
            Some(i) => Some(self.accounts[i].lamports),
            None => None,
        }
    }

    /// Sets the balance at `a`, creating the account when it is absent.
    /// Models funding an account out of band (a faucet or genesis state).
    pub fn fund(&mut self, a: Address, lamports: u64)
        requires
            old(self).wf(),
        ensures
            final(self).wf(),
            final(self)@ =~= old(self)@.insert(a, lamports),
    {
        match self.find(a) {
            Some(i) => {
                proof {
                    lemma_map_update(self.accounts@, i as int, lamports);
                }
                self.accounts[i] = AccountState { address: a, lamports };
            },
            None => {
                proof {
                    lemma_map_push(self.accounts@, a, lamports);
                }
                self.accounts.push(AccountState { address: a, lamports });
            },
        }
    }

    /// Takes `amount` lamports from the account at `a`.
    fn debit(&mut self, a: Address, amount: u64) -> (r: Result<(), TxError>)
        requires
            old(self).wf(),
        ensures
            final(self).wf(),
            match spec_debit(old(self)@, a, amount) {
                Ok(m2) => r is Ok && final(self)@ == m2,
                Err(e) => r == Err::<(), TxError>(e) && *final(self) == *old(self),
            },
    {
        let i = match self.find(a) {
            Some(i) => i,
            None => {
                return Err(TxError::UnknownAccount(a));
            },
        };
        let bal = self.accounts[i].lamports;
        if bal < amount {
            return Err(TxError::InsufficientFunds(a));
        }
        proof {
            lemma_map_update(self.accounts@, i as int, (bal - amount) as u64);
        }
        self.accounts[i] = AccountState { address: a, lamports: bal - amount };
        Ok(())
    }

    /// Gives `amount` lamports to the account at `a`, creating it if absent.
    fn credit(&mut self, a: Address, amount: u64) -> (r: Result<(), TxError>)
        requires
            old(self).wf(),
        ensures
            final(self).wf(),
            match spec_credit(old(self)@, a, amount) {
                Ok(m2) => r is Ok && final(self)@ == m2,
                Err(e) => r == Err::<(), TxError>(e) && *final(self) == *old(self),
            },
    {
        match self.find(a) {
            Some(i) => {
                let bal = self.accounts[i].lamports;
                if bal > u64::MAX - amount {
                    return Err(TxError::BalanceOverflow(a));
                }
                proof {
                    lemma_map_update(self.accounts@, i as int, (bal + amount) as u64);
                }
                self.accounts[i] = AccountState { address: a, lamports: bal + amount };
                Ok(())
            },
            None => {
                proof {
                    lemma_map_push(self.accounts@, a, amount);
                }
                self.accounts.push(AccountState { address: a, lamports: amount });
                Ok(())
            },
        }
    }

    /// Moves `amount` lamports from `from` to `to`, exactly as
    /// [`spec_transfer`] says; the ledger is unchanged on any error.
    pub fn transfer(&mut self, from: Address, to: Address, amount: u64) -> (r: Result<(), TxError>)
        requires
            old(self).wf(),
        ensures
            final(self).wf(),
            match spec_transfer(old(self)@, from, to, amount) {
                Ok(m2) => r is Ok && final(self)@ == m2,
                Err(e) => r == Err::<(), TxError>(e) && *final(self) == *old(self),
            },
    {
        let bal_from = match self.balance(from) {
            Some(b) => b,
            None => {
                return Err(TxError::UnknownAccount(from));
            },
        };
        if bal_from < amount {
            return Err(TxError::InsufficientFunds(from));
        }
        if from != to {
            let prior = match self.balance(to) {
                Some(b) => b,
                None => 0,
            };
            if prior > u64::MAX - amount {
                return Err(TxError::BalanceOverflow(to));
            }
        }
        let r1 = self.debit(from, amount);
        proof {
            assert(r1 is Ok);
        }
        let r2 = self.credit(to, amount);
        proof {
            assert(r2 is Ok);
        }
        Ok(())
    }

    /// Creates `new_account` with `lamports` taken from `payer`, exactly as
    /// [`spec_create`] says; the ledger is unchanged on any error.
    pub fn create_account(
        &mut self,
        payer: Address,
        new_account: Address,
        lamports: u64,
    ) -> (r: Result<(), TxError>)
        requires
            old(self).wf(),
        ensures
            final(self).wf(),
            match spec_create(old(self)@, payer, new_account, lamports) {
                Ok(m2) => r is Ok && final(self)@ == m2,
                Err(e) => r == Err::<(), TxError>(e) && *final(self) == *old(self),
            },
    {
        match self.find(new_account) {
            Some(_) => {
                return Err(TxError::AccountExists(new_account));
            },
            None => {},
        }
        let r1 = self.debit(payer, lamports);
        match r1 {
            Err(e) => Err(e),
            Ok(_) => {
                proof {
                    assert(old(self)@.dom().contains(payer));
                    assert(!self@.dom().contains(new_account));
                    assert(!has_addr(self.accounts@, new_account));
                    lemma_map_push(self.accounts@, new_account, lamports);
                }
                self.accounts.push(AccountState { address: new_account, lamports });
                Ok(())
            },
        }
    }

    /// Closes `account`, moving its whole balance to `destination`, exactly
    /// as [`spec_close`] says; the ledger is unchanged on any error.
    pub fn close_account(&mut self, account: Address, destination: Address) -> (r: Result<
        (),
        TxError,
    >)
        requires
            old(self).wf(),
        ensures
            final(self).wf(),
            match spec_close(old(self)@, account, destination) {
                Ok(m2) => r is Ok && final(self)@ == m2,
                Err(e) => r == Err::<(), TxError>(e) && *final(self) == *old(self),
            },
    {
        if account == destination {
            return Err(TxError::InvalidClose);
        }
        let i = match self.find(account) {
            Some(i) => i,
            None => {
                return Err(TxError::UnknownAccount(account));
            },
        };
        let bal = self.accounts[i].lamports;
        let prior = match self.balance(destination) {
            Some(b) => b,
            None => 0,
        };
        if prior > u64::MAX - bal {
            return Err(TxError::BalanceOverflow(destination));
        }
        proof {
            lemma_map_remove(self.accounts@, i as int);
        }
        self.accounts.remove(i);
        let r2 = self.credit(destination, bal);
        proof {
            assert(r2 is Ok);
        }
        Ok(())
    }

    /// Applies one instruction, exactly as [`spec_apply`] says; the ledger
    /// is unchanged on any error.
    pub fn apply_instr(&mut self, i: &Instr) -> (r: Result<(), TxError>)
        requires
            old(self).wf(),
        ensures
            final(self).wf(),
            match spec_apply(old(self)@, *i) {
                Ok(m2) => r is Ok && final(self)@ == m2,
                Err(e) => r == Err::<(), TxError>(e) && *final(self) == *old(self),
            },
    {
        match i.kind {
            OpKind::Transfer { lamports } => {
                if i.accounts.len() != 2 {
                    Err(TxError::BadInstruction)
                } else {
                    self.transfer(i.accounts[0].address, i.accounts[1].address, lamports)
                }
            },
            OpKind::CreateAccount { lamports, space: _, owner: _ } => {
                if i.accounts.len() != 2 {
                    Err(TxError::BadInstruction)
                } else {
                    self.create_account(i.accounts[0].address, i.accounts[1].address, lamports)
                }
            },
            OpKind::InitializeTokenAccount { mint: _ } => Ok(()),
            OpKind::CloseTokenAccount => {
                if i.accounts.len() < 3 {
                    Err(TxError::BadInstruction)
                } else {
                    self.close_account(i.accounts[0].address, i.accounts[1].address)
                }
            },
        }
    }

    /// A copy of the ledger, used to keep submission atomic.
    fn duplicate(&self) -> (l: Ledger)
        requires
            self.wf(),
        ensures
            l.wf(),
            l@ == self@,
    {
        let mut accounts: Vec<AccountState> = Vec::new();
        let mut k: usize = 0;
        while k < self.accounts.len()
            invariant
                0 <= k <= self.accounts@.len(),
                accounts@ =~= self.accounts@.subrange(0, k as int),
            decreases self.accounts@.len() - k,
        {
            accounts.push(self.accounts[k]);
            k = k + 1;
        }
        proof {
            assert(accounts@ =~= self.accounts@);
        }
        Ledger { accounts }
    }

    /// Submits a plan: rejected whole with the first missing signer when
    /// the signer set does not cover what the instructions require;
    /// otherwise the fee (`lamports_per_signature` for each signer) leaves
    /// the fee payer and the instructions run in order.  A plan is applied
    /// atomically: on any error the ledger is unchanged.
    pub fn submit(&mut self, plan: &Plan, lamports_per_signature: u64) -> (r: Result<
        (),
        SubmitError,
    >)
        requires
            old(self).wf(),
            plan.signers@.len() * lamports_per_signature <= u64::MAX,
        ensures
            final(self).wf(),
            (r is Err) ==> *final(self) == *old(self),
            r matches Err(SubmitError::MissingSigner(a)) ==> !plan.signers@.contains(a),
            !covers(plan.instructions@, plan.fee_payer, plan.signers@) <==> (r matches Err(
                SubmitError::MissingSigner(_),
            )),
            covers(plan.instructions@, plan.fee_payer, plan.signers@) ==> match spec_submit_covered(
                old(self)@,
                plan.instructions@,
                plan.fee_payer,
                (plan.signers@.len() * lamports_per_signature) as u64,
            ) {
                Ok(m2) => r is Ok && final(self)@ == m2,
                Err(e) => r == Err::<(), SubmitError>(SubmitError::Failed(e)),
            },
    {
        match find_missing_signer(&plan.instructions, plan.fee_payer, &plan.signers) {
            Some(a) => {
                return Err(SubmitError::MissingSigner(a));
            },
            None => {},
        }
        let fee = (plan.signers.len() as u64) * lamports_per_signature;
        let mut scratch = self.duplicate();
        match scratch.debit(plan.fee_payer, fee) {
            Err(e) => {
                return Err(SubmitError::Failed(e));
            },
            Ok(_) => {},
        }
        let ghost m1 = scratch@;
        proof {
            assert(plan.instructions@.skip(0) =~= plan.instructions@);
        }
        let mut k: usize = 0;
        while k < plan.instructions.len()
            invariant
                scratch.wf(),
                self.wf(),
                0 <= k <= plan.instructions@.len(),
                *self == *old(self),
                covers(plan.instructions@, plan.fee_payer, plan.signers@),
                spec_submit_covered(
                    old(self)@,
                    plan.instructions@,
                    plan.fee_payer,
                    (plan.signers@.len() * lamports_per_signature) as u64,
                ) == spec_apply_seq(m1, plan.instructions@),
                spec_apply_seq(scratch@, plan.instructions@.skip(k as int)) == spec_apply_seq(
                    m1,
                    plan.instructions@,
                ),
            decreases plan.instructions@.len() - k,
        {
            proof {
                assert(plan.instructions@.skip(k as int).len() > 0);
                assert(plan.instructions@.skip(k as int)[0] == plan.instructions@[k as int]);
                assert(plan.instructions@.skip(k as int).drop_first() =~= plan.instructions@.skip(
                    k as int + 1,
                ));
            }
            match scratch.apply_instr(&plan.instructions[k]) {
                Err(e) => {
                    return Err(SubmitError::Failed(e));
                },
                Ok(_) => {},
            }
            k = k + 1;
        }
        proof {
            assert(plan.instructions@.skip(plan.instructions@.len() as int) =~= Seq::<
                Instr,
            >::empty());
        }
        *self = scratch;
        Ok(())
    }
}

} // verus!
