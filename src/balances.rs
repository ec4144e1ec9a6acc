use vstd::prelude::*;

use crate::store::Store;
use crate::support::{Dispatch, DispatchResult, Error};

verus! {

/// The balance held by `who`, zero for an account never written.
pub open spec fn balance_of(m: Map<Seq<char>, u128>, who: Seq<char>) -> u128 {
    if m.contains_key(who) {
        m[who]
    } else {
        0
    }
}

/// What `transfer` does to the balances, and what it returns.
///
/// Both checks run against the balances read before the transfer; a transfer to
/// oneself that passes them leaves the balances as they were.
pub open spec fn transfer_outcome(
    m: Map<Seq<char>, u128>,
    caller: Seq<char>,
    to: Seq<char>,
    amount: u128,
) -> (Map<Seq<char>, u128>, DispatchResult) {
    let caller_balance = balance_of(m, caller);
    let to_balance = balance_of(m, to);
    if caller_balance < amount {
        (m, Err(Error::InsufficientBalance))
    } else if to_balance + amount > u128::MAX {
        (m, Err(Error::Overflow))
    } else if caller == to {
        (m, Ok(()))
    } else {
        (
            m.insert(caller, (caller_balance - amount) as u128).insert(
                to,
                (to_balance + amount) as u128,
            ),
            Ok(()),
        )
    }
}

/// Relies on num's `CheckedSub` for `u128`, which forwards to `u128::checked_sub`:
/// the difference when it is not negative, `None` otherwise.
#[verifier::external_body]
fn checked_sub(a: u128, b: u128) -> (r: Option<u128>)
    ensures
        r == (if a >= b {
            Some((a - b) as u128)
        } else {
            None
        }),
{
    num::CheckedSub::checked_sub(&a, &b)
}

/// Relies on num's `CheckedAdd` for `u128`, which forwards to `u128::checked_add`:
/// the sum when it fits, `None` otherwise.
#[verifier::external_body]
fn checked_add(a: u128, b: u128) -> (r: Option<u128>)
    ensures
        r == (if a + b <= u128::MAX {
            Some((a + b) as u128)
        } else {
            None
        }),
{
    num::CheckedAdd::checked_add(&a, &b)
}

/// The calls that the balances module accepts.
#[derive(Debug, Clone)]
pub enum Call {
    Transfer { to: String, amount: u128 },
}

/// The balance of each account.
pub struct Pallet {
    balances: Store<u128>,
}

impl View for Pallet {
    type V = Map<Seq<char>, u128>;

    closed spec fn view(&self) -> Map<Seq<char>, u128> {
        self.balances@
    }
}

impl Pallet {
    pub closed spec fn wf(&self) -> bool {
        self.balances.wf()
    }

    pub fn new() -> (r: Self)
        ensures
            r.wf(),
            r@ == Map::<Seq<char>, u128>::empty(),
    {
        Pallet { balances: Store::new() }
    }

    /// Overwrites the balance of `who`; reachable only from outside dispatch.
    pub fn set_balance(&mut self, who: &String, amount: u128)
        requires
            old(self).wf(),
        ensures
            final(self).wf(),
            final(self)@ == old(self)@.insert(who@, amount),
    {
        self.balances.insert(who.clone(), amount);
    }

    pub fn balance(&self, who: &String) -> (r: u128)
        requires
            self.wf(),
        ensures
            r == balance_of(self@, who@),
    {
        match self.balances.get(who) {
            Some(amount) => *amount,
            None => 0,
        }
    }

    /// Moves `amount` from `caller` to `to`, or changes nothing and says why not.
    pub fn transfer(&mut self, caller: String, to: String, amount: u128) -> (r: DispatchResult)
        requires
            old(self).wf(),
        ensures
            final(self).wf(),
            final(self)@ == transfer_outcome(old(self)@, caller@, to@, amount).0,
            r == transfer_outcome(old(self)@, caller@, to@, amount).1,
    {
        let caller_balance: u128 = self.balance(&caller);
        let to_balance: u128 = self.balance(&to);
        let new_caller_balance: u128 = match checked_sub(caller_balance, amount) {
            Some(b) => b,
            None => {
                return Err(Error::InsufficientBalance);
            },
        };
        let new_to_balance: u128 = match checked_add(to_balance, amount) {
            Some(b) => b,
            None => {
                return Err(Error::Overflow);
            },
        };
        if caller == to {
            return Ok(());
        }
        self.balances.insert(caller, new_caller_balance);
        self.balances.insert(to, new_to_balance);
        Ok(())
    }
}

impl Dispatch for Pallet {
    type Caller = String;

    type Call = Call;

    open spec fn ready(&self) -> bool {
        self.wf()
    }

    open spec fn dispatched(
        before: &Pallet,
        after: &Pallet,
        caller: String,
        call: Call,
        r: DispatchResult,
    ) -> bool {
        match call {
            Call::Transfer { to, amount } => {
                &&& after@ == transfer_outcome(before@, caller@, to@, amount).0
                &&& r == transfer_outcome(before@, caller@, to@, amount).1
            },
        }
    }

    /// Routes a call of this module, on behalf of `caller`.
    fn dispatch(&mut self, caller: String, call: Call) -> (r: DispatchResult) {
        match call {
            Call::Transfer { to, amount } => self.transfer(caller, to, amount),
        }
    }
}

/// A module that was just made holds nothing: every account's balance is zero.
pub proof fn new_balances_are_zero(p: Pallet, who: Seq<char>)
    requires
        p@ == Map::<Seq<char>, u128>::empty(),
    ensures
        balance_of(p@, who) == 0,
{
}

/// A transfer that names neither side as `who` leaves the balance of `who` as it was.
pub proof fn transfer_keeps_bystanders(
    m: Map<Seq<char>, u128>,
    caller: Seq<char>,
    to: Seq<char>,
    amount: u128,
    who: Seq<char>,
)
    requires
        who != caller,
        who != to,
    ensures
        balance_of(transfer_outcome(m, caller, to, amount).0, who) == balance_of(m, who),
{
}

/// A transfer to oneself of no more than one holds leaves one's balance unchanged.
pub proof fn self_transfer_keeps_balance(m: Map<Seq<char>, u128>, who: Seq<char>, amount: u128)
    requires
        amount <= balance_of(m, who),
    ensures
        balance_of(transfer_outcome(m, who, who, amount).0, who) == balance_of(m, who),
{
}

/// A transfer of more than the sender holds fails with `InsufficientBalance`
/// and leaves every balance as it was.
pub proof fn overdraft_changes_nothing(
    m: Map<Seq<char>, u128>,
    caller: Seq<char>,
    to: Seq<char>,
    amount: u128,
)
    requires
        amount > balance_of(m, caller),
    ensures
        transfer_outcome(m, caller, to, amount).1 == Err::<(), Error>(Error::InsufficientBalance),
        transfer_outcome(m, caller, to, amount).0 == m,
{
}

/// The sum of the balances of the accounts listed in `accounts`.
pub open spec fn total_balance(m: Map<Seq<char>, u128>, accounts: Seq<Seq<char>>) -> int
    decreases accounts.len(),
{
    if accounts.len() == 0 {
        0
    } else {
        total_balance(m, accounts.drop_last()) + balance_of(m, accounts.last())
    }
}

/// The balances after the transfers `(caller, to, amount)`, in order.
pub open spec fn apply_transfers(
    m: Map<Seq<char>, u128>,
    transfers: Seq<(Seq<char>, Seq<char>, u128)>,
) -> Map<Seq<char>, u128>
    decreases transfers.len(),
{
    if transfers.len() == 0 {
        m
    } else {
        let (caller, to, amount) = transfers.last();
        transfer_outcome(apply_transfers(m, transfers.drop_last()), caller, to, amount).0
    }
}

proof fn lemma_total_insert(m: Map<Seq<char>, u128>, accounts: Seq<Seq<char>>, k: Seq<char>, v: u128)
    requires
        accounts.no_duplicates(),
    ensures
        total_balance(m.insert(k, v), accounts) == total_balance(m, accounts) + (if accounts.contains(
            k,
        ) {
            v - balance_of(m, k)
        } else {
            0
        }),
    decreases accounts.len(),
{
    if accounts.len() > 0 {
        let rest = accounts.drop_last();
        assert(rest.no_duplicates());
        lemma_total_insert(m, rest, k, v);
        if accounts.last() == k {
            assert(accounts[accounts.len() - 1] == k);
            assert(!rest.contains(k));
        } else {
            if accounts.contains(k) {
                let j = choose|j: int| 0 <= j < accounts.len() && accounts[j] == k;
                assert(rest[j] == k);
            }
            if rest.contains(k) {
                let j = choose|j: int| 0 <= j < rest.len() && rest[j] == k;
                assert(accounts[j] == k);
            }
        }
    }
}

/// A single transfer between listed accounts, successful or not, keeps the sum of
/// the balances of the listed accounts.
pub proof fn transfer_keeps_total(
    m: Map<Seq<char>, u128>,
    accounts: Seq<Seq<char>>,
    caller: Seq<char>,
    to: Seq<char>,
    amount: u128,
)
    requires
        accounts.no_duplicates(),
        accounts.contains(caller),
        accounts.contains(to),
    ensures
        total_balance(transfer_outcome(m, caller, to, amount).0, accounts) == total_balance(
            m,
            accounts,
        ),
{
    let cb = balance_of(m, caller);
    let tb = balance_of(m, to);
    if cb >= amount && tb + amount <= u128::MAX && caller != to {
        let m1 = m.insert(caller, (cb - amount) as u128);
        lemma_total_insert(m, accounts, caller, (cb - amount) as u128);
        lemma_total_insert(m1, accounts, to, (tb + amount) as u128);
        assert(balance_of(m1, to) == tb);
    }
}

/// Transfers neither make nor destroy value: over a list of every account, the sum of
/// the balances is the same after any run of transfers as before it.
pub proof fn transfers_conserve_total(
    m: Map<Seq<char>, u128>,
    accounts: Seq<Seq<char>>,
    transfers: Seq<(Seq<char>, Seq<char>, u128)>,
)
    requires
        accounts.no_duplicates(),
        m.dom().subset_of(accounts.to_set()),
        forall|i: int|
            0 <= i < transfers.len() ==> {
                &&& accounts.contains(#[trigger] transfers[i].0)
                &&& accounts.contains(transfers[i].1)
            },
    ensures
        total_balance(apply_transfers(m, transfers), accounts) == total_balance(m, accounts),
    decreases transfers.len(),
{
    if transfers.len() > 0 {
        let rest = transfers.drop_last();
        assert forall|i: int| 0 <= i < rest.len() implies {
            &&& accounts.contains(#[trigger] rest[i].0)
            &&& accounts.contains(rest[i].1)
        } by {
            assert(rest[i] == transfers[i]);
        }
        transfers_conserve_total(m, accounts, rest);
        let last = transfers[transfers.len() - 1];
        transfer_keeps_total(apply_transfers(m, rest), accounts, last.0, last.1, last.2);
    }
}

/// One change to the balances: a direct write, or a transfer.
pub enum BalanceOp {
    SetBalance { who: Seq<char>, amount: u128 },
    Transfer { caller: Seq<char>, to: Seq<char>, amount: u128 },
}

/// The balances after one operation.
pub open spec fn apply_op(m: Map<Seq<char>, u128>, op: BalanceOp) -> Map<Seq<char>, u128> {
    match op {
        BalanceOp::SetBalance { who, amount } => m.insert(who, amount),
        BalanceOp::Transfer { caller, to, amount } => transfer_outcome(m, caller, to, amount).0,
    }
}

/// The balances after the operations, in order.
pub open spec fn apply_ops(m: Map<Seq<char>, u128>, ops: Seq<BalanceOp>) -> Map<Seq<char>, u128>
    decreases ops.len(),
{
    if ops.len() == 0 {
        m
    } else {
        apply_op(apply_ops(m, ops.drop_last()), ops.last())
    }
}

/// Whether `op`, applied to `m`, writes the balance of `who`: a direct write to it,
/// or a transfer from or to it that succeeds.
pub open spec fn touches(m: Map<Seq<char>, u128>, op: BalanceOp, who: Seq<char>) -> bool {
    match op {
        BalanceOp::SetBalance { who: w, amount } => w == who,
        BalanceOp::Transfer { caller, to, amount } => (caller == who || to == who)
            && transfer_outcome(m, caller, to, amount).1 is Ok,
    }
}

/// Starting from a new module, the balance of an account stays zero until a direct
/// write or a successful transfer touches it, whatever happens to other accounts.
pub proof fn untouched_balance_stays_zero(ops: Seq<BalanceOp>, who: Seq<char>)
    requires
        forall|i: int|
            0 <= i < ops.len() ==> !touches(
                apply_ops(Map::empty(), ops.subrange(0, i)),
                #[trigger] ops[i],
                who,
            ),
    ensures
        balance_of(apply_ops(Map::empty(), ops), who) == 0,
    decreases ops.len(),
{
    if ops.len() > 0 {
        let rest = ops.drop_last();
        assert forall|i: int| 0 <= i < rest.len() implies !touches(
            apply_ops(Map::empty(), rest.subrange(0, i)),
            #[trigger] rest[i],
            who,
        ) by {
            assert(rest.subrange(0, i) =~= ops.subrange(0, i));
            assert(rest[i] == ops[i]);
        }
        untouched_balance_stays_zero(rest, who);
        let last = ops.len() - 1;
        assert(ops.subrange(0, last) =~= rest);
        assert(!touches(apply_ops(Map::empty(), rest), ops[last], who));
    }
}

} // verus!
