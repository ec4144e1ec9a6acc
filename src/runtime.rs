use vstd::prelude::*;

use crate::balances;
use crate::balances::{total_balance, transfer_keeps_total, transfer_outcome};
use crate::proof_of_existence;
use crate::proof_of_existence::{create_outcome, revoke_outcome};
use crate::support::{Dispatch, DispatchResult, Error};
use crate::system;
use crate::system::{bump_nonce, next_count, nonce_of};

verus! {

/// Every routable call, tagged by the module that owns it.
#[derive(Debug, Clone)]
pub enum RuntimeCall {
    Balances(balances::Call),
    ProofOfExistence(proof_of_existence::Call),
}

/// One submitted instruction and the account that submitted it.
#[derive(Debug, Clone)]
pub struct Extrinsic {
    pub caller: String,
    pub call: RuntimeCall,
}

#[derive(Debug, Clone, Copy)]
pub struct Header {
    pub block_number: u32,
}

#[derive(Debug, Clone)]
pub struct Block {
    pub header: Header,
    pub extrinsics: Vec<Extrinsic>,
}

/// A refused extrinsic: the block it came in, its place there, and why.
#[derive(Debug, Clone, Copy, PartialEq, Eq, Structural)]
pub struct ExtrinsicFailure {
    pub block_number: u32,
    pub index: usize,
    pub error: Error,
}

/// The whole state of a runtime, as the contracts see it.
pub struct State {
    pub block_number: u32,
    pub nonces: Map<Seq<char>, u32>,
    pub balances: Map<Seq<char>, u128>,
    pub claims: Map<Seq<char>, String>,
}

/// What dispatching `call` on behalf of `caller` does to the state, and what it returns.
pub open spec fn dispatch_outcome(s: State, caller: String, call: RuntimeCall) -> (
    State,
    DispatchResult,
) {
    match call {
        RuntimeCall::Balances(balances::Call::Transfer { to, amount }) => {
            let (m, r) = transfer_outcome(s.balances, caller@, to@, amount);
            (State { balances: m, ..s }, r)
        },
        RuntimeCall::ProofOfExistence(proof_of_existence::Call::CreateClaim { claim }) => {
            let (m, r) = create_outcome(s.claims, claim@, caller);
            (State { claims: m, ..s }, r)
        },
        RuntimeCall::ProofOfExistence(proof_of_existence::Call::RevokeClaim { claim }) => {
            let (m, r) = revoke_outcome(s.claims, claim@, caller@);
            (State { claims: m, ..s }, r)
        },
    }
}

/// One extrinsic: the caller's nonce goes up, then its call is dispatched.
pub open spec fn apply_extrinsic(s: State, e: Extrinsic) -> (State, DispatchResult) {
    dispatch_outcome(State { nonces: bump_nonce(s.nonces, e.caller@), ..s }, e.caller, e.call)
}

/// The state after the extrinsics, in order, whatever each one returned.
pub open spec fn apply_all(s: State, es: Seq<Extrinsic>) -> State
    decreases es.len(),
{
    if es.len() == 0 {
        s
    } else {
        apply_extrinsic(apply_all(s, es.drop_last()), es.last()).0
    }
}

/// The extrinsics among `es` that were refused, in order, with their place and error.
pub open spec fn failures_of(s: State, es: Seq<Extrinsic>, number: u32) -> Seq<ExtrinsicFailure>
    decreases es.len(),
{
    if es.len() == 0 {
        Seq::empty()
    } else {
        let earlier = failures_of(s, es.drop_last(), number);
        match apply_extrinsic(apply_all(s, es.drop_last()), es.last()).1 {
            Ok(_) => earlier,
            Err(e) => earlier.push(
                ExtrinsicFailure { block_number: number, index: (es.len() - 1) as usize, error: e },
            ),
        }
    }
}

/// How many of the extrinsics `who` submitted.
pub open spec fn submissions(es: Seq<Extrinsic>, who: Seq<char>) -> nat
    decreases es.len(),
{
    if es.len() == 0 {
        0
    } else {
        submissions(es.drop_last(), who) + if es.last().caller@ == who {
            1nat
        } else {
            0nat
        }
    }
}

/// Running extrinsics raises each account's nonce by the number it submitted,
/// whether or not their calls succeeded (the counter wraps past its largest value).
pub proof fn nonces_count_submissions(s: State, es: Seq<Extrinsic>, who: Seq<char>)
    ensures
        nonce_of(apply_all(s, es).nonces, who) == (nonce_of(s.nonces, who) + submissions(es, who))
            % 0x1_0000_0000,
    decreases es.len(),
{
    if es.len() > 0 {
        nonces_count_submissions(s, es.drop_last(), who);
        let before = apply_all(s, es.drop_last());
        let e = es.last();
        assert(apply_extrinsic(before, e).0.nonces == bump_nonce(before.nonces, e.caller@));
        let n = nonce_of(s.nonces, who) + submissions(es.drop_last(), who);
        assert(nonce_of(before.nonces, who) == n % 0x1_0000_0000);
        if e.caller@ == who {
            assert((n % 0x1_0000_0000 + 1) % 0x1_0000_0000 == (n + 1) % 0x1_0000_0000) by (nonlinear_arith);
        }
    }
}

/// Whether every account that the extrinsic can move value between is in `accounts`.
pub open spec fn parties_listed(e: Extrinsic, accounts: Seq<Seq<char>>) -> bool {
    match e.call {
        RuntimeCall::Balances(balances::Call::Transfer { to, amount }) => accounts.contains(
            e.caller@,
        ) && accounts.contains(to@),
        RuntimeCall::ProofOfExistence(_) => true,
    }
}

/// No dispatched call makes or destroys value: over a list of every account, running
/// extrinsics, whether they succeed or not, keeps the sum of the balances.
pub proof fn extrinsics_conserve_total(s: State, es: Seq<Extrinsic>, accounts: Seq<Seq<char>>)
    requires
        accounts.no_duplicates(),
        s.balances.dom().subset_of(accounts.to_set()),
        forall|i: int| 0 <= i < es.len() ==> parties_listed(#[trigger] es[i], accounts),
    ensures
        total_balance(apply_all(s, es).balances, accounts) == total_balance(s.balances, accounts),
    decreases es.len(),
{
    if es.len() > 0 {
        let rest = es.drop_last();
        assert forall|i: int| 0 <= i < rest.len() implies parties_listed(
            #[trigger] rest[i],
            accounts,
        ) by {
            assert(rest[i] == es[i]);
        }
        extrinsics_conserve_total(s, rest, accounts);
        let before = apply_all(s, rest);
        let e = es[es.len() - 1];
        assert(parties_listed(e, accounts));
        match e.call {
            RuntimeCall::Balances(balances::Call::Transfer { to, amount }) => {
                transfer_keeps_total(before.balances, accounts, e.caller@, to@, amount);
            },
            RuntimeCall::ProofOfExistence(_) => {},
        }
    }
}

/// One instance of each module.
pub struct Runtime {
    pub system: system::Pallet,
    pub balances: balances::Pallet,
    pub proof_of_existence: proof_of_existence::Pallet,
}

impl Runtime {
    pub open spec fn wf(&self) -> bool {
        &&& self.system.wf()
        &&& self.balances.wf()
        &&& self.proof_of_existence.wf()
    }

    pub open spec fn state(&self) -> State {
        State {
            block_number: self.system.spec_block_number(),
            nonces: self.system.nonces(),
            balances: self.balances@,
            claims: self.proof_of_existence@,
        }
    }

    pub fn new() -> (r: Self)
        ensures
            r.wf(),
            r.state() == (State {
                block_number: 0,
                nonces: Map::empty(),
                balances: Map::empty(),
                claims: Map::empty(),
            }),
    {
        Runtime {
            system: system::Pallet::new(),
            balances: balances::Pallet::new(),
            proof_of_existence: proof_of_existence::Pallet::new(),
        }
    }

    /// Executes a block: the block number goes up, and must then equal the header's;
    /// each extrinsic then runs in order. A refused extrinsic does not stop the block:
    /// it is listed in the result, which is `Err` only for a wrong block number.
    pub fn execute_block(&mut self, block: Block) -> (r: Result<Vec<ExtrinsicFailure>, Error>)
        requires
            old(self).wf(),
        ensures
            final(self).wf(),
            ({
                let started = State {
                    block_number: next_count(old(self).state().block_number),
                    ..old(self).state()
                };
                if block.header.block_number != started.block_number {
                    &&& r == Err::<Vec<ExtrinsicFailure>, Error>(Error::InvalidBlockNumber)
                    &&& final(self).state() == started
                } else {
                    &&& r is Ok
                    &&& r->Ok_0@ == failures_of(started, block.extrinsics@, started.block_number)
                    &&& final(self).state() == apply_all(started, block.extrinsics@)
                }
            }),
    {
        self.system.inc_block_number();
        let number: u32 = self.system.block_number();
        if block.header.block_number != number {
            return Err(Error::InvalidBlockNumber);
        }
        let ghost started = self.state();
        let ghost all = block.extrinsics@;
        let mut pending = block.extrinsics;
        let mut failures: Vec<ExtrinsicFailure> = Vec::new();
        let n: usize = pending.len();
        let mut i: usize = 0;
        while i < n
            invariant
                self.wf(),
                n == all.len(),
                i <= n,
                pending@ == all.subrange(i as int, n as int),
                number == started.block_number,
                self.state() == apply_all(started, all.subrange(0, i as int)),
                failures@ == failures_of(started, all.subrange(0, i as int), number),
            decreases n - i,
        {
            let ext = pending.remove(0);
            assert(ext == all[i as int]);
            let caller = ext.caller;
            self.system.inc_nonce(caller.clone());
            let result = self.dispatch(caller, ext.call);
            proof {
                let done = all.subrange(0, i + 1);
                assert(done.drop_last() =~= all.subrange(0, i as int));
                assert(done.last() == all[i as int]);
            }
            match result {
                Ok(()) => {},
                Err(e) => {
                    failures.push(ExtrinsicFailure { block_number: number, index: i, error: e });
                },
            }
            assert(pending@ =~= all.subrange(i + 1, n as int));
            i = i + 1;
        }
        assert(all.subrange(0, n as int) =~= all);
        Ok(failures)
    }
}

impl Dispatch for Runtime {
    type Caller = String;

    type Call = RuntimeCall;

    open spec fn ready(&self) -> bool {
        self.wf()
    }

    open spec fn dispatched(
        before: &Runtime,
        after: &Runtime,
        caller: String,
        runtime_call: RuntimeCall,
        r: DispatchResult,
    ) -> bool {
        &&& after.state() == dispatch_outcome(before.state(), caller, runtime_call).0
        &&& r == dispatch_outcome(before.state(), caller, runtime_call).1
    }

    /// Routes `runtime_call` to the module that owns it, on behalf of `caller`.
    fn dispatch(&mut self, caller: String, runtime_call: RuntimeCall) -> (r: DispatchResult) {
        match runtime_call {
            RuntimeCall::Balances(call) => self.balances.dispatch(caller, call),
            RuntimeCall::ProofOfExistence(call) => self.proof_of_existence.dispatch(caller, call),
        }
    }
}

} // verus!
