use vstd::prelude::*;

use crate::store::Store;
use crate::support::{Dispatch, DispatchResult, Error};

verus! {

/// What `create_claim` does to the registry, and what it returns.
pub open spec fn create_outcome(
    m: Map<Seq<char>, String>,
    claim: Seq<char>,
    caller: String,
) -> (Map<Seq<char>, String>, DispatchResult) {
    if m.contains_key(claim) {
        (m, Err(Error::AlreadyClaimed))
    } else {
        (m.insert(claim, caller), Ok(()))
    }
}

/// What `revoke_claim` does to the registry, and what it returns.
pub open spec fn revoke_outcome(
    m: Map<Seq<char>, String>,
    claim: Seq<char>,
    caller: Seq<char>,
) -> (Map<Seq<char>, String>, DispatchResult) {
    if !m.contains_key(claim) {
        (m, Err(Error::NoSuchClaim))
    } else if m[claim]@ != caller {
        (m, Err(Error::NotOwner))
    } else {
        (m.remove(claim), Ok(()))
    }
}

/// The calls that the claims module accepts.
#[derive(Debug, Clone)]
pub enum Call {
    CreateClaim { claim: String },
    RevokeClaim { claim: String },
}

/// The owner of each claimed content.
pub struct Pallet {
    claims: Store<String>,
}

impl View for Pallet {
    type V = Map<Seq<char>, String>;

    closed spec fn view(&self) -> Map<Seq<char>, String> {
        self.claims@
    }
}

impl Pallet {
    pub closed spec fn wf(&self) -> bool {
        self.claims.wf()
    }

    pub fn new() -> (r: Self)
        ensures
            r.wf(),
            r@ == Map::<Seq<char>, String>::empty(),
    {
        Pallet { claims: Store::new() }
    }

    pub fn get_claim(&self, claim: &String) -> (r: Option<&String>)
        requires
            self.wf(),
        ensures
            match r {
                Some(owner) => self@.contains_key(claim@) && *owner == self@[claim@],
                None => !self@.contains_key(claim@),
            },
    {
        self.claims.get(claim)
    }

    pub fn create_claim(&mut self, claim: String, caller: String) -> (r: DispatchResult)
        requires
            old(self).wf(),
        ensures
            final(self).wf(),
            final(self)@ == create_outcome(old(self)@, claim@, caller).0,
            r == create_outcome(old(self)@, claim@, caller).1,
    {
        if self.claims.contains_key(&claim) {
            return Err(Error::AlreadyClaimed);
        }
        self.claims.insert(claim, caller);
        Ok(())
    }

    pub fn revoke_claim(&mut self, claim: String, caller: String) -> (r: DispatchResult)
        requires
            old(self).wf(),
        ensures
            final(self).wf(),
            final(self)@ == revoke_outcome(old(self)@, claim@, caller@).0,
            r == revoke_outcome(old(self)@, claim@, caller@).1,
    {
        let is_owner = match self.claims.get(&claim) {
            Some(owner) => *owner == caller,
            None => {
                return Err(Error::NoSuchClaim);
            },
        };
        if !is_owner {
            return Err(Error::NotOwner);
        }
        self.claims.remove(&claim);
        Ok(())
    }
}

impl Dispatch for Pallet {
    type Caller = String;

    type Call = Call;

    open spec fn ready(&self) -> bool {
        self.wf()
    }

    open spec fn dispatched(
        before: &Pallet,
        after: &Pallet,
        caller: String,
        call: Call,
        r: DispatchResult,
    ) -> bool {
        match call {
            Call::CreateClaim { claim } => {
                &&& after@ == create_outcome(before@, claim@, caller).0
                &&& r == create_outcome(before@, claim@, caller).1
            },
            Call::RevokeClaim { claim } => {
                &&& after@ == revoke_outcome(before@, claim@, caller@).0
                &&& r == revoke_outcome(before@, claim@, caller@).1
            },
        }
    }

    /// Routes a call of this module, on behalf of `caller`.
    fn dispatch(&mut self, caller: String, call: Call) -> (r: DispatchResult) {
        match call {
            Call::CreateClaim { claim } => self.create_claim(claim, caller),
            Call::RevokeClaim { claim } => self.revoke_claim(claim, caller),
        }
    }
}

/// Claiming content that is already claimed fails with `AlreadyClaimed`,
/// and the content keeps its owner.
pub proof fn second_claim_keeps_owner(m: Map<Seq<char>, String>, claim: Seq<char>, caller: String)
    requires
        m.contains_key(claim),
    ensures
        create_outcome(m, claim, caller).1 == Err::<(), Error>(Error::AlreadyClaimed),
        create_outcome(m, claim, caller).0.contains_key(claim),
        create_outcome(m, claim, caller).0[claim] == m[claim],
{
}

/// Revoking a claim that another account owns fails with `NotOwner`,
/// and the claim stays, with its owner.
pub proof fn foreign_revoke_keeps_claim(m: Map<Seq<char>, String>, claim: Seq<char>, caller: Seq<char>)
    requires
        m.contains_key(claim),
        m[claim]@ != caller,
    ensures
        revoke_outcome(m, claim, caller).1 == Err::<(), Error>(Error::NotOwner),
        revoke_outcome(m, claim, caller).0.contains_key(claim),
        revoke_outcome(m, claim, caller).0[claim] == m[claim],
{
}

} // verus!
