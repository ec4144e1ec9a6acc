use vstd::prelude::*;

verus! {

/// Why a call, or a whole block, was refused.
#[derive(Debug, Clone, Copy, PartialEq, Eq, Structural)]
pub enum Error {
    InsufficientBalance,
    Overflow,
    AlreadyClaimed,
    NoSuchClaim,
    NotOwner,
    InvalidBlockNumber,
}

impl Error {
    /// A human-readable description of the error.
    pub fn message(&self) -> (r: &'static str)
        ensures
            *self == Error::InsufficientBalance ==> r@ == "Insufficient balance"@,
            *self == Error::Overflow ==> r@ == "Overflow"@,
            *self == Error::AlreadyClaimed ==> r@ == "This content is already claimed"@,
            *self == Error::NoSuchClaim ==> r@ == "Claim does not exist"@,
            *self == Error::NotOwner ==> r@ == "You are not the owner of this claim"@,
            *self == Error::InvalidBlockNumber ==> r@ == "Invalid block number"@,
    {
        match self {
            Error::InsufficientBalance => "Insufficient balance",
            Error::Overflow => "Overflow",
            Error::AlreadyClaimed => "This content is already claimed",
            Error::NoSuchClaim => "Claim does not exist",
            Error::NotOwner => "You are not the owner of this claim",
            Error::InvalidBlockNumber => "Invalid block number",
        }
    }
}

/// The outcome of dispatching one call.
pub type DispatchResult = Result<(), Error>;

/// A state module, or the runtime, that carries out calls on behalf of a caller.
pub trait Dispatch: Sized {
    /// Who makes the call.
    type Caller;

    /// The calls that this dispatcher accepts.
    type Call;

    /// The invariant that each dispatch keeps.
    spec fn ready(&self) -> bool;

    /// Dispatching `call` for `caller` from `before` may end in `after`, returning `r`.
    spec fn dispatched(
        before: &Self,
        after: &Self,
        caller: Self::Caller,
        call: Self::Call,
        r: DispatchResult,
    ) -> bool;

    /// Carries out `call` on behalf of `caller`, returning its error unchanged.
    fn dispatch(&mut self, caller: Self::Caller, call: Self::Call) -> (r: DispatchResult)
        requires
            old(self).ready(),
        ensures
            final(self).ready(),
            Self::dispatched(old(self), final(self), caller, call, r),
    ;
}

} // verus!
