use vstd::prelude::*;

verus! {

/// A failure surfaced by dispatching an operation or by block validation.
///
/// `InsufficientFunds` and `Overflow` are extrinsic-level and recoverable:
/// block execution records them and moves on.  `BlockNumberMismatch` is
/// block-level and fatal: it aborts execution of the whole block.
#[derive(Clone, Copy, Debug, PartialEq, Eq, Structural)]
pub enum DispatchError {
    InsufficientFunds,
    Overflow,
    BlockNumberMismatch,
}

/// The outcome every dispatchable operation reports.
pub type DispatchResult = Result<(), DispatchError>;

/// A block header: only the number of the block it belongs to.
pub struct Header<N> {
    pub block_number: N,
}

/// One externally submitted instruction: a caller identity plus a call value.
pub struct Extrinsic<Caller, Call> {
    pub caller: Caller,
    pub call: Call,
}

/// An ordered batch of extrinsics under one header.  Order is significant:
/// extrinsics apply in sequence, left to right.
pub struct Block<H, E> {
    pub header: H,
    pub extrinsics: Vec<E>,
}

/// The routing capability.  Every state module dispatches over its own call
/// type; the runtime dispatches over the aggregated call type and forwards
/// each call to the module that owns it.
///
/// `dispatch_spec` is the meaning of one dispatch: each implementer relates
/// the state before the call, the state after it, and the reported result.
pub trait Dispatch: Sized {
    type Caller;
    type Call;

    /// Well-formedness of the dispatching state, established by its
    /// constructor and preserved by every dispatch.
    spec fn wf(&self) -> bool;

    /// What one dispatch does to the state, and which result it reports.
    spec fn dispatch_spec(
        pre: Self,
        post: Self,
        caller: Self::Caller,
        call: Self::Call,
        r: DispatchResult,
    ) -> bool;

    /// Apply `call` on behalf of `caller`.
    fn dispatch(&mut self, caller: Self::Caller, call: Self::Call) -> (r: DispatchResult)
        requires
            old(self).wf(),
        ensures
            final(self).wf(),
            Self::dispatch_spec(*old(self), *final(self), caller, call, r),
    ;
}

} // verus!
