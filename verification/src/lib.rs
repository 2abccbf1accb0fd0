//! A minimal deterministic state-transition runtime: independent state
//! modules (a ledger of balances and the chain's bookkeeping of block number
//! and per-account nonces) composed into one runtime that applies blocks of
//! ordered extrinsics to that state.
//!
//! Block validation is fatal: a header carrying the wrong block number
//! aborts the whole block.  Extrinsic failure is local: a failed dispatch
//! never rolls back other extrinsics and never fails the block.

use vstd::prelude::*;

pub mod balances;
pub mod storage;
pub mod support;
pub mod system;

use crate::support::{Dispatch, DispatchError, DispatchResult};
use crate::system::saturating_inc;

verus! {

/// The account identifier every module is keyed by.
pub type AccountId = String;

/// The numeric type backing balances.
pub type Balance = u128;

/// The numeric type backing per-account nonces.
pub type Nonce = u32;

/// The numeric type backing block numbers.
pub type BlockNumber = u32;

/// A block header for this runtime.
pub type Header = support::Header<BlockNumber>;

/// An extrinsic addressed to this runtime.
pub type Extrinsic = support::Extrinsic<AccountId, RuntimeCall>;

/// A block of extrinsics addressed to this runtime.
pub type Block = support::Block<Header, Extrinsic>;

/// The aggregated call type: one variant per module, each wrapping that
/// module's own call type.  The runtime's dispatch matches on the variant
/// and forwards to the owning module.
pub enum RuntimeCall {
    Balances(balances::Call),
}

/// The composed runtime: the chain's bookkeeping plus the ledger.
#[derive(Debug)]
pub struct Runtime {
    pub system: system::Pallet,
    pub balances: balances::Pallet,
}

/// The ledger read as a total function from account to balance.
pub open spec fn ledger_of(p: balances::Pallet) -> spec_fn(Seq<char>) -> u128 {
    |q: Seq<char>| p.balance_of(q)
}

/// The nonce table read as a total function from account to nonce.
pub open spec fn nonces_of(p: system::Pallet) -> spec_fn(Seq<char>) -> u32 {
    |q: Seq<char>| p.nonce_of(q)
}

/// One nonce bump at the model level.
pub open spec fn bump_nonce(
    nn: spec_fn(Seq<char>) -> u32,
    who: Seq<char>,
) -> spec_fn(Seq<char>) -> u32 {
    |q: Seq<char>|
        if q == who {
            saturating_inc(nn(who))
        } else {
            nn(q)
        }
}

/// One transfer at the model level: the ledger after moving `amount` from
/// `caller` to `to`, unchanged whenever the transfer fails or is a
/// self-transfer.
pub open spec fn model_transfer(
    b: spec_fn(Seq<char>) -> u128,
    caller: Seq<char>,
    to: Seq<char>,
    amount: u128,
) -> spec_fn(Seq<char>) -> u128 {
    let cb = b(caller);
    let tb = b(to);
    if cb < amount || tb + amount > u128::MAX || caller == to {
        b
    } else {
        |q: Seq<char>|
            if q == caller {
                (cb - amount) as u128
            } else if q == to {
                (tb + amount) as u128
            } else {
                b(q)
            }
    }
}

/// One dispatched call at the model level: the outer match selects the
/// owning module, the inner one the operation.
pub open spec fn model_call(
    b: spec_fn(Seq<char>) -> u128,
    caller: Seq<char>,
    call: RuntimeCall,
) -> spec_fn(Seq<char>) -> u128 {
    match call {
        RuntimeCall::Balances(c) => match c {
            balances::Call::Transfer { to, amount } => model_transfer(b, caller, to@, amount),
        },
    }
}

/// The extrinsics of a block applied in order at the model level: for each
/// one, first the caller's nonce is bumped, then its call is dispatched.
pub open spec fn model_apply(
    b: spec_fn(Seq<char>) -> u128,
    nn: spec_fn(Seq<char>) -> u32,
    xs: Seq<Extrinsic>,
) -> (spec_fn(Seq<char>) -> u128, spec_fn(Seq<char>) -> u32)
    decreases xs.len(),
{
    if xs.len() == 0 {
        (b, nn)
    } else {
        let e = xs[0];
        model_apply(model_call(b, e.caller@, e.call), bump_nonce(nn, e.caller@), xs.drop_first())
    }
}

/// How many of the extrinsics were submitted by `who`.
pub open spec fn count_from(xs: Seq<Extrinsic>, who: Seq<char>) -> int
    decreases xs.len(),
{
    if xs.len() == 0 {
        0
    } else {
        (if xs[0].caller@ == who {
            1int
        } else {
            0int
        }) + count_from(xs.drop_first(), who)
    }
}

/// A transfer moves the ledger exactly as the model does, whatever result
/// it reported.
proof fn lemma_transfer_matches_model(
    pre: balances::Pallet,
    post: balances::Pallet,
    caller: Seq<char>,
    to: Seq<char>,
    amount: u128,
    r: DispatchResult,
)
    requires
        balances::transfer_spec(pre, post, caller, to, amount, r),
    ensures
        ledger_of(post) == model_transfer(ledger_of(pre), caller, to, amount),
{
    let b = ledger_of(pre);
    let cb = pre.balance_of(caller);
    let tb = pre.balance_of(to);
    if cb < amount || tb + amount > u128::MAX || caller == to {
        assert(post == pre);
        assert(model_transfer(b, caller, to, amount) == b);
    } else {
        assert(ledger_of(post) =~= model_transfer(b, caller, to, amount));
    }
}

/// Law: applying extrinsics advances an account's nonce by one for each
/// extrinsic that account submitted, regardless of what each dispatch
/// reported (stated below the point where the nonce type saturates).
pub proof fn lemma_nonce_once_per_extrinsic(
    b: spec_fn(Seq<char>) -> u128,
    nn: spec_fn(Seq<char>) -> u32,
    xs: Seq<Extrinsic>,
    who: Seq<char>,
)
    requires
        nn(who) + count_from(xs, who) <= u32::MAX,
    ensures
        model_apply(b, nn, xs).1(who) == nn(who) + count_from(xs, who),
    decreases xs.len(),
{
    if xs.len() > 0 {
        let e = xs[0];
        let nn1 = bump_nonce(nn, e.caller@);
        let b1 = model_call(b, e.caller@, e.call);
        assert(count_from(xs.drop_first(), who) >= 0) by {
            lemma_count_from_bounds(xs.drop_first(), who);
        }
        lemma_nonce_once_per_extrinsic(b1, nn1, xs.drop_first(), who);
    }
}

/// The number of extrinsics from one account is between zero and the length
/// of the sequence.
pub proof fn lemma_count_from_bounds(xs: Seq<Extrinsic>, who: Seq<char>)
    ensures
        0 <= count_from(xs, who) <= xs.len(),
    decreases xs.len(),
{
    if xs.len() > 0 {
        lemma_count_from_bounds(xs.drop_first(), who);
    }
}

impl Runtime {
    /// Both modules are well formed.
    pub open spec fn well_formed(&self) -> bool {
        self.system.well_formed() && self.balances.well_formed()
    }

    /// A fresh runtime: block number zero, all balances and nonces zero.
    pub fn new() -> (r: Self)
        ensures
            r.well_formed(),
            r.system.spec_block_number() == 0,
            forall|q: Seq<char>| r.balances.balance_of(q) == 0,
            forall|q: Seq<char>| r.system.nonce_of(q) == 0,
            r.balances.total() == 0,
    {
        Runtime { system: system::Pallet::new(), balances: balances::Pallet::new() }
    }

    /// Apply one block.  The block number is advanced first; a header that
    /// does not carry the new number aborts with `BlockNumberMismatch`
    /// (leaving the already advanced block number in place).  Otherwise the
    /// extrinsics apply in order: each bumps its caller's nonce, then is
    /// dispatched; a failed dispatch is isolated and the block still
    /// succeeds.
    pub fn execute_block(&mut self, block: Block) -> (r: DispatchResult)
        requires
            old(self).well_formed(),
        ensures
            final(self).well_formed(),
            ({
                let expected = saturating_inc(old(self).system.spec_block_number());
                let model = model_apply(
                    ledger_of(old(self).balances),
                    nonces_of(old(self).system),
                    block.extrinsics@,
                );
                &&& final(self).system.spec_block_number() == expected
                &&& (r == Ok::<(), DispatchError>(()) <==> block.header.block_number == expected)
                &&& (r == Err::<(), DispatchError>(DispatchError::BlockNumberMismatch)
                    <==> block.header.block_number != expected)
                &&& (r is Err ==> forall|q: Seq<char>|
                    final(self).balances.balance_of(q) == old(self).balances.balance_of(q)
                        && final(self).system.nonce_of(q) == old(self).system.nonce_of(q))
                &&& (r is Ok ==> forall|q: Seq<char>|
                    final(self).balances.balance_of(q) == model.0(q)
                        && final(self).system.nonce_of(q) == model.1(q))
                &&& final(self).balances.total() == old(self).balances.total()
            }),
    {
        let support::Block { header, extrinsics } = block;
        let mut extrinsics = extrinsics;
        self.system.inc_block_number();
        let expected = self.system.block_number();
        if header.block_number != expected {
            return Err(DispatchError::BlockNumberMismatch);
        }
        let ghost xs = extrinsics@;
        let ghost b0 = ledger_of(self.balances);
        let ghost n0 = nonces_of(self.system);
        proof {
            assert(b0 == ledger_of(old(self).balances));
            assert(n0 =~= nonces_of(old(self).system));
            assert(xs.skip(0) =~= xs);
        }
        while extrinsics.len() > 0
            invariant
                self.well_formed(),
                self.system.spec_block_number() == expected,
                self.balances.total() == old(self).balances.total(),
                xs.len() >= extrinsics@.len(),
                extrinsics@ == xs.skip(xs.len() - extrinsics@.len()),
                model_apply(ledger_of(self.balances), nonces_of(self.system), extrinsics@)
                    == model_apply(b0, n0, xs),
            decreases extrinsics@.len(),
        {
            let ghost rem = extrinsics@;
            let ghost bal_pre = self.balances;
            let ghost sys_pre = self.system;
            let e = extrinsics.remove(0);
            let ghost caller_view = e.caller@;
            let ghost call_value = e.call;
            self.system.inc_nonce(&e.caller);
            let ghost mid = *self;
            let _res = self.dispatch(e.caller, e.call);
            proof {
                assert(e == rem[0]);
                assert(extrinsics@ =~= rem.drop_first());
                assert(extrinsics@ =~= xs.skip(xs.len() - extrinsics@.len()));
                let nn1 = bump_nonce(nonces_of(sys_pre), caller_view);
                assert(nonces_of(mid.system) =~= nn1);
                let b1 = model_call(ledger_of(bal_pre), caller_view, call_value);
                assert(mid.balances == bal_pre);
                match call_value {
                    RuntimeCall::Balances(c) => match c {
                        balances::Call::Transfer { to, amount } => {
                            lemma_transfer_matches_model(
                                mid.balances,
                                self.balances,
                                caller_view,
                                to@,
                                amount,
                                _res,
                            );
                        },
                    },
                }
                assert(ledger_of(self.balances) == b1);
                assert(nonces_of(self.system) == nn1);
                assert(model_apply(ledger_of(bal_pre), nonces_of(sys_pre), rem) == model_apply(
                    b1,
                    nn1,
                    rem.drop_first(),
                ));
            }
        }
        proof {
            assert(extrinsics@.len() == 0);
            assert(model_apply(ledger_of(self.balances), nonces_of(self.system), extrinsics@)
                == (ledger_of(self.balances), nonces_of(self.system)));
        }
        Ok(())
    }
}

impl Dispatch for Runtime {
    type Caller = AccountId;
    type Call = RuntimeCall;

    open spec fn wf(&self) -> bool {
        self.well_formed()
    }

    open spec fn dispatch_spec(
        pre: Runtime,
        post: Runtime,
        caller: AccountId,
        call: RuntimeCall,
        r: DispatchResult,
    ) -> bool {
        match call {
            RuntimeCall::Balances(c) => {
                &&& <balances::Pallet as Dispatch>::dispatch_spec(
                    pre.balances,
                    post.balances,
                    caller,
                    c,
                    r,
                )
                &&& post.system == pre.system
            },
        }
    }

    /// Route an aggregated call to the module that owns its variant.
    fn dispatch(&mut self, caller: AccountId, call: RuntimeCall) -> (r: DispatchResult) {
        match call {
            RuntimeCall::Balances(c) => self.balances.dispatch(caller, c),
        }
    }
}

} // verus!
