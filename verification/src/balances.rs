use vstd::prelude::*;

use crate::storage::{lemma_lookup_entries, lookup, table_get, table_set, unique_keys};
use crate::support::{Dispatch, DispatchError, DispatchResult};

verus! {

/// The ledger: a mapping from account to balance in which an absent account
/// reads as balance zero.  Balances only ever change through `set_balance`
/// and `transfer`.
#[derive(Debug)]
pub struct Pallet {
    pub balances: Vec<(String, u128)>,
}

/// Sum of every balance stored in the table.
pub open spec fn seq_total(s: Seq<(String, u128)>) -> int
    decreases s.len(),
{
    if s.len() == 0 {
        0
    } else {
        seq_total(s.drop_last()) + s.last().1
    }
}

/// Replacing the entry at `i` moves the total by the difference of the two
/// values held there.
proof fn lemma_seq_total_update(s: Seq<(String, u128)>, t: Seq<(String, u128)>, i: int)
    requires
        0 <= i < s.len(),
        t.len() == s.len(),
        forall|j: int| 0 <= j < s.len() && j != i ==> t[j] == s[j],
    ensures
        seq_total(t) == seq_total(s) - s[i].1 + t[i].1,
    decreases s.len(),
{
    if i == s.len() - 1 {
        assert(t.drop_last() =~= s.drop_last());
    } else {
        assert forall|j: int| 0 <= j < s.len() - 1 && j != i implies t.drop_last()[j]
            == s.drop_last()[j] by {}
        lemma_seq_total_update(s.drop_last(), t.drop_last(), i);
        assert(t.last() == s.last());
        assert(t.drop_last()[i] == t[i] && s.drop_last()[i] == s[i]);
    }
}

/// Appending an entry adds its value to the total.
proof fn lemma_seq_total_push(s: Seq<(String, u128)>, p: (String, u128))
    ensures
        seq_total(s.push(p)) == seq_total(s) + p.1,
{
    assert(s.push(p).drop_last() =~= s);
    assert(s.push(p).last() == p);
}

/// What one write does: `who` now reads `amount`, no other account moved,
/// and the total moved by the difference `amount` makes at `who`.
pub open spec fn set_balance_spec(
    pre: Pallet,
    post: Pallet,
    who: Seq<char>,
    amount: u128,
) -> bool {
    &&& (forall|q: Seq<char>|
        post.balance_of(q) == (if q == who {
            amount
        } else {
            pre.balance_of(q)
        }))
    &&& post.total() == pre.total() + amount - pre.balance_of(who)
}

/// What one transfer does: how the ledger after the call relates to the
/// ledger before it, and which result is reported on which inputs.
pub open spec fn transfer_spec(
    pre: Pallet,
    post: Pallet,
    caller: Seq<char>,
    to: Seq<char>,
    amount: u128,
    r: DispatchResult,
) -> bool {
    let cb = pre.balance_of(caller);
    let tb = pre.balance_of(to);
    &&& (r == Err::<(), DispatchError>(DispatchError::InsufficientFunds) <==> cb < amount)
    &&& (r == Err::<(), DispatchError>(DispatchError::Overflow) <==> cb >= amount && tb + amount
        > u128::MAX)
    &&& (r == Ok::<(), DispatchError>(()) <==> cb >= amount && tb + amount <= u128::MAX)
    &&& (r is Err ==> post == pre)
    &&& (r is Ok && caller == to ==> post == pre)
    &&& (r is Ok && caller != to ==> forall|q: Seq<char>|
        post.balance_of(q) == (if q == caller {
            (cb - amount) as u128
        } else if q == to {
            (tb + amount) as u128
        } else {
            pre.balance_of(q)
        }))
    &&& post.total() == pre.total()
}

impl Pallet {
    /// Every account occurs at most once in the table.
    pub open spec fn well_formed(&self) -> bool {
        unique_keys(self.balances@)
    }

    /// The balance of account `q`: its stored value, or zero when absent.
    pub open spec fn balance_of(&self, q: Seq<char>) -> u128 {
        match lookup(self.balances@, q) {
            Option::Some(v) => v,
            Option::None => 0,
        }
    }

    /// Sum of every stored balance.
    pub open spec fn total(&self) -> int {
        seq_total(self.balances@)
    }

    /// An empty ledger: every account reads as zero.
    pub fn new() -> (r: Self)
        ensures
            r.well_formed(),
            forall|q: Seq<char>| r.balance_of(q) == 0,
            r.total() == 0,
    {
        Pallet { balances: Vec::new() }
    }

    /// The balance of `who`, zero when `who` was never written.
    pub fn balance(&self, who: &String) -> (r: u128)
        ensures
            r == self.balance_of(who@),
    {
        match table_get(&self.balances, who) {
            Option::Some(v) => v,
            Option::None => 0,
        }
    }

    /// Overwrite the balance of `who` with `amount`, inserting the account
    /// if it was absent.  Meant for genesis seeding, not for transfers.
    pub fn set_balance(&mut self, who: &String, amount: u128)
        requires
            old(self).well_formed(),
        ensures
            final(self).well_formed(),
            set_balance_spec(*old(self), *final(self), who@, amount),
    {
        let ghost s = self.balances@;
        table_set(&mut self.balances, who, amount);
        proof {
            let u = self.balances@;
            match lookup(s, who@) {
                Option::Some(v) => {
                    let i = choose|i: int|
                        0 <= i < s.len() && s[i].0@ == who@ && u == s.update(i, (*who, amount));
                    lemma_lookup_entries(s, who@);
                    assert(s[i].1 == v);
                    lemma_seq_total_update(s, u, i);
                },
                Option::None => {
                    lemma_seq_total_push(s, (*who, amount));
                },
            }
        }
    }

    /// Move `amount` from `caller` to `to`.  Fails with `InsufficientFunds`
    /// when `caller`'s balance cannot cover `amount`, and with `Overflow`
    /// when crediting `to` would exceed the balance type.  On any failure
    /// nothing is written.  Both balances are read before either is written,
    /// so a transfer from an account to itself leaves it unchanged.
    pub fn transfer(&mut self, caller: String, to: String, amount: u128) -> (r: DispatchResult)
        requires
            old(self).well_formed(),
        ensures
            final(self).well_formed(),
            transfer_spec(*old(self), *final(self), caller@, to@, amount, r),
    {
        let caller_balance = self.balance(&caller);
        let to_balance = self.balance(&to);
        let new_caller_balance = match caller_balance.checked_sub(amount) {
            Option::Some(v) => v,
            Option::None => {
                return Err(DispatchError::InsufficientFunds);
            },
        };
        let new_to_balance = match to_balance.checked_add(amount) {
            Option::Some(v) => v,
            Option::None => {
                return Err(DispatchError::Overflow);
            },
        };
        if caller == to {
            return Ok(());
        }
        self.set_balance(&caller, new_caller_balance);
        self.set_balance(&to, new_to_balance);
        Ok(())
    }
}

/// Law: an account with no entry in the ledger reads as balance zero.
pub proof fn lemma_unknown_account_balance(p: Pallet, q: Seq<char>)
    requires
        forall|j: int| 0 <= j < p.balances@.len() ==> p.balances@[j].0@ != q,
    ensures
        p.balance_of(q) == 0,
{
    crate::storage::lemma_lookup_skip(p.balances@, q, p.balances@.len() as int);
    assert(p.balances@.skip(p.balances@.len() as int).len() == 0);
}

/// Law: writing a balance and reading it back returns the written value
/// exactly.
pub proof fn lemma_set_balance_round_trip(pre: Pallet, post: Pallet, who: Seq<char>, amount: u128)
    requires
        set_balance_spec(pre, post, who, amount),
    ensures
        post.balance_of(who) == amount,
{
}

/// Law: a successful transfer between two distinct accounts debits the
/// caller by exactly the amount, credits the recipient by exactly the
/// amount, leaves every other account alone, and keeps the ledger total
/// unchanged.
pub proof fn lemma_transfer_conservation(
    pre: Pallet,
    post: Pallet,
    caller: Seq<char>,
    to: Seq<char>,
    amount: u128,
)
    requires
        transfer_spec(pre, post, caller, to, amount, Ok(())),
        caller != to,
    ensures
        post.balance_of(caller) == pre.balance_of(caller) - amount,
        post.balance_of(to) == pre.balance_of(to) + amount,
        forall|q: Seq<char>| q != caller && q != to ==> post.balance_of(q) == pre.balance_of(q),
        post.total() == pre.total(),
{
}

/// Law: a transfer from an account to itself with sufficient funds leaves
/// its balance unchanged.
pub proof fn lemma_self_transfer(
    pre: Pallet,
    post: Pallet,
    who: Seq<char>,
    amount: u128,
    r: DispatchResult,
)
    requires
        transfer_spec(pre, post, who, who, amount, r),
        pre.balance_of(who) >= amount,
    ensures
        post.balance_of(who) == pre.balance_of(who),
{
}

/// Law: a transfer the caller cannot cover reports `InsufficientFunds` and
/// writes nothing.
pub proof fn lemma_transfer_insufficient_funds(
    pre: Pallet,
    post: Pallet,
    caller: Seq<char>,
    to: Seq<char>,
    amount: u128,
    r: DispatchResult,
)
    requires
        transfer_spec(pre, post, caller, to, amount, r),
        pre.balance_of(caller) < amount,
    ensures
        r == Err::<(), DispatchError>(DispatchError::InsufficientFunds),
        post == pre,
{
}

/// Law: a transfer whose credit would exceed the balance type reports
/// `Overflow` and writes nothing.
pub proof fn lemma_transfer_overflow(
    pre: Pallet,
    post: Pallet,
    caller: Seq<char>,
    to: Seq<char>,
    amount: u128,
    r: DispatchResult,
)
    requires
        transfer_spec(pre, post, caller, to, amount, r),
        pre.balance_of(caller) >= amount,
        pre.balance_of(to) + amount > u128::MAX,
    ensures
        r == Err::<(), DispatchError>(DispatchError::Overflow),
        post == pre,
{
}

/// The ledger's own call type: one variant per operation it offers.
pub enum Call {
    Transfer { to: String, amount: u128 },
}

impl Dispatch for Pallet {
    type Caller = String;
    type Call = Call;

    open spec fn wf(&self) -> bool {
        self.well_formed()
    }

    open spec fn dispatch_spec(
        pre: Pallet,
        post: Pallet,
        caller: String,
        call: Call,
        r: DispatchResult,
    ) -> bool {
        match call {
            Call::Transfer { to, amount } => transfer_spec(pre, post, caller@, to@, amount, r),
        }
    }

    /// Route a ledger call to the operation it names.
    fn dispatch(&mut self, caller: String, call: Call) -> (r: DispatchResult) {
        match call {
            Call::Transfer { to, amount } => self.transfer(caller, to, amount),
        }
    }
}

} // verus!
