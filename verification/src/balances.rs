//! The balances pallet: funds per account, moved by checked transfers.

use vstd::prelude::*;
use crate::primitives::{checked_add_balance, checked_sub_balance, zero_balance};
use crate::storage::StringMap;
use crate::support::{Dispatch, DispatchResult};
use crate::types::{AccountId, Balance};

verus! {

/// The refusal of a transfer that the sender cannot afford.
pub const INSUFFICIENT_BALANCE: &'static str = "insufficient balance";

/// The refusal of a transfer that the recipient's balance cannot hold.
pub const OVERFLOW: &'static str = "overflow when adding to balance";

/// The balance of `who`: the stored one, or zero where none is stored.
pub open spec fn balance_of(balances: Map<Seq<char>, Balance>, who: Seq<char>) -> Balance {
    if balances.contains_key(who) {
        balances[who]
    } else {
        0
    }
}

/// Why a transfer of `amount` from `caller` to `to` is refused, if it is.
/// The sender's funds are checked first, then the recipient's headroom.
pub open spec fn transfer_error(
    balances: Map<Seq<char>, Balance>,
    caller: Seq<char>,
    to: Seq<char>,
    amount: Balance,
) -> Option<Seq<char>> {
    if balance_of(balances, caller) < amount {
        Some(INSUFFICIENT_BALANCE@)
    } else if balance_of(balances, to) + amount > Balance::MAX {
        Some(OVERFLOW@)
    } else {
        None
    }
}

/// The stored balances after a transfer of `amount` from `caller` to `to`
/// has been attempted.  A refused transfer changes nothing.  An accepted one
/// computes both new balances from the old ones, then writes the sender's and
/// after it the recipient's.
pub open spec fn transfer_balances(
    balances: Map<Seq<char>, Balance>,
    caller: Seq<char>,
    to: Seq<char>,
    amount: Balance,
) -> Map<Seq<char>, Balance> {
    if transfer_error(balances, caller, to, amount) is Some {
        balances
    } else {
        balances.insert(caller, (balance_of(balances, caller) - amount) as Balance).insert(
            to,
            (balance_of(balances, to) + amount) as Balance,
        )
    }
}

/// The balances pallet.
#[derive(Debug)]
pub struct Pallet {
    /// A map from an account to its balance.
    balances: StringMap<Balance>,
}

impl View for Pallet {
    type V = Map<Seq<char>, Balance>;

    closed spec fn view(&self) -> Map<Seq<char>, Balance> {
        self.balances@
    }
}

/// The calls that the balances pallet accepts from the dispatcher.
#[derive(Debug)]
pub enum Call {
    /// Move `amount` from the caller to `to`.
    Transfer { to: AccountId, amount: Balance },
}

impl Pallet {
    /// A pallet in which every account has a balance of zero.
    pub fn new() -> (p: Self)
        ensures
            p@ == Map::<Seq<char>, Balance>::empty(),
            forall|who: Seq<char>| balance_of(p@, who) == 0,
    {
        Pallet { balances: StringMap::new() }
    }

    /// Sets the balance of `who` to `amount`, whatever it was.
    pub fn set_balance(&mut self, who: &AccountId, amount: Balance)
        ensures
            final(self)@ == old(self)@.insert(who@, amount),
    {
        self.balances.insert(who.clone(), amount);
    }

    /// The balance of `who`, zero if none is stored.
    pub fn balance(&self, who: &AccountId) -> (b: Balance)
        ensures
            b == balance_of(self@, who@),
    {
        match self.balances.get(who) {
            Some(b) => *b,
            None => zero_balance(),
        }
    }

    /// Moves `amount` from `caller` to `to`.
    ///
    /// The transfer is refused, and nothing changes, when the caller holds
    /// less than `amount`, or else when the recipient's balance plus `amount`
    /// does not fit in the balance type.
    pub fn transfer(&mut self, caller: AccountId, to: AccountId, amount: Balance) -> (r:
        DispatchResult)
        ensures
            final(self)@ == transfer_balances(old(self)@, caller@, to@, amount),
            match r {
                Ok(_) => transfer_error(old(self)@, caller@, to@, amount) is None,
                Err(e) => transfer_error(old(self)@, caller@, to@, amount) == Some(e@),
            },
    {
        let caller_balance = self.balance(&caller);
        let to_balance = self.balance(&to);

        let new_caller_balance = match checked_sub_balance(caller_balance, amount) {
            Some(b) => b,
            None => {
                return Err(INSUFFICIENT_BALANCE);
            },
        };
        let new_to_balance = match checked_add_balance(to_balance, amount) {
            Some(b) => b,
            None => {
                return Err(OVERFLOW);
            },
        };

        self.set_balance(&caller, new_caller_balance);
        self.set_balance(&to, new_to_balance);

        Ok(())
    }
}

impl Dispatch for Pallet {
    type Caller = AccountId;

    type Call = Call;

    /// Routes `call` to the operation it names.
    fn dispatch(&mut self, caller: AccountId, call: Call) -> (r: DispatchResult)
        ensures
            final(self)@ == dispatch_balances(old(self)@, caller@, call),
            match r {
                Ok(_) => dispatch_error(old(self)@, caller@, call) is None,
                Err(e) => dispatch_error(old(self)@, caller@, call) == Some(e@),
            },
    {
        match call {
            Call::Transfer { to, amount } => self.transfer(caller, to, amount),
        }
    }
}

/// Why the pallet refuses `call` from `caller`, if it does.
pub open spec fn dispatch_error(balances: Map<Seq<char>, Balance>, caller: Seq<char>, call: Call)
    -> Option<Seq<char>> {
    match call {
        Call::Transfer { to, amount } => transfer_error(balances, caller, to@, amount),
    }
}

/// The stored balances after `call` from `caller` has been dispatched.
pub open spec fn dispatch_balances(
    balances: Map<Seq<char>, Balance>,
    caller: Seq<char>,
    call: Call,
) -> Map<Seq<char>, Balance> {
    match call {
        Call::Transfer { to, amount } => transfer_balances(balances, caller, to@, amount),
    }
}

/// A transfer of more than the caller holds is refused for want of funds
/// and changes no balance.
pub proof fn lemma_transfer_without_funds(
    balances: Map<Seq<char>, Balance>,
    caller: Seq<char>,
    to: Seq<char>,
    amount: Balance,
)
    requires
        balance_of(balances, caller) < amount,
    ensures
        transfer_error(balances, caller, to, amount) == Some(INSUFFICIENT_BALANCE@),
        transfer_balances(balances, caller, to, amount) == balances,
{
}

/// A transfer that the caller can afford, but that the recipient's balance
/// cannot hold, is refused for overflow and changes no balance.
pub proof fn lemma_transfer_without_headroom(
    balances: Map<Seq<char>, Balance>,
    caller: Seq<char>,
    to: Seq<char>,
    amount: Balance,
)
    requires
        balance_of(balances, caller) >= amount,
        balance_of(balances, to) + amount > Balance::MAX,
    ensures
        transfer_error(balances, caller, to, amount) == Some(OVERFLOW@),
        transfer_balances(balances, caller, to, amount) == balances,
{
}

/// An accepted transfer between two different accounts takes `amount` from
/// the caller and gives it to the recipient: the sum of their balances stays
/// the same, and so does the balance of every other account.
pub proof fn lemma_transfer_moves_funds(
    balances: Map<Seq<char>, Balance>,
    caller: Seq<char>,
    to: Seq<char>,
    amount: Balance,
)
    requires
        transfer_error(balances, caller, to, amount) is None,
        caller != to,
    ensures
        ({
            let after = transfer_balances(balances, caller, to, amount);
            &&& balance_of(after, caller) == balance_of(balances, caller) - amount
            &&& balance_of(after, to) == balance_of(balances, to) + amount
            &&& balance_of(after, caller) + balance_of(after, to) == balance_of(balances, caller)
                + balance_of(balances, to)
            &&& forall|other: Seq<char>|
                other != caller && other != to ==> balance_of(after, other) == balance_of(
                    balances,
                    other,
                )
        }),
{
}

} // verus!
