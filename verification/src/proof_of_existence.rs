//! The proof-of-existence pallet: accounts claim content, and each piece of
//! content has at most one owner at a time.

use vstd::prelude::*;
use crate::storage::StringMap;
use crate::support::{Dispatch, DispatchResult};
use crate::types::{AccountId, Content};

verus! {

/// The refusal of a claim on content that already has an owner.
pub const ALREADY_CLAIMED: &'static str = "this content is already claimed";

/// The refusal to revoke a claim that nobody holds.
pub const CLAIM_NOT_FOUND: &'static str = "claim does not exist";

/// The refusal to revoke a claim that somebody else holds.
pub const NOT_OWNER: &'static str = "Caller is not the owner of the claim";

/// Why `caller` cannot claim `claim`, if it cannot: the content has an owner.
pub open spec fn create_error(
    claims: Map<Seq<char>, Seq<char>>,
    caller: Seq<char>,
    claim: Seq<char>,
) -> Option<Seq<char>> {
    if claims.contains_key(claim) {
        Some(ALREADY_CLAIMED@)
    } else {
        None
    }
}

/// The claims after `caller` has tried to claim `claim`.
pub open spec fn create_claims(
    claims: Map<Seq<char>, Seq<char>>,
    caller: Seq<char>,
    claim: Seq<char>,
) -> Map<Seq<char>, Seq<char>> {
    if claims.contains_key(claim) {
        claims
    } else {
        claims.insert(claim, caller)
    }
}

/// Why `caller` cannot revoke `claim`, if it cannot: nobody owns the content,
/// or somebody else does.
pub open spec fn revoke_error(
    claims: Map<Seq<char>, Seq<char>>,
    caller: Seq<char>,
    claim: Seq<char>,
) -> Option<Seq<char>> {
    if !claims.contains_key(claim) {
        Some(CLAIM_NOT_FOUND@)
    } else if claims[claim] != caller {
        Some(NOT_OWNER@)
    } else {
        None
    }
}

/// The claims after `caller` has tried to revoke `claim`.
pub open spec fn revoke_claims(
    claims: Map<Seq<char>, Seq<char>>,
    caller: Seq<char>,
    claim: Seq<char>,
) -> Map<Seq<char>, Seq<char>> {
    if claims.contains_key(claim) && claims[claim] == caller {
        claims.remove(claim)
    } else {
        claims
    }
}

/// The proof-of-existence pallet.
#[derive(Debug)]
pub struct Pallet {
    /// A map from content to the account that owns it.
    claims: StringMap<AccountId>,
}

impl View for Pallet {
    type V = Map<Seq<char>, Seq<char>>;

    closed spec fn view(&self) -> Map<Seq<char>, Seq<char>> {
        self.claims@.map_values(|owner: AccountId| owner@)
    }
}

/// The calls that the proof-of-existence pallet accepts from the dispatcher.
#[derive(Debug)]
pub enum Call {
    /// Claim `claim` for the caller.
    CreateClaim { claim: Content },
    /// Give up the caller's claim on `claim`.
    RevokeClaim { claim: Content },
}

/// Why the pallet refuses `call` from `caller`, if it does.
pub open spec fn dispatch_error(claims: Map<Seq<char>, Seq<char>>, caller: Seq<char>, call: Call)
    -> Option<Seq<char>> {
    match call {
        Call::CreateClaim { claim } => create_error(claims, caller, claim@),
        Call::RevokeClaim { claim } => revoke_error(claims, caller, claim@),
    }
}

/// The claims after `call` from `caller` has been dispatched.
pub open spec fn dispatch_claims(claims: Map<Seq<char>, Seq<char>>, caller: Seq<char>, call: Call)
    -> Map<Seq<char>, Seq<char>> {
    match call {
        Call::CreateClaim { claim } => create_claims(claims, caller, claim@),
        Call::RevokeClaim { claim } => revoke_claims(claims, caller, claim@),
    }
}

impl Pallet {
    /// A pallet without claims.
    pub fn new() -> (p: Self)
        ensures
            p@ == Map::<Seq<char>, Seq<char>>::empty(),
    {
        Pallet { claims: StringMap::new() }
    }

    /// The owner of `claim`, if it has one.
    pub fn get_claim(&self, claim: &Content) -> (r: Option<&AccountId>)
        ensures
            match r {
                Some(owner) => self@.contains_key(claim@) && self@[claim@] == owner@,
                None => !self@.contains_key(claim@),
            },
    {
        self.claims.get(claim)
    }

    /// Claims `claim` for `caller`.  Refused, and nothing changes, when the
    /// content already has an owner.
    pub fn create_claim(&mut self, caller: AccountId, claim: Content) -> (r: DispatchResult)
        ensures
            final(self)@ == create_claims(old(self)@, caller@, claim@),
            match r {
                Ok(_) => create_error(old(self)@, caller@, claim@) is None,
                Err(e) => create_error(old(self)@, caller@, claim@) == Some(e@),
            },
    {
        match self.get_claim(&claim) {
            Some(_) => Err(ALREADY_CLAIMED),
            None => {
                self.claims.insert(claim, caller);
                Ok(())
            },
        }
    }

    /// Revokes the claim of `caller` on `claim`.  Refused, and nothing
    /// changes, when the content has no owner or `caller` is not its owner.
    pub fn revoke_claim(&mut self, caller: AccountId, claim: Content) -> (r: DispatchResult)
        ensures
            final(self)@ == revoke_claims(old(self)@, caller@, claim@),
            match r {
                Ok(_) => revoke_error(old(self)@, caller@, claim@) is None,
                Err(e) => revoke_error(old(self)@, caller@, claim@) == Some(e@),
            },
    {
        let owned_by_caller = match self.get_claim(&claim) {
            Some(owner) => *owner == caller,
            None => {
                return Err(CLAIM_NOT_FOUND);
            },
        };
        if !owned_by_caller {
            return Err(NOT_OWNER);
        }
        self.claims.remove(&claim);
        Ok(())
    }
}

impl Dispatch for Pallet {
    type Caller = AccountId;

    type Call = Call;

    /// Routes `call` to the operation it names.
    fn dispatch(&mut self, caller: AccountId, call: Call) -> (r: DispatchResult)
        ensures
            final(self)@ == dispatch_claims(old(self)@, caller@, call),
            match r {
                Ok(_) => dispatch_error(old(self)@, caller@, call) is None,
                Err(e) => dispatch_error(old(self)@, caller@, call) == Some(e@),
            },
    {
        match call {
            Call::CreateClaim { claim } => self.create_claim(caller, claim),
            Call::RevokeClaim { claim } => self.revoke_claim(caller, claim),
        }
    }
}

/// After an accepted claim the content belongs to the claimant, and a
/// further claim on it, by whomever, is refused and leaves the owner in place.
pub proof fn lemma_claim_is_exclusive(
    claims: Map<Seq<char>, Seq<char>>,
    caller: Seq<char>,
    claim: Seq<char>,
    other: Seq<char>,
)
    requires
        create_error(claims, caller, claim) is None,
    ensures
        ({
            let after = create_claims(claims, caller, claim);
            &&& after.contains_key(claim)
            &&& after[claim] == caller
            &&& create_error(after, other, claim) == Some(ALREADY_CLAIMED@)
            &&& create_claims(after, other, claim) == after
        }),
{
}

/// Revoking a claim removes it when the caller owns it, is refused and
/// changes nothing when somebody else owns it, and is refused when nobody
/// owns it.
pub proof fn lemma_revoke_by_ownership(
    claims: Map<Seq<char>, Seq<char>>,
    caller: Seq<char>,
    claim: Seq<char>,
)
    ensures
        claims.contains_key(claim) && claims[claim] == caller ==> {
            &&& revoke_error(claims, caller, claim) is None
            &&& !revoke_claims(claims, caller, claim).contains_key(claim)
        },
        claims.contains_key(claim) && claims[claim] != caller ==> {
            &&& revoke_error(claims, caller, claim) == Some(NOT_OWNER@)
            &&& revoke_claims(claims, caller, claim) == claims
        },
        !claims.contains_key(claim) ==> {
            &&& revoke_error(claims, caller, claim) == Some(CLAIM_NOT_FOUND@)
            &&& revoke_claims(claims, caller, claim) == claims
        },
{
}

} // verus!
