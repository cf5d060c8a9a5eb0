//! The primitive types that the pallets and the runtime agree on.

use vstd::prelude::*;
use crate::runtime::RuntimeCall;
use crate::support;

verus! {

/// Identifies an account; used as the key of every per-account store.
pub type AccountId = String;

/// The amount of funds an account holds.
pub type Balance = u128;

/// Counts executed blocks.
pub type BlockNumber = u32;

/// Counts the extrinsics an account has submitted.
pub type Nonce = u32;

/// The content that a proof-of-existence claim is made on.
pub type Content = String;

/// An extrinsic as the runtime takes it: an account and a runtime call.
pub type Extrinsic = support::Extrinsic<AccountId, RuntimeCall>;

/// A block header as the runtime takes it.
pub type Header = support::Header<BlockNumber>;

/// A block as the runtime takes it.
pub type Block = support::Block<Header, Extrinsic>;

} // verus!
