//! What the pallets and the runtime share: the shape of a block and the
//! dispatch capability.

use vstd::prelude::*;

verus! {

/// The outcome of a dispatched call: success, or the reason it was refused.
pub type DispatchResult = Result<(), &'static str>;

/// The header of a block.
#[derive(Debug)]
pub struct Header<BlockNumber> {
    /// The number this block claims for itself.
    pub block_number: BlockNumber,
}

/// A call together with the account that submitted it.
#[derive(Debug)]
pub struct Extrinsic<Caller, Call> {
    /// The account on whose behalf the call runs.
    pub caller: Caller,
    /// The operation to perform.
    pub call: Call,
}

/// A header and the extrinsics to execute, in order.
#[derive(Debug)]
pub struct Block<Header, Extrinsic> {
    /// The block header.
    pub header: Header,
    /// The extrinsics of the block, first to last.
    pub extrinsics: Vec<Extrinsic>,
}

/// The capability to perform a call on behalf of a caller.
pub trait Dispatch {
    /// The type that identifies the caller.
    type Caller;

    /// The calls that can be dispatched.
    type Call;

    /// Performs `call` for `caller` and reports whether it was accepted.
    fn dispatch(&mut self, caller: Self::Caller, call: Self::Call) -> DispatchResult;
}

} // verus!
