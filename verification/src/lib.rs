//! A minimal state-transition runtime: ordered blocks of extrinsics are
//! executed against a fixed set of pallets, each owning its own slice of state.

pub mod types;
mod primitives;
pub mod storage;
pub mod support;
pub mod system;
pub mod balances;
pub mod proof_of_existence;
pub mod runtime;

pub use runtime::{Runtime, RuntimeCall};
