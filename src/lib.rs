//! Creation of a single non-fungible asset: address derivation, the
//! transfer-hook account list, the ordered sub-protocol calls and the final
//! rent top-up, each with its contract.

pub mod address;
pub mod error;
pub mod metas;
pub mod reconcile;
pub mod create;

pub use create::{handler, CreateMintAccount, CreateMintAccountArgs};
