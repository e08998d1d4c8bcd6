//! Core types of the Astar runtimes: foundation value types, the asset
//! identifier namespace, the recovery policy for failed multi-block
//! migrations, and the proof-of-validity size budget.
use vstd::prelude::*;

pub mod account;
pub mod assets;
pub mod migration;
pub mod pov;

pub use account::{derive_account_id, AccountId, Signer};
pub use assets::{classify, validate_new, AssetClass, AssetIdError, AssetRegistry};
pub use migration::{
    FailedMigrationHandler, MigrationDirective, MigrationFailureReport, UnfreezeChainOnFailedMigration,
};
pub use pov::{fits_pov_budget, MAX_POV_SIZE};

verus! {

/// Balance of an account, in the smallest unit.
pub type Balance = u128;

/// An index to a block.
pub type BlockNumber = u32;

/// Index of a transaction of an account.
pub type Nonce = u32;

/// Id used for identifying assets.
pub type AssetId = u128;

} // verus!
