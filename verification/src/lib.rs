//! A single-use escrow ("claimable balance"): one depositor locks a fixed
//! amount of a fungible asset, names a bounded set of eligible claimants,
//! and attaches a time predicate; any one listed claimant may withdraw the
//! full amount once the predicate holds. An instance accepts at most one
//! deposit, ever, regardless of whether the escrow was later settled.
//!
//! The library is the verified core: the deposit/claim state machine, its
//! validation rules, the time predicate, and the membership check. The
//! surrounding environment supplies authentication, the asset-transfer
//! primitive, the clock, and durable storage; each operation here takes
//! plain values from that environment and hands back the transfer it
//! requires, so the environment can commit or abandon the whole step as
//! one atomic unit.

pub mod address;
pub mod error;
pub mod escrow;
pub mod laws;
pub mod time_bound;

pub use address::Address;
pub use error::CustomError;
pub use escrow::ClaimableBalance;
pub use escrow::ClaimableBalanceContract;
pub use escrow::DataKey;
pub use escrow::EscrowState;
pub use escrow::TransferAction;
pub use escrow::TransferParty;
pub use escrow::MAX_CLAIMANTS;
pub use time_bound::TimeBound;
pub use time_bound::TimeBoundKind;
