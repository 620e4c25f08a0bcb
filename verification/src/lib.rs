//! Pools of payers on a chain of accounts, verified.
//!
//! Anyone may make a pool under a name: an account at an address derived
//! from the maker's address and the name, with room for a fixed number of
//! payers. Others pay native currency into the pool and are put on record,
//! in order of arrival, until the record is full.
//!
//! The library decides; it does not act. `new_pool` and `pay_pool` test a
//! call against the accounts bound to it and say what is to be asked of the
//! runtime: storage of exactly the record's length, or a transfer. The
//! caller asks, and hands the runtime's answer to `Creation::finish` or
//! `settle_payment`, which keep what the call did or take it back.
//!
//! - `pubkey`: addresses, and the derivation of program addresses
//! - `seeds`: the seeds of a pool, and its address
//! - `pool`: the record of a pool and the storage it takes
//! - `record`: the record as bytes
//! - `accounts`: the accounts bound to the entry points
//! - `new_pool`, `pay_pool`, `initialize`: the entry points
//! - `instruction`: calls into other programs
//! - `lifecycle`: what holds of a pool over any run of payments
//! - `error`: why a call ends without effect

pub mod accounts;
pub mod error;
pub mod initialize;
pub mod instruction;
pub mod lifecycle;
pub mod new_pool;
pub mod pay_pool;
pub mod pool;
pub mod pubkey;
pub mod record;
pub mod seeds;

pub use accounts::{AccountInfo, NewPool, PayPool, PoolAccount};
pub use error::{Failure, PoolError, RecordError};
pub use initialize::{initialize, Initialize};
pub use instruction::{AccountMeta, Instruction};
pub use new_pool::{new_pool, new_pool_with_address, Allocation, Creation};
pub use pay_pool::{pay_pool, pay_pool_with_address, settle_payment, Invocation};
pub use pool::Pool;
pub use pubkey::Pubkey;
pub use seeds::{derive_pool_address, name_seed, pool_seeds};
