//! Decision logic of a cross-chain bridge relayer: the fee-market relay
//! strategy, the on-disk state migration, the relay session, the source
//! compiling subcommand executor, key reports and the bus messages.

pub mod compile_source;
pub mod error;
pub mod feemarket;
pub mod keys;
pub mod message;
pub mod migrate;
pub mod relay;
