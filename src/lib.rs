//! Block-processing core of a full node: the ordered consensus driver, the
//! compact-block streaming service, and the governance component's state
//! keys and the shielded pool's events that the node builds on.
pub mod abci;
pub mod block_stream;
pub mod consensus;
pub mod decimal;
pub mod event;
pub mod metrics;
pub mod query;
pub mod state_key;
