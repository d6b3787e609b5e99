//! Verified core logic of a blockchain node: the block chain index, the
//! consensus vertex bookkeeping, storage-backed collections, request state
//! machines and the small decision functions around them.

pub mod host_error;
pub mod hash32;
pub mod assoc;
pub mod block_chain;
pub mod flush;
pub mod executor_config;
pub mod call_error;
pub mod iterable_map;
pub mod deploy_fetcher;
pub mod text;
pub mod compilation;
pub mod highway_types;
pub mod highway_state;
pub mod highway;
pub mod lanes;
pub mod wasm_v2_request;
pub mod execution_kind;
pub mod transaction_acceptor;
pub mod deploy_acceptor;
pub mod gossip;
pub mod access_control;
pub mod gatekeeper;
pub mod executor;
pub mod network;
pub mod footprint;
pub mod block_executor;
pub mod env_info;
pub mod burn;
pub mod message_topics;
pub mod tracking_copy;
pub mod query;
pub mod tracking_cache;

pub mod ordered_keys;
