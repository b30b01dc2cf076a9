//! Checkpoint snapshot-sync protocol core.
//!
//! A node catching up from a trusted checkpoint asks a peer for the
//! checkpoint's state manifest together with a bounded chain of execution
//! commitments (a "blame vector") and a bounded window of epoch receipts,
//! so that the peer's answer can later be cross-checked independently.
//! This crate holds the request/response contract, the blame-vector
//! reconstruction, the epoch-receipt collection, and the retryable-request
//! behaviour every sync request shares.

pub mod blame;
pub mod message;
pub mod receipts;
pub mod request;
pub mod store;
pub mod types;

pub use message::SnapshotManifestRequest;
pub use message::SnapshotManifestResponse;
pub use request::DynamicCapability;
pub use request::KeyContainer;
pub use request::ProtocolConfiguration;
pub use request::RetryableRequest;
pub use store::RecordStore;
pub use types::BlockHeader;
pub use types::ChunkKey;
pub use types::ExecutionRecord;
pub use types::ExecutionResult;
pub use types::Hash256;
pub use types::Manifest;
pub use types::REWARD_EPOCH_COUNT;
