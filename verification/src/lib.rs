//! A durable store of crowdfunding projects.
//!
//! Projects are kept as encoded records in a stable ordered map, keyed by
//! identifiers that a stable counter mints. Every operation is one transition
//! of the abstract [`Store`]; the contracts say which.

pub mod codec;
pub mod counter;
pub mod laws;
pub mod project;
pub mod records;
pub mod segments;
pub mod service;
pub mod storage;

pub use codec::{decode_record, encode_record, encoded_len, fits, FORMAT_VERSION, MAX_RECORD_SIZE};
pub use counter::DurableCounter;
pub use project::{Error, PayloadModel, Project, ProjectModel, ProjectPayload};
pub use records::DurableMap;
pub use segments::{SegmentAllocator, SegmentName};
pub use service::{ProjectService, Store};
