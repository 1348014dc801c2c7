//! Content-addressed blob storage with capability-based authorization.
//!
//! The library covers the three core pieces of the service: the
//! content-addressed blob store (hashing, shard paths, idempotent commit),
//! the authorization-assertion verifier shared by both protocol flows, and
//! the upload/deletion orchestration that sequences policy checks, storage,
//! the accept/reject hook and metadata recording.  Disk, network and database
//! work is performed by the surrounding application, which feeds the
//! outcomes of those calls back into the verified decision functions here.

pub mod analytics;
pub mod auth;
pub mod blossom;
pub mod hashing;
pub mod hexcodec;
pub mod nip96;
pub mod pipeline;
pub mod settings;
pub mod store;
pub mod tags;
