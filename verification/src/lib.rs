//! Storage rules of a paste service: identifiers, the per-paste expiration
//! record and how it is stored, the size-capped copy, multipart uploads, and
//! the decisions a store takes when a paste is created or fetched.
//!
//! The library touches no file and no socket. Whoever runs it reads the
//! clock, moves the bytes and reports what happened.

pub mod copy;
pub mod mpu;
pub mod paste_id;
pub mod paste_info;
pub mod record;
pub mod store;
pub mod table;
