//! Core of a chat-message ingestion and deduplication pipeline.
//!
//! Incoming messages from a chat platform are filtered by channel,
//! checked against an append-only store for exact-content duplicates,
//! and persisted; a duplicate triggers a reply citing the oldest
//! occurrence. The platform gateway and the durable storage engine are
//! external collaborators: this crate holds the logic that decides, for
//! each message, what is stored and what is replied.

pub mod message;
pub mod store;
pub mod detect;
pub mod filter;
pub mod reply;
pub mod coordinator;
