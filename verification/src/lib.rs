//! Core of a chat-driven image-fetch pipeline.
//!
//! The library interprets a matched chat command (Chinese or Arabic numerals,
//! vague-quantity words, tag phrases and option markers) into a structured
//! intent, builds a clamped outbound request together with its advisory
//! messages, classifies the remote listing response, plans the per-asset
//! download and metadata work, and lays out the outgoing delivery batch.
//! All I/O — the chat platform, HTTP and the filesystem — stays outside;
//! callers hand in plain values and receive plain values back.

pub mod auth;
pub mod delivery;
pub mod intent;
pub mod numeral;
pub mod outside;
pub mod request;
pub mod response;
pub mod tags;
pub mod text;
