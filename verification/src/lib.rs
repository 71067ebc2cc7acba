//! Pattern.Space voice service core: a coordinate-to-prompt compiler and
//! conversation-state assembler.
//!
//! A "coordinate" is a dot-delimited symbolic identifier (`Forest.Creativity`)
//! naming one or more patterns. The library compiles a coordinate, a request
//! mode, optional modifiers and a prior conversation into the exact prompt
//! text sent to an upstream text-generation backend, and synthesizes a
//! deterministic fallback voice when that backend cannot be reached. All
//! transport and network plumbing lives outside this crate; everything here is
//! pure and verified.

pub mod config;
pub mod conversation;
pub mod coordinate;
pub mod fallback;
pub mod gateway;
pub mod handler;
pub mod prompt;
