//! Status-probe library for a voice-chat server's UDP query protocol.
//!
//! The crate covers the three verifiable pieces of a status bridge:
//! the wire codec for the fixed-layout query and response datagrams
//! (`codec`), the classification of one probe attempt's outcome and the
//! publish policy that rate-limits status updates (`probe`, `policy`),
//! and the dispatch of chat commands to actions (`commands`).
//! The sockets, clocks and the chat platform itself live outside; they
//! hand these functions plain bytes, counts and timestamps.

pub mod codec;
pub mod commands;
pub mod config;
pub mod policy;
pub mod probe;
