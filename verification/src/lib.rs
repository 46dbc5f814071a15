//! A synchronous adapter over an asynchronous, callback-driven native update
//! engine.
//!
//! The engine streams firmware image bytes from a caller-supplied source,
//! reports progress through status messages, and signals completion through a
//! separate callback. This crate holds the verified core of the adapter: the
//! wire-level request and message model, the decoding and formatting of
//! status lines, the file-source descriptor slot, and the session state
//! machine that decides, for each outcome the engine reports, what the
//! blocking caller does next.
//!
//! The native calls themselves (raw file descriptors, the engine's C entry
//! points, the condition-variable wait) live outside this crate; they feed
//! plain values into the functions here and act on the values handed back.

pub mod run_type;
pub mod source_type;
pub mod swupdate_request;
pub mod ipc_message;
pub mod status_line;
pub mod source;
pub mod bridge;
