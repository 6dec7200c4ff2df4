//! Message plumbing between a WebSocket client, a JavaScript RIL worker and
//! the RIL daemons: the registry of radio clients, the routing of incoming
//! messages, the scripts handed to the worker and the checks on what the
//! worker asks to send.

pub mod text;
pub mod registry;
pub mod message;
pub mod payload;
pub mod host;
pub use host::report_error;
