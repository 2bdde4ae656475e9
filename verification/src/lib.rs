//! A resilient RPC client core for a system message bus.
//!
//! Two verified components: the call dispatcher, which absorbs transient
//! transport failures by retrying up to a fixed budget, and the value
//! extractor, which narrows the bus's self-describing wire values into
//! statically typed application values. The transport itself (connection,
//! framing, the bus socket) and process-wide logging are external
//! collaborators; they live outside this library.

pub mod errors;
pub mod wire;
pub mod dispatch;
pub mod transport;
