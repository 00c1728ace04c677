//! Bootstrap configuration for a small request-serving process: the secret
//! that is read once from a JSON configuration document, the process-wide
//! state that holds it beside the data-store client, and the echo operation
//! that answers each request from that state.

pub mod echo;
pub mod secret;
pub mod state;
