//! A small static-content responder: an immutable route table maps
//! (method, path) pairs to fixed responses, every unmatched request falls
//! through to a not-found page, and a lifecycle state machine describes
//! startup, serving and graceful shutdown.

pub mod lifecycle;
pub mod router;
pub mod site;
