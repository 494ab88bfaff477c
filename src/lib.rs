//! Shared-canvas synchronisation core: the object store, the coordinator that
//! serialises every mutation of it, and the per-connection session logic.

pub mod object;
pub mod ident;
pub mod actor;
pub mod client;
