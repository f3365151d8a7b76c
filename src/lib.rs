//! Request handling for a small HTTP echo and diagnostic server: which status
//! and which JSON body each endpoint answers with.
pub mod laws;
pub mod query;
pub mod reply;
pub mod server;
pub mod text;
