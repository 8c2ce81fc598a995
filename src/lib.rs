//! A relational store whose records carry vector embeddings, together with the
//! agent skill and client builders that sit around it.
//!
//! The verified core builds every statement that the store runs, decides how a
//! batch ingestion proceeds and when it commits or rolls back, compiles search
//! filters into a condition and an ordered parameter list, and decodes query
//! results. Running the statements against a database is left to the caller.
pub mod error;
pub mod filter;
pub mod image;
pub mod ingest;
pub mod laws;
pub mod mcp;
pub mod provision;
pub mod query;
pub mod schema;
pub mod skill;
pub mod text;
pub mod transaction;
