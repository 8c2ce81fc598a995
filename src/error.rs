use vstd::prelude::*;

verus! {

/// What can go wrong in the store. Failures reported by the database engine
/// or the embedding model arrive as text and are passed on as they came.
#[derive(Debug, Clone, PartialEq)]
pub enum LibsqlError {
    /// The database engine refused a statement or a query.
    DatabaseError(String),
    /// A value could not be encoded or a row could not be decoded.
    SerializationError(String),
    /// A column holds a type that the store cannot bind.
    InvalidColumnType(String),
    /// An embedding table cannot have zero dimensions.
    ZeroDimensions,
    /// A column is named like the engine's physical row identifier.
    ReservedColumn(String),
    /// A batch write failed and was rolled back.
    IngestError(String),
    /// The embedding model failed.
    EmbeddingError(String),
    /// A request that cannot be answered, refused before any I/O.
    InvalidRequest(String),
}

} // verus!
