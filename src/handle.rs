use vstd::prelude::*;

use crate::error::LanceError;

verus! {

/// A store rooted at a directory, holding records whose embeddings have a fixed width.
pub struct LanceDBHandle {
    db_path: String,
    embedding_dim: i32,
}

impl LanceDBHandle {
    pub open spec fn wf(&self) -> bool {
        self.dim() > 0
    }

    pub closed spec fn path_view(&self) -> Seq<char> {
        self.db_path@
    }

    pub closed spec fn dim(&self) -> int {
        self.embedding_dim as int
    }

    /// Checks the configuration of a store: the width of the embeddings must be positive.
    pub fn new(db_path: String, embedding_dim: i32) -> (r: Result<LanceDBHandle, LanceError>)
        ensures
            embedding_dim > 0 <==> r is Ok,
            r matches Ok(h) ==> h.wf() && h.path_view() == db_path@ && h.dim() == embedding_dim,
            r matches Err(e) ==> e is SchemaError,
    {
        if embedding_dim <= 0 {
            Err(LanceError::SchemaError { message: String::from_str("embedding_dim must be > 0") })
        } else {
            Ok(LanceDBHandle { db_path, embedding_dim })
        }
    }

    pub fn db_path(&self) -> (r: &String)
        ensures
            r@ == self.path_view(),
    {
        &self.db_path
    }

    pub fn embedding_dim(&self) -> (r: i32)
        ensures
            r == self.dim(),
    {
        self.embedding_dim
    }

    /// A record's embedding must have exactly the configured width.
    pub fn check_embedding(&self, len: usize) -> (r: Result<(), LanceError>)
        ensures
            r is Ok <==> len == self.dim(),
            r matches Err(e) ==> e is InsertError,
    {
        if self.embedding_dim < 0 || len as u64 != self.embedding_dim as u64 {
            Err(LanceError::InsertError { message: String::from_str("embedding length != expected dimension") })
        } else {
            Ok(())
        }
    }

    /// A query vector must have exactly the configured width.
    pub fn check_query(&self, len: usize) -> (r: Result<(), LanceError>)
        ensures
            r is Ok <==> len == self.dim(),
            r matches Err(e) ==> e is QueryError,
    {
        if self.embedding_dim < 0 || len as u64 != self.embedding_dim as u64 {
            Err(LanceError::QueryError { message: String::from_str("query_vector length != expected dimension") })
        } else {
            Ok(())
        }
    }
}

} // verus!
