use vstd::prelude::*;
use vstd::string::*;

verus! {

/// The failures of the store, one variant per kind, each with a readable message.
#[derive(Debug, Clone)]
pub enum LanceError {
    ConnectionFailed { message: String },
    TableError { message: String },
    QueryError { message: String },
    InsertError { message: String },
    DeleteError { message: String },
    SchemaError { message: String },
}

impl LanceError {
    pub open spec fn message_view(&self) -> Seq<char> {
        match self {
            LanceError::ConnectionFailed { message } => message@,
            LanceError::TableError { message } => message@,
            LanceError::QueryError { message } => message@,
            LanceError::InsertError { message } => message@,
            LanceError::DeleteError { message } => message@,
            LanceError::SchemaError { message } => message@,
        }
    }

    pub open spec fn describe_spec(&self) -> Seq<char> {
        match self {
            LanceError::ConnectionFailed { message } => "ConnectionFailed: "@ + message@,
            LanceError::TableError { message } => "TableError: "@ + message@,
            LanceError::QueryError { message } => "QueryError: "@ + message@,
            LanceError::InsertError { message } => "InsertError: "@ + message@,
            LanceError::DeleteError { message } => "DeleteError: "@ + message@,
            LanceError::SchemaError { message } => "SchemaError: "@ + message@,
        }
    }

    /// The message of the error, whatever its kind.
    pub fn message(&self) -> (r: &String)
        ensures
            r@ == self.message_view(),
    {
        match self {
            LanceError::ConnectionFailed { message } => message,
            LanceError::TableError { message } => message,
            LanceError::QueryError { message } => message,
            LanceError::InsertError { message } => message,
            LanceError::DeleteError { message } => message,
            LanceError::SchemaError { message } => message,
        }
    }

    /// The kind of the error followed by its message, as in `"QueryError: no table"`.
    pub fn describe(&self) -> (r: String)
        ensures
            r@ == self.describe_spec(),
    {
        let (label, message) = match self {
            LanceError::ConnectionFailed { message } => ("ConnectionFailed: ", message),
            LanceError::TableError { message } => ("TableError: ", message),
            LanceError::QueryError { message } => ("QueryError: ", message),
            LanceError::InsertError { message } => ("InsertError: ", message),
            LanceError::DeleteError { message } => ("DeleteError: ", message),
            LanceError::SchemaError { message } => ("SchemaError: ", message),
        };
        let mut r = String::from_str(label);
        r.append(message.as_str());
        r
    }
}

} // verus!
