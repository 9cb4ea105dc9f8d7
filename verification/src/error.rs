//! Errors that a mutation answers with.
use vstd::prelude::*;

verus! {

/// An error reported to the GraphQL client.
#[derive(Debug, Clone, PartialEq, Eq)]
pub enum GraphqlError {
    /// The request was refused: a message for the client and the name of
    /// the input field it is about.
    ValidationError(String, String),
    /// The server failed: a message for the client and a detail for the log.
    ServerError(String, String),
    /// No user is signed in.
    AuthenticationError,
}

/// What an error says, as plain text.
pub enum Failure {
    Validation { message: Seq<char>, field: Seq<char> },
    Server { message: Seq<char>, detail: Seq<char> },
    Authentication,
}

impl View for GraphqlError {
    type V = Failure;

    open spec fn view(&self) -> Failure {
        match self {
            GraphqlError::ValidationError(m, f) => Failure::Validation { message: m@, field: f@ },
            GraphqlError::ServerError(m, d) => Failure::Server { message: m@, detail: d@ },
            GraphqlError::AuthenticationError => Failure::Authentication,
        }
    }
}

/// The failure of a validation error with the given message and field.
pub open spec fn invalid(message: Seq<char>, field: Seq<char>) -> Failure {
    Failure::Validation { message, field }
}

/// A result with its error taken by its view.
pub open spec fn outcome<T>(r: Result<T, GraphqlError>) -> Result<T, Failure> {
    match r {
        Ok(t) => Ok(t),
        Err(e) => Err(e@),
    }
}

impl GraphqlError {
    /// A validation error about `field`.
    pub fn validation(message: &str, field: &str) -> (e: GraphqlError)
        ensures
            e@ == invalid(message@, field@),
    {
        GraphqlError::ValidationError(String::from_str(message), String::from_str(field))
    }

    /// A server error with a message for the client and a detail for the log.
    pub fn server(message: &str, detail: String) -> (e: GraphqlError)
        ensures
            e@ == (Failure::Server { message: message@, detail: detail@ }),
    {
        GraphqlError::ServerError(String::from_str(message), detail)
    }
}

} // verus!
