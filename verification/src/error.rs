//! Error types: the coarse API-level `Error` codes and the precise
//! per-operation error categories of the engine, with the verified mapping
//! from the second to the first.

use vstd::prelude::*;

verus! {

/// API-level error codes surfaced to callers of the service layer.
#[derive(Clone, Copy, PartialEq, Eq, Structural, Debug)]
pub enum Error {
    // Database errors
    MigrationExecutionError,
    MigrationKeyError,
    DatabaseConnectionError,
    // User errors
    UserUpdateError,
    UserNotFoundError,
    UserCreationError,
    LoginFailError,
    AuthError,
    // Document errors
    DocumentNotFoundError,
    DocumentUpdateError,
    DocumentCreationError,
    // General errors
    InvalidRequestFormatError,
    // Document permission errors
    PermissionError,
    PermissionDeniedError,
    // Signup errors
    EmailAlreadyExistsError,
    DatabaseError,
}

/// Why a document creation request was refused.
#[derive(Clone, Copy, PartialEq, Eq, Structural, Debug)]
pub enum CreationError {
    /// The document name was empty or whitespace-only.
    InvalidNameError,
    /// The store cannot mint a fresh document identifier.
    StoreError,
}

/// Why a document read was refused.
#[derive(Clone, Copy, PartialEq, Eq, Structural, Debug)]
pub enum ReadError {
    /// No document with the requested identifier exists.
    NotFoundError,
    /// The actor holds no role that grants view capability.
    PermissionDeniedError,
}

/// Why a document update was refused.
#[derive(Clone, Copy, PartialEq, Eq, Structural, Debug)]
pub enum UpdateError {
    /// The new document name was empty or whitespace-only.
    InvalidNameError,
    /// No document with the requested identifier exists.
    NotFoundError,
    /// The actor holds no role that grants edit capability.
    PermissionDeniedError,
}

/// Why a permission mutation was refused. The data-level operations return
/// the first three; `PermissionDeniedError` arises only from the calling
/// layer's own-capability pre-check.
#[derive(Clone, Copy, PartialEq, Eq, Structural, Debug)]
pub enum MutationError {
    /// An owner may not reduce their own access level.
    SelfDowngradeError,
    /// An owner may never remove their own access.
    SelfRevocationError,
    /// No permission row exists for the targeted (document, user) pair.
    TargetNotFoundError,
    /// The actor does not hold own capability on the document.
    PermissionDeniedError,
}

/// The HTTP status code the API layer answers with for each error code.
pub open spec fn spec_status_of(e: Error) -> int {
    match e {
        Error::PermissionDeniedError => 403,
        Error::AuthError => 401,
        Error::EmailAlreadyExistsError => 409,
        _ => 500,
    }
}

/// The response label the API layer answers with for each error code.
pub open spec fn spec_label_of(e: Error) -> Seq<char> {
    match e {
        Error::PermissionError => "PERMISSION_ERROR"@,
        Error::PermissionDeniedError => "PERMISSION_DENIED"@,
        Error::EmailAlreadyExistsError => "EMAIL_ALREADY_EXISTS"@,
        Error::DatabaseError => "DATABASE_ERROR"@,
        Error::AuthError => "AUTHENTICATION_REQUIRED"@,
        Error::DocumentCreationError => "DOCUMENT_CREATION_ERROR"@,
        Error::DatabaseConnectionError => "UNHANDLED_SERVER_ERROR"@,
        _ => "UNHANDLED_CLIENT_ERROR"@,
    }
}

impl Error {
    /// The HTTP status code and response label for this error code.
    pub fn status_and_label(&self) -> (r: (u16, &'static str))
        ensures
            r.0 as int == spec_status_of(*self),
            r.1@ == spec_label_of(*self),
    {
        match self {
            Error::LoginFailError => (500, "UNHANDLED_CLIENT_ERROR"),
            Error::DatabaseConnectionError => (500, "UNHANDLED_SERVER_ERROR"),
            Error::UserNotFoundError => (500, "UNHANDLED_CLIENT_ERROR"),
            Error::UserCreationError => (500, "UNHANDLED_CLIENT_ERROR"),
            Error::InvalidRequestFormatError => (500, "UNHANDLED_CLIENT_ERROR"),
            Error::MigrationExecutionError => (500, "UNHANDLED_CLIENT_ERROR"),
            Error::MigrationKeyError => (500, "UNHANDLED_CLIENT_ERROR"),
            Error::UserUpdateError => (500, "UNHANDLED_CLIENT_ERROR"),
            Error::DocumentNotFoundError => (500, "UNHANDLED_CLIENT_ERROR"),
            Error::PermissionError => (500, "PERMISSION_ERROR"),
            Error::PermissionDeniedError => (403, "PERMISSION_DENIED"),
            Error::DocumentUpdateError => (500, "UNHANDLED_CLIENT_ERROR"),
            Error::EmailAlreadyExistsError => (409, "EMAIL_ALREADY_EXISTS"),
            Error::DatabaseError => (500, "DATABASE_ERROR"),
            Error::AuthError => (401, "AUTHENTICATION_REQUIRED"),
            Error::DocumentCreationError => (500, "DOCUMENT_CREATION_ERROR"),
        }
    }
}

/// How the API layer coarsens a permission mutation error: a denial keeps its
/// dedicated code, every data-level refusal surfaces as the generic
/// permission error.
pub fn api_error_of_mutation(e: MutationError) -> (r: Error)
    ensures
        e == MutationError::PermissionDeniedError ==> r == Error::PermissionDeniedError,
        e != MutationError::PermissionDeniedError ==> r == Error::PermissionError,
{
    match e {
        MutationError::PermissionDeniedError => Error::PermissionDeniedError,
        MutationError::SelfDowngradeError => Error::PermissionError,
        MutationError::SelfRevocationError => Error::PermissionError,
        MutationError::TargetNotFoundError => Error::PermissionError,
    }
}

} // verus!
