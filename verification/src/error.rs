//! The error taxonomy of the protocol engine.
//!
//! Every failure a request can run into is one of these values. They are
//! logged by the caller and never sent to the client verbatim: the client
//! only ever sees a status-0 response.

use vstd::prelude::*;

verus! {

/// A payload field that a handler may find missing.
#[derive(Clone, Copy, Debug, PartialEq, Eq, Structural)]
pub enum Field {
    /// The `users` list of the request.
    UsersList,
    /// The `messages` list of the request.
    MessagesList,
    /// The `conversations` list of the request.
    ConversationsList,
    /// The `email` field of a user record.
    Email,
    /// The `password` field of a user record.
    Password,
    /// The `publicKey` field of a user record.
    PublicKey,
    /// The `name` field of a conversation record.
    Name,
    /// The `id` field of a conversation record.
    Id,
    /// The `data` field of a message record.
    Data,
    /// The `mediaType` field of a message record.
    MediaType,
    /// The `timestamp` field of a message record.
    Timestamp,
    /// The `signature` field of a message record.
    Signature,
}

/// Why a request failed.
#[derive(Clone, Copy, Debug, PartialEq, Eq, Structural)]
pub enum ApiError {
    /// The input was not valid UTF-8, not valid JSON, or a base64 field or
    /// the `function` field did not have the expected shape.
    MalformedInput,
    /// The first word of the `function` field names no known operation.
    UnknownOperation,
    /// The second word of the `function` field names no known target.
    UnknownTarget,
    /// The operation/target pair routes to no handler.
    UnsupportedOperation,
    /// A payload record lacks a field the handler needs. The first missing
    /// field is reported and the request is aborted before any data access.
    MissingField(Field),
    /// The session is not authenticated and the handler requires it.
    Unauthorized,
    /// A credential check failed: wrong password for the supplied email.
    InvalidCredentials,
    /// A collaborator (storage, hashing, random source) failed.
    Collaborator,
}

} // verus!
