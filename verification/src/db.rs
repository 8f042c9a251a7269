//! What a handler asks of the data-access collaborator, as plain values.
//!
//! A handler validates a request and either fails, or reduces it to one of
//! the [`Prepared`] forms below: a credential fetch, a batch of inserts, or
//! one read. The caller that owns the connection performs the data access
//! (it is I/O, outside this library) and hands the outcome back to the
//! matching conclusion function, which shapes the response.

use vstd::prelude::*;

verus! {

/// One insert the handler asks for. The inserts of a request are executed
/// in order; the first failure aborts the rest and fails the request.
#[derive(Debug)]
pub enum DbAction {
    /// Store a user: email, public key, and the salted password hash.
    InsertUser { email: String, public_key: Vec<u8>, pass_hash: Vec<u8>, pass_salt: Vec<u8> },
    /// Create a conversation under a name.
    InsertConversation { name: String },
    /// Add a participant, by email, to the conversation of that name.
    InsertParticipant { email: String, conversation_name: String },
    /// Store one message of a conversation.
    InsertMessage {
        sender: String,
        conversation_id: i32,
        data: Vec<u8>,
        media_type: Vec<u8>,
        timestamp: Vec<u8>,
        signature: Vec<u8>,
    },
}

/// A validated request, reduced to the data access it needs.
#[derive(Debug)]
pub enum Prepared {
    /// Look up the stored credentials of `email`, then check `password`
    /// against them.
    Verify { email: String, password: String },
    /// Run the inserts, in order; reply with a bare success.
    Mutate { actions: Vec<DbAction> },
    /// List the conversations `email` takes part in.
    ReadConversations { email: String },
    /// List the messages of one conversation, readable by `email`.
    ReadMessages { email: String, conversation_id: i32 },
    /// List the participants of one conversation, readable by `email`.
    ReadUsers { email: String, conversation_id: i32 },
}

/// A row of the conversation listing.
#[derive(Debug)]
pub struct ConversationRow {
    pub id: i32,
    pub name: String,
}

/// A row of the message listing. The storage may hold nulls for the
/// optional columns.
#[derive(Debug)]
pub struct MessageRow {
    pub data: Vec<u8>,
    pub media_type: Option<Vec<u8>>,
    pub timestamp: Option<Vec<u8>>,
    pub signature: Option<Vec<u8>>,
    pub email: String,
}

/// A row of the participant listing.
#[derive(Debug)]
pub struct UserRow {
    pub email: String,
    pub public_key: Vec<u8>,
}

} // verus!
