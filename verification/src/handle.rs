//! The per-request engine: decode, dispatch, conclude — and the decisions
//! of the connection loop.
//!
//! One request travels: bytes in, UTF-8 check, JSON decode, dispatch on the
//! (operation, target) pair to a handler that validates and reduces it to
//! the data access it needs ([`Prepared`]); the caller that owns the
//! connection performs the access and hands the outcome to the matching
//! conclusion function; the response travels back as bytes. Every failure
//! becomes a status-0 response; no failure closes the connection.

use vstd::prelude::*;

verus! {

use vstd::utf8::valid_utf8;
use vstd::utf8::decode_utf8;
use vstd::utf8::encode_utf8;
use crate::error::ApiError;
use crate::auth::Login;
use crate::auth::Password;
use crate::auth::argon2_verify_of;
use crate::wire::json_of;
use crate::wire::bytes_to_str;
use crate::db::Prepared;
use crate::db::ConversationRow;
use crate::db::MessageRow;
use crate::db::UserRow;
use crate::api::User;
use crate::api::UserV;
use crate::api::Message;
use crate::api::MessageV;
use crate::api::Conversation;
use crate::api::ConversationV;
use crate::api::request::Operation;
use crate::api::request::Target;
use crate::api::request::Request;
use crate::api::request::RequestV;
use crate::api::request::spec_request_from_json;
use crate::api::request::spec_verify_users_err;
use crate::api::request::spec_create_users_err;
use crate::api::request::spec_create_conversations_err;
use crate::api::request::spec_create_messages_err;
use crate::api::request::spec_read_in_conversation_err;
use crate::api::request::verify_users_ok;
use crate::api::request::create_users_ok;
use crate::api::request::create_conversations_ok;
use crate::api::request::create_messages_ok;
use crate::api::request::read_conversations_ok;
use crate::api::request::read_messages_ok;
use crate::api::request::read_users_ok;
use crate::api::response::Response;
use crate::api::response::ResponseV;
use crate::api::response::spec_response_json;

/// The pairs that require an authenticated session: every implemented
/// handler but Verify-Users and Create-Users.
pub open spec fn gated(op: Operation, t: Target) -> bool {
    op is Read || (op is Create && !(t is Users))
}

/// The pairs that route to no handler: updates and deletes of every
/// target, and Verify of anything but Users.
pub open spec fn unsupported(op: Operation, t: Target) -> bool {
    op is Update || op is Delete || (op is Verify && !(t is Users))
}

/// The whole dispatch relation: what reducing a request `req` under a
/// session `login` must give. The mapping is total over the declared
/// enumerations: every pair either routes to a handler or is rejected as
/// unsupported.
pub open spec fn spec_dispatch(req: RequestV, login: Login, r: Result<Prepared, ApiError>) -> bool {
    if unsupported(req.operation, req.target) {
        r == Err::<Prepared, ApiError>(ApiError::UnsupportedOperation)
    } else if req.operation is Verify {
        match spec_verify_users_err(req) {
            Some(e) => r == Err::<Prepared, ApiError>(e),
            None => r matches Ok(p) && verify_users_ok(req, p),
        }
    } else if req.operation is Create && req.target is Users {
        match spec_create_users_err(req) {
            Some(e) => r == Err::<Prepared, ApiError>(e),
            None => (r matches Ok(p) && create_users_ok(req, p)) || r == Err::<Prepared, ApiError>(
                ApiError::Collaborator,
            ),
        }
    } else if req.operation is Create && req.target is Conversations {
        match spec_create_conversations_err(req, login.is_authenticated) {
            Some(e) => r == Err::<Prepared, ApiError>(e),
            None => r matches Ok(p) && create_conversations_ok(req, login, p),
        }
    } else if req.operation is Create && req.target is Messages {
        match spec_create_messages_err(req, login.is_authenticated) {
            Some(e) => r == Err::<Prepared, ApiError>(e),
            None => r matches Ok(p) && create_messages_ok(req, login, p),
        }
    } else if req.operation is Read && req.target is Conversations {
        if !login.is_authenticated {
            r == Err::<Prepared, ApiError>(ApiError::Unauthorized)
        } else {
            r matches Ok(p) && read_conversations_ok(login, p)
        }
    } else if req.operation is Read && req.target is Messages {
        match spec_read_in_conversation_err(req, login.is_authenticated) {
            Some(e) => r == Err::<Prepared, ApiError>(e),
            None => r matches Ok(p) && read_messages_ok(req, login, p),
        }
    } else {
        match spec_read_in_conversation_err(req, login.is_authenticated) {
            Some(e) => r == Err::<Prepared, ApiError>(e),
            None => r matches Ok(p) && read_users_ok(req, login, p),
        }
    }
}

/// Route a decoded request to its handler. Unknown or unimplemented
/// combinations are rejected; a request that needs authentication on an
/// unauthenticated session is rejected before any data access.
pub fn prepare_request(request: Request, login: &Login) -> (r: Result<Prepared, ApiError>)
    requires
        login.wf(),
    ensures
        spec_dispatch(request@, *login, r),
        unsupported(request.operation, request.target) ==> r == Err::<Prepared, ApiError>(
            ApiError::UnsupportedOperation,
        ),
        !login.is_authenticated && gated(request.operation, request.target) ==> r == Err::<
            Prepared,
            ApiError,
        >(ApiError::Unauthorized),
{
    match request.operation {
        Operation::Verify => {
            match request.target {
                Target::Users => request.verify_users(),
                _ => Err(ApiError::UnsupportedOperation),
            }
        },
        Operation::Create => {
            match request.target {
                Target::Conversations => request.create_conversations(login),
                Target::Messages => request.create_messages(login),
                Target::Users => request.create_users(),
            }
        },
        Operation::Read => {
            match request.target {
                Target::Conversations => request.read_conversations(login),
                Target::Messages => request.read_messages(login),
                Target::Users => request.read_users(login),
            }
        },
        Operation::Update => Err(ApiError::UnsupportedOperation),
        Operation::Delete => Err(ApiError::UnsupportedOperation),
    }
}

/// A request that needs authentication, on an unauthenticated session, is
/// always rejected as unauthorized — before any data access, since a
/// rejected request never reaches the collaborator.
pub proof fn lemma_unauthenticated_rejected(
    req: RequestV,
    login: Login,
    r: Result<Prepared, ApiError>,
)
    requires
        spec_dispatch(req, login, r),
        !login.is_authenticated,
        gated(req.operation, req.target),
    ensures
        r == Err::<Prepared, ApiError>(ApiError::Unauthorized),
{
}

/// Update and Delete, of every target, are always rejected as unsupported,
/// whatever the session state.
pub proof fn lemma_update_delete_unsupported(
    req: RequestV,
    login: Login,
    r: Result<Prepared, ApiError>,
)
    requires
        spec_dispatch(req, login, r),
        req.operation is Update || req.operation is Delete,
    ensures
        r == Err::<Prepared, ApiError>(ApiError::UnsupportedOperation),
{
}

/// Handle one request's bytes: UTF-8 check, JSON decode, dispatch. The
/// result is the data access the request needs, or the error that stopped
/// it.
pub fn handle_request(data: &[u8], login: &Login) -> (r: Result<Prepared, ApiError>)
    requires
        login.wf(),
    ensures
        !valid_utf8(data@) ==> r == Err::<Prepared, ApiError>(ApiError::MalformedInput),
        valid_utf8(data@) && json_of(decode_utf8(data@)) is None ==> r == Err::<
            Prepared,
            ApiError,
        >(ApiError::MalformedInput),
        valid_utf8(data@) ==> (json_of(decode_utf8(data@)) matches Some(m)
            ==> match spec_request_from_json(m) {
            Err(e) => r == Err::<Prepared, ApiError>(e),
            Ok(rv) => spec_dispatch(rv, *login, r),
        }),
{
    let text = match bytes_to_str(data) {
        Some(t) => t,
        None => {
            return Err(ApiError::MalformedInput);
        },
    };
    let request = match Request::from_json(text) {
        Ok(q) => q,
        Err(e) => {
            return Err(e);
        },
    };
    prepare_request(request, login)
}

/// Conclude a Verify-Users request, given the stored credentials of the
/// supplied email. A match authenticates the session and binds it to that
/// email; a mismatch fails with invalid credentials and leaves the session
/// exactly as it was.
pub fn conclude_verify_users(
    email: String,
    password: String,
    stored: Password,
    login: &mut Login,
) -> (r: Result<Response, ApiError>)
    requires
        old(login).wf(),
    ensures
        final(login).wf(),
        !valid_utf8(stored.hash@) ==> r == Err::<Response, ApiError>(ApiError::Collaborator)
            && *final(login) == *old(login),
        valid_utf8(stored.hash@) ==> match argon2_verify_of(
            decode_utf8(stored.hash@),
            encode_utf8(password@),
        ) {
            Some(true) => r matches Ok(resp) && resp.status == 1 && resp.users is None
                && resp.messages is None && resp.conversations is None
                && final(login).is_authenticated && final(login).email == Some(email),
            Some(false) => r == Err::<Response, ApiError>(ApiError::InvalidCredentials)
                && *final(login) == *old(login),
            None => r == Err::<Response, ApiError>(ApiError::Collaborator) && *final(login)
                == *old(login),
        },
{
    match stored.is_valid(password.as_str()) {
        Ok(true) => {
            login.authenticate(email);
            Ok(Response::success())
        },
        Ok(false) => Err(ApiError::InvalidCredentials),
        Err(e) => Err(e),
    }
}

/// An optional binary column, viewed.
pub open spec fn view_opt_bytes(b: Option<Vec<u8>>) -> Option<Seq<u8>> {
    match b {
        Some(v) => Some(v@),
        None => None,
    }
}

/// Conclude a Read-Conversations request: shape the rows into the
/// response's conversation list.
pub fn conclude_read_conversations(rows: Vec<ConversationRow>) -> (r: Response)
    ensures
        r.status == 1,
        r.users is None,
        r.messages is None,
        r.conversations matches Some(v) && v@.len() == rows@.len() && forall|i: int|
            0 <= i < rows@.len() ==> #[trigger] v@[i]@ == (ConversationV {
                id: Some(rows@[i].id),
                name: Some(rows@[i].name@),
            }),
{
    let mut out: Vec<Conversation> = Vec::new();
    let n = rows.len();
    let mut i: usize = 0;
    while i < n
        invariant
            i <= n,
            n == rows@.len(),
            out@.len() == i,
            forall|k: int|
                0 <= k < i ==> #[trigger] out@[k]@ == (ConversationV {
                    id: Some(rows@[k].id),
                    name: Some(rows@[k].name@),
                }),
        decreases n - i,
    {
        out.push(Conversation { id: Some(rows[i].id), name: Some(rows[i].name.clone()) });
        i = i + 1;
    }
    Response { status: 1, users: None, messages: None, conversations: Some(out) }
}

/// Conclude a Read-Messages request: shape the rows into the response's
/// message list. The storage never echoes a message id.
pub fn conclude_read_messages(rows: Vec<MessageRow>) -> (r: Response)
    ensures
        r.status == 1,
        r.users is None,
        r.conversations is None,
        r.messages matches Some(v) && v@.len() == rows@.len() && forall|i: int|
            0 <= i < rows@.len() ==> #[trigger] v@[i]@ == (MessageV {
                id: None,
                data: Some(rows@[i].data@),
                media_type: view_opt_bytes(rows@[i].media_type),
                timestamp: view_opt_bytes(rows@[i].timestamp),
                signature: view_opt_bytes(rows@[i].signature),
                sender: Some(rows@[i].email@),
            }),
{
    let mut out: Vec<Message> = Vec::new();
    let n = rows.len();
    let mut i: usize = 0;
    while i < n
        invariant
            i <= n,
            n == rows@.len(),
            out@.len() == i,
            forall|k: int|
                0 <= k < i ==> #[trigger] out@[k]@ == (MessageV {
                    id: None,
                    data: Some(rows@[k].data@),
                    media_type: view_opt_bytes(rows@[k].media_type),
                    timestamp: view_opt_bytes(rows@[k].timestamp),
                    signature: view_opt_bytes(rows@[k].signature),
                    sender: Some(rows@[k].email@),
                }),
        decreases n - i,
    {
        out.push(
            Message {
                id: None,
                data: Some(rows[i].data.clone()),
                media_type: rows[i].media_type.clone(),
                timestamp: rows[i].timestamp.clone(),
                signature: rows[i].signature.clone(),
                sender: Some(rows[i].email.clone()),
            },
        );
        i = i + 1;
    }
    Response { status: 1, users: None, messages: Some(out), conversations: None }
}

/// Conclude a Read-Users request: shape the rows into the response's user
/// list. The storage never echoes ids or passwords.
pub fn conclude_read_users(rows: Vec<UserRow>) -> (r: Response)
    ensures
        r.status == 1,
        r.messages is None,
        r.conversations is None,
        r.users matches Some(v) && v@.len() == rows@.len() && forall|i: int|
            0 <= i < rows@.len() ==> #[trigger] v@[i]@ == (UserV {
                id: None,
                email: Some(rows@[i].email@),
                name: None,
                password: None,
                public_key: Some(rows@[i].public_key@),
            }),
{
    let mut out: Vec<User> = Vec::new();
    let n = rows.len();
    let mut i: usize = 0;
    while i < n
        invariant
            i <= n,
            n == rows@.len(),
            out@.len() == i,
            forall|k: int|
                0 <= k < i ==> #[trigger] out@[k]@ == (UserV {
                    id: None,
                    email: Some(rows@[k].email@),
                    name: None,
                    password: None,
                    public_key: Some(rows@[k].public_key@),
                }),
        decreases n - i,
    {
        out.push(
            User {
                id: None,
                email: Some(rows[i].email.clone()),
                name: None,
                password: None,
                public_key: Some(rows[i].public_key.clone()),
            },
        );
        i = i + 1;
    }
    Response { status: 1, users: Some(out), messages: None, conversations: None }
}

/// Format a response — or, where the request failed, the default status-0
/// failure — as the bytes' worth of JSON text to write back. The error
/// itself is never echoed to the client.
pub fn format_response(response: Option<Response>) -> (r: String)
    ensures
        response matches Some(resp) ==> json_of(r@) == Some(spec_response_json(resp@)),
        response is None ==> json_of(r@) == Some(
            spec_response_json(
                ResponseV { status: 0, users: None, messages: None, conversations: None },
            ),
        ),
{
    match response {
        Some(resp) => resp.to_json(),
        None => Response::failure().to_json(),
    }
}

/// How long the connection loop waits before retrying a failed read, in
/// milliseconds. A fixed backoff: tolerance of transient errors must not
/// busy-loop.
pub const RETRY_BACKOFF_MS: u64 = 500;

/// What one read on the connection came to.
pub enum ReadEvent {
    /// Zero bytes: the peer closed in an orderly way.
    Closed,
    /// This many bytes: one complete request message.
    Data(usize),
    /// A read error that is not an orderly close.
    Failed,
}

/// What the connection loop does next.
#[derive(PartialEq, Eq, Structural)]
pub enum LoopStep {
    /// Flush and stop serving this connection.
    Close,
    /// Handle the message and write a response back — success or failure,
    /// the connection stays open.
    Respond,
    /// Wait the fixed backoff and read again; never terminate on a
    /// transient error.
    Retry,
}

/// The connection loop's one decision: only an orderly close by the peer
/// ends the connection; data is answered, and a transient read error is
/// retried after the backoff.
pub fn connection_step(event: &ReadEvent) -> (r: LoopStep)
    ensures
        event is Closed <==> r is Close,
        event is Data <==> r is Respond,
        event is Failed <==> r is Retry,
{
    match event {
        ReadEvent::Closed => LoopStep::Close,
        ReadEvent::Data(_) => LoopStep::Respond,
        ReadEvent::Failed => LoopStep::Retry,
    }
}

} // verus!
