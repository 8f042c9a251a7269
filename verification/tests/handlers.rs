//! Authorization gating, dispatch, handler plans and the connection loop.

use echo_server::api::request::Request;
use echo_server::auth::{Login, Password};
use echo_server::db::{ConversationRow, DbAction, MessageRow, Prepared, UserRow};
use echo_server::error::{ApiError, Field};
use echo_server::handle::{
    conclude_read_conversations, conclude_read_messages, conclude_read_users,
    conclude_verify_users, connection_step, format_response, handle_request, prepare_request,
    LoopStep, ReadEvent, RETRY_BACKOFF_MS,
};

fn authenticated(email: &str) -> Login {
    let mut login = Login::new();
    login.authenticate(email.to_string());
    login
}

#[test]
fn unauthenticated_gated_requests_are_unauthorized() {
    let login = Login::new();
    let gated = [
        "READ USERS",
        "READ MESSAGES",
        "READ CONVERSATIONS",
        "CREATE MESSAGES",
        "CREATE CONVERSATIONS",
    ];
    for function in gated {
        let text = format!("{{\"function\":\"{}\"}}", function);
        let r = handle_request(text.as_bytes(), &login);
        assert_eq!(r.unwrap_err(), ApiError::Unauthorized, "{}", function);
    }
    // The two ungated pairs do not fail with Unauthorized.
    let r = handle_request(b"{\"function\":\"VERIFY USERS\"}", &login);
    assert_eq!(r.unwrap_err(), ApiError::MissingField(Field::UsersList));
    let r = handle_request(b"{\"function\":\"CREATE USERS\"}", &login);
    assert_eq!(r.unwrap_err(), ApiError::MissingField(Field::UsersList));
}

#[test]
fn update_and_delete_always_unsupported() {
    let sessions = [Login::new(), authenticated("a@x.com")];
    for login in &sessions {
        for function in [
            "UPDATE USERS",
            "UPDATE MESSAGES",
            "UPDATE CONVERSATIONS",
            "DELETE USERS",
            "DELETE MESSAGES",
            "DELETE CONVERSATIONS",
            "VERIFY MESSAGES",
            "VERIFY CONVERSATIONS",
        ] {
            let text = format!("{{\"function\":\"{}\"}}", function);
            let r = handle_request(text.as_bytes(), login);
            assert_eq!(r.unwrap_err(), ApiError::UnsupportedOperation, "{}", function);
        }
    }
}

#[test]
fn verify_users_reduces_to_credential_fetch() {
    let login = Login::new();
    let req = Request::from_json(
        "{\"function\":\"VERIFY USERS\",\"users\":[{\"email\":\"a@x.com\",\"password\":\"pw\"}]}",
    )
    .unwrap();
    match prepare_request(req, &login).unwrap() {
        Prepared::Verify { email, password } => {
            assert_eq!(email, "a@x.com");
            assert_eq!(password, "pw");
        }
        other => panic!("unexpected plan: {:?}", other),
    }
}

#[test]
fn verify_users_with_correct_password_authenticates() {
    let stored = Password::hash("right horse", Some(b"samplesalt")).unwrap();
    let mut login = Login::new();
    let r = conclude_verify_users(
        "a@x.com".to_string(),
        "right horse".to_string(),
        stored,
        &mut login,
    )
    .unwrap();
    assert_eq!(r.status, 1);
    assert!(r.users.is_none() && r.messages.is_none() && r.conversations.is_none());
    assert!(login.is_authenticated);
    assert_eq!(login.email, Some("a@x.com".to_string()));
}

#[test]
fn verify_users_with_wrong_password_stays_unauthenticated() {
    let stored = Password::hash("right horse", Some(b"samplesalt")).unwrap();
    let mut login = Login::new();
    let r = conclude_verify_users(
        "a@x.com".to_string(),
        "wrong horse".to_string(),
        stored,
        &mut login,
    );
    assert_eq!(r.unwrap_err(), ApiError::InvalidCredentials);
    assert!(!login.is_authenticated);
    assert_eq!(login.email, None);
}

#[test]
fn create_conversations_adds_creator_and_listed_users() {
    let login = authenticated("a@x.com");
    let req = Request::from_json(
        "{\"function\":\"CREATE CONVERSATIONS\",\"users\":[{\"email\":\"b@x.com\"}],\"conversations\":[{\"name\":\"Team\"}]}",
    )
    .unwrap();
    let actions = match prepare_request(req, &login).unwrap() {
        Prepared::Mutate { actions } => actions,
        other => panic!("unexpected plan: {:?}", other),
    };
    assert_eq!(actions.len(), 3);
    match &actions[0] {
        DbAction::InsertConversation { name } => assert_eq!(name, "Team"),
        other => panic!("unexpected action: {:?}", other),
    }
    let mut participants = Vec::new();
    for action in &actions[1..] {
        match action {
            DbAction::InsertParticipant {
                email,
                conversation_name,
            } => {
                assert_eq!(conversation_name, "Team");
                participants.push(email.clone());
            }
            other => panic!("unexpected action: {:?}", other),
        }
    }
    // Exactly two participant inserts: the creator, then the listed user.
    assert_eq!(participants, vec!["a@x.com".to_string(), "b@x.com".to_string()]);
}

#[test]
fn create_messages_pairs_each_message_with_first_conversation() {
    let login = authenticated("a@x.com");
    let record = "{\"data\":\"ZGF0YQ==\",\"mediaType\":\"dGV4dA==\",\"timestamp\":\"dA==\",\"signature\":\"cw==\"}";
    let text = format!(
        "{{\"function\":\"CREATE MESSAGES\",\"messages\":[{0},{0},{0}],\"conversations\":[{{\"id\":7}},{{\"id\":9}}]}}",
        record
    );
    let req = Request::from_json(&text).unwrap();
    let actions = match prepare_request(req, &login).unwrap() {
        Prepared::Mutate { actions } => actions,
        other => panic!("unexpected plan: {:?}", other),
    };
    // Exactly three inserts, each tagged with conversation id 7, the first
    // supplied conversation, regardless of the second entry.
    assert_eq!(actions.len(), 3);
    for action in &actions {
        match action {
            DbAction::InsertMessage {
                sender,
                conversation_id,
                data,
                ..
            } => {
                assert_eq!(sender, "a@x.com");
                assert_eq!(*conversation_id, 7);
                assert_eq!(data, b"data");
            }
            other => panic!("unexpected action: {:?}", other),
        }
    }
    // An empty message list is not an error: it simply inserts none.
    let req = Request::from_json(
        "{\"function\":\"CREATE MESSAGES\",\"messages\":[],\"conversations\":[{\"id\":7}]}",
    )
    .unwrap();
    match prepare_request(req, &login).unwrap() {
        Prepared::Mutate { actions } => assert_eq!(actions.len(), 0),
        other => panic!("unexpected plan: {:?}", other),
    }
}

#[test]
fn create_users_hashes_each_password() {
    let login = Login::new();
    let req = Request::from_json(
        "{\"function\":\"CREATE USERS\",\"users\":[{\"email\":\"a@x.com\",\"password\":\"pw\",\"publicKey\":\"a2V5\"}]}",
    )
    .unwrap();
    let actions = match prepare_request(req, &login).unwrap() {
        Prepared::Mutate { actions } => actions,
        other => panic!("unexpected plan: {:?}", other),
    };
    assert_eq!(actions.len(), 1);
    match &actions[0] {
        DbAction::InsertUser {
            email,
            public_key,
            pass_hash,
            pass_salt,
        } => {
            assert_eq!(email, "a@x.com");
            assert_eq!(public_key, b"key");
            assert_eq!(pass_salt.len(), 32);
            // The stored hash must accept the password it was made from.
            let stored = Password {
                hash: pass_hash.clone(),
                salt: pass_salt.clone(),
            };
            assert_eq!(stored.is_valid("pw").unwrap(), true);
            assert_eq!(stored.is_valid("not pw").unwrap(), false);
        }
        other => panic!("unexpected action: {:?}", other),
    }
}

#[test]
fn missing_fields_fail_fast() {
    let login = authenticated("a@x.com");
    let cases = [
        (
            "{\"function\":\"VERIFY USERS\",\"users\":[]}",
            ApiError::MissingField(Field::UsersList),
        ),
        (
            "{\"function\":\"VERIFY USERS\",\"users\":[{\"password\":\"pw\"}]}",
            ApiError::MissingField(Field::Email),
        ),
        (
            "{\"function\":\"VERIFY USERS\",\"users\":[{\"email\":\"a@x.com\"}]}",
            ApiError::MissingField(Field::Password),
        ),
        (
            "{\"function\":\"CREATE USERS\",\"users\":[{\"email\":\"a@x.com\",\"password\":\"pw\"}]}",
            ApiError::MissingField(Field::PublicKey),
        ),
        (
            "{\"function\":\"CREATE CONVERSATIONS\",\"conversations\":[{\"name\":\"Team\"}]}",
            ApiError::MissingField(Field::UsersList),
        ),
        (
            "{\"function\":\"CREATE CONVERSATIONS\",\"users\":[],\"conversations\":[{\"name\":\"Team\"}]}",
            ApiError::MissingField(Field::UsersList),
        ),
        (
            "{\"function\":\"CREATE CONVERSATIONS\",\"users\":[{\"email\":\"b@x.com\"}]}",
            ApiError::MissingField(Field::ConversationsList),
        ),
        (
            "{\"function\":\"CREATE CONVERSATIONS\",\"users\":[{\"email\":\"b@x.com\"}],\"conversations\":[{\"id\":1}]}",
            ApiError::MissingField(Field::Name),
        ),
        (
            "{\"function\":\"CREATE CONVERSATIONS\",\"users\":[{\"name\":\"b\"}],\"conversations\":[{\"name\":\"Team\"}]}",
            ApiError::MissingField(Field::Email),
        ),
        (
            "{\"function\":\"CREATE MESSAGES\",\"conversations\":[{\"id\":7}]}",
            ApiError::MissingField(Field::MessagesList),
        ),
        (
            "{\"function\":\"CREATE MESSAGES\",\"messages\":[],\"conversations\":[{\"name\":\"x\"}]}",
            ApiError::MissingField(Field::Id),
        ),
        (
            "{\"function\":\"CREATE MESSAGES\",\"messages\":[{\"mediaType\":\"dA==\"}],\"conversations\":[{\"id\":7}]}",
            ApiError::MissingField(Field::Data),
        ),
        (
            "{\"function\":\"CREATE MESSAGES\",\"messages\":[{\"data\":\"dA==\"}],\"conversations\":[{\"id\":7}]}",
            ApiError::MissingField(Field::MediaType),
        ),
        (
            "{\"function\":\"CREATE MESSAGES\",\"messages\":[{\"data\":\"dA==\",\"mediaType\":\"dA==\"}],\"conversations\":[{\"id\":7}]}",
            ApiError::MissingField(Field::Timestamp),
        ),
        (
            "{\"function\":\"CREATE MESSAGES\",\"messages\":[{\"data\":\"dA==\",\"mediaType\":\"dA==\",\"timestamp\":\"dA==\"}],\"conversations\":[{\"id\":7}]}",
            ApiError::MissingField(Field::Signature),
        ),
        (
            "{\"function\":\"READ MESSAGES\"}",
            ApiError::MissingField(Field::ConversationsList),
        ),
        (
            "{\"function\":\"READ MESSAGES\",\"conversations\":[{\"name\":\"Team\"}]}",
            ApiError::MissingField(Field::Id),
        ),
        (
            "{\"function\":\"READ USERS\",\"conversations\":[]}",
            ApiError::MissingField(Field::ConversationsList),
        ),
    ];
    for (text, expected) in cases {
        let r = handle_request(text.as_bytes(), &login);
        assert_eq!(r.unwrap_err(), expected, "{}", text);
    }
}

#[test]
fn reads_reduce_to_their_listings() {
    let login = authenticated("a@x.com");
    let req = Request::from_json("{\"function\":\"READ CONVERSATIONS\"}").unwrap();
    match prepare_request(req, &login).unwrap() {
        Prepared::ReadConversations { email } => assert_eq!(email, "a@x.com"),
        other => panic!("unexpected plan: {:?}", other),
    }
    let req =
        Request::from_json("{\"function\":\"READ MESSAGES\",\"conversations\":[{\"id\":5}]}")
            .unwrap();
    match prepare_request(req, &login).unwrap() {
        Prepared::ReadMessages {
            email,
            conversation_id,
        } => {
            assert_eq!(email, "a@x.com");
            assert_eq!(conversation_id, 5);
        }
        other => panic!("unexpected plan: {:?}", other),
    }
    let req = Request::from_json("{\"function\":\"READ USERS\",\"conversations\":[{\"id\":5}]}")
        .unwrap();
    match prepare_request(req, &login).unwrap() {
        Prepared::ReadUsers {
            email,
            conversation_id,
        } => {
            assert_eq!(email, "a@x.com");
            assert_eq!(conversation_id, 5);
        }
        other => panic!("unexpected plan: {:?}", other),
    }
}

#[test]
fn conclusions_shape_rows_into_responses() {
    let r = conclude_read_conversations(vec![ConversationRow {
        id: 7,
        name: "Team".to_string(),
    }]);
    assert_eq!(r.status, 1);
    let conversations = r.conversations.as_ref().unwrap();
    assert_eq!(conversations.len(), 1);
    assert_eq!(conversations[0].id, Some(7));
    assert_eq!(conversations[0].name, Some("Team".to_string()));

    let r = conclude_read_messages(vec![MessageRow {
        data: b"data".to_vec(),
        media_type: Some(b"text/plain".to_vec()),
        timestamp: None,
        signature: None,
        email: "a@x.com".to_string(),
    }]);
    assert_eq!(r.status, 1);
    let messages = r.messages.as_ref().unwrap();
    assert_eq!(messages.len(), 1);
    assert_eq!(messages[0].id, None);
    assert_eq!(messages[0].data, Some(b"data".to_vec()));
    assert_eq!(messages[0].media_type, Some(b"text/plain".to_vec()));
    assert_eq!(messages[0].timestamp, None);
    assert_eq!(messages[0].sender, Some("a@x.com".to_string()));

    let r = conclude_read_users(vec![UserRow {
        email: "b@x.com".to_string(),
        public_key: b"key".to_vec(),
    }]);
    assert_eq!(r.status, 1);
    let users = r.users.as_ref().unwrap();
    assert_eq!(users.len(), 1);
    assert_eq!(users[0].email, Some("b@x.com".to_string()));
    assert_eq!(users[0].public_key, Some(b"key".to_vec()));
    assert_eq!(users[0].password, None);
}

#[test]
fn malformed_bytes_get_status_zero_and_connection_stays_open() {
    let login = Login::new();
    // Not UTF-8.
    let r = handle_request(&[0xff, 0xfe, 0x00], &login);
    assert_eq!(r.unwrap_err(), ApiError::MalformedInput);
    // Every failure becomes the default status-0 response on the wire.
    assert_eq!(
        format_response(None),
        "{\"status\":0,\"users\":null,\"messages\":null,\"conversations\":null}"
    );
    // The loop answers data and stays open; only an orderly close ends it.
    assert!(connection_step(&ReadEvent::Data(3)) == LoopStep::Respond);
    assert!(connection_step(&ReadEvent::Closed) == LoopStep::Close);
    assert!(connection_step(&ReadEvent::Failed) == LoopStep::Retry);
    assert_eq!(RETRY_BACKOFF_MS, 500);
}
