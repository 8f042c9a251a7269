//! Decoding and encoding of records, requests and responses.

use echo_server::api::request::{Operation, Request, Target};
use echo_server::api::response::Response;
use echo_server::api::{Conversation, Message, User};
use echo_server::error::ApiError;
use echo_server::wire::JsonVal;

fn obj(fields: Vec<(&str, JsonVal)>) -> JsonVal {
    JsonVal::Obj(fields.into_iter().map(|(k, v)| (k.to_string(), v)).collect())
}

fn s(text: &str) -> JsonVal {
    JsonVal::Str(text.to_string())
}

#[test]
fn test_user_from_json() {
    let json = [
        obj(vec![
            ("id", JsonVal::Num(Some(1))),
            ("email", s("1@example.com")),
            ("name", s("Example User")),
            ("password", s("pass")),
            ("publicKey", s("a2V5")),
        ]),
        obj(vec![]),
    ];

    let users = [
        User::from_json(&json[0]).unwrap(),
        User::from_json(&json[1]).unwrap(),
    ];

    assert_eq!(users[0].id, Some(1));
    assert_eq!(users[0].email, Some(String::from("1@example.com")));
    assert_eq!(users[0].name, Some(String::from("Example User")));
    assert_eq!(users[0].password, Some(String::from("pass")));
    assert_eq!(users[0].public_key, Some(String::from("key").into_bytes()));

    assert_eq!(users[1].id, None);
    assert_eq!(users[1].email, None);
    assert_eq!(users[1].name, None);
    assert_eq!(users[1].password, None);
    assert_eq!(users[1].public_key, None);
}

#[test]
fn test_message_from_json() {
    let json = [
        obj(vec![
            ("id", JsonVal::Num(Some(1))),
            ("data", s("ZGF0YQ==")),
            ("mediaType", s("dGV4dC9wbGFpbg==")),
            ("timestamp", s("dGltZXN0YW1w")),
            ("signature", s("c2lnbmF0dXJl")),
            ("sender", s("1@example.com")),
        ]),
        obj(vec![]),
    ];

    let messages = [
        Message::from_json(&json[0]).unwrap(),
        Message::from_json(&json[1]).unwrap(),
    ];

    assert_eq!(messages[0].id, Some(1));
    assert_eq!(messages[0].data, Some(String::from("data").into_bytes()));
    assert_eq!(
        messages[0].media_type,
        Some(String::from("text/plain").into_bytes())
    );
    assert_eq!(
        messages[0].timestamp,
        Some(String::from("timestamp").into_bytes())
    );
    assert_eq!(
        messages[0].signature,
        Some(String::from("signature").into_bytes())
    );
    assert_eq!(messages[0].sender, Some(String::from("1@example.com")));

    assert_eq!(messages[1].id, None);
    assert_eq!(messages[1].data, None);
    assert_eq!(messages[1].media_type, None);
    assert_eq!(messages[1].timestamp, None);
    assert_eq!(messages[1].signature, None);
    assert_eq!(messages[1].sender, None);
}

#[test]
fn test_conversation_from_json() {
    let json = [
        obj(vec![
            ("id", JsonVal::Num(Some(1))),
            ("name", s("Example Conversation")),
        ]),
        obj(vec![]),
    ];

    let conversations = [
        Conversation::from_json(&json[0]).unwrap(),
        Conversation::from_json(&json[1]).unwrap(),
    ];

    assert_eq!(conversations[0].id, Some(1));
    assert_eq!(
        conversations[0].name,
        Some(String::from("Example Conversation"))
    );

    assert_eq!(conversations[1].id, None);
    assert_eq!(conversations[1].name, None);
}

#[test]
fn test_request_from_json() {
    let json = [
        "{\"function\":\"CREATE USERS\"}".to_string(),
        "{\"function\":\"READ MESSAGES\"}".to_string(),
        "{\"function\":\"UPDATE CONVERSATIONS\"}".to_string(),
        "{\"function\":\"DELETE MESSAGES\"}".to_string(),
        "{\"function\":\"VERIFY USERS\"}".to_string(),
    ];

    let requests: Vec<Request> = json
        .iter()
        .map(|req| Request::from_json(req).unwrap())
        .collect();

    assert_eq!(requests[0].operation, Operation::Create);
    assert_eq!(requests[0].target, Target::Users);

    assert_eq!(requests[1].operation, Operation::Read);
    assert_eq!(requests[1].target, Target::Messages);

    assert_eq!(requests[2].operation, Operation::Update);
    assert_eq!(requests[2].target, Target::Conversations);

    assert_eq!(requests[3].operation, Operation::Delete);
    assert_eq!(requests[3].target, Target::Messages);

    assert_eq!(requests[4].operation, Operation::Verify);
    assert_eq!(requests[4].target, Target::Users);
}

#[test]
fn function_round_trip_all_pairs() {
    let operations = ["CREATE", "READ", "UPDATE", "DELETE", "VERIFY"];
    let targets = ["USERS", "MESSAGES", "CONVERSATIONS"];
    for op in operations {
        for t in targets {
            let text = format!("{{\"function\":\"{} {}\"}}", op, t);
            let req = Request::from_json(&text).unwrap();
            let expected_op = match op {
                "CREATE" => Operation::Create,
                "READ" => Operation::Read,
                "UPDATE" => Operation::Update,
                "DELETE" => Operation::Delete,
                _ => Operation::Verify,
            };
            let expected_t = match t {
                "USERS" => Target::Users,
                "MESSAGES" => Target::Messages,
                _ => Target::Conversations,
            };
            assert_eq!(req.operation, expected_op);
            assert_eq!(req.target, expected_t);
        }
    }
}

#[test]
fn function_is_case_insensitive_and_ignores_extra_words() {
    let req = Request::from_json("{\"function\":\"create users\"}").unwrap();
    assert_eq!(req.operation, Operation::Create);
    assert_eq!(req.target, Target::Users);

    let req = Request::from_json("{\"function\":\"  Read\\tMessages now\"}").unwrap();
    assert_eq!(req.operation, Operation::Read);
    assert_eq!(req.target, Target::Messages);
}

#[test]
fn malformed_functions_fail_decoding() {
    assert_eq!(
        Request::from_json("{\"function\":\"\"}").unwrap_err(),
        ApiError::UnknownOperation
    );
    assert_eq!(
        Request::from_json("{\"function\":\"CREATE\"}").unwrap_err(),
        ApiError::UnknownTarget
    );
    assert_eq!(
        Request::from_json("{\"function\":\"FROB USERS\"}").unwrap_err(),
        ApiError::UnknownOperation
    );
    assert_eq!(
        Request::from_json("{\"function\":\"CREATE FROB\"}").unwrap_err(),
        ApiError::UnknownTarget
    );
    assert_eq!(
        Request::from_json("{\"function\":7}").unwrap_err(),
        ApiError::MalformedInput
    );
    assert_eq!(
        Request::from_json("{}").unwrap_err(),
        ApiError::MalformedInput
    );
    assert_eq!(
        Request::from_json("not json").unwrap_err(),
        ApiError::MalformedInput
    );
    // A document that is not an object has no function field.
    assert_eq!(
        Request::from_json("[1,2,3]").unwrap_err(),
        ApiError::MalformedInput
    );
    assert_eq!(
        Request::from_json("3").unwrap_err(),
        ApiError::MalformedInput
    );
}

#[test]
fn record_decode_failures() {
    // An id outside the 32-bit signed range fails the record.
    let too_big = obj(vec![("id", JsonVal::Num(Some(i64::from(i32::MAX) + 1)))]);
    assert_eq!(User::from_json(&too_big).unwrap_err(), ApiError::MalformedInput);
    // A binary field that is not base64 fails the record.
    let bad_key = obj(vec![("publicKey", s("!!not base64!!"))]);
    assert_eq!(User::from_json(&bad_key).unwrap_err(), ApiError::MalformedInput);
    let bad_data = obj(vec![("data", s("@@@"))]);
    assert_eq!(Message::from_json(&bad_data).unwrap_err(), ApiError::MalformedInput);
    // A non-integer number reads as an absent id.
    let frac = Request::from_json(
        "{\"function\":\"READ USERS\",\"conversations\":[{\"id\":3.5}]}",
    )
    .unwrap();
    assert_eq!(frac.conversations.as_ref().unwrap()[0].id, None);
}

#[test]
fn malformed_list_elements_are_dropped() {
    let req = Request::from_json(
        "{\"function\":\"CREATE USERS\",\"users\":[{\"email\":\"a@x.com\"},{\"publicKey\":\"%%%\"},{\"email\":\"b@x.com\"}]}",
    )
    .unwrap();
    let users = req.users.as_ref().unwrap();
    assert_eq!(users.len(), 2);
    assert_eq!(users[0].email, Some("a@x.com".to_string()));
    assert_eq!(users[1].email, Some("b@x.com".to_string()));
    // A list that is not an array reads as not supplied.
    let req = Request::from_json("{\"function\":\"CREATE USERS\",\"users\":\"nope\"}").unwrap();
    assert!(req.users.is_none());
}

#[test]
fn response_encoding_exact() {
    let bare = Response {
        status: 0,
        users: None,
        messages: None,
        conversations: None,
    };
    assert_eq!(
        bare.to_json(),
        "{\"status\":0,\"users\":null,\"messages\":null,\"conversations\":null}"
    );

    let with_users = Response {
        status: 1,
        users: Some(vec![User {
            id: Some(9),
            email: Some("1@example.com".to_string()),
            name: Some("Example User".to_string()),
            password: Some("secret".to_string()),
            public_key: Some(b"key".to_vec()),
        }]),
        messages: None,
        conversations: None,
    };
    // The id and the password are never echoed; the key travels as base64.
    assert_eq!(
        with_users.to_json(),
        "{\"status\":1,\"users\":[{\"email\":\"1@example.com\",\"name\":\"Example User\",\"publicKey\":\"a2V5\"}],\"messages\":null,\"conversations\":null}"
    );

    let with_conversations = Response {
        status: 1,
        users: None,
        messages: None,
        conversations: Some(vec![Conversation {
            id: Some(7),
            name: Some("Team".to_string()),
        }]),
    };
    assert_eq!(
        with_conversations.to_json(),
        "{\"status\":1,\"users\":null,\"messages\":null,\"conversations\":[{\"id\":7,\"name\":\"Team\"}]}"
    );
}

#[test]
fn record_encode_decode_round_trip() {
    let user = User {
        id: Some(3),
        email: Some("1@example.com".to_string()),
        name: Some("Example User".to_string()),
        password: Some("secret".to_string()),
        public_key: Some(vec![0u8, 255, 33, 7]),
    };
    let back = User::from_json(&user.to_json()).unwrap();
    assert_eq!(back.id, None);
    assert_eq!(back.email, user.email);
    assert_eq!(back.name, user.name);
    assert_eq!(back.password, None);
    assert_eq!(back.public_key, user.public_key);

    let message = Message {
        id: Some(4),
        data: Some(b"data".to_vec()),
        media_type: Some(b"text/plain".to_vec()),
        timestamp: Some(b"timestamp".to_vec()),
        signature: Some(vec![1u8, 2, 3]),
        sender: Some("1@example.com".to_string()),
    };
    let back = Message::from_json(&message.to_json()).unwrap();
    assert_eq!(back.id, None);
    assert_eq!(back.data, message.data);
    assert_eq!(back.media_type, message.media_type);
    assert_eq!(back.timestamp, message.timestamp);
    assert_eq!(back.signature, message.signature);
    assert_eq!(back.sender, message.sender);

    let conversation = Conversation {
        id: Some(12),
        name: Some("Team".to_string()),
    };
    let back = Conversation::from_json(&conversation.to_json()).unwrap();
    assert_eq!(back.id, conversation.id);
    assert_eq!(back.name, conversation.name);

    // Absent fields stay absent through the round trip.
    let empty = User {
        id: None,
        email: None,
        name: None,
        password: None,
        public_key: None,
    };
    let back = User::from_json(&empty.to_json()).unwrap();
    assert_eq!(back.email, None);
    assert_eq!(back.name, None);
    assert_eq!(back.public_key, None);
}
