//! The payload records of the protocol: users, messages and conversations.
//!
//! Every field is independently optional: a handler checks presence itself
//! and fails with a descriptive error rather than assume structure. Binary
//! fields travel base64-encoded on the wire; numeric ids must fit a 32-bit
//! signed range.

pub mod request;
pub mod response;

use vstd::prelude::*;

verus! {

use crate::error::ApiError;
use crate::wire::JsonV;
use crate::wire::JsonVal;
use crate::wire::jfield;
use crate::wire::jm_fields;
use crate::wire::obj_get_from;
use crate::wire::b64_of;
use crate::wire::b64_decode_of;
use crate::wire::b64_decode;
use crate::wire::b64_encode;

/// A user record.
#[derive(Clone, Debug)]
pub struct User {
    pub id: Option<i32>,
    pub email: Option<String>,
    pub name: Option<String>,
    pub password: Option<String>,
    pub public_key: Option<Vec<u8>>,
}

/// The mathematical shape of a [`User`].
pub struct UserV {
    pub id: Option<i32>,
    pub email: Option<Seq<char>>,
    pub name: Option<Seq<char>>,
    pub password: Option<Seq<char>>,
    pub public_key: Option<Seq<u8>>,
}

impl View for User {
    type V = UserV;

    open spec fn view(&self) -> UserV {
        UserV {
            id: self.id,
            email: match self.email {
                Some(s) => Some(s@),
                None => None,
            },
            name: match self.name {
                Some(s) => Some(s@),
                None => None,
            },
            password: match self.password {
                Some(s) => Some(s@),
                None => None,
            },
            public_key: match self.public_key {
                Some(b) => Some(b@),
                None => None,
            },
        }
    }
}

/// A message record.
#[derive(Debug)]
pub struct Message {
    pub id: Option<i32>,
    pub data: Option<Vec<u8>>,
    pub media_type: Option<Vec<u8>>,
    pub timestamp: Option<Vec<u8>>,
    pub signature: Option<Vec<u8>>,
    pub sender: Option<String>,
}

/// The mathematical shape of a [`Message`].
pub struct MessageV {
    pub id: Option<i32>,
    pub data: Option<Seq<u8>>,
    pub media_type: Option<Seq<u8>>,
    pub timestamp: Option<Seq<u8>>,
    pub signature: Option<Seq<u8>>,
    pub sender: Option<Seq<char>>,
}

impl View for Message {
    type V = MessageV;

    open spec fn view(&self) -> MessageV {
        MessageV {
            id: self.id,
            data: match self.data {
                Some(b) => Some(b@),
                None => None,
            },
            media_type: match self.media_type {
                Some(b) => Some(b@),
                None => None,
            },
            timestamp: match self.timestamp {
                Some(b) => Some(b@),
                None => None,
            },
            signature: match self.signature {
                Some(b) => Some(b@),
                None => None,
            },
            sender: match self.sender {
                Some(s) => Some(s@),
                None => None,
            },
        }
    }
}

/// A conversation record.
#[derive(Clone, Debug)]
pub struct Conversation {
    pub id: Option<i32>,
    pub name: Option<String>,
}

/// The mathematical shape of a [`Conversation`].
pub struct ConversationV {
    pub id: Option<i32>,
    pub name: Option<Seq<char>>,
}

impl View for Conversation {
    type V = ConversationV;

    open spec fn view(&self) -> ConversationV {
        ConversationV {
            id: self.id,
            name: match self.name {
                Some(s) => Some(s@),
                None => None,
            },
        }
    }
}

/// Whether an `i64` fits the 32-bit signed range the records use for ids.
pub open spec fn fits_i32(i: i64) -> bool {
    i32::MIN <= i <= i32::MAX
}

/// An optional id field: a number carrying an in-range integer, anything
/// else reads as absent.
pub open spec fn spec_opt_id(f: JsonV) -> Option<i32> {
    match f {
        JsonV::Num(n) => match n {
            Some(i) => if fits_i32(i) {
                Some(i as i32)
            } else {
                None
            },
            None => None,
        },
        _ => None,
    }
}

/// An optional text field: a string reads as present, anything else as
/// absent.
pub open spec fn spec_opt_text(f: JsonV) -> Option<Seq<char>> {
    match f {
        JsonV::Str(s) => Some(s),
        _ => None,
    }
}

/// A present id field holding an integer the records cannot carry: the
/// whole record is malformed.
pub open spec fn id_overflows(f: JsonV) -> bool {
    f matches JsonV::Num(n) && n matches Some(i) && !fits_i32(i)
}

/// A binary field holding a string that is not base64: the whole record is
/// malformed.
pub open spec fn bad_b64(f: JsonV) -> bool {
    f matches JsonV::Str(s) && b64_decode_of(s) is None
}

/// An optional binary field: a base64 string reads as the bytes it encodes,
/// anything else as absent. Meaningful only where [`bad_b64`] does not hold.
pub open spec fn spec_opt_bytes(f: JsonV) -> Option<Seq<u8>> {
    match f {
        JsonV::Str(s) => Some(b64_decode_of(s)->0),
        _ => None,
    }
}

/// What decoding a user record from a document gives: `None` when the
/// record is malformed (id overflow or bad base64), otherwise the record
/// with each field read leniently.
pub open spec fn spec_user_from_json(j: JsonV) -> Option<UserV> {
    let idf = jfield(j, "id"@);
    let pkf = jfield(j, "publicKey"@);
    if id_overflows(idf) || bad_b64(pkf) {
        None
    } else {
        Some(
            UserV {
                id: spec_opt_id(idf),
                email: spec_opt_text(jfield(j, "email"@)),
                name: spec_opt_text(jfield(j, "name"@)),
                password: spec_opt_text(jfield(j, "password"@)),
                public_key: spec_opt_bytes(pkf),
            },
        )
    }
}

/// What decoding a message record from a document gives.
pub open spec fn spec_message_from_json(j: JsonV) -> Option<MessageV> {
    let idf = jfield(j, "id"@);
    let dataf = jfield(j, "data"@);
    let mtf = jfield(j, "mediaType"@);
    let tsf = jfield(j, "timestamp"@);
    let sigf = jfield(j, "signature"@);
    if id_overflows(idf) || bad_b64(dataf) || bad_b64(mtf) || bad_b64(tsf) || bad_b64(sigf) {
        None
    } else {
        Some(
            MessageV {
                id: spec_opt_id(idf),
                data: spec_opt_bytes(dataf),
                media_type: spec_opt_bytes(mtf),
                timestamp: spec_opt_bytes(tsf),
                signature: spec_opt_bytes(sigf),
                sender: spec_opt_text(jfield(j, "sender"@)),
            },
        )
    }
}

/// What decoding a conversation record from a document gives.
pub open spec fn spec_conversation_from_json(j: JsonV) -> Option<ConversationV> {
    let idf = jfield(j, "id"@);
    if id_overflows(idf) {
        None
    } else {
        Some(
            ConversationV { id: spec_opt_id(idf), name: spec_opt_text(jfield(j, "name"@)) },
        )
    }
}

/// Read an optional id field of a record document.
fn get_id(data: &JsonVal) -> (r: Result<Option<i32>, ApiError>)
    ensures
        !id_overflows(jfield(data.jm(), "id"@)) ==> r == Ok::<Option<i32>, ApiError>(
            spec_opt_id(jfield(data.jm(), "id"@)),
        ),
        id_overflows(jfield(data.jm(), "id"@)) ==> r == Err::<Option<i32>, ApiError>(
            ApiError::MalformedInput,
        ),
{
    match data.get("id") {
        Some(v) => match v {
            JsonVal::Num(n) => match n {
                Some(i) => {
                    if *i < i32::MIN as i64 || *i > i32::MAX as i64 {
                        Err(ApiError::MalformedInput)
                    } else {
                        Ok(Some(*i as i32))
                    }
                },
                None => Ok(None),
            },
            _ => Ok(None),
        },
        None => Ok(None),
    }
}

/// Read an optional text field of a record document.
fn get_text(data: &JsonVal, key: &str) -> (r: Option<String>)
    ensures
        r matches Some(s) ==> spec_opt_text(jfield(data.jm(), key@)) == Some(s@),
        r is None ==> spec_opt_text(jfield(data.jm(), key@)) is None,
{
    match data.get(key) {
        Some(v) => match v {
            JsonVal::Str(s) => Some(s.clone()),
            _ => None,
        },
        None => None,
    }
}

/// Read an optional binary field of a record document, base64-encoded on
/// the wire.
fn get_bytes(data: &JsonVal, key: &str) -> (r: Result<Option<Vec<u8>>, ApiError>)
    ensures
        !bad_b64(jfield(data.jm(), key@)) ==> match r {
            Ok(Some(b)) => spec_opt_bytes(jfield(data.jm(), key@)) == Some(b@),
            Ok(None) => spec_opt_bytes(jfield(data.jm(), key@)) is None,
            Err(_) => false,
        },
        bad_b64(jfield(data.jm(), key@)) ==> r == Err::<Option<Vec<u8>>, ApiError>(
            ApiError::MalformedInput,
        ),
{
    match data.get(key) {
        Some(v) => match v {
            JsonVal::Str(s) => match b64_decode(s.as_str()) {
                Some(b) => Ok(Some(b)),
                None => Err(ApiError::MalformedInput),
            },
            _ => Ok(None),
        },
        None => Ok(None),
    }
}

impl User {
    /// Create a user record from a document.
    pub fn from_json(data: &JsonVal) -> (r: Result<User, ApiError>)
        ensures
            spec_user_from_json(data.jm()) matches Some(u) ==> (r matches Ok(ru) && ru@ == u),
            spec_user_from_json(data.jm()) is None ==> r == Err::<User, ApiError>(
                ApiError::MalformedInput,
            ),
    {
        let id = match get_id(data) {
            Ok(v) => v,
            Err(e) => {
                return Err(e);
            },
        };
        let public_key = match get_bytes(data, "publicKey") {
            Ok(v) => v,
            Err(e) => {
                return Err(e);
            },
        };
        Ok(
            User {
                id,
                email: get_text(data, "email"),
                name: get_text(data, "name"),
                password: get_text(data, "password"),
                public_key,
            },
        )
    }
}

impl Message {
    /// Create a message record from a document.
    pub fn from_json(data: &JsonVal) -> (r: Result<Message, ApiError>)
        ensures
            spec_message_from_json(data.jm()) matches Some(m) ==> (r matches Ok(rm) && rm@ == m),
            spec_message_from_json(data.jm()) is None ==> r == Err::<Message, ApiError>(
                ApiError::MalformedInput,
            ),
    {
        let id = match get_id(data) {
            Ok(v) => v,
            Err(e) => {
                return Err(e);
            },
        };
        let data_field = match get_bytes(data, "data") {
            Ok(v) => v,
            Err(e) => {
                return Err(e);
            },
        };
        let media_type = match get_bytes(data, "mediaType") {
            Ok(v) => v,
            Err(e) => {
                return Err(e);
            },
        };
        let timestamp = match get_bytes(data, "timestamp") {
            Ok(v) => v,
            Err(e) => {
                return Err(e);
            },
        };
        let signature = match get_bytes(data, "signature") {
            Ok(v) => v,
            Err(e) => {
                return Err(e);
            },
        };
        Ok(
            Message {
                id,
                data: data_field,
                media_type,
                timestamp,
                signature,
                sender: get_text(data, "sender"),
            },
        )
    }
}

/// An optional text field as a response carries it: the string, or null.
pub open spec fn opt_text_json(s: Option<Seq<char>>) -> JsonV {
    match s {
        Some(t) => JsonV::Str(t),
        None => JsonV::Null,
    }
}

/// An optional binary field as a response carries it: base64 text, or null.
pub open spec fn opt_bytes_json(b: Option<Seq<u8>>) -> JsonV {
    match b {
        Some(t) => JsonV::Str(b64_of(t)),
        None => JsonV::Null,
    }
}

/// An optional id field as a response carries it: the number, or null.
pub open spec fn opt_id_json(i: Option<i32>) -> JsonV {
    match i {
        Some(v) => JsonV::Num(Some(v as i64)),
        None => JsonV::Null,
    }
}

/// A user record as a response carries it: email, display name and public
/// key; the id and the password are never echoed back.
pub open spec fn spec_user_to_json(u: UserV) -> JsonV {
    JsonV::Obj(
        seq![
            ("email"@, opt_text_json(u.email)),
            ("name"@, opt_text_json(u.name)),
            ("publicKey"@, opt_bytes_json(u.public_key)),
        ],
    )
}

/// A message record as a response carries it; the id is never echoed back.
pub open spec fn spec_message_to_json(m: MessageV) -> JsonV {
    JsonV::Obj(
        seq![
            ("data"@, opt_bytes_json(m.data)),
            ("mediaType"@, opt_bytes_json(m.media_type)),
            ("timestamp"@, opt_bytes_json(m.timestamp)),
            ("signature"@, opt_bytes_json(m.signature)),
            ("sender"@, opt_text_json(m.sender)),
        ],
    )
}

/// A conversation record as a response carries it: id and name, whole.
pub open spec fn spec_conversation_to_json(c: ConversationV) -> JsonV {
    JsonV::Obj(seq![("id"@, opt_id_json(c.id)), ("name"@, opt_text_json(c.name))])
}

/// A user record with the fields a response never carries blanked out:
/// decoding an encoded record gives exactly this.
pub open spec fn spec_user_echo(u: UserV) -> UserV {
    UserV { id: None, password: None, ..u }
}

/// A message record with the id a response never carries blanked out.
pub open spec fn spec_message_echo(m: MessageV) -> MessageV {
    MessageV { id: None, ..m }
}

/// Encode an optional text field.
fn text_to_json(s: &Option<String>) -> (r: JsonVal)
    ensures
        r.jm() == opt_text_json(
            match s {
                Some(t) => Some(t@),
                None => None::<Seq<char>>,
            },
        ),
{
    match s {
        Some(t) => JsonVal::Str(t.clone()),
        None => JsonVal::Null,
    }
}

/// Encode an optional binary field as base64 text.
fn bytes_to_json(b: &Option<Vec<u8>>) -> (r: JsonVal)
    ensures
        r.jm() == opt_bytes_json(
            match b {
                Some(t) => Some(t@),
                None => None::<Seq<u8>>,
            },
        ),
        (b matches Some(t) ==> b64_decode_of(b64_of(t@)) == Some(t@)),
{
    match b {
        Some(t) => JsonVal::Str(b64_encode(t.as_slice())),
        None => JsonVal::Null,
    }
}

impl User {
    /// This user record as a response document. Decoding the result gives
    /// the record back, with the fields a response never carries absent.
    pub fn to_json(&self) -> (r: JsonVal)
        ensures
            r.jm() == spec_user_to_json(self@),
            spec_user_from_json(r.jm()) == Some(spec_user_echo(self@)),
    {
        let email_j = text_to_json(&self.email);
        let name_j = text_to_json(&self.name);
        let pk_j = bytes_to_json(&self.public_key);
        let mut fields: Vec<(String, JsonVal)> = Vec::new();
        fields.push(("email".to_owned(), email_j));
        fields.push(("name".to_owned(), name_j));
        fields.push(("publicKey".to_owned(), pk_j));
        let r = JsonVal::Obj(fields);
        proof {
            crate::wire::lemma_jm_fields(fields@);
            assert(jm_fields(fields@) =~= spec_user_to_json(self@)->Obj_0);
            lemma_user_echo(self@);
        }
        r
    }
}

/// Decoding an encoded user record gives the record back, with the id and
/// the password absent, provided the base64 text of its key decodes back
/// (which [`bytes_to_json`] guarantees of the text it produces).
proof fn lemma_user_echo(u: UserV)
    requires
        u.public_key matches Some(t) ==> b64_decode_of(b64_of(t)) == Some(t),
    ensures
        spec_user_from_json(spec_user_to_json(u)) == Some(spec_user_echo(u)),
{
    reveal_strlit("id");
    reveal_strlit("email");
    reveal_strlit("name");
    reveal_strlit("password");
    reveal_strlit("publicKey");
    reveal_with_fuel(obj_get_from, 5);
    assert("id"@.len() == 2 && "email"@.len() == 5 && "name"@.len() == 4 && "password"@.len() == 8
        && "publicKey"@.len() == 9);
    let o = spec_user_to_json(u)->Obj_0;
    assert(obj_get_from(o, "id"@, 0) is None);
    assert(obj_get_from(o, "password"@, 0) is None);
    assert(obj_get_from(o, "email"@, 0) == Some(opt_text_json(u.email)));
    assert(obj_get_from(o, "name"@, 0) == Some(opt_text_json(u.name)));
    assert(obj_get_from(o, "publicKey"@, 0) == Some(opt_bytes_json(u.public_key)));
}

impl Message {
    /// This message record as a response document. Decoding the result
    /// gives the record back, with the id a response never carries absent.
    pub fn to_json(&self) -> (r: JsonVal)
        ensures
            r.jm() == spec_message_to_json(self@),
            spec_message_from_json(r.jm()) == Some(spec_message_echo(self@)),
    {
        let data_j = bytes_to_json(&self.data);
        let mt_j = bytes_to_json(&self.media_type);
        let ts_j = bytes_to_json(&self.timestamp);
        let sig_j = bytes_to_json(&self.signature);
        let sender_j = text_to_json(&self.sender);
        let mut fields: Vec<(String, JsonVal)> = Vec::new();
        fields.push(("data".to_owned(), data_j));
        fields.push(("mediaType".to_owned(), mt_j));
        fields.push(("timestamp".to_owned(), ts_j));
        fields.push(("signature".to_owned(), sig_j));
        fields.push(("sender".to_owned(), sender_j));
        let r = JsonVal::Obj(fields);
        proof {
            crate::wire::lemma_jm_fields(fields@);
            assert(jm_fields(fields@) =~= spec_message_to_json(self@)->Obj_0);
            lemma_message_echo(self@);
        }
        r
    }
}

/// Decoding an encoded message record gives the record back, with the id
/// absent, provided the base64 text of its binary fields decodes back.
proof fn lemma_message_echo(m: MessageV)
    requires
        m.data matches Some(t) ==> b64_decode_of(b64_of(t)) == Some(t),
        m.media_type matches Some(t) ==> b64_decode_of(b64_of(t)) == Some(t),
        m.timestamp matches Some(t) ==> b64_decode_of(b64_of(t)) == Some(t),
        m.signature matches Some(t) ==> b64_decode_of(b64_of(t)) == Some(t),
    ensures
        spec_message_from_json(spec_message_to_json(m)) == Some(spec_message_echo(m)),
{
    reveal_strlit("id");
    reveal_strlit("data");
    reveal_strlit("mediaType");
    reveal_strlit("timestamp");
    reveal_strlit("signature");
    reveal_strlit("sender");
    reveal_with_fuel(obj_get_from, 7);
    assert("id"@.len() == 2 && "data"@.len() == 4 && "mediaType"@.len() == 9 && "timestamp"@.len()
        == 9 && "signature"@.len() == 9 && "sender"@.len() == 6);
    assert("mediaType"@[0] != "timestamp"@[0] && "mediaType"@[0] != "signature"@[0]
        && "timestamp"@[0] != "signature"@[0]);
    let o = spec_message_to_json(m)->Obj_0;
    assert(obj_get_from(o, "id"@, 0) is None);
    assert(obj_get_from(o, "data"@, 0) == Some(opt_bytes_json(m.data)));
    assert(obj_get_from(o, "mediaType"@, 0) == Some(opt_bytes_json(m.media_type)));
    assert(obj_get_from(o, "timestamp"@, 0) == Some(opt_bytes_json(m.timestamp)));
    assert(obj_get_from(o, "signature"@, 0) == Some(opt_bytes_json(m.signature)));
    assert(obj_get_from(o, "sender"@, 0) == Some(opt_text_json(m.sender)));
}

impl Conversation {
    /// This conversation record as a response document. Decoding the
    /// result gives the record back, whole.
    pub fn to_json(&self) -> (r: JsonVal)
        ensures
            r.jm() == spec_conversation_to_json(self@),
            spec_conversation_from_json(r.jm()) == Some(self@),
    {
        let id_j = match self.id {
            Some(i) => JsonVal::Num(Some(i as i64)),
            None => JsonVal::Null,
        };
        let name_j = text_to_json(&self.name);
        let mut fields: Vec<(String, JsonVal)> = Vec::new();
        fields.push(("id".to_owned(), id_j));
        fields.push(("name".to_owned(), name_j));
        let r = JsonVal::Obj(fields);
        proof {
            crate::wire::lemma_jm_fields(fields@);
            assert(jm_fields(fields@) =~= spec_conversation_to_json(self@)->Obj_0);
            lemma_conversation_echo(self@);
        }
        r
    }
}

/// Decoding an encoded conversation record gives the record back, whole.
proof fn lemma_conversation_echo(c: ConversationV)
    ensures
        spec_conversation_from_json(spec_conversation_to_json(c)) == Some(c),
{
    reveal_strlit("id");
    reveal_strlit("name");
    reveal_with_fuel(obj_get_from, 4);
    assert("id"@.len() == 2 && "name"@.len() == 4);
    let o = spec_conversation_to_json(c)->Obj_0;
    assert(obj_get_from(o, "id"@, 0) == Some(opt_id_json(c.id)));
    assert(obj_get_from(o, "name"@, 0) == Some(opt_text_json(c.name)));
}

impl Conversation {
    /// Create a conversation record from a document.
    pub fn from_json(data: &JsonVal) -> (r: Result<Conversation, ApiError>)
        ensures
            spec_conversation_from_json(data.jm()) matches Some(c) ==> (r matches Ok(rc) && rc@
                == c),
            spec_conversation_from_json(data.jm()) is None ==> r == Err::<Conversation, ApiError>(
                ApiError::MalformedInput,
            ),
    {
        let id = match get_id(data) {
            Ok(v) => v,
            Err(e) => {
                return Err(e);
            },
        };
        Ok(Conversation { id, name: get_text(data, "name") })
    }
}

} // verus!
