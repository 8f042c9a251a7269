//! The canonical form of a response, and its encoding to the wire.
//!
//! A response is one JSON document `{"status": 0|1, "users": ...,
//! "messages": ..., "conversations": ...}`. All three result slots are
//! always present, null when unused; binary record fields are carried as
//! base64 strings. Decoding the encoded records with the request-side
//! decoders gives the records back, less the fields a response never
//! carries (user ids and passwords, message ids).

use vstd::prelude::*;

verus! {

use crate::wire::JsonV;
use crate::wire::JsonVal;
use crate::wire::jfield;
use crate::wire::jm_elems;
use crate::wire::jm_fields;
use crate::wire::obj_get_from;
use crate::wire::lemma_jm_elems;
use crate::wire::lemma_jm_fields;
use crate::wire::encodable;
use crate::wire::distinct_keys;
use crate::wire::json_of;
use crate::wire::render_json;
use crate::api::User;
use crate::api::UserV;
use crate::api::Message;
use crate::api::MessageV;
use crate::api::Conversation;
use crate::api::ConversationV;
use crate::api::spec_user_to_json;
use crate::api::spec_message_to_json;
use crate::api::spec_conversation_to_json;
use crate::api::opt_id_json;
use crate::api::spec_user_from_json;
use crate::api::spec_message_from_json;
use crate::api::spec_conversation_from_json;
use crate::api::spec_user_echo;
use crate::api::spec_message_echo;
use crate::api::request::spec_user_list_from;
use crate::api::request::spec_message_list_from;
use crate::api::request::spec_conversation_list_from;
use crate::api::request::spec_user_list_field;
use crate::api::request::spec_message_list_field;
use crate::api::request::spec_conversation_list_field;

/// A response: a status (1 for success, 0 for failure), and the result
/// lists a read may carry back.
#[derive(Debug)]
pub struct Response {
    pub status: u8,
    pub users: Option<Vec<User>>,
    pub messages: Option<Vec<Message>>,
    pub conversations: Option<Vec<Conversation>>,
}

/// The mathematical shape of a [`Response`].
pub struct ResponseV {
    pub status: u8,
    pub users: Option<Seq<UserV>>,
    pub messages: Option<Seq<MessageV>>,
    pub conversations: Option<Seq<ConversationV>>,
}

impl View for Response {
    type V = ResponseV;

    open spec fn view(&self) -> ResponseV {
        ResponseV {
            status: self.status,
            users: match self.users {
                Some(v) => Some(v@.map_values(|u: User| u@)),
                None => None,
            },
            messages: match self.messages {
                Some(v) => Some(v@.map_values(|m: Message| m@)),
                None => None,
            },
            conversations: match self.conversations {
                Some(v) => Some(v@.map_values(|c: Conversation| c@)),
                None => None,
            },
        }
    }
}

/// The documents of a list of user records, in order.
pub open spec fn users_json_list(us: Seq<UserV>) -> Seq<JsonV> {
    us.map_values(|u: UserV| spec_user_to_json(u))
}

/// The documents of a list of message records, in order.
pub open spec fn messages_json_list(ms: Seq<MessageV>) -> Seq<JsonV> {
    ms.map_values(|m: MessageV| spec_message_to_json(m))
}

/// The documents of a list of conversation records, in order.
pub open spec fn conversations_json_list(cs: Seq<ConversationV>) -> Seq<JsonV> {
    cs.map_values(|c: ConversationV| spec_conversation_to_json(c))
}

/// A list of user records, each less the fields a response never carries.
pub open spec fn users_echo(us: Seq<UserV>) -> Seq<UserV> {
    us.map_values(|u: UserV| spec_user_echo(u))
}

/// A list of message records, each less the id.
pub open spec fn messages_echo(ms: Seq<MessageV>) -> Seq<MessageV> {
    ms.map_values(|m: MessageV| spec_message_echo(m))
}

/// A result slot of the response document: the record list, or null when
/// the slot is unused.
pub open spec fn spec_users_slot(us: Option<Seq<UserV>>) -> JsonV {
    match us {
        Some(l) => JsonV::Arr(users_json_list(l)),
        None => JsonV::Null,
    }
}

/// See [`spec_users_slot`].
pub open spec fn spec_messages_slot(ms: Option<Seq<MessageV>>) -> JsonV {
    match ms {
        Some(l) => JsonV::Arr(messages_json_list(l)),
        None => JsonV::Null,
    }
}

/// See [`spec_users_slot`].
pub open spec fn spec_conversations_slot(cs: Option<Seq<ConversationV>>) -> JsonV {
    match cs {
        Some(l) => JsonV::Arr(conversations_json_list(l)),
        None => JsonV::Null,
    }
}

/// The whole response document.
pub open spec fn spec_response_json(r: ResponseV) -> JsonV {
    JsonV::Obj(
        seq![
            ("status"@, JsonV::Num(Some(r.status as i64))),
            ("users"@, spec_users_slot(r.users)),
            ("messages"@, spec_messages_slot(r.messages)),
            ("conversations"@, spec_conversations_slot(r.conversations)),
        ],
    )
}

/// An element-wise decode over an array whose every element decodes keeps
/// every element, in order.
proof fn lemma_user_list_all_ok(a: Seq<JsonV>, bs: Seq<UserV>, i: int)
    requires
        0 <= i <= a.len(),
        a.len() == bs.len(),
        forall|k: int| i <= k < a.len() ==> spec_user_from_json(a[k]) == Some(bs[k]),
    ensures
        spec_user_list_from(a, i) == bs.skip(i),
    decreases a.len() - i,
{
    if i < a.len() {
        lemma_user_list_all_ok(a, bs, i + 1);
        assert(spec_user_list_from(a, i) =~= bs.skip(i));
    } else {
        assert(spec_user_list_from(a, i) =~= bs.skip(i));
    }
}

/// See [`lemma_user_list_all_ok`].
proof fn lemma_message_list_all_ok(a: Seq<JsonV>, bs: Seq<MessageV>, i: int)
    requires
        0 <= i <= a.len(),
        a.len() == bs.len(),
        forall|k: int| i <= k < a.len() ==> spec_message_from_json(a[k]) == Some(bs[k]),
    ensures
        spec_message_list_from(a, i) == bs.skip(i),
    decreases a.len() - i,
{
    if i < a.len() {
        lemma_message_list_all_ok(a, bs, i + 1);
        assert(spec_message_list_from(a, i) =~= bs.skip(i));
    } else {
        assert(spec_message_list_from(a, i) =~= bs.skip(i));
    }
}

/// See [`lemma_user_list_all_ok`].
proof fn lemma_conversation_list_all_ok(a: Seq<JsonV>, bs: Seq<ConversationV>, i: int)
    requires
        0 <= i <= a.len(),
        a.len() == bs.len(),
        forall|k: int| i <= k < a.len() ==> spec_conversation_from_json(a[k]) == Some(bs[k]),
    ensures
        spec_conversation_list_from(a, i) == bs.skip(i),
    decreases a.len() - i,
{
    if i < a.len() {
        lemma_conversation_list_all_ok(a, bs, i + 1);
        assert(spec_conversation_list_from(a, i) =~= bs.skip(i));
    } else {
        assert(spec_conversation_list_from(a, i) =~= bs.skip(i));
    }
}

/// A user record document can always be printed and parsed back.
proof fn lemma_user_json_encodable(u: UserV, d: nat)
    requires
        d >= 1,
    ensures
        encodable(spec_user_to_json(u), d),
{
    reveal_strlit("email");
    reveal_strlit("name");
    reveal_strlit("publicKey");
    assert("email"@.len() == 5 && "name"@.len() == 4 && "publicKey"@.len() == 9);
    let o = spec_user_to_json(u)->Obj_0;
    assert(distinct_keys(o));
    assert forall|i: int| 0 <= i < o.len() implies encodable(#[trigger] o[i].1, (d - 1) as nat) by {
        assert(!(o[i].1 is Arr) && !(o[i].1 is Obj) && !(o[i].1 is Num));
    }
}

/// A message record document can always be printed and parsed back.
proof fn lemma_message_json_encodable(m: MessageV, d: nat)
    requires
        d >= 1,
    ensures
        encodable(spec_message_to_json(m), d),
{
    reveal_strlit("data");
    reveal_strlit("mediaType");
    reveal_strlit("timestamp");
    reveal_strlit("signature");
    reveal_strlit("sender");
    assert("data"@.len() == 4 && "mediaType"@.len() == 9 && "timestamp"@.len() == 9
        && "signature"@.len() == 9 && "sender"@.len() == 6);
    assert("mediaType"@[0] != "timestamp"@[0] && "mediaType"@[0] != "signature"@[0]
        && "timestamp"@[0] != "signature"@[0]);
    let o = spec_message_to_json(m)->Obj_0;
    assert(distinct_keys(o));
    assert forall|i: int| 0 <= i < o.len() implies encodable(#[trigger] o[i].1, (d - 1) as nat) by {
        assert(!(o[i].1 is Arr) && !(o[i].1 is Obj) && !(o[i].1 is Num));
    }
}

/// A conversation record document can always be printed and parsed back.
proof fn lemma_conversation_json_encodable(c: ConversationV, d: nat)
    requires
        d >= 1,
    ensures
        encodable(spec_conversation_to_json(c), d),
{
    reveal_strlit("id");
    reveal_strlit("name");
    assert("id"@.len() == 2 && "name"@.len() == 4);
    let o = spec_conversation_to_json(c)->Obj_0;
    assert(distinct_keys(o));
    assert forall|i: int| 0 <= i < o.len() implies encodable(#[trigger] o[i].1, (d - 1) as nat) by {
        assert(!(o[i].1 is Arr) && !(o[i].1 is Obj));
        assert(o[i].1 is Num ==> o[i].1 == opt_id_json(c.id) && (o[i].1->Num_0) is Some);
    }
}

/// A response document can always be printed and parsed back.
proof fn lemma_response_encodable(r: ResponseV, d: nat)
    requires
        d >= 3,
    ensures
        encodable(spec_response_json(r), d),
{
    reveal_strlit("status");
    reveal_strlit("users");
    reveal_strlit("messages");
    reveal_strlit("conversations");
    assert("status"@.len() == 6 && "users"@.len() == 5 && "messages"@.len() == 8
        && "conversations"@.len() == 13);
    let o = spec_response_json(r)->Obj_0;
    assert(distinct_keys(o));
    match r.users {
        Some(us) => {
        let a = users_json_list(us);
        assert forall|i: int| 0 <= i < a.len() implies encodable(
            #[trigger] a[i],
            (d - 2) as nat,
        ) by {
            lemma_user_json_encodable(us[i], (d - 2) as nat);
        }
        assert(encodable(spec_users_slot(r.users), (d - 1) as nat));
        },
        None => {},
    }
    match r.messages {
        Some(ms) => {
        let a = messages_json_list(ms);
        assert forall|i: int| 0 <= i < a.len() implies encodable(
            #[trigger] a[i],
            (d - 2) as nat,
        ) by {
            lemma_message_json_encodable(ms[i], (d - 2) as nat);
        }
        assert(encodable(spec_messages_slot(r.messages), (d - 1) as nat));
        },
        None => {},
    }
    match r.conversations {
        Some(cs) => {
        let a = conversations_json_list(cs);
        assert forall|i: int| 0 <= i < a.len() implies encodable(
            #[trigger] a[i],
            (d - 2) as nat,
        ) by {
            lemma_conversation_json_encodable(cs[i], (d - 2) as nat);
        }
        assert(encodable(spec_conversations_slot(r.conversations), (d - 1) as nat));
        },
        None => {},
    }
    assert(encodable(spec_users_slot(r.users), (d - 1) as nat));
    assert(encodable(spec_messages_slot(r.messages), (d - 1) as nat));
    assert(encodable(spec_conversations_slot(r.conversations), (d - 1) as nat));
    assert forall|i: int| 0 <= i < o.len() implies encodable(#[trigger] o[i].1, (d - 1) as nat) by {
    }
}

impl Response {
    /// A bare success: status 1, no result lists.
    pub fn success() -> (r: Response)
        ensures
            r.status == 1,
            r.users is None,
            r.messages is None,
            r.conversations is None,
    {
        Response { status: 1, users: None, messages: None, conversations: None }
    }

    /// The default failure: status 0, no result lists. Every error a
    /// request runs into becomes this on the wire; the detail is logged,
    /// never sent.
    pub fn failure() -> (r: Response)
        ensures
            r.status == 0,
            r.users is None,
            r.messages is None,
            r.conversations is None,
    {
        Response { status: 0, users: None, messages: None, conversations: None }
    }

    /// Format this response as JSON text. The text parses back to exactly
    /// the response document, and decoding the records of each result slot
    /// with the request-side decoders gives the records back, less the
    /// fields a response never carries.
    pub fn to_json(&self) -> (r: String)
        ensures
            json_of(r@) == Some(spec_response_json(self@)),
            jfield(spec_response_json(self@), "status"@) == JsonV::Num(Some(self.status as i64)),
            jfield(spec_response_json(self@), "users"@) == spec_users_slot(self@.users),
            jfield(spec_response_json(self@), "messages"@) == spec_messages_slot(self@.messages),
            jfield(spec_response_json(self@), "conversations"@) == spec_conversations_slot(
                self@.conversations,
            ),
            self.users matches Some(v) ==> spec_user_list_field(spec_users_slot(self@.users))
                == Some(users_echo(v@.map_values(|u: User| u@))),
            self.messages matches Some(v) ==> spec_message_list_field(
                spec_messages_slot(self@.messages),
            ) == Some(messages_echo(v@.map_values(|m: Message| m@))),
            self.conversations matches Some(v) ==> spec_conversation_list_field(
                spec_conversations_slot(self@.conversations),
            ) == Some(v@.map_values(|c: Conversation| c@)),
    {
        let users = self.users_to_json();
        let messages = self.messages_to_json();
        let conversations = self.conversations_to_json();
        let mut fields: Vec<(String, JsonVal)> = Vec::new();
        fields.push(("status".to_owned(), JsonVal::Num(Some(self.status as i64))));
        fields.push(("users".to_owned(), users));
        fields.push(("messages".to_owned(), messages));
        fields.push(("conversations".to_owned(), conversations));
        let doc = JsonVal::Obj(fields);
        proof {
            lemma_jm_fields(fields@);
            assert(jm_fields(fields@) =~= spec_response_json(self@)->Obj_0);
            lemma_response_encodable(self@, 100);
            reveal_strlit("status");
            reveal_strlit("users");
            reveal_strlit("messages");
            reveal_strlit("conversations");
            reveal_with_fuel(obj_get_from, 6);
            assert("status"@.len() == 6 && "users"@.len() == 5 && "messages"@.len() == 8
                && "conversations"@.len() == 13);
            let o = spec_response_json(self@)->Obj_0;
            assert(obj_get_from(o, "status"@, 0) == Some(JsonV::Num(Some(self.status as i64))));
            assert(obj_get_from(o, "users"@, 0) == Some(spec_users_slot(self@.users)));
            assert(obj_get_from(o, "messages"@, 0) == Some(spec_messages_slot(self@.messages)));
            assert(obj_get_from(o, "conversations"@, 0) == Some(
                spec_conversations_slot(self@.conversations),
            ));
        }
        render_json(&doc)
    }

    /// Format the user list as a response slot.
    fn users_to_json(&self) -> (r: JsonVal)
        ensures
            r.jm() == spec_users_slot(self@.users),
            self.users matches Some(v) ==> spec_user_list_field(r.jm()) == Some(
                users_echo(v@.map_values(|u: User| u@)),
            ),
    {
        match &self.users {
            Some(v) => {
                let ghost us = v@.map_values(|u: User| u@);
                let mut out: Vec<JsonVal> = Vec::new();
                let n = v.len();
                let mut i: usize = 0;
                while i < n
                    invariant
                        i <= n,
                        n == v@.len(),
                        us == v@.map_values(|u: User| u@),
                        out@.len() == i,
                        forall|k: int| 0 <= k < i ==> out@[k].jm() == spec_user_to_json(us[k]),
                        forall|k: int|
                            0 <= k < i ==> spec_user_from_json(out@[k].jm()) == Some(
                                spec_user_echo(us[k]),
                            ),
                    decreases n - i,
                {
                    let j = v[i].to_json();
                    out.push(j);
                    i = i + 1;
                }
                let r = JsonVal::Arr(out);
                proof {
                    lemma_jm_elems(out@);
                    assert(jm_elems(out@) =~= users_json_list(us));
                    lemma_user_list_all_ok(jm_elems(out@), users_echo(us), 0);
                    assert(users_echo(us).skip(0) =~= users_echo(us));
                }
                r
            },
            None => JsonVal::Null,
        }
    }

    /// Format the message list as a response slot.
    fn messages_to_json(&self) -> (r: JsonVal)
        ensures
            r.jm() == spec_messages_slot(self@.messages),
            self.messages matches Some(v) ==> spec_message_list_field(r.jm()) == Some(
                messages_echo(v@.map_values(|m: Message| m@)),
            ),
    {
        match &self.messages {
            Some(v) => {
                let ghost ms = v@.map_values(|m: Message| m@);
                let mut out: Vec<JsonVal> = Vec::new();
                let n = v.len();
                let mut i: usize = 0;
                while i < n
                    invariant
                        i <= n,
                        n == v@.len(),
                        ms == v@.map_values(|m: Message| m@),
                        out@.len() == i,
                        forall|k: int| 0 <= k < i ==> out@[k].jm() == spec_message_to_json(ms[k]),
                        forall|k: int|
                            0 <= k < i ==> spec_message_from_json(out@[k].jm()) == Some(
                                spec_message_echo(ms[k]),
                            ),
                    decreases n - i,
                {
                    let j = v[i].to_json();
                    out.push(j);
                    i = i + 1;
                }
                let r = JsonVal::Arr(out);
                proof {
                    lemma_jm_elems(out@);
                    assert(jm_elems(out@) =~= messages_json_list(ms));
                    lemma_message_list_all_ok(jm_elems(out@), messages_echo(ms), 0);
                    assert(messages_echo(ms).skip(0) =~= messages_echo(ms));
                }
                r
            },
            None => JsonVal::Null,
        }
    }

    /// Format the conversation list as a response slot.
    fn conversations_to_json(&self) -> (r: JsonVal)
        ensures
            r.jm() == spec_conversations_slot(self@.conversations),
            self.conversations matches Some(v) ==> spec_conversation_list_field(r.jm()) == Some(
                v@.map_values(|c: Conversation| c@),
            ),
    {
        match &self.conversations {
            Some(v) => {
                let ghost cs = v@.map_values(|c: Conversation| c@);
                let mut out: Vec<JsonVal> = Vec::new();
                let n = v.len();
                let mut i: usize = 0;
                while i < n
                    invariant
                        i <= n,
                        n == v@.len(),
                        cs == v@.map_values(|c: Conversation| c@),
                        out@.len() == i,
                        forall|k: int|
                            0 <= k < i ==> out@[k].jm() == spec_conversation_to_json(cs[k]),
                        forall|k: int|
                            0 <= k < i ==> spec_conversation_from_json(out@[k].jm()) == Some(
                                cs[k],
                            ),
                    decreases n - i,
                {
                    let j = v[i].to_json();
                    out.push(j);
                    i = i + 1;
                }
                let r = JsonVal::Arr(out);
                proof {
                    lemma_jm_elems(out@);
                    assert(jm_elems(out@) =~= conversations_json_list(cs));
                    lemma_conversation_list_all_ok(jm_elems(out@), cs, 0);
                    assert(cs.skip(0) =~= cs);
                }
                r
            },
            None => JsonVal::Null,
        }
    }
}

} // verus!
