//! The canonical form of a request, and its decoding from the wire.
//!
//! A request is one JSON document whose `function` field is a string of the
//! shape `"<OPERATION> <TARGET>"`: two words separated by ASCII whitespace,
//! matched case-insensitively against the declared enumerations. The
//! optional record lists `users`, `messages` and `conversations` are
//! decoded element-wise; an element that fails to decode is silently
//! dropped from the resulting list. That leniency mirrors the observed
//! behaviour of the protocol and is a deliberate policy choice here: a
//! malformed element could instead fail the whole request.

use vstd::prelude::*;

verus! {

use vstd::string::StrSliceExecFns;
use vstd::utf8::encode_utf8;
use crate::error::ApiError;
use crate::error::Field;
use crate::auth::Login;
use crate::auth::Password;
use crate::auth::argon2_hash_of;
use crate::auth::argon2_verify_of;
use crate::db::DbAction;
use crate::db::Prepared;
use crate::wire::JsonV;
use crate::wire::JsonVal;
use crate::wire::jfield;
use crate::wire::jm_elems;
use crate::wire::lemma_jm_elems;
use crate::wire::parse_json;
use crate::wire::json_of;
use crate::api::User;
use crate::api::UserV;
use crate::api::Message;
use crate::api::MessageV;
use crate::api::Conversation;
use crate::api::ConversationV;
use crate::api::spec_user_from_json;
use crate::api::spec_message_from_json;
use crate::api::spec_conversation_from_json;

/// The verb half of a request's function.
#[derive(Clone, Copy, Debug, PartialEq, Eq, Structural)]
pub enum Operation {
    Create,
    Read,
    Update,
    Delete,
    Verify,
}

/// The noun half of a request's function.
#[derive(Clone, Copy, Debug, PartialEq, Eq, Structural)]
pub enum Target {
    Conversations,
    Messages,
    Users,
}

/// ASCII whitespace, as the function string is split on it.
pub open spec fn is_sp(c: char) -> bool {
    c == ' ' || c == '\t' || c == '\n' || c == '\r' || c == '\u{c}'
}

/// The first position at or after `i` that does not hold whitespace.
pub open spec fn ws_end(f: Seq<char>, i: int) -> int
    decreases f.len() - i,
{
    if i < 0 || i >= f.len() {
        i
    } else if is_sp(f[i]) {
        ws_end(f, i + 1)
    } else {
        i
    }
}

/// The first position at or after `i` that holds whitespace (or the end).
pub open spec fn tok_end(f: Seq<char>, i: int) -> int
    decreases f.len() - i,
{
    if i < 0 || i >= f.len() {
        i
    } else if is_sp(f[i]) {
        i
    } else {
        tok_end(f, i + 1)
    }
}

/// One character of a candidate word matching one character of an
/// upper-case keyword, case-insensitively in the ASCII range.
pub open spec fn eq_ic(a: char, b: char) -> bool {
    a == b || (97 <= a as u32 <= 122 && a as u32 == b as u32 + 32)
}

/// A candidate word matching an upper-case keyword, case-insensitively.
pub open spec fn matches_kw(tok: Seq<char>, kw: Seq<char>) -> bool {
    tok.len() == kw.len() && forall|i: int| 0 <= i < tok.len() ==> eq_ic(tok[i], kw[i])
}

/// Which operation a word names, if any.
pub open spec fn spec_operation_of(tok: Seq<char>) -> Option<Operation> {
    if matches_kw(tok, "VERIFY"@) {
        Some(Operation::Verify)
    } else if matches_kw(tok, "CREATE"@) {
        Some(Operation::Create)
    } else if matches_kw(tok, "READ"@) {
        Some(Operation::Read)
    } else if matches_kw(tok, "UPDATE"@) {
        Some(Operation::Update)
    } else if matches_kw(tok, "DELETE"@) {
        Some(Operation::Delete)
    } else {
        None
    }
}

/// Which target a word names, if any.
pub open spec fn spec_target_of(tok: Seq<char>) -> Option<Target> {
    if matches_kw(tok, "CONVERSATIONS"@) {
        Some(Target::Conversations)
    } else if matches_kw(tok, "MESSAGES"@) {
        Some(Target::Messages)
    } else if matches_kw(tok, "USERS"@) {
        Some(Target::Users)
    } else {
        None
    }
}

/// The first two words of the function string: their bounds, or which of
/// the two is missing.
pub open spec fn spec_split_function(f: Seq<char>) -> Result<(Seq<char>, Seq<char>), ApiError> {
    let a = ws_end(f, 0);
    let b = tok_end(f, a);
    let c = ws_end(f, b);
    let d = tok_end(f, c);
    if a == b {
        Err(ApiError::UnknownOperation)
    } else if c == d {
        Err(ApiError::UnknownTarget)
    } else {
        Ok((f.subrange(a, b), f.subrange(c, d)))
    }
}

/// What decoding the function string gives: the operation and target it
/// names, or the first thing wrong with it. Words past the second are
/// ignored.
pub open spec fn spec_parse_function(f: Seq<char>) -> Result<(Operation, Target), ApiError> {
    match spec_split_function(f) {
        Err(e) => Err(e),
        Ok((w1, w2)) => match spec_operation_of(w1) {
            None => Err(ApiError::UnknownOperation),
            Some(op) => match spec_target_of(w2) {
                None => Err(ApiError::UnknownTarget),
                Some(t) => Ok((op, t)),
            },
        },
    }
}

/// Whether `c` is ASCII whitespace.
fn is_sp_char(c: char) -> (r: bool)
    ensures
        r == is_sp(c),
{
    c == ' ' || c == '\t' || c == '\n' || c == '\r' || c == '\u{c}'
}

/// Advance over whitespace from `i`.
fn skip_ws(f: &str, i: usize) -> (r: usize)
    requires
        i <= f@.len(),
    ensures
        i <= r <= f@.len(),
        r == ws_end(f@, i as int),
{
    let n = f.unicode_len();
    let mut k = i;
    while k < n && is_sp_char(f.get_char(k))
        invariant
            i <= k <= n,
            n == f@.len(),
            ws_end(f@, i as int) == ws_end(f@, k as int),
        decreases n - k,
    {
        k = k + 1;
    }
    k
}

/// Advance over a word from `i`.
fn skip_tok(f: &str, i: usize) -> (r: usize)
    requires
        i <= f@.len(),
    ensures
        i <= r <= f@.len(),
        r == tok_end(f@, i as int),
{
    let n = f.unicode_len();
    let mut k = i;
    while k < n && !is_sp_char(f.get_char(k))
        invariant
            i <= k <= n,
            n == f@.len(),
            tok_end(f@, i as int) == tok_end(f@, k as int),
        decreases n - k,
    {
        k = k + 1;
    }
    k
}

/// Separate operation and target words from a space-delimited string.
pub fn split_function(function: &str) -> (r: Result<(String, String), ApiError>)
    ensures
        match spec_split_function(function@) {
            Ok((w1, w2)) => r matches Ok(p) && p.0@ == w1 && p.1@ == w2,
            Err(e) => r == Err::<(String, String), ApiError>(e),
        },
{
    let a = skip_ws(function, 0);
    let b = skip_tok(function, a);
    if a == b {
        return Err(ApiError::UnknownOperation);
    }
    let c = skip_ws(function, b);
    let d = skip_tok(function, c);
    if c == d {
        return Err(ApiError::UnknownTarget);
    }
    let w1 = function.substring_char(a, b).to_owned();
    let w2 = function.substring_char(c, d).to_owned();
    Ok((w1, w2))
}

/// Whether a word names an upper-case keyword, case-insensitively.
fn eq_ignore_case(tok: &str, kw: &str) -> (r: bool)
    ensures
        r == matches_kw(tok@, kw@),
{
    let n = tok.unicode_len();
    if n != kw.unicode_len() {
        return false;
    }
    let mut i: usize = 0;
    while i < n
        invariant
            i <= n,
            n == tok@.len(),
            n == kw@.len(),
            forall|k: int| 0 <= k < i ==> eq_ic(tok@[k], kw@[k]),
        decreases n - i,
    {
        let a = tok.get_char(i);
        let b = kw.get_char(i);
        let au = a as u32;
        let bu = b as u32;
        if !(a == b || (97 <= au && au <= 122 && bu <= 122 && au == bu + 32)) {
            assert(!eq_ic(tok@[i as int], kw@[i as int]));
            return false;
        }
        i = i + 1;
    }
    true
}

/// Which operation a word names, if any.
fn operation_of(tok: &str) -> (r: Option<Operation>)
    ensures
        r == spec_operation_of(tok@),
{
    if eq_ignore_case(tok, "VERIFY") {
        Some(Operation::Verify)
    } else if eq_ignore_case(tok, "CREATE") {
        Some(Operation::Create)
    } else if eq_ignore_case(tok, "READ") {
        Some(Operation::Read)
    } else if eq_ignore_case(tok, "UPDATE") {
        Some(Operation::Update)
    } else if eq_ignore_case(tok, "DELETE") {
        Some(Operation::Delete)
    } else {
        None
    }
}

/// Which target a word names, if any.
fn target_of(tok: &str) -> (r: Option<Target>)
    ensures
        r == spec_target_of(tok@),
{
    if eq_ignore_case(tok, "CONVERSATIONS") {
        Some(Target::Conversations)
    } else if eq_ignore_case(tok, "MESSAGES") {
        Some(Target::Messages)
    } else if eq_ignore_case(tok, "USERS") {
        Some(Target::Users)
    } else {
        None
    }
}

/// The upper-case keyword of an operation.
pub open spec fn kw_of_operation(op: Operation) -> Seq<char> {
    match op {
        Operation::Create => "CREATE"@,
        Operation::Read => "READ"@,
        Operation::Update => "UPDATE"@,
        Operation::Delete => "DELETE"@,
        Operation::Verify => "VERIFY"@,
    }
}

/// The upper-case keyword of a target.
pub open spec fn kw_of_target(t: Target) -> Seq<char> {
    match t {
        Target::Conversations => "CONVERSATIONS"@,
        Target::Messages => "MESSAGES"@,
        Target::Users => "USERS"@,
    }
}

/// The canonical function string naming an operation/target pair.
pub open spec fn spec_function_text(op: Operation, t: Target) -> Seq<char> {
    kw_of_operation(op) + " "@ + kw_of_target(t)
}

/// A maximal run of non-whitespace from `i` to `j` ends the word at `j`.
proof fn lemma_tok_run(f: Seq<char>, i: int, j: int)
    requires
        0 <= i <= j <= f.len(),
        forall|k: int| i <= k < j ==> !is_sp(f[k]),
        j == f.len() || is_sp(f[j]),
    ensures
        tok_end(f, i) == j,
    decreases j - i,
{
    if i < j {
        lemma_tok_run(f, i + 1, j);
    }
}

/// A maximal run of whitespace from `i` to `j` ends the gap at `j`.
proof fn lemma_ws_run(f: Seq<char>, i: int, j: int)
    requires
        0 <= i <= j <= f.len(),
        forall|k: int| i <= k < j ==> is_sp(f[k]),
        j == f.len() || !is_sp(f[j]),
    ensures
        ws_end(f, i) == j,
    decreases j - i,
{
    if i < j {
        lemma_ws_run(f, i + 1, j);
    }
}

/// The keywords hold no whitespace and each names its own operation or
/// target: facts the round-trip law leans on.
proof fn lemma_keyword_facts()
    ensures
        forall|op: Operation| #![auto] kw_of_operation(op).len() > 0,
        forall|op: Operation, k: int|
            #![auto]
            0 <= k < kw_of_operation(op).len() ==> !is_sp(kw_of_operation(op)[k]),
        forall|t: Target| #![auto] kw_of_target(t).len() > 0,
        forall|t: Target, k: int|
            #![auto]
            0 <= k < kw_of_target(t).len() ==> !is_sp(kw_of_target(t)[k]),
        forall|op: Operation| #[trigger] spec_operation_of(kw_of_operation(op)) == Some(op),
        forall|t: Target| #[trigger] spec_target_of(kw_of_target(t)) == Some(t),
{
    reveal_strlit("CREATE");
    reveal_strlit("READ");
    reveal_strlit("UPDATE");
    reveal_strlit("DELETE");
    reveal_strlit("VERIFY");
    reveal_strlit("CONVERSATIONS");
    reveal_strlit("MESSAGES");
    reveal_strlit("USERS");
    assert(!eq_ic("CREATE"@[0], "VERIFY"@[0]));
    assert(!eq_ic("UPDATE"@[0], "VERIFY"@[0]));
    assert(!eq_ic("UPDATE"@[0], "CREATE"@[0]));
    assert(!eq_ic("DELETE"@[0], "VERIFY"@[0]));
    assert(!eq_ic("DELETE"@[0], "CREATE"@[0]));
    assert(!eq_ic("DELETE"@[0], "UPDATE"@[0]));
    assert forall|op: Operation| #[trigger] spec_operation_of(kw_of_operation(op)) == Some(
        op,
    ) by {
        assert(matches_kw(kw_of_operation(op), kw_of_operation(op)));
        assert(!matches_kw("CREATE"@, "VERIFY"@));
        assert(!matches_kw("UPDATE"@, "VERIFY"@));
        assert(!matches_kw("UPDATE"@, "CREATE"@));
        assert(!matches_kw("DELETE"@, "VERIFY"@));
        assert(!matches_kw("DELETE"@, "CREATE"@));
        assert(!matches_kw("DELETE"@, "UPDATE"@));
    }
    assert forall|t: Target| #[trigger] spec_target_of(kw_of_target(t)) == Some(t) by {
        assert(matches_kw(kw_of_target(t), kw_of_target(t)));
    }
}

/// For every operation/target pair, decoding the canonical
/// `"<OPERATION> <TARGET>"` string recovers exactly that pair.
pub proof fn lemma_function_round_trip(op: Operation, t: Target)
    ensures
        spec_parse_function(spec_function_text(op, t)) == Ok::<(Operation, Target), ApiError>(
            (op, t),
        ),
{
    lemma_keyword_facts();
    reveal_strlit(" ");
    let w1 = kw_of_operation(op);
    let w2 = kw_of_target(t);
    let f = spec_function_text(op, t);
    let l1 = w1.len() as int;
    assert(f.len() == l1 + 1 + w2.len());
    assert(is_sp(f[l1]));
    lemma_ws_run(f, 0, 0);
    lemma_tok_run(f, 0, l1);
    lemma_ws_run(f, l1, l1 + 1);
    lemma_tok_run(f, l1 + 1, f.len() as int);
    assert(f.subrange(0, l1) =~= w1);
    assert(f.subrange(l1 + 1, f.len() as int) =~= w2);
}

/// The canonical form of a request. Once decoded it is never mutated;
/// handlers consume it.
#[derive(Debug)]
pub struct Request {
    pub operation: Operation,
    pub target: Target,
    pub users: Option<Vec<User>>,
    pub messages: Option<Vec<Message>>,
    pub conversations: Option<Vec<Conversation>>,
}

/// The mathematical shape of a [`Request`].
pub struct RequestV {
    pub operation: Operation,
    pub target: Target,
    pub users: Option<Seq<UserV>>,
    pub messages: Option<Seq<MessageV>>,
    pub conversations: Option<Seq<ConversationV>>,
}

impl View for Request {
    type V = RequestV;

    open spec fn view(&self) -> RequestV {
        RequestV {
            operation: self.operation,
            target: self.target,
            users: match self.users {
                Some(v) => Some(v@.map_values(|u: User| u@)),
                None => None,
            },
            messages: match self.messages {
                Some(v) => Some(v@.map_values(|m: Message| m@)),
                None => None,
            },
            conversations: match self.conversations {
                Some(v) => Some(v@.map_values(|c: Conversation| c@)),
                None => None,
            },
        }
    }
}

/// The user records among `a` from position `i` on that decode, in order;
/// an element that fails to decode is dropped.
pub open spec fn spec_user_list_from(a: Seq<JsonV>, i: int) -> Seq<UserV>
    decreases a.len() - i,
{
    if i < 0 || i >= a.len() {
        Seq::empty()
    } else {
        match spec_user_from_json(a[i]) {
            Some(u) => seq![u] + spec_user_list_from(a, i + 1),
            None => spec_user_list_from(a, i + 1),
        }
    }
}

/// The message records among `a` that decode, in order.
pub open spec fn spec_message_list_from(a: Seq<JsonV>, i: int) -> Seq<MessageV>
    decreases a.len() - i,
{
    if i < 0 || i >= a.len() {
        Seq::empty()
    } else {
        match spec_message_from_json(a[i]) {
            Some(m) => seq![m] + spec_message_list_from(a, i + 1),
            None => spec_message_list_from(a, i + 1),
        }
    }
}

/// The conversation records among `a` that decode, in order.
pub open spec fn spec_conversation_list_from(a: Seq<JsonV>, i: int) -> Seq<ConversationV>
    decreases a.len() - i,
{
    if i < 0 || i >= a.len() {
        Seq::empty()
    } else {
        match spec_conversation_from_json(a[i]) {
            Some(c) => seq![c] + spec_conversation_list_from(a, i + 1),
            None => spec_conversation_list_from(a, i + 1),
        }
    }
}

/// An optional list field of the request document: an array decodes
/// element-wise, anything else reads as not supplied.
pub open spec fn spec_user_list_field(j: JsonV) -> Option<Seq<UserV>> {
    match j {
        JsonV::Arr(a) => Some(spec_user_list_from(a, 0)),
        _ => None,
    }
}

/// See [`spec_user_list_field`].
pub open spec fn spec_message_list_field(j: JsonV) -> Option<Seq<MessageV>> {
    match j {
        JsonV::Arr(a) => Some(spec_message_list_from(a, 0)),
        _ => None,
    }
}

/// See [`spec_user_list_field`].
pub open spec fn spec_conversation_list_field(j: JsonV) -> Option<Seq<ConversationV>> {
    match j {
        JsonV::Arr(a) => Some(spec_conversation_list_from(a, 0)),
        _ => None,
    }
}

/// What decoding a whole request document gives.
pub open spec fn spec_request_from_json(j: JsonV) -> Result<RequestV, ApiError> {
    match jfield(j, "function"@) {
        JsonV::Str(f) => match spec_parse_function(f) {
            Err(e) => Err(e),
            Ok((op, t)) => Ok(
                RequestV {
                    operation: op,
                    target: t,
                    users: spec_user_list_field(jfield(j, "users"@)),
                    messages: spec_message_list_field(jfield(j, "messages"@)),
                    conversations: spec_conversation_list_field(jfield(j, "conversations"@)),
                },
            ),
        },
        _ => Err(ApiError::MalformedInput),
    }
}

/// Decode the elements of a `users` array, dropping those that fail.
fn users_from_json(arr: &Vec<JsonVal>) -> (r: Vec<User>)
    ensures
        r@.map_values(|u: User| u@) == spec_user_list_from(jm_elems(arr@), 0),
{
    let ghost a = jm_elems(arr@);
    proof {
        lemma_jm_elems(arr@);
    }
    let mut out: Vec<User> = Vec::new();
    let n = arr.len();
    let mut i: usize = 0;
    while i < n
        invariant
            i <= n,
            n == arr@.len(),
            a == jm_elems(arr@),
            a.len() == n,
            forall|k: int| 0 <= k < n ==> a[k] == arr@[k].jm(),
            spec_user_list_from(a, 0) == out@.map_values(|u: User| u@) + spec_user_list_from(
                a,
                i as int,
            ),
        decreases n - i,
    {
        match User::from_json(&arr[i]) {
            Ok(u) => {
                let ghost prev = out@;
                out.push(u);
                proof {
                    assert(out@.map_values(|u: User| u@) =~= prev.map_values(|u: User| u@)
                        + seq![u@]);
                    assert(spec_user_list_from(a, 0) =~= out@.map_values(|u: User| u@)
                        + spec_user_list_from(a, i + 1));
                }
            },
            Err(_) => {},
        }
        i = i + 1;
    }
    proof {
        assert(spec_user_list_from(a, n as int) =~= Seq::<UserV>::empty());
        assert(out@.map_values(|u: User| u@) =~= spec_user_list_from(a, 0));
    }
    out
}

/// Decode the elements of a `messages` array, dropping those that fail.
fn messages_from_json(arr: &Vec<JsonVal>) -> (r: Vec<Message>)
    ensures
        r@.map_values(|m: Message| m@) == spec_message_list_from(jm_elems(arr@), 0),
{
    let ghost a = jm_elems(arr@);
    proof {
        lemma_jm_elems(arr@);
    }
    let mut out: Vec<Message> = Vec::new();
    let n = arr.len();
    let mut i: usize = 0;
    while i < n
        invariant
            i <= n,
            n == arr@.len(),
            a == jm_elems(arr@),
            a.len() == n,
            forall|k: int| 0 <= k < n ==> a[k] == arr@[k].jm(),
            spec_message_list_from(a, 0) == out@.map_values(|m: Message| m@)
                + spec_message_list_from(a, i as int),
        decreases n - i,
    {
        match Message::from_json(&arr[i]) {
            Ok(m) => {
                let ghost prev = out@;
                out.push(m);
                proof {
                    assert(out@.map_values(|m: Message| m@) =~= prev.map_values(|m: Message| m@)
                        + seq![m@]);
                    assert(spec_message_list_from(a, 0) =~= out@.map_values(|m: Message| m@)
                        + spec_message_list_from(a, i + 1));
                }
            },
            Err(_) => {},
        }
        i = i + 1;
    }
    proof {
        assert(spec_message_list_from(a, n as int) =~= Seq::<MessageV>::empty());
        assert(out@.map_values(|m: Message| m@) =~= spec_message_list_from(a, 0));
    }
    out
}

/// Decode the elements of a `conversations` array, dropping those that
/// fail.
fn conversations_from_json(arr: &Vec<JsonVal>) -> (r: Vec<Conversation>)
    ensures
        r@.map_values(|c: Conversation| c@) == spec_conversation_list_from(jm_elems(arr@), 0),
{
    let ghost a = jm_elems(arr@);
    proof {
        lemma_jm_elems(arr@);
    }
    let mut out: Vec<Conversation> = Vec::new();
    let n = arr.len();
    let mut i: usize = 0;
    while i < n
        invariant
            i <= n,
            n == arr@.len(),
            a == jm_elems(arr@),
            a.len() == n,
            forall|k: int| 0 <= k < n ==> a[k] == arr@[k].jm(),
            spec_conversation_list_from(a, 0) == out@.map_values(|c: Conversation| c@)
                + spec_conversation_list_from(a, i as int),
        decreases n - i,
    {
        match Conversation::from_json(&arr[i]) {
            Ok(c) => {
                let ghost prev = out@;
                out.push(c);
                proof {
                    assert(out@.map_values(|c: Conversation| c@) =~= prev.map_values(
                        |c: Conversation| c@,
                    ) + seq![c@]);
                    assert(spec_conversation_list_from(a, 0) =~= out@.map_values(
                        |c: Conversation| c@,
                    ) + spec_conversation_list_from(a, i + 1));
                }
            },
            Err(_) => {},
        }
        i = i + 1;
    }
    proof {
        assert(spec_conversation_list_from(a, n as int) =~= Seq::<ConversationV>::empty());
        assert(out@.map_values(|c: Conversation| c@) =~= spec_conversation_list_from(a, 0));
    }
    out
}

impl Request {
    /// Create a request object from JSON text.
    pub fn from_json(data: &str) -> (r: Result<Request, ApiError>)
        ensures
            json_of(data@) is None ==> r == Err::<Request, ApiError>(ApiError::MalformedInput),
            json_of(data@) matches Some(m) ==> match spec_request_from_json(m) {
                Ok(rv) => r matches Ok(q) && q@ == rv,
                Err(e) => r == Err::<Request, ApiError>(e),
            },
    {
        let doc = match parse_json(data) {
            Some(d) => d,
            None => {
                return Err(ApiError::MalformedInput);
            },
        };
        let function = match doc.get("function") {
            Some(v) => match v {
                JsonVal::Str(s) => s,
                _ => {
                    return Err(ApiError::MalformedInput);
                },
            },
            None => {
                return Err(ApiError::MalformedInput);
            },
        };
        let (w1, w2) = match split_function(function.as_str()) {
            Ok(p) => p,
            Err(e) => {
                return Err(e);
            },
        };
        let operation = match operation_of(w1.as_str()) {
            Some(op) => op,
            None => {
                return Err(ApiError::UnknownOperation);
            },
        };
        let target = match target_of(w2.as_str()) {
            Some(t) => t,
            None => {
                return Err(ApiError::UnknownTarget);
            },
        };
        let users = match doc.get("users") {
            Some(v) => match v {
                JsonVal::Arr(a) => Some(users_from_json(a)),
                _ => None,
            },
            None => None,
        };
        let messages = match doc.get("messages") {
            Some(v) => match v {
                JsonVal::Arr(a) => Some(messages_from_json(a)),
                _ => None,
            },
            None => None,
        };
        let conversations = match doc.get("conversations") {
            Some(v) => match v {
                JsonVal::Arr(a) => Some(conversations_from_json(a)),
                _ => None,
            },
            None => None,
        };
        Ok(Request { operation, target, users, messages, conversations })
    }
}

/// The first missing field among the user records, checking each record's
/// email, password and public key in turn.
pub open spec fn user_fields_err_from(us: Seq<UserV>, i: int) -> Option<ApiError>
    decreases us.len() - i,
{
    if i < 0 || i >= us.len() {
        None
    } else if us[i].email is None {
        Some(ApiError::MissingField(Field::Email))
    } else if us[i].password is None {
        Some(ApiError::MissingField(Field::Password))
    } else if us[i].public_key is None {
        Some(ApiError::MissingField(Field::PublicKey))
    } else {
        user_fields_err_from(us, i + 1)
    }
}

/// The first missing email among the user records.
pub open spec fn user_emails_err_from(us: Seq<UserV>, i: int) -> Option<ApiError>
    decreases us.len() - i,
{
    if i < 0 || i >= us.len() {
        None
    } else if us[i].email is None {
        Some(ApiError::MissingField(Field::Email))
    } else {
        user_emails_err_from(us, i + 1)
    }
}

/// The first missing field among the message records, checking each
/// record's data, media type, timestamp and signature in turn.
pub open spec fn message_fields_err_from(ms: Seq<MessageV>, i: int) -> Option<ApiError>
    decreases ms.len() - i,
{
    if i < 0 || i >= ms.len() {
        None
    } else if ms[i].data is None {
        Some(ApiError::MissingField(Field::Data))
    } else if ms[i].media_type is None {
        Some(ApiError::MissingField(Field::MediaType))
    } else if ms[i].timestamp is None {
        Some(ApiError::MissingField(Field::Timestamp))
    } else if ms[i].signature is None {
        Some(ApiError::MissingField(Field::Signature))
    } else {
        message_fields_err_from(ms, i + 1)
    }
}

/// Why a Verify-Users request is rejected before any data access, if it
/// is. An empty `users` list counts as not supplied: the handler needs its
/// first record.
pub open spec fn spec_verify_users_err(req: RequestV) -> Option<ApiError> {
    if req.users is None || req.users->0.len() == 0 {
        Some(ApiError::MissingField(Field::UsersList))
    } else if req.users->0[0].email is None {
        Some(ApiError::MissingField(Field::Email))
    } else if req.users->0[0].password is None {
        Some(ApiError::MissingField(Field::Password))
    } else {
        None
    }
}

/// Why a Create-Users request is rejected before any data access, if it is.
pub open spec fn spec_create_users_err(req: RequestV) -> Option<ApiError> {
    if req.users is None {
        Some(ApiError::MissingField(Field::UsersList))
    } else {
        user_fields_err_from(req.users->0, 0)
    }
}

/// Why a Create-Conversations request is rejected before any data access,
/// if it is. The authorization gate comes before any look at the payload;
/// the handler requires both a conversation name and a non-empty user
/// list.
pub open spec fn spec_create_conversations_err(req: RequestV, authenticated: bool) -> Option<
    ApiError,
> {
    if !authenticated {
        Some(ApiError::Unauthorized)
    } else if req.users is None || req.users->0.len() == 0 {
        Some(ApiError::MissingField(Field::UsersList))
    } else if req.conversations is None || req.conversations->0.len() == 0 {
        Some(ApiError::MissingField(Field::ConversationsList))
    } else if req.conversations->0[0].name is None {
        Some(ApiError::MissingField(Field::Name))
    } else {
        user_emails_err_from(req.users->0, 0)
    }
}

/// Why a Create-Messages request is rejected before any data access, if it
/// is.
pub open spec fn spec_create_messages_err(req: RequestV, authenticated: bool) -> Option<ApiError> {
    if !authenticated {
        Some(ApiError::Unauthorized)
    } else if req.messages is None {
        Some(ApiError::MissingField(Field::MessagesList))
    } else if req.conversations is None || req.conversations->0.len() == 0 {
        Some(ApiError::MissingField(Field::ConversationsList))
    } else if req.conversations->0[0].id is None {
        Some(ApiError::MissingField(Field::Id))
    } else {
        message_fields_err_from(req.messages->0, 0)
    }
}

/// Why a read of one conversation's content is rejected before any data
/// access, if it is.
pub open spec fn spec_read_in_conversation_err(req: RequestV, authenticated: bool) -> Option<
    ApiError,
> {
    if !authenticated {
        Some(ApiError::Unauthorized)
    } else if req.conversations is None || req.conversations->0.len() == 0 {
        Some(ApiError::MissingField(Field::ConversationsList))
    } else if req.conversations->0[0].id is None {
        Some(ApiError::MissingField(Field::Id))
    } else {
        None
    }
}

/// The credential fetch a valid Verify-Users request reduces to.
pub open spec fn verify_users_ok(req: RequestV, p: Prepared) -> bool {
    p matches Prepared::Verify { email, password } && email@ == req.users->0[0].email->0
        && password@ == req.users->0[0].password->0
}

/// One user insert: the record's email and key, and a hash of the record's
/// password under a fresh salt of at least 8 bytes, which the hashing
/// collaborator will accept against that password.
pub open spec fn insert_user_ok(a: DbAction, u: UserV) -> bool {
    a matches DbAction::InsertUser { email, public_key, pass_hash, pass_salt } && email@ == u.email
        ->0 && public_key@ == u.public_key->0 && 8 <= pass_salt@.len() && pass_hash@ == encode_utf8(
        argon2_hash_of(encode_utf8(u.password->0), pass_salt@),
    ) && argon2_verify_of(
        argon2_hash_of(encode_utf8(u.password->0), pass_salt@),
        encode_utf8(u.password->0),
    ) == Some(true)
}

/// The inserts a valid Create-Users request reduces to: one per record, in
/// order.
pub open spec fn create_users_ok(req: RequestV, p: Prepared) -> bool {
    p matches Prepared::Mutate { actions } && {
        let us = req.users->0;
        &&& actions@.len() == us.len()
        &&& forall|i: int| 0 <= i < us.len() ==> insert_user_ok(#[trigger] actions@[i], us[i])
    }
}

/// The inserts a valid Create-Conversations request reduces to: the
/// conversation, then a participant insert for the authenticated creator,
/// then one per listed user, in order — and nothing else.
pub open spec fn create_conversations_ok(req: RequestV, login: Login, p: Prepared) -> bool {
    p matches Prepared::Mutate { actions } && {
        let us = req.users->0;
        let name = req.conversations->0[0].name->0;
        &&& actions@.len() == us.len() + 2
        &&& actions@[0] matches DbAction::InsertConversation { name: n } && n@ == name
        &&& actions@[1] matches DbAction::InsertParticipant { email, conversation_name } && email@
            == login.email->0@ && conversation_name@ == name
        &&& forall|i: int|
            0 <= i < us.len() ==> (#[trigger] actions@[i + 2]
                matches DbAction::InsertParticipant { email, conversation_name } && email@
                == us[i].email->0 && conversation_name@ == name)
        &&& forall|i: int|
            0 <= i < actions@.len() ==> (#[trigger] actions@[i] is InsertParticipant <==> 1 <= i)
    }
}

/// How many of the actions from position `i` on are participant inserts.
pub open spec fn participant_inserts_from(s: Seq<DbAction>, i: int) -> nat
    decreases s.len() - i,
{
    if i < 0 || i >= s.len() {
        0
    } else if s[i] is InsertParticipant {
        1 + participant_inserts_from(s, i + 1)
    } else {
        participant_inserts_from(s, i + 1)
    }
}

/// Every action from `i` on is a participant insert: there are as many as
/// there are positions.
proof fn lemma_participant_suffix(s: Seq<DbAction>, i: int)
    requires
        0 <= i <= s.len(),
        forall|k: int| i <= k < s.len() ==> #[trigger] s[k] is InsertParticipant,
    ensures
        participant_inserts_from(s, i) == s.len() - i,
    decreases s.len() - i,
{
    if i < s.len() {
        lemma_participant_suffix(s, i + 1);
    }
}

/// A valid Create-Conversations request asks for exactly one participant
/// insert per listed user, plus one for the authenticated creator — no
/// more, no fewer.
pub proof fn lemma_create_conversations_participant_count(
    req: RequestV,
    login: Login,
    p: Prepared,
)
    requires
        create_conversations_ok(req, login, p),
    ensures
        p matches Prepared::Mutate { actions } && participant_inserts_from(actions@, 0)
            == req.users->0.len() + 1,
{
    let actions = p->Mutate_actions;
    lemma_participant_suffix(actions@, 1);
}

/// One message insert: the record's binary fields, the authenticated
/// sender, and the target conversation id.
pub open spec fn insert_message_ok(a: DbAction, m: MessageV, from: Seq<char>, conv: i32) -> bool {
    a matches DbAction::InsertMessage {
        sender,
        conversation_id,
        data,
        media_type,
        timestamp,
        signature,
    } && sender@ == from && conversation_id == conv && data@ == m.data->0 && media_type@
        == m.media_type->0 && timestamp@ == m.timestamp->0 && signature@ == m.signature->0
}

/// The inserts a valid Create-Messages request reduces to: one per
/// supplied message, in order, each tagged with the id of the first
/// supplied conversation.
pub open spec fn create_messages_ok(req: RequestV, login: Login, p: Prepared) -> bool {
    p matches Prepared::Mutate { actions } && {
        let ms = req.messages->0;
        let conv = req.conversations->0[0].id->0;
        &&& actions@.len() == ms.len()
        &&& forall|i: int|
            0 <= i < ms.len() ==> insert_message_ok(
                #[trigger] actions@[i],
                ms[i],
                login.email->0@,
                conv,
            )
    }
}

/// The listing a valid Read-Conversations request reduces to.
pub open spec fn read_conversations_ok(login: Login, p: Prepared) -> bool {
    p matches Prepared::ReadConversations { email } && email@ == login.email->0@
}

/// The listing a valid Read-Messages request reduces to.
pub open spec fn read_messages_ok(req: RequestV, login: Login, p: Prepared) -> bool {
    p matches Prepared::ReadMessages { email, conversation_id } && email@ == login.email->0@
        && Some(conversation_id) == req.conversations->0[0].id
}

/// The listing a valid Read-Users request reduces to.
pub open spec fn read_users_ok(req: RequestV, login: Login, p: Prepared) -> bool {
    p matches Prepared::ReadUsers { email, conversation_id } && email@ == login.email->0@ && Some(
        conversation_id,
    ) == req.conversations->0[0].id
}

impl Request {
    /// Reduce a Verify-Users request to the credential fetch it needs: the
    /// email to look up and the plaintext to check. Open to
    /// unauthenticated sessions; it is how a session becomes authenticated.
    pub fn verify_users(self) -> (r: Result<Prepared, ApiError>)
        ensures
            match spec_verify_users_err(self@) {
                Some(e) => r == Err::<Prepared, ApiError>(e),
                None => r matches Ok(p) && verify_users_ok(self@, p),
            },
    {
        let users = match self.users {
            Some(u) => u,
            None => {
                return Err(ApiError::MissingField(Field::UsersList));
            },
        };
        if users.len() == 0 {
            return Err(ApiError::MissingField(Field::UsersList));
        }
        let email = match &users[0].email {
            Some(e) => e.clone(),
            None => {
                return Err(ApiError::MissingField(Field::Email));
            },
        };
        let password = match &users[0].password {
            Some(p) => p.clone(),
            None => {
                return Err(ApiError::MissingField(Field::Password));
            },
        };
        Ok(Prepared::Verify { email, password })
    }

    /// Reduce a Create-Users request to the user inserts it asks for. Each
    /// password is hashed here, with a freshly drawn random salt — never a
    /// caller-supplied one. Open to unauthenticated sessions: this is how
    /// an account comes to exist.
    pub fn create_users(self) -> (r: Result<Prepared, ApiError>)
        ensures
            spec_create_users_err(self@) matches Some(e) ==> r == Err::<Prepared, ApiError>(e),
            spec_create_users_err(self@) is None ==> match r {
                Ok(p) => create_users_ok(self@, p),
                Err(e) => e == ApiError::Collaborator,
            },
    {
        let ghost us = self@.users->0;
        let users = match self.users {
            Some(u) => u,
            None => {
                return Err(ApiError::MissingField(Field::UsersList));
            },
        };
        let n = users.len();
        // Fail fast: no record is hashed or stored unless every record is
        // complete.
        let mut i: usize = 0;
        while i < n
            invariant
                i <= n,
                n == users@.len(),
                us == users@.map_values(|u: User| u@),
                us == self@.users->0,
                spec_create_users_err(self@) == user_fields_err_from(us, 0),
                user_fields_err_from(us, 0) == user_fields_err_from(us, i as int),
                forall|k: int|
                    0 <= k < i ==> us[k].email is Some && us[k].password is Some
                        && us[k].public_key is Some,
            decreases n - i,
        {
            if users[i].email.is_none() {
                return Err(ApiError::MissingField(Field::Email));
            }
            if users[i].password.is_none() {
                return Err(ApiError::MissingField(Field::Password));
            }
            if users[i].public_key.is_none() {
                return Err(ApiError::MissingField(Field::PublicKey));
            }
            i = i + 1;
        }
        let mut actions: Vec<DbAction> = Vec::new();
        let mut k: usize = 0;
        while k < n
            invariant
                k <= n,
                n == users@.len(),
                us == users@.map_values(|u: User| u@),
                us == self@.users->0,
                spec_create_users_err(self@) is None,
                forall|j: int|
                    0 <= j < n ==> us[j].email is Some && us[j].password is Some
                        && us[j].public_key is Some,
                actions@.len() == k,
                forall|j: int| 0 <= j < k ==> insert_user_ok(#[trigger] actions@[j], us[j]),
            decreases n - k,
        {
            let email = match &users[k].email {
                Some(e) => e.clone(),
                None => {
                    return Err(ApiError::Collaborator);
                },
            };
            let password = match &users[k].password {
                Some(p) => p.clone(),
                None => {
                    return Err(ApiError::Collaborator);
                },
            };
            let public_key = match &users[k].public_key {
                Some(b) => b.clone(),
                None => {
                    return Err(ApiError::Collaborator);
                },
            };
            let hashed = match Password::hash(password.as_str(), None) {
                Ok(h) => h,
                Err(_) => {
                    return Err(ApiError::Collaborator);
                },
            };
            actions.push(
                DbAction::InsertUser {
                    email,
                    public_key,
                    pass_hash: hashed.hash,
                    pass_salt: hashed.salt,
                },
            );
            k = k + 1;
        }
        Ok(Prepared::Mutate { actions })
    }

    /// Reduce a Create-Conversations request to its inserts: the
    /// conversation, then one participant insert for the authenticated
    /// creator, then one for each listed user, in order.
    pub fn create_conversations(self, login: &Login) -> (r: Result<Prepared, ApiError>)
        requires
            login.wf(),
        ensures
            match spec_create_conversations_err(self@, login.is_authenticated) {
                Some(e) => r == Err::<Prepared, ApiError>(e),
                None => r matches Ok(p) && create_conversations_ok(self@, *login, p),
            },
    {
        let ghost us = self@.users->0;
        if !login.is_authenticated {
            return Err(ApiError::Unauthorized);
        }
        let users = match self.users {
            Some(u) => u,
            None => {
                return Err(ApiError::MissingField(Field::UsersList));
            },
        };
        if users.len() == 0 {
            return Err(ApiError::MissingField(Field::UsersList));
        }
        let conversations = match self.conversations {
            Some(c) => c,
            None => {
                return Err(ApiError::MissingField(Field::ConversationsList));
            },
        };
        if conversations.len() == 0 {
            return Err(ApiError::MissingField(Field::ConversationsList));
        }
        let name = match &conversations[0].name {
            Some(nm) => nm.clone(),
            None => {
                return Err(ApiError::MissingField(Field::Name));
            },
        };
        // An authenticated session always carries its identity; this arm is
        // unreachable.
        let creator = match &login.email {
            Some(e) => e.clone(),
            None => {
                return Err(ApiError::Unauthorized);
            },
        };
        let mut actions: Vec<DbAction> = Vec::new();
        actions.push(DbAction::InsertConversation { name: name.clone() });
        actions.push(
            DbAction::InsertParticipant { email: creator, conversation_name: name.clone() },
        );
        let n = users.len();
        let mut i: usize = 0;
        while i < n
            invariant
                i <= n,
                n == users@.len(),
                us == users@.map_values(|u: User| u@),
                us == self@.users->0,
                login.is_authenticated,
                name@ == self@.conversations->0[0].name->0,
                spec_create_conversations_err(self@, login.is_authenticated)
                    == user_emails_err_from(us, 0),
                user_emails_err_from(us, 0) == user_emails_err_from(us, i as int),
                actions@.len() == i + 2,
                actions@[0] matches DbAction::InsertConversation { name: nm } && nm@ == name@,
                actions@[1] matches DbAction::InsertParticipant { email, conversation_name }
                    && email@ == login.email->0@ && conversation_name@ == name@,
                forall|k: int|
                    0 <= k < i ==> (#[trigger] actions@[k + 2]
                        matches DbAction::InsertParticipant { email, conversation_name } && email@
                        == us[k].email->0 && conversation_name@ == name@),
            decreases n - i,
        {
            let em = match &users[i].email {
                Some(e) => e.clone(),
                None => {
                    return Err(ApiError::MissingField(Field::Email));
                },
            };
            actions.push(DbAction::InsertParticipant { email: em, conversation_name: name.clone() });
            i = i + 1;
        }
        proof {
            assert forall|k: int|
                0 <= k < actions@.len() implies (#[trigger] actions@[k] is InsertParticipant <==> 1
                <= k) by {
                if 2 <= k {
                    assert(actions@[(k - 2) + 2] is InsertParticipant);
                }
            }
        }
        Ok(Prepared::Mutate { actions })
    }

    /// Reduce a Create-Messages request to its inserts: each supplied
    /// message, in order, paired with the id of the first supplied
    /// conversation — entries past the first are ignored. An empty message
    /// list is not an error; it simply inserts none.
    pub fn create_messages(self, login: &Login) -> (r: Result<Prepared, ApiError>)
        requires
            login.wf(),
        ensures
            match spec_create_messages_err(self@, login.is_authenticated) {
                Some(e) => r == Err::<Prepared, ApiError>(e),
                None => r matches Ok(p) && create_messages_ok(self@, *login, p),
            },
    {
        let ghost ms = self@.messages->0;
        if !login.is_authenticated {
            return Err(ApiError::Unauthorized);
        }
        let messages = match self.messages {
            Some(m) => m,
            None => {
                return Err(ApiError::MissingField(Field::MessagesList));
            },
        };
        let conversations = match self.conversations {
            Some(c) => c,
            None => {
                return Err(ApiError::MissingField(Field::ConversationsList));
            },
        };
        if conversations.len() == 0 {
            return Err(ApiError::MissingField(Field::ConversationsList));
        }
        let conversation_id = match conversations[0].id {
            Some(id) => id,
            None => {
                return Err(ApiError::MissingField(Field::Id));
            },
        };
        // An authenticated session always carries its identity; this arm is
        // unreachable.
        let sender = match &login.email {
            Some(e) => e.clone(),
            None => {
                return Err(ApiError::Unauthorized);
            },
        };
        let n = messages.len();
        let mut actions: Vec<DbAction> = Vec::new();
        let mut i: usize = 0;
        while i < n
            invariant
                i <= n,
                n == messages@.len(),
                ms == messages@.map_values(|m: Message| m@),
                ms == self@.messages->0,
                login.is_authenticated,
                Some(conversation_id) == self@.conversations->0[0].id,
                spec_create_messages_err(self@, login.is_authenticated)
                    == message_fields_err_from(ms, 0),
                message_fields_err_from(ms, 0) == message_fields_err_from(ms, i as int),
                sender@ == login.email->0@,
                actions@.len() == i,
                forall|k: int|
                    0 <= k < i ==> insert_message_ok(
                        #[trigger] actions@[k],
                        ms[k],
                        login.email->0@,
                        conversation_id,
                    ),
            decreases n - i,
        {
            let data = match &messages[i].data {
                Some(d) => d.clone(),
                None => {
                    return Err(ApiError::MissingField(Field::Data));
                },
            };
            let media_type = match &messages[i].media_type {
                Some(d) => d.clone(),
                None => {
                    return Err(ApiError::MissingField(Field::MediaType));
                },
            };
            let timestamp = match &messages[i].timestamp {
                Some(d) => d.clone(),
                None => {
                    return Err(ApiError::MissingField(Field::Timestamp));
                },
            };
            let signature = match &messages[i].signature {
                Some(d) => d.clone(),
                None => {
                    return Err(ApiError::MissingField(Field::Signature));
                },
            };
            actions.push(
                DbAction::InsertMessage {
                    sender: sender.clone(),
                    conversation_id,
                    data,
                    media_type,
                    timestamp,
                    signature,
                },
            );
            i = i + 1;
        }
        Ok(Prepared::Mutate { actions })
    }

    /// Reduce a Read-Conversations request to the listing it asks for: the
    /// conversations the authenticated caller takes part in.
    pub fn read_conversations(self, login: &Login) -> (r: Result<Prepared, ApiError>)
        requires
            login.wf(),
        ensures
            !login.is_authenticated ==> r == Err::<Prepared, ApiError>(ApiError::Unauthorized),
            login.is_authenticated ==> (r matches Ok(p) && read_conversations_ok(*login, p)),
    {
        if !login.is_authenticated {
            return Err(ApiError::Unauthorized);
        }
        // An authenticated session always carries its identity; this arm is
        // unreachable.
        let email = match &login.email {
            Some(e) => e.clone(),
            None => {
                return Err(ApiError::Unauthorized);
            },
        };
        Ok(Prepared::ReadConversations { email })
    }

    /// Reduce a Read-Messages request to the listing it asks for: the
    /// messages of the first supplied conversation. Batched reads across
    /// several conversations are not supported.
    pub fn read_messages(self, login: &Login) -> (r: Result<Prepared, ApiError>)
        requires
            login.wf(),
        ensures
            match spec_read_in_conversation_err(self@, login.is_authenticated) {
                Some(e) => r == Err::<Prepared, ApiError>(e),
                None => r matches Ok(p) && read_messages_ok(self@, *login, p),
            },
    {
        if !login.is_authenticated {
            return Err(ApiError::Unauthorized);
        }
        let conversations = match self.conversations {
            Some(c) => c,
            None => {
                return Err(ApiError::MissingField(Field::ConversationsList));
            },
        };
        if conversations.len() == 0 {
            return Err(ApiError::MissingField(Field::ConversationsList));
        }
        let conversation_id = match conversations[0].id {
            Some(id) => id,
            None => {
                return Err(ApiError::MissingField(Field::Id));
            },
        };
        // An authenticated session always carries its identity; this arm is
        // unreachable.
        let email = match &login.email {
            Some(e) => e.clone(),
            None => {
                return Err(ApiError::Unauthorized);
            },
        };
        Ok(Prepared::ReadMessages { email, conversation_id })
    }

    /// Reduce a Read-Users request to the listing it asks for: the
    /// participants of the first supplied conversation.
    pub fn read_users(self, login: &Login) -> (r: Result<Prepared, ApiError>)
        requires
            login.wf(),
        ensures
            match spec_read_in_conversation_err(self@, login.is_authenticated) {
                Some(e) => r == Err::<Prepared, ApiError>(e),
                None => r matches Ok(p) && read_users_ok(self@, *login, p),
            },
    {
        if !login.is_authenticated {
            return Err(ApiError::Unauthorized);
        }
        let conversations = match self.conversations {
            Some(c) => c,
            None => {
                return Err(ApiError::MissingField(Field::ConversationsList));
            },
        };
        if conversations.len() == 0 {
            return Err(ApiError::MissingField(Field::ConversationsList));
        }
        let conversation_id = match conversations[0].id {
            Some(id) => id,
            None => {
                return Err(ApiError::MissingField(Field::Id));
            },
        };
        // An authenticated session always carries its identity; this arm is
        // unreachable.
        let email = match &login.email {
            Some(e) => e.clone(),
            None => {
                return Err(ApiError::Unauthorized);
            },
        };
        Ok(Prepared::ReadUsers { email, conversation_id })
    }
}

} // verus!
