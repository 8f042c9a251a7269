//! The wire layer: a model of JSON documents, and the trusted boundary to
//! the outside parser, printer, base64 codec and UTF-8 decoder.
//!
//! The protocol exchanges one JSON document per message. The document is
//! parsed by `serde_json` behind a trusted wrapper and handed to the rest of
//! the library as a [`JsonVal`], a plain tree of values that every decoding
//! decision is verified against.

use vstd::prelude::*;

verus! {

use vstd::utf8::valid_utf8;
use vstd::utf8::decode_utf8;
use vstd::string::StrSliceExecFns;

broadcast use vstd::seq::axiom_seq_index_decreases, vstd::std_specs::vec::axiom_vec_decreases_to_view;

/// A JSON document as the library sees it.
///
/// A number is carried as its `i64` value when it has one; the decoder reads
/// numbers only through that lens, so a float or an out-of-range integer is
/// carried as `Num(None)`.
pub enum JsonVal {
    Null,
    Bool(bool),
    Num(Option<i64>),
    Str(String),
    Arr(Vec<JsonVal>),
    Obj(Vec<(String, JsonVal)>),
}

/// The mathematical shape of a [`JsonVal`]: strings become `Seq<char>`,
/// vectors become `Seq`.
pub enum JsonV {
    Null,
    Bool(bool),
    Num(Option<i64>),
    Str(Seq<char>),
    Arr(Seq<JsonV>),
    Obj(Seq<(Seq<char>, JsonV)>),
}

impl JsonVal {
    /// The model of this document.
    pub open spec fn jm(self) -> JsonV
        decreases self,
    {
        match self {
            JsonVal::Null => JsonV::Null,
            JsonVal::Bool(b) => JsonV::Bool(b),
            JsonVal::Num(n) => JsonV::Num(n),
            JsonVal::Str(s) => JsonV::Str(s@),
            JsonVal::Arr(a) => JsonV::Arr(jm_elems(a@)),
            JsonVal::Obj(o) => JsonV::Obj(jm_fields(o@)),
        }
    }
}

/// The models of the elements of an array, in order.
pub open spec fn jm_elems(a: Seq<JsonVal>) -> Seq<JsonV>
    decreases a,
{
    if a.len() == 0 {
        Seq::empty()
    } else {
        seq![a[0].jm()] + jm_elems(a.drop_first())
    }
}

/// The models of the fields of an object, in order.
pub open spec fn jm_fields(o: Seq<(String, JsonVal)>) -> Seq<(Seq<char>, JsonV)>
    decreases o,
{
    if o.len() == 0 {
        Seq::empty()
    } else {
        seq![(o[0].0@, o[0].1.jm())] + jm_fields(o.drop_first())
    }
}

/// The first binding of `key` among `fields`, scanning from position `i`.
pub open spec fn obj_get_from(fields: Seq<(Seq<char>, JsonV)>, key: Seq<char>, i: int) -> Option<
    JsonV,
>
    decreases fields.len() - i,
{
    if i < 0 || i >= fields.len() {
        None
    } else if fields[i].0 == key {
        Some(fields[i].1)
    } else {
        obj_get_from(fields, key, i + 1)
    }
}

/// Indexing a document by key, as `serde_json`'s `Value` indexing behaves:
/// a missing key, or a non-object document, reads as `Null`.
pub open spec fn jfield(j: JsonV, key: Seq<char>) -> JsonV {
    match j {
        JsonV::Obj(fields) => match obj_get_from(fields, key, 0) {
            Some(v) => v,
            None => JsonV::Null,
        },
        _ => JsonV::Null,
    }
}

/// No two fields of the object bind the same key.
pub open spec fn distinct_keys(o: Seq<(Seq<char>, JsonV)>) -> bool {
    forall|i: int, k: int| 0 <= i < k < o.len() ==> o[i].0 != o[k].0
}

/// A document that the outside printer turns into text that parses back to
/// the very same document: no numbers the model cannot carry, no duplicate
/// object keys (an object is a map on the wire), and nesting within `d`
/// levels (the outside parser refuses documents nested deeper than 128
/// levels, so a printed document must stay well under that).
pub open spec fn encodable(j: JsonV, d: nat) -> bool
    decreases d,
{
    match j {
        JsonV::Num(n) => n is Some,
        JsonV::Arr(a) => d > 0 && forall|i: int|
            0 <= i < a.len() ==> encodable(#[trigger] a[i], (d - 1) as nat),
        JsonV::Obj(o) => d > 0 && distinct_keys(o) && forall|i: int|
            0 <= i < o.len() ==> encodable(#[trigger] o[i].1, (d - 1) as nat),
        _ => true,
    }
}

/// What the outside JSON parser makes of a text: `None` when the text is
/// not a JSON document it accepts, otherwise the model of the parsed
/// document. Parsing depends on the text alone.
pub uninterp spec fn json_of(s: Seq<char>) -> Option<JsonV>;

/// What the outside base64 decoder (standard alphabet, padded) makes of a
/// text: the bytes it encodes, or `None` when the text is not base64.
pub uninterp spec fn b64_decode_of(s: Seq<char>) -> Option<Seq<u8>>;

/// The base64 text (standard alphabet, padded) of a byte string.
pub uninterp spec fn b64_of(b: Seq<u8>) -> Seq<char>;

/// A variant-for-variant move of a parsed `serde_json::Value` tree into
/// the library's own [`JsonVal`]; a number travels through
/// `Number::as_i64`. What is claimed of parsing is claimed of
/// [`parse_json`], whose body composes the parser with this move.
#[verifier::external_body]
fn value_to_json(v: serde_json::Value) -> JsonVal {
    match v {
        serde_json::Value::Null => JsonVal::Null,
        serde_json::Value::Bool(b) => JsonVal::Bool(b),
        serde_json::Value::Number(n) => JsonVal::Num(n.as_i64()),
        serde_json::Value::String(s) => JsonVal::Str(s),
        serde_json::Value::Array(a) => JsonVal::Arr(a.into_iter().map(value_to_json).collect()),
        serde_json::Value::Object(m) => JsonVal::Obj(
            m.into_iter().map(|p| (p.0, value_to_json(p.1))).collect(),
        ),
    }
}

/// The move back: the library's [`JsonVal`] as a `serde_json::Value`.
/// `Num(None)` has no number to give back and becomes `Null`; the printer
/// is never asked to print one (see [`encodable`]).
#[verifier::external_body]
fn json_to_value(j: &JsonVal) -> serde_json::Value {
    match j {
        JsonVal::Null => serde_json::Value::Null,
        JsonVal::Bool(b) => serde_json::Value::Bool(*b),
        JsonVal::Num(Some(i)) => serde_json::Value::Number(serde_json::Number::from(*i)),
        JsonVal::Num(None) => serde_json::Value::Null,
        JsonVal::Str(s) => serde_json::Value::String(s.clone()),
        JsonVal::Arr(a) => serde_json::Value::Array(a.iter().map(json_to_value).collect()),
        JsonVal::Obj(o) => serde_json::Value::Object(
            o.iter().map(|p| (p.0.clone(), json_to_value(&p.1))).collect(),
        ),
    }
}

#[verifier::external_type_specification]
#[verifier::external_body]
pub struct ExValue(serde_json::Value);

/// Relies on `serde_json::from_str::<Value>`: parsing is a function of the
/// text alone, and fails exactly where the text is not a JSON document the
/// parser accepts.
#[verifier::external_body]
pub(crate) fn parse_json(s: &str) -> (r: Option<JsonVal>)
    ensures
        r is Some <==> json_of(s@) is Some,
        r matches Some(j) ==> json_of(s@) == Some(j.jm()),
{
    serde_json::from_str::<serde_json::Value>(s).ok().map(value_to_json)
}

/// Relies on `serde_json`'s printer (`Value`'s `Display`): it prints a
/// document whose object order is kept (the `preserve_order` feature) and
/// whose text, for an [`encodable`] document, parses back to that document.
#[verifier::external_body]
pub(crate) fn render_json(j: &JsonVal) -> (r: String)
    ensures
        encodable(j.jm(), 100) ==> json_of(r@) == Some(j.jm()),
{
    json_to_value(j).to_string()
}

/// Relies on `base64::decode` (standard alphabet, padded).
#[verifier::external_body]
pub(crate) fn b64_decode(s: &str) -> (r: Option<Vec<u8>>)
    ensures
        r is Some <==> b64_decode_of(s@) is Some,
        r matches Some(v) ==> b64_decode_of(s@) == Some(v@),
{
    base64::decode(s).ok()
}

/// Relies on `base64::encode` (standard alphabet, padded); `base64::decode`
/// gives the input back from the result.
#[verifier::external_body]
pub(crate) fn b64_encode(b: &[u8]) -> (r: String)
    ensures
        r@ == b64_of(b@),
        b64_decode_of(r@) == Some(b@),
{
    base64::encode(b)
}

/// Relies on `std::str::from_utf8`: succeeds exactly on valid UTF-8, and
/// reads the bytes as the characters they encode.
#[verifier::external_body]
pub(crate) fn bytes_to_str(b: &[u8]) -> (r: Option<&str>)
    ensures
        r is Some <==> valid_utf8(b@),
        r matches Some(s) ==> s@ == decode_utf8(b@),
{
    std::str::from_utf8(b).ok()
}

/// The model of an array indexes as the array does.
pub proof fn lemma_jm_elems(a: Seq<JsonVal>)
    ensures
        jm_elems(a).len() == a.len(),
        forall|i: int| 0 <= i < a.len() ==> jm_elems(a)[i] == a[i].jm(),
    decreases a.len(),
{
    if a.len() > 0 {
        lemma_jm_elems(a.drop_first());
    }
}

/// The model of an object indexes as the field list does.
pub proof fn lemma_jm_fields(o: Seq<(String, JsonVal)>)
    ensures
        jm_fields(o).len() == o.len(),
        forall|i: int| 0 <= i < o.len() ==> jm_fields(o)[i] == (o[i].0@, o[i].1.jm()),
    decreases o.len(),
{
    if o.len() > 0 {
        lemma_jm_fields(o.drop_first());
    }
}

/// Two texts holding the same characters.
pub fn str_eq(a: &str, b: &str) -> (r: bool)
    ensures
        r == (a@ == b@),
{
    let n = a.unicode_len();
    if n != b.unicode_len() {
        return false;
    }
    let mut i: usize = 0;
    while i < n
        invariant
            i <= n,
            n == a@.len(),
            n == b@.len(),
            forall|k: int| 0 <= k < i ==> a@[k] == b@[k],
        decreases n - i,
    {
        if a.get_char(i) != b.get_char(i) {
            return false;
        }
        i = i + 1;
    }
    proof {
        assert(a@ =~= b@);
    }
    true
}

impl JsonVal {
    /// The field bound to `key`, when this is an object that binds it.
    pub fn get<'a>(&'a self, key: &str) -> (r: Option<&'a JsonVal>)
        ensures
            r matches Some(v) ==> jfield(self.jm(), key@) == v.jm(),
            r is None ==> jfield(self.jm(), key@) is Null,
    {
        match self {
            JsonVal::Obj(fields) => {
                let ghost fs = jm_fields(fields@);
                proof {
                    lemma_jm_fields(fields@);
                    assert(self.jm() == JsonV::Obj(fs));
                }
                let n = fields.len();
                let mut i: usize = 0;
                while i < n
                    invariant
                        i <= n,
                        n == fields@.len(),
                        fs == jm_fields(fields@),
                        self.jm() == JsonV::Obj(fs),
                        fs.len() == n,
                        forall|k: int| 0 <= k < n ==> fs[k] == (fields@[k].0@, fields@[k].1.jm()),
                        obj_get_from(fs, key@, 0) == obj_get_from(fs, key@, i as int),
                    decreases n - i,
                {
                    if str_eq(fields[i].0.as_str(), key) {
                        assert(obj_get_from(fs, key@, i as int) == Some(fields@[i as int].1.jm()));
                        return Some(&fields[i].1);
                    }
                    i = i + 1;
                }
                None
            },
            _ => None,
        }
    }
}

} // verus!
