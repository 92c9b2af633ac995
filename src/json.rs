use vstd::prelude::*;

use crate::error::ClientError;

verus! {

broadcast use vstd::std_specs::vec::axiom_vec_index_decreases;

/// serde_json's number, carried through unread where it does not fit in an `i64`.
#[verifier::external_type_specification]
#[verifier::external_body]
pub struct ExNumber(serde_json::Number);

/// serde_json's value tree, which the encoding and parsing wrappers convert from and to `Json`.
#[verifier::external_type_specification]
#[verifier::external_body]
pub struct ExValue(serde_json::Value);

/// serde_json's error for bytes that are no JSON text.
#[verifier::external_type_specification]
#[verifier::external_body]
pub struct ExJsonError(serde_json::Error);

/// A JSON value as the library builds and reads it.
#[derive(Debug)]
pub enum Json {
    Null,
    Bool(bool),
    /// A number that fits in an `i64`.
    Int(i64),
    /// Any other number, kept as serde_json holds it.
    Number(serde_json::Number),
    Str(String),
    Array(Vec<Json>),
    /// Members in order; a key is looked up at its first occurrence.
    Object(Vec<(String, Json)>),
}

/// The mathematical form of a `Json` value.
pub enum JsonV {
    Null,
    Bool(bool),
    Int(int),
    Number(serde_json::Number),
    Str(Seq<char>),
    Array(Seq<JsonV>),
    Object(Seq<(Seq<char>, JsonV)>),
}

impl View for Json {
    type V = JsonV;

    open spec fn view(&self) -> JsonV
        decreases self,
    {
        match self {
            Json::Null => JsonV::Null,
            Json::Bool(b) => JsonV::Bool(*b),
            Json::Int(i) => JsonV::Int(*i as int),
            Json::Number(n) => JsonV::Number(*n),
            Json::Str(s) => JsonV::Str(s@),
            Json::Array(v) => JsonV::Array(
                Seq::new(v.len() as nat, |i: int| if 0 <= i < v.len() { v[i]@ } else { JsonV::Null }),
            ),
            Json::Object(m) => JsonV::Object(members_view(m)),
        }
    }
}

/// The view of an object's members.
pub open spec fn members_view(m: &Vec<(String, Json)>) -> Seq<(Seq<char>, JsonV)>
    decreases m,
{
    Seq::new(
        m.len() as nat,
        |i: int| if 0 <= i < m.len() { (m[i].0@, m[i].1@) } else { (Seq::empty(), JsonV::Null) },
    )
}

/// The value of the first member named `key`.
pub open spec fn lookup(m: Seq<(Seq<char>, JsonV)>, key: Seq<char>) -> Option<JsonV>
    decreases m.len(),
{
    if m.len() == 0 {
        None
    } else if m[0].0 == key {
        Some(m[0].1)
    } else {
        lookup(m.drop_first(), key)
    }
}

/// The member `key` of an object; `None` for a value that is no object.
pub open spec fn member(v: JsonV, key: Seq<char>) -> Option<JsonV> {
    match v {
        JsonV::Object(m) => lookup(m, key),
        _ => None,
    }
}

/// The bytes that serde_json writes for a value.
pub uninterp spec fn json_bytes(v: JsonV) -> Seq<u8>;

/// What serde_json reads from bytes, if they are a JSON text.
pub uninterp spec fn json_parse(b: Seq<u8>) -> Option<JsonV>;

/// Relies on serde_json::to_vec: writes a JSON value, and the bytes depend on the value alone.
#[verifier::external_body]
fn to_json_bytes(j: &Json) -> (r: Vec<u8>)
    ensures
        r@ == json_bytes(j@),
{
    serde_json::to_vec(&value_of(j)).unwrap_or_default()
}

/// Relies on serde_json::from_slice: reads one JSON value, and fails on bytes that are no JSON
/// text; what it reads depends on the bytes alone.
#[verifier::external_body]
fn parse_json(b: &[u8]) -> (r: Result<Json, serde_json::Error>)
    ensures
        r is Ok <==> json_parse(b@) is Some,
        r matches Ok(j) ==> json_parse(b@) == Some(j@),
{
    serde_json::from_slice::<serde_json::Value>(b).map(json_of)
}

impl Json {
    /// The JSON text of the value.
    pub fn to_bytes(&self) -> (r: Vec<u8>)
        ensures
            r@ == json_bytes(self@),
    {
        to_json_bytes(self)
    }

    /// Reads one JSON value from bytes; bytes that are no JSON text give `ClientError::Json`.
    pub fn parse(b: &[u8]) -> (r: Result<Json, ClientError>)
        ensures
            r is Ok <==> json_parse(b@) is Some,
            r matches Ok(j) ==> json_parse(b@) == Some(j@),
            r is Err ==> r matches Err(ClientError::Json(_)),
    {
        match parse_json(b) {
            Ok(j) => Ok(j),
            Err(e) => Err(ClientError::Json(e)),
        }
    }
}

/// Turns a `Json` into serde_json's value tree, one node for one node.
#[verifier::external_body]
fn value_of(j: &Json) -> serde_json::Value {
    match j {
        Json::Null => serde_json::Value::Null,
        Json::Bool(b) => serde_json::Value::Bool(*b),
        Json::Int(i) => serde_json::Value::Number((*i).into()),
        Json::Number(n) => serde_json::Value::Number(n.clone()),
        Json::Str(s) => serde_json::Value::String(s.clone()),
        Json::Array(v) => serde_json::Value::Array(v.iter().map(value_of).collect()),
        Json::Object(m) => serde_json::Value::Object(
            m.iter().map(|(k, x)| (k.clone(), value_of(x))).collect(),
        ),
    }
}

/// Turns serde_json's value tree into a `Json`, one node for one node.
#[verifier::external_body]
fn json_of(v: serde_json::Value) -> Json {
    match v {
        serde_json::Value::Null => Json::Null,
        serde_json::Value::Bool(b) => Json::Bool(b),
        serde_json::Value::Number(n) => match n.as_i64() {
            Some(i) => Json::Int(i),
            None => Json::Number(n),
        },
        serde_json::Value::String(s) => Json::Str(s),
        serde_json::Value::Array(a) => Json::Array(a.into_iter().map(json_of).collect()),
        serde_json::Value::Object(m) => Json::Object(
            m.into_iter().map(|(k, x)| (k, json_of(x))).collect(),
        ),
    }
}

/// Appends the member `key: value` to an object's members.
pub fn push_member(m: &mut Vec<(String, Json)>, key: &str, value: Json)
    ensures
        members_view(final(m)) == members_view(old(m)).push((key@, value@)),
{
    let ghost before = members_view(m);
    m.push((key.to_string(), value));
    assert(members_view(m) =~= before.push((key@, value@)));
}

/// `m` with the member `key: v` appended where `v` is present.
pub open spec fn with_member(
    m: Seq<(Seq<char>, JsonV)>,
    key: Seq<char>,
    v: Option<JsonV>,
) -> Seq<(Seq<char>, JsonV)> {
    match v {
        Some(x) => m.push((key, x)),
        None => m,
    }
}

pub open spec fn opt_str_json(v: Option<String>) -> Option<JsonV> {
    match v {
        Some(s) => Some(JsonV::Str(s@)),
        None => None,
    }
}

pub open spec fn opt_int_json(v: Option<i64>) -> Option<JsonV> {
    match v {
        Some(n) => Some(JsonV::Int(n as int)),
        None => None,
    }
}

pub open spec fn opt_bool_json(v: Option<bool>) -> Option<JsonV> {
    match v {
        Some(b) => Some(JsonV::Bool(b)),
        None => None,
    }
}

/// Appends `key` with a string, where there is one.
pub fn push_opt_str(m: &mut Vec<(String, Json)>, key: &str, v: &Option<String>)
    ensures
        members_view(final(m)) == with_member(members_view(old(m)), key@, opt_str_json(*v)),
{
    match v {
        Some(s) => push_member(m, key, Json::Str(s.clone())),
        None => {},
    }
}

/// Appends `key` with an integer, where there is one.
pub fn push_opt_int(m: &mut Vec<(String, Json)>, key: &str, v: Option<i64>)
    ensures
        members_view(final(m)) == with_member(members_view(old(m)), key@, opt_int_json(v)),
{
    match v {
        Some(n) => push_member(m, key, Json::Int(n)),
        None => {},
    }
}

/// Appends `key` with a boolean, where there is one.
pub fn push_opt_bool(m: &mut Vec<(String, Json)>, key: &str, v: Option<bool>)
    ensures
        members_view(final(m)) == with_member(members_view(old(m)), key@, opt_bool_json(v)),
{
    match v {
        Some(b) => push_member(m, key, Json::Bool(b)),
        None => {},
    }
}

/// The position of the first member named `key`.
pub fn find(m: &Vec<(String, Json)>, key: &str) -> (r: Option<usize>)
    ensures
        r is None <==> lookup(members_view(m), key@) is None,
        r matches Some(i) ==> i < m.len() && lookup(members_view(m), key@) == Some(
            members_view(m)[i as int].1,
        ),
{
    let ghost mv = members_view(m);
    let mut i: usize = 0;
    assert(mv.subrange(0, mv.len() as int) =~= mv);
    while i < m.len()
        invariant
            0 <= i <= m.len(),
            mv == members_view(m),
            lookup(mv, key@) == lookup(mv.subrange(i as int, mv.len() as int), key@),
        decreases m.len() - i,
    {
        let ghost rest = mv.subrange(i as int, mv.len() as int);
        assert(rest.drop_first() =~= mv.subrange(i + 1, mv.len() as int));
        assert(rest[0] == mv[i as int]);
        if str_eq(m[i].0.as_str(), key) {
            return Some(i);
        }
        i = i + 1;
    }
    None
}

/// The value of the first member named `key`.
pub fn get<'a>(m: &'a Vec<(String, Json)>, key: &str) -> (r: Option<&'a Json>)
    ensures
        r is None <==> lookup(members_view(m), key@) is None,
        r matches Some(x) ==> lookup(members_view(m), key@) == Some(x@),
{
    match find(m, key) {
        Some(i) => Some(&m[i].1),
        None => None,
    }
}

/// A member that must be an integer.
pub open spec fn int_field(m: Seq<(Seq<char>, JsonV)>, key: Seq<char>) -> Option<int> {
    match lookup(m, key) {
        Some(JsonV::Int(n)) => Some(n),
        _ => None,
    }
}

/// A member that may be absent or null, or else must be an integer.
pub open spec fn opt_int_field(m: Seq<(Seq<char>, JsonV)>, key: Seq<char>) -> Option<Option<int>> {
    match lookup(m, key) {
        None => Some(None),
        Some(JsonV::Null) => Some(None),
        Some(JsonV::Int(n)) => Some(Some(n)),
        _ => None,
    }
}

/// A member that must be a string.
pub open spec fn str_field(m: Seq<(Seq<char>, JsonV)>, key: Seq<char>) -> Option<Seq<char>> {
    match lookup(m, key) {
        Some(JsonV::Str(s)) => Some(s),
        _ => None,
    }
}

/// A member that must be a boolean.
pub open spec fn bool_field(m: Seq<(Seq<char>, JsonV)>, key: Seq<char>) -> Option<bool> {
    match lookup(m, key) {
        Some(JsonV::Bool(b)) => Some(b),
        _ => None,
    }
}

/// The error for a member, named `key`, of the wrong shape.
pub open spec fn is_decode_error(e: ClientError, key: Seq<char>) -> bool {
    e matches ClientError::Decode(k) && k@ == key
}

pub fn decode_error(key: &str) -> (e: ClientError)
    ensures
        is_decode_error(e, key@),
{
    ClientError::Decode(key.to_string())
}

/// The members of a value that must be an object.
pub open spec fn members(v: JsonV) -> Option<Seq<(Seq<char>, JsonV)>> {
    match v {
        JsonV::Object(m) => Some(m),
        _ => None,
    }
}

pub fn object_members(v: &Json) -> (r: Result<&Vec<(String, Json)>, ClientError>)
    ensures
        r is Ok <==> members(v@) is Some,
        r matches Ok(m) ==> members(v@) == Some(members_view(m)),
        r matches Err(e) ==> is_decode_error(e, ""@),
{
    match v {
        Json::Object(m) => Ok(m),
        _ => Err(decode_error("")),
    }
}

pub fn int_member(m: &Vec<(String, Json)>, key: &str) -> (r: Result<i64, ClientError>)
    ensures
        r is Ok <==> int_field(members_view(m), key@) is Some,
        r matches Ok(n) ==> int_field(members_view(m), key@) == Some(n as int),
        r matches Err(e) ==> is_decode_error(e, key@),
{
    match get(m, key) {
        Some(Json::Int(n)) => Ok(*n),
        _ => Err(decode_error(key)),
    }
}

pub fn opt_int_member(m: &Vec<(String, Json)>, key: &str) -> (r: Result<Option<i64>, ClientError>)
    ensures
        r is Ok <==> opt_int_field(members_view(m), key@) is Some,
        r matches Ok(n) ==> opt_int_field(members_view(m), key@) == Some(
            match n {
                Some(x) => Some(x as int),
                None => None::<int>,
            },
        ),
        r matches Err(e) ==> is_decode_error(e, key@),
{
    match get(m, key) {
        None => Ok(None),
        Some(Json::Null) => Ok(None),
        Some(Json::Int(n)) => Ok(Some(*n)),
        _ => Err(decode_error(key)),
    }
}

pub fn str_member(m: &Vec<(String, Json)>, key: &str) -> (r: Result<String, ClientError>)
    ensures
        r is Ok <==> str_field(members_view(m), key@) is Some,
        r matches Ok(s) ==> str_field(members_view(m), key@) == Some(s@),
        r matches Err(e) ==> is_decode_error(e, key@),
{
    match get(m, key) {
        Some(Json::Str(s)) => Ok(s.clone()),
        _ => Err(decode_error(key)),
    }
}

pub fn bool_member(m: &Vec<(String, Json)>, key: &str) -> (r: Result<bool, ClientError>)
    ensures
        r is Ok <==> bool_field(members_view(m), key@) is Some,
        r matches Ok(b) ==> bool_field(members_view(m), key@) == Some(b),
        r matches Err(e) ==> is_decode_error(e, key@),
{
    match get(m, key) {
        Some(Json::Bool(b)) => Ok(*b),
        _ => Err(decode_error(key)),
    }
}

/// Whether two strings hold the same characters.
pub fn str_eq(a: &str, b: &str) -> (r: bool)
    ensures
        r == (a@ == b@),
{
    let n = a.unicode_len();
    if n != b.unicode_len() {
        return false;
    }
    let mut i: usize = 0;
    while i < n
        invariant
            0 <= i <= n,
            n == a@.len(),
            n == b@.len(),
            forall|k: int| 0 <= k < i ==> a@[k] == b@[k],
        decreases n - i,
    {
        if a.get_char(i) != b.get_char(i) {
            return false;
        }
        i = i + 1;
    }
    assert(a@ =~= b@);
    true
}

} // verus!
