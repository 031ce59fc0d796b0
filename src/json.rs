//! The JSON tree that wire payloads are decoded from and encoded to, with
//! typed field readers whose results are stated over the tree itself.
use vstd::prelude::*;

verus! {

/// A JSON value. Numbers that are not integers in the range of `i64`
/// are kept as `OtherNumber`: no field of the protocol reads them.
#[derive(Debug)]
pub enum Json {
    Null,
    Bool(bool),
    Int(i64),
    OtherNumber,
    Str(String),
    Array(Vec<Json>),
    Object(Vec<(String, Json)>),
}

/// Why a wire payload could not be decoded.
#[derive(Clone, Copy, Debug, PartialEq, Eq, Structural)]
pub enum DecodeError {
    /// A required field is absent.
    MissingField,
    /// A field holds a value of the wrong shape or out of range.
    InvalidValue,
    /// A `type` (or `kind`) discriminant names no known variant.
    UnknownTag,
    /// A `Source` pseudo-node occurs twice in one chain.
    DuplicateSource,
    /// A `Quote` pseudo-node occurs twice in one chain.
    DuplicateQuote,
    /// Two mutually exclusive fields are both present.
    ConflictingFields,
    /// A file entry is neither a well-formed file nor a well-formed directory.
    NotFileOrDirectory,
}

/// `i` is the first entry of `es` whose key is `key`.
pub open spec fn is_first_key(es: Seq<(String, Json)>, key: Seq<char>, i: int) -> bool {
    &&& 0 <= i < es.len()
    &&& es[i].0@ == key
    &&& forall|k: int| 0 <= k < i ==> es[k].0@ != key
}

/// The value of the first entry of an object keyed `key`, if any.
pub open spec fn lookup(es: Seq<(String, Json)>, key: Seq<char>) -> Option<Json> {
    if exists|i: int| is_first_key(es, key, i) {
        Some(es[choose|i: int| is_first_key(es, key, i)].1)
    } else {
        None
    }
}

/// The field `key` of `j`; `None` when `j` is no object or lacks the key.
pub open spec fn field_of(j: Json, key: Seq<char>) -> Option<Json> {
    match j {
        Json::Object(es) => lookup(es@, key),
        _ => None,
    }
}

pub proof fn lemma_first_key_unique(es: Seq<(String, Json)>, key: Seq<char>, i: int, k: int)
    requires
        is_first_key(es, key, i),
        is_first_key(es, key, k),
    ensures
        i == k,
{
}

/// Compares two strings character by character.
pub fn str_eq(a: &str, b: &str) -> (r: bool)
    ensures
        r == (a@ == b@),
{
    let n = a.unicode_len();
    if n != b.unicode_len() {
        return false;
    }
    let mut i: usize = 0;
    while i < n
        invariant
            n == a@.len(),
            n == b@.len(),
            i <= n,
            forall|k: int| 0 <= k < i ==> a@[k] == b@[k],
        decreases n - i,
    {
        if a.get_char(i) != b.get_char(i) {
            return false;
        }
        i += 1;
    }
    assert(a@ =~= b@);
    true
}

/// The field `key` of `j`, as `field_of` states it.
pub fn field<'a>(j: &'a Json, key: &str) -> (r: Option<&'a Json>)
    ensures
        match r {
            Some(v) => field_of(*j, key@) == Some(*v),
            None => field_of(*j, key@) is None,
        },
{
    match j {
        Json::Object(es) => {
            let mut i: usize = 0;
            while i < es.len()
                invariant
                    field_of(*j, key@) == lookup(es@, key@),
                    i <= es@.len(),
                    forall|k: int| 0 <= k < i ==> es@[k].0@ != key@,
                decreases es.len() - i,
            {
                if str_eq(es[i].0.as_str(), key) {
                    proof {
                        assert(is_first_key(es@, key@, i as int));
                        let c = choose|c: int| is_first_key(es@, key@, c);
                        lemma_first_key_unique(es@, key@, i as int, c);
                        assert(lookup(es@, key@) == Some(es@[i as int].1));
                    }
                    return Some(&es[i].1);
                }
                i += 1;
            }
            None
        },
        _ => None,
    }
}

/// A decode result agrees with the spec-level outcome `s`: `Ok` exactly
/// when `s` is `Some`, and then with the same value.
pub open spec fn agrees<T>(r: Result<T, DecodeError>, s: Option<T>) -> bool {
    match r {
        Ok(v) => s == Some(v),
        Err(_) => s is None,
    }
}

/// Applies a decoder to a field that may be absent.
pub open spec fn nested<T>(f: Option<Json>, d: spec_fn(Json) -> Option<T>) -> Option<T> {
    match f {
        Some(v) => d(v),
        None => None,
    }
}

/// Applies a decoder to an optional field: absent or `null` reads as `None`.
pub open spec fn opt_nested<T>(f: Option<Json>, d: spec_fn(Json) -> Option<T>) -> Option<Option<T>> {
    match f {
        None => Some(None),
        Some(Json::Null) => Some(None),
        Some(v) => match d(v) {
            Some(x) => Some(Some(x)),
            None => None,
        },
    }
}

pub open spec fn int_of(f: Option<Json>) -> Option<i64> {
    match f {
        Some(Json::Int(n)) => Some(n),
        _ => None,
    }
}

pub open spec fn i32_of(f: Option<Json>) -> Option<i32> {
    match f {
        Some(Json::Int(n)) => if i32::MIN <= n <= i32::MAX {
            Some(n as i32)
        } else {
            None
        },
        _ => None,
    }
}

pub open spec fn bool_of(f: Option<Json>) -> Option<bool> {
    match f {
        Some(Json::Bool(b)) => Some(b),
        _ => None,
    }
}

pub open spec fn string_of(f: Option<Json>) -> Option<String> {
    match f {
        Some(Json::Str(s)) => Some(s),
        _ => None,
    }
}

pub open spec fn array_of(f: Option<Json>) -> Option<Seq<Json>> {
    match f {
        Some(Json::Array(v)) => Some(v@),
        _ => None,
    }
}

/// An optional integer field: absent or `null` reads as `None`.
pub open spec fn opt_int_of(f: Option<Json>) -> Option<Option<i64>> {
    match f {
        None => Some(None),
        Some(Json::Null) => Some(None),
        Some(Json::Int(n)) => Some(Some(n)),
        _ => None,
    }
}

/// An optional string field: absent or `null` reads as `None`.
pub open spec fn opt_string_of(f: Option<Json>) -> Option<Option<String>> {
    match f {
        None => Some(None),
        Some(Json::Null) => Some(None),
        Some(Json::Str(s)) => Some(Some(s)),
        _ => None,
    }
}

/// An optional field: absent or `null` reads as `None`.
pub open spec fn is_absent(f: Option<Json>) -> bool {
    f is None || f == Some(Json::Null)
}

/// The string discriminant `key` of `j`, as characters.
pub open spec fn tag_of(j: Json, key: Seq<char>) -> Option<Seq<char>> {
    match field_of(j, key) {
        Some(Json::Str(s)) => Some(s@),
        _ => None,
    }
}

pub fn read_i64(j: &Json, key: &str) -> (r: Result<i64, DecodeError>)
    ensures
        agrees(r, int_of(field_of(*j, key@))),
{
    match field(j, key) {
        Some(Json::Int(n)) => Ok(*n),
        Some(_) => Err(DecodeError::InvalidValue),
        None => Err(DecodeError::MissingField),
    }
}

pub fn read_i32(j: &Json, key: &str) -> (r: Result<i32, DecodeError>)
    ensures
        agrees(r, i32_of(field_of(*j, key@))),
{
    match field(j, key) {
        Some(Json::Int(n)) => if i32::MIN as i64 <= *n && *n <= i32::MAX as i64 {
            Ok(*n as i32)
        } else {
            Err(DecodeError::InvalidValue)
        },
        Some(_) => Err(DecodeError::InvalidValue),
        None => Err(DecodeError::MissingField),
    }
}

pub fn read_bool(j: &Json, key: &str) -> (r: Result<bool, DecodeError>)
    ensures
        agrees(r, bool_of(field_of(*j, key@))),
{
    match field(j, key) {
        Some(Json::Bool(b)) => Ok(*b),
        Some(_) => Err(DecodeError::InvalidValue),
        None => Err(DecodeError::MissingField),
    }
}

pub fn read_string(j: &Json, key: &str) -> (r: Result<String, DecodeError>)
    ensures
        agrees(r, string_of(field_of(*j, key@))),
{
    match field(j, key) {
        Some(Json::Str(s)) => Ok(s.clone()),
        Some(_) => Err(DecodeError::InvalidValue),
        None => Err(DecodeError::MissingField),
    }
}

pub fn read_array<'a>(j: &'a Json, key: &str) -> (r: Result<&'a Vec<Json>, DecodeError>)
    ensures
        match r {
            Ok(v) => field_of(*j, key@) == Some(Json::Array(*v)),
            Err(_) => array_of(field_of(*j, key@)) is None,
        },
{
    match field(j, key) {
        Some(Json::Array(v)) => Ok(v),
        Some(_) => Err(DecodeError::InvalidValue),
        None => Err(DecodeError::MissingField),
    }
}

pub fn read_opt_i64(j: &Json, key: &str) -> (r: Result<Option<i64>, DecodeError>)
    ensures
        agrees(r, opt_int_of(field_of(*j, key@))),
{
    match field(j, key) {
        None => Ok(None),
        Some(Json::Null) => Ok(None),
        Some(Json::Int(n)) => Ok(Some(*n)),
        Some(_) => Err(DecodeError::InvalidValue),
    }
}

pub fn read_opt_string(j: &Json, key: &str) -> (r: Result<Option<String>, DecodeError>)
    ensures
        agrees(r, opt_string_of(field_of(*j, key@))),
{
    match field(j, key) {
        None => Ok(None),
        Some(Json::Null) => Ok(None),
        Some(Json::Str(s)) => Ok(Some(s.clone())),
        Some(_) => Err(DecodeError::InvalidValue),
    }
}

/// The field `key` when it is present and not `null`.
pub fn present<'a>(j: &'a Json, key: &str) -> (r: Option<&'a Json>)
    ensures
        match r {
            Some(v) => field_of(*j, key@) == Some(*v) && *v != Json::Null,
            None => is_absent(field_of(*j, key@)),
        },
{
    match field(j, key) {
        Some(Json::Null) => None,
        Some(v) => Some(v),
        None => None,
    }
}

/// The field `key`, which must be present.
pub fn require<'a>(j: &'a Json, key: &str) -> (r: Result<&'a Json, DecodeError>)
    ensures
        match r {
            Ok(v) => field_of(*j, key@) == Some(*v),
            Err(_) => field_of(*j, key@) is None,
        },
{
    match field(j, key) {
        Some(v) => Ok(v),
        None => Err(DecodeError::MissingField),
    }
}

/// Whether `j` holds the string discriminant `key` equal to `tag`.
pub fn has_tag(j: &Json, key: &str, tag: &str) -> (r: bool)
    ensures
        r == (tag_of(*j, key@) == Some(tag@)),
{
    match field(j, key) {
        Some(Json::Str(s)) => str_eq(s.as_str(), tag),
        _ => false,
    }
}

/// A field's value is a strict part of the object that holds it, so
/// decoders may recurse into it.
pub proof fn lemma_field_decreases(j: Json, key: Seq<char>)
    ensures
        field_of(j, key) matches Some(v) ==> decreases_to!(j => v),
{
    if let Json::Object(es) = j {
        if exists|i: int| is_first_key(es@, key, i) {
            let i = choose|i: int| is_first_key(es@, key, i);
            assert(decreases_to!(es@ => es@[i]));
            assert(decreases_to!(j => es@[i].1));
        }
    }
}

/// An element of an array is a strict part of it.
pub proof fn lemma_element_decreases(j: Json, v: Vec<Json>, i: int)
    requires
        j == Json::Array(v),
        0 <= i < v@.len(),
    ensures
        decreases_to!(j => v@[i]),
{
    if let Json::Array(w) = j {
        assert(decreases_to!(w@ => w@[i]));
        assert(decreases_to!(j => w@[i]));
    }
}

/// Every element of an array is a strict part of it.
pub proof fn lemma_elements_decrease(j: Json)
    ensures
        j matches Json::Array(v) ==> forall|i: int|
            0 <= i < v@.len() ==> decreases_to!(j => #[trigger] v@[i]),
{
    if let Json::Array(v) = j {
        assert forall|i: int| 0 <= i < v@.len() implies decreases_to!(j => #[trigger] v@[i]) by {
            lemma_element_decreases(j, v, i);
        }
    }
}

/// `j` is an object whose keys are exactly `keys`, in order.
pub open spec fn object_is(j: Json, keys: Seq<Seq<char>>) -> bool {
    j matches Json::Object(es) && es@.len() == keys.len() && forall|i: int|
        0 <= i < keys.len() ==> #[trigger] es@[i].0@ == keys[i]
}

/// The value of the `i`-th entry of an object.
pub open spec fn value_at(j: Json, i: int) -> Json {
    match j {
        Json::Object(es) => es@[i].1,
        _ => Json::Null,
    }
}

/// `j` is a string holding `s`.
pub open spec fn str_is(j: Json, s: Seq<char>) -> bool {
    j matches Json::Str(x) && x@ == s
}

/// Some entry of the object `j` holds `v` under `key`.
pub open spec fn carries(j: Json, key: Seq<char>, v: Json) -> bool {
    j matches Json::Object(es) && exists|i: int|
        0 <= i < es@.len() && #[trigger] es@[i].0@ == key && es@[i].1 == v
}

/// Some entry of the object `j` holds a string equal to `s` under `key`.
pub open spec fn carries_str(j: Json, key: Seq<char>, s: Seq<char>) -> bool {
    j matches Json::Object(es) && exists|i: int|
        0 <= i < es@.len() && #[trigger] es@[i].0@ == key && str_is(es@[i].1, s)
}

/// A string value.
pub fn text(s: &str) -> (r: Json)
    ensures
        str_is(r, s@),
{
    Json::Str(String::from_str(s))
}

/// Appends the entry `key: v` to an object under construction.
pub fn put(es: &mut Vec<(String, Json)>, key: &str, v: Json)
    ensures
        final(es)@ == old(es)@.push((final(es)@.last().0, v)),
        final(es)@.last().0@ == key@,
{
    es.push((String::from_str(key), v));
}

/// The single key `key` when `present` holds, no key otherwise: how an
/// optional field appears among an object's keys.
pub open spec fn key_if(present: bool, key: Seq<char>) -> Seq<Seq<char>> {
    if present {
        seq![key]
    } else {
        Seq::empty()
    }
}

} // verus!
