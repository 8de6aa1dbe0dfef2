use vstd::prelude::*;

use crate::error::Error;

verus! {

/// A JSON document as the library reads and writes it.
///
/// Numbers that are integers are held exactly; any other number is kept as the
/// decimal text it was written with. An object keeps its members in order.
#[derive(Debug)]
pub enum Json {
    Null,
    Bool(bool),
    Int(i128),
    Decimal(String),
    Str(String),
    Array(Vec<Json>),
    Object(Vec<(String, Json)>),
}

/// The value of the first member named `key` at or after position `i`.
pub open spec fn field_from(fs: Seq<(String, Json)>, key: Seq<char>, i: int) -> Option<Json>
    decreases fs.len() - i,
{
    if i < 0 || i >= fs.len() {
        None
    } else if fs[i].0@ == key {
        Some(fs[i].1)
    } else {
        field_from(fs, key, i + 1)
    }
}

/// The value of the member named `key` of an object (the first one, should the name
/// occur twice).
pub open spec fn field_of(fs: Seq<(String, Json)>, key: Seq<char>) -> Option<Json> {
    field_from(fs, key, 0)
}

/// A member that must be a string.
pub open spec fn str_value(j: Option<Json>) -> Option<String> {
    match j {
        Some(Json::Str(s)) => Some(s),
        _ => None,
    }
}

/// A member that must be a boolean.
pub open spec fn bool_value(j: Option<Json>) -> Option<bool> {
    match j {
        Some(Json::Bool(b)) => Some(b),
        _ => None,
    }
}

/// A member that must be an integer in the range of `u64`.
pub open spec fn u64_value(j: Option<Json>) -> Option<u64> {
    match j {
        Some(Json::Int(n)) => if 0 <= n <= u64::MAX {
            Some(n as u64)
        } else {
            None
        },
        _ => None,
    }
}

/// The strings of an array all of whose items are strings.
pub open spec fn strings_of(items: Seq<Json>) -> Option<Seq<String>> {
    if forall|k: int| 0 <= k < items.len() ==> (#[trigger] items[k]) is Str {
        Some(Seq::new(items.len(), |k: int| items[k]->Str_0))
    } else {
        None
    }
}

/// A member that must be an array of strings.
pub open spec fn strings_value(j: Option<Json>) -> Option<Seq<String>> {
    match j {
        Some(Json::Array(items)) => strings_of(items@),
        _ => None,
    }
}

/// The members of an object all of whose values are strings.
pub open spec fn string_pairs_of(fs: Seq<(String, Json)>) -> Option<Seq<(String, String)>> {
    if forall|k: int| 0 <= k < fs.len() ==> (#[trigger] fs[k]).1 is Str {
        Some(Seq::new(fs.len(), |k: int| (fs[k].0, fs[k].1->Str_0)))
    } else {
        None
    }
}

/// A member that must be an object whose values are strings.
pub open spec fn string_pairs_value(j: Option<Json>) -> Option<Seq<(String, String)>> {
    match j {
        Some(Json::Object(fs)) => string_pairs_of(fs@),
        _ => None,
    }
}

/// A member that may be missing or null; `None` when it is there with another shape.
pub open spec fn opt_str_value(j: Option<Json>) -> Option<Option<String>> {
    match j {
        None => Some(None),
        Some(Json::Null) => Some(None),
        _ => match str_value(j) {
            Some(s) => Some(Some(s)),
            None => None,
        },
    }
}

/// A boolean member that may be missing or null.
pub open spec fn opt_bool_value(j: Option<Json>) -> Option<Option<bool>> {
    match j {
        None => Some(None),
        Some(Json::Null) => Some(None),
        _ => match bool_value(j) {
            Some(b) => Some(Some(b)),
            None => None,
        },
    }
}

/// An integer member that may be missing or null.
pub open spec fn opt_u64_value(j: Option<Json>) -> Option<Option<u64>> {
    match j {
        None => Some(None),
        Some(Json::Null) => Some(None),
        _ => match u64_value(j) {
            Some(n) => Some(Some(n)),
            None => None,
        },
    }
}

/// An array of strings that may be missing or null.
pub open spec fn opt_strings_value(j: Option<Json>) -> Option<Option<Seq<String>>> {
    match j {
        None => Some(None),
        Some(Json::Null) => Some(None),
        _ => match strings_value(j) {
            Some(s) => Some(Some(s)),
            None => None,
        },
    }
}

/// An object of strings that may be missing or null.
pub open spec fn opt_string_pairs_value(j: Option<Json>) -> Option<Option<Seq<(String, String)>>> {
    match j {
        None => Some(None),
        Some(Json::Null) => Some(None),
        _ => match string_pairs_value(j) {
            Some(s) => Some(Some(s)),
            None => None,
        },
    }
}

/// A copy of a list of strings.
pub fn copy_strings(v: &Vec<String>) -> (r: Vec<String>)
    ensures
        r@ == v@,
{
    let mut r: Vec<String> = Vec::new();
    let mut i: usize = 0;
    while i < v.len()
        invariant
            0 <= i <= v@.len(),
            r@ == v@.subrange(0, i as int),
        decreases v@.len() - i,
    {
        r.push(v[i].clone());
        i += 1;
        assert(r@ =~= v@.subrange(0, i as int));
    }
    assert(v@.subrange(0, v@.len() as int) =~= v@);
    r
}

/// A copy of a list of string pairs.
pub fn copy_string_pairs(v: &Vec<(String, String)>) -> (r: Vec<(String, String)>)
    ensures
        r@ == v@,
{
    let mut r: Vec<(String, String)> = Vec::new();
    let mut i: usize = 0;
    while i < v.len()
        invariant
            0 <= i <= v@.len(),
            r@ == v@.subrange(0, i as int),
        decreases v@.len() - i,
    {
        r.push((v[i].0.clone(), v[i].1.clone()));
        i += 1;
        assert(r@ =~= v@.subrange(0, i as int));
    }
    assert(v@.subrange(0, v@.len() as int) =~= v@);
    r
}

/// Whether two strings hold the same characters.
pub fn text_eq(a: &str, b: &str) -> (r: bool)
    ensures
        r == (a@ == b@),
{
    let n = a.unicode_len();
    if n != b.unicode_len() {
        return false;
    }
    let mut i: usize = 0;
    while i < n
        invariant
            n == a@.len(),
            n == b@.len(),
            0 <= i <= n,
            forall|j: int| 0 <= j < i ==> a@[j] == b@[j],
        decreases n - i,
    {
        if a.get_char(i) != b.get_char(i) {
            return false;
        }
        i += 1;
    }
    assert(a@ =~= b@);
    true
}

/// The error for a document whose shape does not fit.
pub fn shape_error(what: &str) -> (r: Error)
    ensures
        r is JsonError,
{
    Error::JsonError(String::from_str(what))
}

/// Looks up the member named `key` of an object.
pub fn find_field<'a>(fs: &'a Vec<(String, Json)>, key: &str) -> (r: Option<&'a Json>)
    ensures
        match r {
            Some(j) => field_of(fs@, key@) == Some(*j),
            None => field_of(fs@, key@) is None,
        },
{
    let mut i: usize = 0;
    while i < fs.len()
        invariant
            0 <= i <= fs@.len(),
            field_of(fs@, key@) == field_from(fs@, key@, i as int),
        decreases fs@.len() - i,
    {
        if text_eq(fs[i].0.as_str(), key) {
            return Some(&fs[i].1);
        }
        i += 1;
    }
    None
}

/// Reads a string member.
pub fn field_str(fs: &Vec<(String, Json)>, key: &str) -> (r: Result<String, Error>)
    ensures
        match r {
            Ok(s) => str_value(field_of(fs@, key@)) == Some(s),
            Err(e) => str_value(field_of(fs@, key@)) is None && e is JsonError,
        },
{
    match find_field(fs, key) {
        Some(Json::Str(s)) => Ok(s.clone()),
        _ => Err(shape_error("expected a string member")),
    }
}

/// Reads a boolean member.
pub fn field_bool(fs: &Vec<(String, Json)>, key: &str) -> (r: Result<bool, Error>)
    ensures
        match r {
            Ok(b) => bool_value(field_of(fs@, key@)) == Some(b),
            Err(e) => bool_value(field_of(fs@, key@)) is None && e is JsonError,
        },
{
    match find_field(fs, key) {
        Some(Json::Bool(b)) => Ok(*b),
        _ => Err(shape_error("expected a boolean member")),
    }
}

/// Reads an unsigned integer member.
pub fn field_u64(fs: &Vec<(String, Json)>, key: &str) -> (r: Result<u64, Error>)
    ensures
        match r {
            Ok(n) => u64_value(field_of(fs@, key@)) == Some(n),
            Err(e) => u64_value(field_of(fs@, key@)) is None && e is JsonError,
        },
{
    match find_field(fs, key) {
        Some(Json::Int(n)) => {
            if 0 <= *n && *n <= u64::MAX as i128 {
                Ok(*n as u64)
            } else {
                Err(shape_error("integer out of range"))
            }
        },
        _ => Err(shape_error("expected an integer member")),
    }
}

/// The strings of an array of strings.
pub fn strings_in(items: &Vec<Json>) -> (r: Result<Vec<String>, Error>)
    ensures
        match r {
            Ok(v) => strings_of(items@) == Some(v@),
            Err(e) => strings_of(items@) is None && e is JsonError,
        },
{
    let mut out: Vec<String> = Vec::new();
    let mut i: usize = 0;
    while i < items.len()
        invariant
            0 <= i <= items@.len(),
            forall|k: int| 0 <= k < i ==> (#[trigger] items@[k]) is Str,
            out@ =~= Seq::new(i as nat, |k: int| items@[k]->Str_0),
        decreases items@.len() - i,
    {
        match &items[i] {
            Json::Str(s) => out.push(s.clone()),
            _ => {
                assert(!(items@[i as int] is Str));
                return Err(shape_error("expected an array of strings"));
            },
        }
        i += 1;
    }
    assert(out@ =~= Seq::new(items@.len(), |k: int| items@[k]->Str_0));
    Ok(out)
}

/// The members of an object whose values are all strings.
pub fn string_pairs_in(fs: &Vec<(String, Json)>) -> (r: Result<Vec<(String, String)>, Error>)
    ensures
        match r {
            Ok(v) => string_pairs_of(fs@) == Some(v@),
            Err(e) => string_pairs_of(fs@) is None && e is JsonError,
        },
{
    let mut out: Vec<(String, String)> = Vec::new();
    let mut i: usize = 0;
    while i < fs.len()
        invariant
            0 <= i <= fs@.len(),
            forall|k: int| 0 <= k < i ==> (#[trigger] fs@[k]).1 is Str,
            out@ =~= Seq::new(i as nat, |k: int| (fs@[k].0, fs@[k].1->Str_0)),
        decreases fs@.len() - i,
    {
        match &fs[i].1 {
            Json::Str(s) => out.push((fs[i].0.clone(), s.clone())),
            _ => {
                assert(!(fs@[i as int].1 is Str));
                return Err(shape_error("expected an object of strings"));
            },
        }
        i += 1;
    }
    assert(out@ =~= Seq::new(fs@.len(), |k: int| (fs@[k].0, fs@[k].1->Str_0)));
    Ok(out)
}

/// Reads a member that must be an array of strings.
pub fn field_strings(fs: &Vec<(String, Json)>, key: &str) -> (r: Result<Vec<String>, Error>)
    ensures
        match r {
            Ok(v) => strings_value(field_of(fs@, key@)) == Some(v@),
            Err(e) => strings_value(field_of(fs@, key@)) is None && e is JsonError,
        },
{
    match find_field(fs, key) {
        Some(Json::Array(items)) => strings_in(items),
        _ => Err(shape_error("expected an array of strings")),
    }
}

/// Reads a member that must be an object of strings.
pub fn field_string_pairs(fs: &Vec<(String, Json)>, key: &str) -> (r: Result<
    Vec<(String, String)>,
    Error,
>)
    ensures
        match r {
            Ok(v) => string_pairs_value(field_of(fs@, key@)) == Some(v@),
            Err(e) => string_pairs_value(field_of(fs@, key@)) is None && e is JsonError,
        },
{
    match find_field(fs, key) {
        Some(Json::Object(members)) => string_pairs_in(members),
        _ => Err(shape_error("expected an object of strings")),
    }
}

/// Pushing a member in front of an object shifts every later lookup by one.
pub proof fn lemma_field_from_shift(s: Seq<(String, Json)>, x: (String, Json), key: Seq<char>, j: int)
    requires
        0 <= j,
    ensures
        field_from(s.insert(0, x), key, j + 1) == field_from(s, key, j),
    decreases s.len() - j,
{
    if j < s.len() {
        lemma_field_from_shift(s, x, key, j + 1);
    }
}

/// Sets the member `key` of an object to `value`: it becomes the first member, so
/// that it hides any earlier one of that name, and every other member reads as before.
pub fn put_field(fs: &mut Vec<(String, Json)>, key: String, value: Json)
    ensures
        field_of(final(fs)@, key@) == Some(value),
        forall|k: Seq<char>| k != key@ ==> field_of(final(fs)@, k) == field_of(old(fs)@, k),
{
    let ghost k0 = key@;
    let ghost v0 = value;
    let ghost before = fs@;
    fs.insert(0, (key, value));
    assert forall|k: Seq<char>| k != k0 implies field_of(fs@, k) == field_of(before, k) by {
        lemma_field_from_shift(before, (fs@[0].0, fs@[0].1), k, 0);
        assert(fs@ == before.insert(0, (fs@[0].0, fs@[0].1)));
    }
}

/// Removes and returns the member named `key` of an object.
pub fn take_field(fs: &mut Vec<(String, Json)>, key: &str) -> (r: Option<Json>)
    ensures
        r == field_of(old(fs)@, key@),
{
    let mut i: usize = 0;
    while i < fs.len()
        invariant
            0 <= i <= fs@.len(),
            fs@ == old(fs)@,
            field_of(fs@, key@) == field_from(fs@, key@, i as int),
        decreases fs@.len() - i,
    {
        if text_eq(fs[i].0.as_str(), key) {
            let (_, v) = fs.remove(i);
            return Some(v);
        }
        i += 1;
    }
    None
}

impl Json {
    /// A copy of the document, the same in every item and member.
    pub fn duplicate(&self) -> (r: Json)
        ensures
            json_same(*self, r),
        decreases self,
    {
        match self {
            Json::Null => Json::Null,
            Json::Bool(b) => Json::Bool(*b),
            Json::Int(n) => Json::Int(*n),
            Json::Decimal(s) => Json::Decimal(s.clone()),
            Json::Str(s) => Json::Str(s.clone()),
            Json::Array(items) => {
                let mut out: Vec<Json> = Vec::new();
                let mut i: usize = 0;
                while i < items.len()
                    invariant
                        0 <= i <= items@.len(),
                        out@.len() == i,
                        *self == Json::Array(*items),
                        forall|k: int| #![trigger items@[k]] 0 <= k < i ==> json_same(items@[k], out@[k]),
                    decreases items@.len() - i,
                {
                    proof {
                        assert(decreases_to!(*self => (*self)->Array_0));
                        assert(decreases_to!(*items => items@));
                        assert(decreases_to!(items@ => items@[i as int]));
                    }
                    out.push(items[i].duplicate());
                    i += 1;
                }
                Json::Array(out)
            },
            Json::Object(fs) => {
                let mut out: Vec<(String, Json)> = Vec::new();
                let mut i: usize = 0;
                while i < fs.len()
                    invariant
                        0 <= i <= fs@.len(),
                        out@.len() == i,
                        *self == Json::Object(*fs),
                        forall|k: int| 0 <= k < i ==> (#[trigger] out@[k]).0 == fs@[k].0,
                        forall|k: int| #![trigger fs@[k]] 0 <= k < i ==> json_same(fs@[k].1, out@[k].1),
                    decreases fs@.len() - i,
                {
                    proof {
                        assert(decreases_to!(*self => (*self)->Object_0));
                        assert(decreases_to!(*fs => fs@));
                        assert(decreases_to!(fs@ => fs@[i as int]));
                        assert(decreases_to!(fs@[i as int] => fs@[i as int].1));
                    }
                    let v = fs[i].1.duplicate();
                    out.push((fs[i].0.clone(), v));
                    i += 1;
                }
                Json::Object(out)
            },
        }
    }
}

/// Two documents that are the same: of the same kind, with the same scalar, and with
/// items and members (names in the same order) that are the same in turn. Documents
/// hold vectors, whose equality is not known from their contents; this is the equality
/// of their contents.
pub open spec fn json_same(a: Json, b: Json) -> bool
    decreases a,
{
    match a {
        Json::Array(x) => match b {
            Json::Array(y) => x@.len() == y@.len() && forall|k: int|
                #![trigger x@[k]]
                0 <= k < x@.len() ==> json_same(x@[k], y@[k]),
            _ => false,
        },
        Json::Object(x) => match b {
            Json::Object(y) => x@.len() == y@.len() && forall|k: int|
                #![trigger x@[k]]
                0 <= k < x@.len() ==> x@[k].0 == y@[k].0 && json_same(x@[k].1, y@[k].1),
            _ => false,
        },
        _ => a == b,
    }
}

/// A type that can be read from a JSON document, as the service writes it.
pub trait FromJson: Sized {
    /// Whether `v` has the shape this type asks for.
    spec fn decodable(v: Json) -> bool;

    /// Whether `x` is what `v` reads as.
    spec fn decodes_to(v: Json, x: Self) -> bool;

    /// Reads a value; fails with a decode error exactly when `v` does not fit.
    fn from_json(v: &Json) -> (r: Result<Self, Error>)
        ensures
            match r {
                Ok(x) => Self::decodable(*v) && Self::decodes_to(*v, x),
                Err(e) => !Self::decodable(*v) && e is JsonError,
            },
    ;
}

/// A member that must be there and read as a `T`.
pub open spec fn member_decodable<T: FromJson>(j: Option<Json>) -> bool {
    j is Some && T::decodable(j->Some_0)
}

/// A member that may be missing or null, or else reads as a `T`.
pub open spec fn opt_member_decodable<T: FromJson>(j: Option<Json>) -> bool {
    j is None || j == Some(Json::Null) || T::decodable(j->Some_0)
}

/// What an optional member reads as.
pub open spec fn opt_member_decodes_to<T: FromJson>(j: Option<Json>, x: Option<T>) -> bool {
    if j is None || j == Some(Json::Null) {
        x is None
    } else {
        x is Some && T::decodes_to(j->Some_0, x->Some_0)
    }
}

/// Reads a member that must be there.
pub fn field_decode<T: FromJson>(fs: &Vec<(String, Json)>, key: &str) -> (r: Result<T, Error>)
    ensures
        match r {
            Ok(x) => member_decodable::<T>(field_of(fs@, key@)) && T::decodes_to(
                field_of(fs@, key@)->Some_0,
                x,
            ),
            Err(e) => !member_decodable::<T>(field_of(fs@, key@)) && e is JsonError,
        },
{
    match find_field(fs, key) {
        Some(j) => T::from_json(j),
        None => Err(shape_error("missing member")),
    }
}

/// Reads a member that may be missing or null.
pub fn field_decode_opt<T: FromJson>(fs: &Vec<(String, Json)>, key: &str) -> (r: Result<
    Option<T>,
    Error,
>)
    ensures
        match r {
            Ok(x) => opt_member_decodable::<T>(field_of(fs@, key@)) && opt_member_decodes_to(
                field_of(fs@, key@),
                x,
            ),
            Err(e) => !opt_member_decodable::<T>(field_of(fs@, key@)) && e is JsonError,
        },
{
    match find_field(fs, key) {
        None => Ok(None),
        Some(Json::Null) => Ok(None),
        Some(j) => match T::from_json(j) {
            Ok(x) => Ok(Some(x)),
            Err(e) => Err(e),
        },
    }
}

/// Reads a string member that may be missing or null.
pub fn field_str_opt(fs: &Vec<(String, Json)>, key: &str) -> (r: Result<Option<String>, Error>)
    ensures
        match r {
            Ok(x) => opt_str_value(field_of(fs@, key@)) == Some(x),
            Err(e) => opt_str_value(field_of(fs@, key@)) is None && e is JsonError,
        },
{
    match find_field(fs, key) {
        None => Ok(None),
        Some(Json::Null) => Ok(None),
        Some(Json::Str(s)) => Ok(Some(s.clone())),
        _ => Err(shape_error("expected a string member")),
    }
}

/// Reads a boolean member that may be missing or null.
pub fn field_bool_opt(fs: &Vec<(String, Json)>, key: &str) -> (r: Result<Option<bool>, Error>)
    ensures
        match r {
            Ok(x) => opt_bool_value(field_of(fs@, key@)) == Some(x),
            Err(e) => opt_bool_value(field_of(fs@, key@)) is None && e is JsonError,
        },
{
    match find_field(fs, key) {
        None => Ok(None),
        Some(Json::Null) => Ok(None),
        Some(Json::Bool(b)) => Ok(Some(*b)),
        _ => Err(shape_error("expected a boolean member")),
    }
}

/// Reads an unsigned integer member that may be missing or null.
pub fn field_u64_opt(fs: &Vec<(String, Json)>, key: &str) -> (r: Result<Option<u64>, Error>)
    ensures
        match r {
            Ok(x) => opt_u64_value(field_of(fs@, key@)) == Some(x),
            Err(e) => opt_u64_value(field_of(fs@, key@)) is None && e is JsonError,
        },
{
    match find_field(fs, key) {
        None => Ok(None),
        Some(Json::Null) => Ok(None),
        _ => match field_u64(fs, key) {
            Ok(n) => Ok(Some(n)),
            Err(e) => Err(e),
        },
    }
}

/// Reads an array of strings that may be missing or null.
pub fn field_strings_opt(fs: &Vec<(String, Json)>, key: &str) -> (r: Result<
    Option<Vec<String>>,
    Error,
>)
    ensures
        match r {
            Ok(None) => opt_strings_value(field_of(fs@, key@)) == Some(None::<Seq<String>>),
            Ok(Some(v)) => opt_strings_value(field_of(fs@, key@)) == Some(Some(v@)),
            Err(e) => opt_strings_value(field_of(fs@, key@)) is None && e is JsonError,
        },
{
    match find_field(fs, key) {
        None => Ok(None),
        Some(Json::Null) => Ok(None),
        _ => match field_strings(fs, key) {
            Ok(v) => Ok(Some(v)),
            Err(e) => Err(e),
        },
    }
}

/// Reads an object of strings that may be missing or null.
pub fn field_string_pairs_opt(fs: &Vec<(String, Json)>, key: &str) -> (r: Result<
    Option<Vec<(String, String)>>,
    Error,
>)
    ensures
        match r {
            Ok(None) => opt_string_pairs_value(field_of(fs@, key@)) == Some(
                None::<Seq<(String, String)>>,
            ),
            Ok(Some(v)) => opt_string_pairs_value(field_of(fs@, key@)) == Some(Some(v@)),
            Err(e) => opt_string_pairs_value(field_of(fs@, key@)) is None && e is JsonError,
        },
{
    match find_field(fs, key) {
        None => Ok(None),
        Some(Json::Null) => Ok(None),
        _ => match field_string_pairs(fs, key) {
            Ok(v) => Ok(Some(v)),
            Err(e) => Err(e),
        },
    }
}

/// An optional string member that is left out when there is no value.
pub open spec fn opt_str_member(j: Option<Json>, v: Option<String>) -> bool {
    match v {
        Some(s) => j == Some(Json::Str(s)),
        None => j is None,
    }
}

/// An optional boolean member that is left out when there is no value.
pub open spec fn opt_bool_member(j: Option<Json>, v: Option<bool>) -> bool {
    match v {
        Some(b) => j == Some(Json::Bool(b)),
        None => j is None,
    }
}

/// An optional integer member that is left out when there is no value.
pub open spec fn opt_u64_member(j: Option<Json>, v: Option<u64>) -> bool {
    match v {
        Some(n) => j == Some(Json::Int(n as i128)),
        None => j is None,
    }
}

/// What an optional array-of-strings member reads as.
pub open spec fn opt_strings_is(j: Option<Json>, v: Option<Vec<String>>) -> bool {
    match v {
        None => opt_strings_value(j) == Some(None::<Seq<String>>),
        Some(w) => opt_strings_value(j) == Some(Some(w@)),
    }
}

/// What an optional object-of-strings member reads as.
pub open spec fn opt_string_pairs_is(j: Option<Json>, v: Option<Vec<(String, String)>>) -> bool {
    match v {
        None => opt_string_pairs_value(j) == Some(None::<Seq<(String, String)>>),
        Some(w) => opt_string_pairs_value(j) == Some(Some(w@)),
    }
}

/// An object with no members.
pub fn empty_object() -> (r: Vec<(String, Json)>)
    ensures
        forall|k: Seq<char>| #[trigger] field_of(r@, k) is None,
{
    Vec::new()
}

/// Sets a string member.
pub fn put_str(fs: &mut Vec<(String, Json)>, key: &str, value: &String)
    ensures
        field_of(final(fs)@, key@) == Some(Json::Str(*value)),
        forall|k: Seq<char>| k != key@ ==> field_of(final(fs)@, k) == field_of(old(fs)@, k),
{
    put_field(fs, String::from_str(key), Json::Str(value.clone()));
}

/// Sets a string member when there is a value; leaves the object as it is otherwise.
pub fn put_opt_str(fs: &mut Vec<(String, Json)>, key: &str, value: &Option<String>)
    ensures
        value is Some ==> field_of(final(fs)@, key@) == Some(Json::Str(value->Some_0)),
        value is None ==> field_of(final(fs)@, key@) == field_of(old(fs)@, key@),
        forall|k: Seq<char>| k != key@ ==> field_of(final(fs)@, k) == field_of(old(fs)@, k),
{
    match value {
        Some(v) => put_str(fs, key, v),
        None => {},
    }
}

/// Sets a boolean member when there is a value.
pub fn put_opt_bool(fs: &mut Vec<(String, Json)>, key: &str, value: Option<bool>)
    ensures
        value is Some ==> field_of(final(fs)@, key@) == Some(Json::Bool(value->Some_0)),
        value is None ==> field_of(final(fs)@, key@) == field_of(old(fs)@, key@),
        forall|k: Seq<char>| k != key@ ==> field_of(final(fs)@, k) == field_of(old(fs)@, k),
{
    match value {
        Some(v) => put_field(fs, String::from_str(key), Json::Bool(v)),
        None => {},
    }
}

/// Sets an integer member when there is a value.
pub fn put_opt_u64(fs: &mut Vec<(String, Json)>, key: &str, value: Option<u64>)
    ensures
        value is Some ==> field_of(final(fs)@, key@) == Some(Json::Int(value->Some_0 as i128)),
        value is None ==> field_of(final(fs)@, key@) == field_of(old(fs)@, key@),
        forall|k: Seq<char>| k != key@ ==> field_of(final(fs)@, k) == field_of(old(fs)@, k),
{
    match value {
        Some(v) => put_field(fs, String::from_str(key), Json::Int(v as i128)),
        None => {},
    }
}

/// An array of strings.
pub fn strings_json(v: &Vec<String>) -> (r: Json)
    ensures
        strings_value(Some(r)) == Some(v@),
{
    let mut items: Vec<Json> = Vec::new();
    let mut i: usize = 0;
    while i < v.len()
        invariant
            0 <= i <= v@.len(),
            items@.len() == i,
            forall|k: int| 0 <= k < i ==> (#[trigger] items@[k]) == Json::Str(v@[k]),
        decreases v@.len() - i,
    {
        items.push(Json::Str(v[i].clone()));
        i += 1;
    }
    assert(Seq::new(items@.len(), |k: int| items@[k]->Str_0) =~= v@);
    Json::Array(items)
}

/// An object of strings.
pub fn string_pairs_json(v: &Vec<(String, String)>) -> (r: Json)
    ensures
        string_pairs_value(Some(r)) == Some(v@),
{
    let mut fs: Vec<(String, Json)> = Vec::new();
    let mut i: usize = 0;
    while i < v.len()
        invariant
            0 <= i <= v@.len(),
            fs@.len() == i,
            forall|k: int| 0 <= k < i ==> (#[trigger] fs@[k]) == (v@[k].0, Json::Str(v@[k].1)),
        decreases v@.len() - i,
    {
        fs.push((v[i].0.clone(), Json::Str(v[i].1.clone())));
        i += 1;
    }
    assert(Seq::new(fs@.len(), |k: int| (fs@[k].0, fs@[k].1->Str_0)) =~= v@);
    Json::Object(fs)
}

/// Sets an array-of-strings member when there is a value.
pub fn put_opt_strings(fs: &mut Vec<(String, Json)>, key: &str, value: &Option<Vec<String>>)
    ensures
        value is Some ==> strings_value(field_of(final(fs)@, key@)) == Some(value->Some_0@),
        value is None ==> field_of(final(fs)@, key@) == field_of(old(fs)@, key@),
        forall|k: Seq<char>| k != key@ ==> field_of(final(fs)@, k) == field_of(old(fs)@, k),
{
    match value {
        Some(v) => put_field(fs, String::from_str(key), strings_json(v)),
        None => {},
    }
}

/// Sets an object-of-strings member when there is a value.
pub fn put_opt_string_pairs(
    fs: &mut Vec<(String, Json)>,
    key: &str,
    value: &Option<Vec<(String, String)>>,
)
    ensures
        value is Some ==> string_pairs_value(field_of(final(fs)@, key@)) == Some(value->Some_0@),
        value is None ==> field_of(final(fs)@, key@) == field_of(old(fs)@, key@),
        forall|k: Seq<char>| k != key@ ==> field_of(final(fs)@, k) == field_of(old(fs)@, k),
{
    match value {
        Some(v) => put_field(fs, String::from_str(key), string_pairs_json(v)),
        None => {},
    }
}

} // verus!
