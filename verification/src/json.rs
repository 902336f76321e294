//! JSON documents as plain data.
//!
//! Text is parsed by `serde_json`; the parsed document is then turned, level
//! by level, into [`Json`], whose contents the rest of the library reads.
//! Numbers are carried, never computed with.
use crate::list;
use crate::text;
use vstd::prelude::*;

verus! {

/// A number as it was written: an integer that fits 64 bits, or a double by
/// its bit pattern, or a decimal constant in thousandths.
#[derive(Clone, Copy, Debug, PartialEq, Eq, Structural)]
pub enum Num {
    /// An integer that is not negative.
    Unsigned(u64),
    /// A negative integer.
    Negative(i64),
    /// Any other number, as the bits of a double.
    Double(u64),
    /// A decimal constant, in thousandths.
    Thousandths(i64),
}

/// The contents of a JSON document.
pub enum JsonView {
    Null,
    Bool(bool),
    Number(Num),
    Str(Seq<char>),
    Array(Seq<JsonView>),
    /// Members in the order in which the parser gives them.
    Object(Seq<(Seq<char>, JsonView)>),
}

/// The value of the first member called `key`.
pub open spec fn lookup(members: Seq<(Seq<char>, JsonView)>, key: Seq<char>) -> Option<JsonView>
    decreases members.len(),
{
    if members.len() == 0 {
        None
    } else if members[0].0 == key {
        Some(members[0].1)
    } else {
        lookup(members.subrange(1, members.len() as int), key)
    }
}

impl JsonView {
    /// Member `key` of an object.
    pub open spec fn get(self, key: Seq<char>) -> Option<JsonView> {
        match self {
            JsonView::Object(members) => lookup(members, key),
            _ => None,
        }
    }

    pub open spec fn as_str(self) -> Option<Seq<char>> {
        match self {
            JsonView::Str(s) => Some(s),
            _ => None,
        }
    }

    pub open spec fn as_array(self) -> Option<Seq<JsonView>> {
        match self {
            JsonView::Array(items) => Some(items),
            _ => None,
        }
    }

    pub open spec fn as_object(self) -> Option<Seq<(Seq<char>, JsonView)>> {
        match self {
            JsonView::Object(members) => Some(members),
            _ => None,
        }
    }

    pub open spec fn as_bool(self) -> Option<bool> {
        match self {
            JsonView::Bool(b) => Some(b),
            _ => None,
        }
    }

    pub open spec fn as_number(self) -> Option<Num> {
        match self {
            JsonView::Number(n) => Some(n),
            _ => None,
        }
    }

    /// A number that is an integer and not negative.
    pub open spec fn as_u64(self) -> Option<u64> {
        match self {
            JsonView::Number(Num::Unsigned(n)) => Some(n),
            _ => None,
        }
    }
}

/// A JSON document.
#[derive(Debug)]
pub enum Json {
    Null,
    Bool(bool),
    Number(Num),
    Str(String),
    Array(Vec<Json>),
    /// Members in the order in which the parser gives them.
    Object(Vec<(String, Json)>),
}

/// The contents of a document.
pub open spec fn contents(j: Json) -> JsonView
    decreases j,
{
    match j {
        Json::Null => JsonView::Null,
        Json::Bool(b) => JsonView::Bool(b),
        Json::Number(n) => JsonView::Number(n),
        Json::Str(s) => JsonView::Str(s@),
        Json::Array(items) => JsonView::Array(
            Seq::new(
                items@.len(),
                |i: int|
                    if 0 <= i < items@.len() {
                        contents(items@[i])
                    } else {
                        JsonView::Null
                    },
            ),
        ),
        Json::Object(members) => JsonView::Object(
            Seq::new(
                members@.len(),
                |i: int|
                    if 0 <= i < members@.len() {
                        (members@[i].0@, contents(members@[i].1))
                    } else {
                        (Seq::<char>::empty(), JsonView::Null)
                    },
            ),
        ),
    }
}

impl View for Json {
    type V = JsonView;

    open spec fn view(&self) -> JsonView {
        contents(*self)
    }
}

impl Json {
    /// Member `key` of an object.
    pub fn get(&self, key: &str) -> (r: Option<&Json>)
        ensures
            r is Some == self@.get(key@) is Some,
            r matches Some(v) ==> v@ == self@.get(key@)->0,
    {
        match self {
            Json::Object(members) => {
                let ghost all = self@->Object_0;
                let mut i: usize = 0;
                assert(all.subrange(0, all.len() as int) =~= all);
                while i < members.len()
                    invariant
                        i <= members.len(),
                        self == Json::Object(*members),
                        all == self@->Object_0,
                        self@ == JsonView::Object(all),
                        all.len() == members@.len(),
                        lookup(all, key@) == lookup(
                            all.subrange(i as int, all.len() as int),
                            key@,
                        ),
                    decreases members.len() - i,
                {
                    let ghost rest = all.subrange(i as int, all.len() as int);
                    assert(rest[0] == (members@[i as int].0@, contents(members@[i as int].1)));
                    if text::same(members[i].0.as_str(), key) {
                        return Some(&members[i].1);
                    }
                    assert(rest.subrange(1, rest.len() as int) =~= all.subrange(
                        i + 1,
                        all.len() as int,
                    ));
                    i = i + 1;
                }
                None
            },
            _ => None,
        }
    }

    /// The text of a string.
    pub fn as_str(&self) -> (r: Option<&str>)
        ensures
            r is Some == self@.as_str() is Some,
            r matches Some(s) ==> s@ == self@.as_str()->0,
    {
        match self {
            Json::Str(s) => Some(s.as_str()),
            _ => None,
        }
    }

    /// The items of an array.
    pub fn as_array(&self) -> (r: Option<&Vec<Json>>)
        ensures
            r is Some == self@.as_array() is Some,
            r matches Some(items) ==> items@.len() == (self@.as_array()->0).len() && (forall|i: int|
                0 <= i < items@.len() ==> (#[trigger] items@[i])@ == (self@.as_array()->0)[i]),
    {
        match self {
            Json::Array(items) => Some(items),
            _ => None,
        }
    }

    /// The members of an object.
    pub fn as_object(&self) -> (r: Option<&Vec<(String, Json)>>)
        ensures
            r is Some == self@.as_object() is Some,
            r matches Some(members) ==> members@.len() == (self@.as_object()->0).len() && (forall|
                i: int,
            |
                #![trigger members@[i]]
                #![trigger (self@.as_object()->0)[i]]
                0 <= i < members@.len() ==> (members@[i].0@, members@[i].1@) == (
                self@.as_object()->0)[i]),
    {
        match self {
            Json::Object(members) => Some(members),
            _ => None,
        }
    }

    /// The value of a boolean.
    pub fn as_bool(&self) -> (r: Option<bool>)
        ensures
            r == self@.as_bool(),
    {
        match self {
            Json::Bool(b) => Some(*b),
            _ => None,
        }
    }

    /// The value of a number.
    pub fn as_number(&self) -> (r: Option<Num>)
        ensures
            r == self@.as_number(),
    {
        match self {
            Json::Number(n) => Some(*n),
            _ => None,
        }
    }

    /// The value of a number that is an integer and not negative.
    pub fn as_u64(&self) -> (r: Option<u64>)
        ensures
            r == self@.as_u64(),
    {
        match self {
            Json::Number(Num::Unsigned(n)) => Some(*n),
            _ => None,
        }
    }

    /// Turns a parsed value into plain data, level by level.
    pub fn from_value(v: serde_json::Value) -> (r: Json)
        ensures
            r@ == value_contents(v),
        decreases value_contents(v),
    {
        let ghost whole = value_contents(v);
        match open_value(v) {
            Level::Null => Json::Null,
            Level::Bool(b) => Json::Bool(b),
            Level::Number(unsigned, signed, bits) => Json::Number(number(unsigned, signed, bits)),
            Level::Str(s) => Json::Str(s),
            Level::Array(items) => {
                let ghost expected = whole->Array_0;
                let mut rest: Vec<serde_json::Value> = items;
                let mut back: Vec<Json> = Vec::new();
                let ghost n = items@.len();
                while rest.len() > 0
                    invariant
                        whole == value_contents(v),
                        whole == JsonView::Array(expected),
                        n == items@.len(),
                        expected.len() == n,
                        rest@.len() + back@.len() == n,
                        rest@ == items@.take(rest@.len() as int),
                        forall|i: int|
                            0 <= i < n ==> value_contents(#[trigger] items@[i]) == expected[i],
                        forall|i: int|
                            0 <= i < back@.len() ==> (#[trigger] back@[i])@ == expected[n - 1 - i],
                    decreases rest.len(),
                {
                    let ghost at = rest@.len() - 1;
                    match rest.pop() {
                        Some(item) => {
                            assert(item == items@[at]);
                            assert(decreases_to!(whole => whole->Array_0));
                            assert(decreases_to!(expected => expected[at]));
                            back.push(Json::from_value(item));
                        },
                        None => {},
                    }
                }
                let out: Vec<Json> = list::reversed(back);
                let r = Json::Array(out);
                proof {
                    assert(r@->Array_0 =~= expected);
                }
                r
            },
            Level::Object(members) => {
                let ghost expected = whole->Object_0;
                let mut rest: Vec<(String, serde_json::Value)> = members;
                let mut back: Vec<(String, Json)> = Vec::new();
                let ghost n = members@.len();
                while rest.len() > 0
                    invariant
                        whole == value_contents(v),
                        whole == JsonView::Object(expected),
                        n == members@.len(),
                        expected.len() == n,
                        rest@.len() + back@.len() == n,
                        rest@ == members@.take(rest@.len() as int),
                        forall|i: int|
                            #![trigger members@[i]]
                            0 <= i < n ==> (members@[i].0@, value_contents(members@[i].1))
                                == expected[i],
                        forall|i: int|
                            #![trigger back@[i]]
                            0 <= i < back@.len() ==> (back@[i].0@, back@[i].1@) == expected[n - 1
                                - i],
                    decreases rest.len(),
                {
                    let ghost at = rest@.len() - 1;
                    match rest.pop() {
                        Some(member) => {
                            assert(member == members@[at]);
                            assert(decreases_to!(whole => whole->Object_0));
                            assert(decreases_to!(expected => expected[at]));
                            assert(decreases_to!(expected[at] => expected[at].1));
                            let (name, value) = member;
                            back.push((name, Json::from_value(value)));
                        },
                        None => {},
                    }
                }
                let out: Vec<(String, Json)> = list::reversed(back);
                let r = Json::Object(out);
                proof {
                    assert(r@->Object_0 =~= expected);
                }
                r
            },
        }
    }

    /// Parses JSON text.
    pub fn parse(source: &str) -> (r: Result<Json, serde_json::Error>)
        ensures
            r is Ok == parsed(source@) is Some,
            r matches Ok(j) ==> j@ == parsed(source@)->0,
    {
        match parse_value(source) {
            Ok(v) => Ok(Json::from_value(v)),
            Err(e) => Err(e),
        }
    }
}

/// The number behind the three ways `serde_json` offers to read one.
pub open spec fn number_of(unsigned: Option<u64>, signed: Option<i64>, bits: u64) -> Num {
    match (unsigned, signed) {
        (Some(n), _) => Num::Unsigned(n),
        (None, Some(n)) => Num::Negative(n),
        (None, None) => Num::Double(bits),
    }
}

fn number(unsigned: Option<u64>, signed: Option<i64>, bits: u64) -> (r: Num)
    ensures
        r == number_of(unsigned, signed, bits),
{
    match (unsigned, signed) {
        (Some(n), _) => Num::Unsigned(n),
        (None, Some(n)) => Num::Negative(n),
        (None, None) => Num::Double(bits),
    }
}

/// A parsed value of `serde_json`, carried but never looked into directly.
#[verifier::external_type_specification]
#[verifier::external_body]
pub struct ExValue(serde_json::Value);

/// The error of `serde_json`'s parser, carried to the caller.
#[verifier::external_type_specification]
#[verifier::external_body]
pub struct ExError(serde_json::Error);

/// What a `serde_json::Value` holds.
pub uninterp spec fn value_contents(v: serde_json::Value) -> JsonView;

/// What `serde_json::from_str` reads from a text; `None` where it reports an error.
pub uninterp spec fn parsed(source: Seq<char>) -> Option<JsonView>;

/// One level of a parsed value: a number by its three readings, an array by
/// its items, an object by its members in the order the map walks them.
pub enum Level {
    Null,
    Bool(bool),
    Number(Option<u64>, Option<i64>, u64),
    Str(String),
    Array(Vec<serde_json::Value>),
    Object(Vec<(String, serde_json::Value)>),
}

/// `level` is the outermost level of `whole`.
pub open spec fn level_of(level: Level, whole: JsonView) -> bool {
    match level {
        Level::Null => whole == JsonView::Null,
        Level::Bool(b) => whole == JsonView::Bool(b),
        Level::Number(unsigned, signed, bits) => whole == JsonView::Number(
            number_of(unsigned, signed, bits),
        ),
        Level::Str(s) => whole == JsonView::Str(s@),
        Level::Array(items) => {
            &&& whole is Array
            &&& (whole->Array_0).len() == items@.len()
            &&& forall|i: int|
                0 <= i < items@.len() ==> value_contents(#[trigger] items@[i]) == (
                whole->Array_0)[i]
        },
        Level::Object(members) => {
            &&& whole is Object
            &&& (whole->Object_0).len() == members@.len()
            &&& forall|i: int|
                #![trigger members@[i]]
                0 <= i < members@.len() ==> (members@[i].0@, value_contents(members@[i].1)) == (
                whole->Object_0)[i]
        },
    }
}

/// Wraps `serde_json::from_str` at the type `serde_json::Value`. Whether a text
/// parses, and to what, depends on the text alone; an error carries no value.
#[verifier::external_body]
fn parse_value(source: &str) -> (r: Result<serde_json::Value, serde_json::Error>)
    ensures
        match r {
            Ok(v) => parsed(source@) == Some(value_contents(v)),
            Err(_) => parsed(source@) is None,
        },
{
    serde_json::from_str(source)
}

/// Takes a `serde_json::Value` apart by its variants. A `Number` is read with
/// `as_u64`, `as_i64` and `as_f64`; the last always answers, since numbers are
/// kept as 64-bit integers or doubles. The members of a `Map` come in the order
/// of its iterator.
#[verifier::external_body]
fn open_value(v: serde_json::Value) -> (r: Level)
    ensures
        level_of(r, value_contents(v)),
{
    match v {
        serde_json::Value::Null => Level::Null,
        serde_json::Value::Bool(b) => Level::Bool(b),
        serde_json::Value::Number(n) => {
            Level::Number(n.as_u64(), n.as_i64(), n.as_f64().map_or(0, |x| x.to_bits()))
        },
        serde_json::Value::String(s) => Level::Str(s),
        serde_json::Value::Array(items) => Level::Array(items),
        serde_json::Value::Object(members) => Level::Object(members.into_iter().collect()),
    }
}

} // verus!
