//! JSON values: what a document holds, how members are looked up, and the
//! passage between documents and text, which `serde_json` performs.
use vstd::prelude::*;

use crate::text::same_text;

verus! {

/// A JSON number, as `serde_json` represents it.
#[verifier::external_type_specification]
#[verifier::external_body]
pub struct ExNumber(serde_json::Number);

/// A JSON document, as `serde_json` represents it.
#[verifier::external_type_specification]
#[verifier::external_body]
pub struct ExValue(serde_json::Value);

/// The members of a JSON object, as `serde_json` represents them.
#[verifier::external_type_specification]
#[verifier::external_body]
#[verifier::reject_recursive_types(K)]
#[verifier::reject_recursive_types(V)]
pub struct ExMap<K, V>(serde_json::Map<K, V>);

/// A JSON document.
///
/// An object lists its members in order; where a name is listed twice, the
/// later member is the one that counts.
#[derive(Debug)]
pub enum Json {
    Null,
    Bool(bool),
    Number(serde_json::Number),
    Text(String),
    Array(Vec<Json>),
    Object(Vec<(String, Json)>),
}

/// What a JSON document says, apart from how it is held.
#[verifier::ext_equal]
pub enum JsonValue {
    Null,
    Bool(bool),
    Number(serde_json::Number),
    Text(Seq<char>),
    Array(Seq<JsonValue>),
    Object(Map<Seq<char>, JsonValue>),
}

/// What the document `j` says.
pub open spec fn json_value(j: Json) -> JsonValue
    decreases j,
{
    match j {
        Json::Null => JsonValue::Null,
        Json::Bool(b) => JsonValue::Bool(b),
        Json::Number(n) => JsonValue::Number(n),
        Json::Text(s) => JsonValue::Text(s@),
        Json::Array(items) => JsonValue::Array(items_value(items@)),
        Json::Object(members) => JsonValue::Object(members_value(members@)),
    }
}

/// What the items of an array say.
pub open spec fn items_value(items: Seq<Json>) -> Seq<JsonValue>
    decreases items,
{
    if items.len() == 0 {
        Seq::empty()
    } else {
        items_value(items.drop_last()).push(json_value(items.last()))
    }
}

/// What the members of an object say: a later member replaces an earlier one
/// of the same name.
pub open spec fn members_value(members: Seq<(String, Json)>) -> Map<Seq<char>, JsonValue>
    decreases members,
{
    if members.len() == 0 {
        Map::empty()
    } else {
        members_value(members.drop_last()).insert(
            members.last().0@,
            json_value(members.last().1),
        )
    }
}

impl View for Json {
    type V = JsonValue;

    open spec fn view(&self) -> JsonValue {
        json_value(*self)
    }
}

impl JsonValue {
    /// The member `name` of an object; nothing for any other value.
    pub open spec fn member(self, name: Seq<char>) -> Option<JsonValue> {
        match self {
            JsonValue::Object(members) => if members.contains_key(name) {
                Some(members[name])
            } else {
                None
            },
            _ => None,
        }
    }

    /// The text of a string.
    pub open spec fn text(self) -> Option<Seq<char>> {
        match self {
            JsonValue::Text(s) => Some(s),
            _ => None,
        }
    }

    /// The truth value of a boolean.
    pub open spec fn boolean(self) -> Option<bool> {
        match self {
            JsonValue::Bool(b) => Some(b),
            _ => None,
        }
    }

    /// The integer that a number is, where it is an unsigned integer of 64
    /// bits.
    pub open spec fn unsigned(self) -> Option<u64> {
        if exists|k: u64| self == JsonValue::Number(#[trigger] u64_number(k)) {
            Some(choose|k: u64| self == JsonValue::Number(#[trigger] u64_number(k)))
        } else {
            None
        }
    }

    /// The items of an array.
    pub open spec fn items(self) -> Option<Seq<JsonValue>> {
        match self {
            JsonValue::Array(items) => Some(items),
            _ => None,
        }
    }

    /// The member `name`, or null where there is none.
    pub open spec fn field(self, name: Seq<char>) -> JsonValue {
        match self.member(name) {
            Some(v) => v,
            None => JsonValue::Null,
        }
    }

    /// The text of the member `name`, where there is such a member and it is
    /// a string.
    pub open spec fn text_member(self, name: Seq<char>) -> Option<Seq<char>> {
        match self.member(name) {
            Some(v) => v.text(),
            None => None,
        }
    }

    /// The object with `value` as its member `name`; any other value is left
    /// as it is.
    pub open spec fn with(self, name: Seq<char>, value: JsonValue) -> JsonValue {
        match self {
            JsonValue::Object(members) => JsonValue::Object(members.insert(name, value)),
            other => other,
        }
    }

    /// The truth value of the member `name`, where there is such a member and
    /// it is a boolean.
    pub open spec fn bool_member(self, name: Seq<char>) -> Option<bool> {
        match self.member(name) {
            Some(v) => v.boolean(),
            None => None,
        }
    }
}

/// The object without members.
pub open spec fn empty_object() -> JsonValue {
    JsonValue::Object(Map::empty())
}

/// What a `serde_json::Value` says.
pub uninterp spec fn value_contents(v: serde_json::Value) -> JsonValue;

/// The members that a `serde_json::Map` holds.
pub uninterp spec fn map_contents(m: serde_json::Map<String, serde_json::Value>) -> Map<
    Seq<char>,
    JsonValue,
>;

/// What `serde_json::from_str` makes of a text: the document it states, or
/// the message of the error.
pub uninterp spec fn document_of_text(text: Seq<char>) -> Result<JsonValue, Seq<char>>;

/// What `serde_json::from_slice` makes of bytes: the document they state, or
/// the message of the error.
pub uninterp spec fn document_of_bytes(bytes: Seq<u8>) -> Result<JsonValue, Seq<char>>;

/// The text that a `serde_json::Value` displays as: the document without
/// any white space between its tokens, the members of an object in the order
/// of their names.
pub uninterp spec fn compact_text(v: JsonValue) -> Seq<char>;

/// The indented text that `serde_json::to_string_pretty` returns for a
/// document.
pub uninterp spec fn pretty_text(v: JsonValue) -> Seq<char>;

/// The text that `serde_json::to_string` returns for a document.
pub uninterp spec fn written_text(v: JsonValue) -> Seq<char>;

/// The JSON number that `serde_json::Number::from` makes of an unsigned
/// integer.
pub uninterp spec fn u64_number(n: u64) -> serde_json::Number;

/// One level of a `serde_json::Value`.
enum Node {
    Null,
    Bool(bool),
    Number(serde_json::Number),
    Text(String),
    Array(Vec<serde_json::Value>),
    Object(serde_json::Map<String, serde_json::Value>),
}

/// What a document says of which one level is laid open.
spec fn node_contents(n: Node) -> JsonValue {
    match n {
        Node::Null => JsonValue::Null,
        Node::Bool(b) => JsonValue::Bool(b),
        Node::Number(m) => JsonValue::Number(m),
        Node::Text(s) => JsonValue::Text(s@),
        Node::Array(items) => JsonValue::Array(
            Seq::new(items@.len(), |i: int| value_contents(items@[i])),
        ),
        Node::Object(members) => JsonValue::Object(map_contents(members)),
    }
}

/// Calls `serde_json::from_str` for a `Value`: the outcome is that of the
/// text, and an error is handed on as its message.
#[verifier::external_body]
fn value_of_text(text: &str) -> (r: Result<serde_json::Value, String>)
    ensures
        match r {
            Ok(v) => document_of_text(text@) == Ok::<JsonValue, Seq<char>>(value_contents(v)),
            Err(e) => document_of_text(text@) == Err::<JsonValue, Seq<char>>(e@),
        },
{
    serde_json::from_str(text).map_err(|e| e.to_string())
}

/// Calls `serde_json::from_slice` for a `Value`: the outcome is that of the
/// bytes, and an error is handed on as its message.
#[verifier::external_body]
fn value_of_bytes(bytes: &[u8]) -> (r: Result<serde_json::Value, String>)
    ensures
        match r {
            Ok(v) => document_of_bytes(bytes@) == Ok::<JsonValue, Seq<char>>(value_contents(v)),
            Err(e) => document_of_bytes(bytes@) == Err::<JsonValue, Seq<char>>(e@),
        },
{
    serde_json::from_slice(bytes).map_err(|e| e.to_string())
}

/// Tells the variants of a `serde_json::Value` apart and hands out what the
/// variant holds.
#[verifier::external_body]
fn open_value(v: serde_json::Value) -> (r: Node)
    ensures
        node_contents(r) == value_contents(v),
{
    match v {
        serde_json::Value::Null => Node::Null,
        serde_json::Value::Bool(b) => Node::Bool(b),
        serde_json::Value::Number(n) => Node::Number(n),
        serde_json::Value::String(s) => Node::Text(s),
        serde_json::Value::Array(items) => Node::Array(items),
        serde_json::Value::Object(members) => Node::Object(members),
    }
}

/// Makes a `serde_json::Value` of the variant that holds what is given.
#[verifier::external_body]
fn close_value(n: Node) -> (r: serde_json::Value)
    ensures
        value_contents(r) == node_contents(n),
{
    match n {
        Node::Null => serde_json::Value::Null,
        Node::Bool(b) => serde_json::Value::Bool(b),
        Node::Number(n) => serde_json::Value::Number(n),
        Node::Text(s) => serde_json::Value::String(s),
        Node::Array(items) => serde_json::Value::Array(items),
        Node::Object(members) => serde_json::Value::Object(members),
    }
}

/// What the members of an object say of which each value is a
/// `serde_json::Value`.
spec fn entries_contents(entries: Seq<(String, serde_json::Value)>) -> Map<Seq<char>, JsonValue>
    decreases entries.len(),
{
    if entries.len() == 0 {
        Map::empty()
    } else {
        entries_contents(entries.drop_last()).insert(
            entries.last().0@,
            value_contents(entries.last().1),
        )
    }
}

/// Walks a `serde_json::Map` by its `into_iter`: every member comes once, so
/// no name comes twice.
#[verifier::external_body]
fn map_members(m: serde_json::Map<String, serde_json::Value>) -> (r: Vec<
    (String, serde_json::Value),
>)
    ensures
        entries_contents(r@) == map_contents(m),
        forall|i: int, j: int| 0 <= i < j < r@.len() ==> (#[trigger] r@[i]).0@ != (#[trigger] r@[j]).0@,
{
    m.into_iter().collect()
}

/// Calls `serde_json::Map::new`: no members.
#[verifier::external_body]
fn map_new() -> (r: serde_json::Map<String, serde_json::Value>)
    ensures
        map_contents(r) == entries_contents(Seq::empty()),
{
    serde_json::Map::new()
}

/// Calls `serde_json::Map::insert`: adds the member, or replaces the one of
/// that name.
#[verifier::external_body]
fn map_insert(
    m: &mut serde_json::Map<String, serde_json::Value>,
    name: String,
    value: serde_json::Value,
)
    ensures
        map_contents(*final(m)) == map_contents(*old(m)).insert(name@, value_contents(value)),
{
    m.insert(name, value);
}

/// Displays a `serde_json::Value`, which writes it without white space.
#[verifier::external_body]
fn value_to_text(v: &serde_json::Value) -> (r: String)
    ensures
        r@ == compact_text(value_contents(*v)),
{
    v.to_string()
}

/// Calls `serde_json::to_string`. It always succeeds on a `Value`, whose keys
/// are strings and whose writing has no other way to fail.
#[verifier::external_body]
fn value_to_written_text(v: &serde_json::Value) -> (r: Result<String, String>)
    ensures
        r is Ok,
        r->Ok_0@ == written_text(value_contents(*v)),
{
    serde_json::to_string(v).map_err(|e| e.to_string())
}

/// Calls `serde_json::to_string_pretty`. It always succeeds on a `Value`, as
/// `serde_json::to_string` does.
#[verifier::external_body]
fn value_to_pretty_text(v: &serde_json::Value) -> (r: Result<String, String>)
    ensures
        r is Ok,
        r->Ok_0@ == pretty_text(value_contents(*v)),
{
    serde_json::to_string_pretty(v).map_err(|e| e.to_string())
}

/// Calls `serde_json::Number::from` on an unsigned integer.
#[verifier::external_body]
fn number_of_u64(n: u64) -> (r: serde_json::Number)
    ensures
        r == u64_number(n),
{
    serde_json::Number::from(n)
}

/// Calls `serde_json::Number::as_u64`: an integer exactly for the numbers
/// that are made of one.
#[verifier::external_body]
fn number_as_u64(n: &serde_json::Number) -> (r: Option<u64>)
    ensures
        forall|k: u64| (r == Some(k)) == (*n == #[trigger] u64_number(k)),
{
    n.as_u64()
}

/// Clones a `serde_json::Number`: the clone is the same number.
#[verifier::external_body]
fn number_clone(n: &serde_json::Number) -> (r: serde_json::Number)
    ensures
        r == *n,
{
    n.clone()
}

/// Each item of an array says what it says by itself.
proof fn lemma_items_value(items: Seq<Json>)
    ensures
        items_value(items).len() == items.len(),
        forall|i: int| 0 <= i < items.len() ==> items_value(items)[i] == json_value(#[trigger] items[i]),
    decreases items.len(),
{
    if items.len() > 0 {
        lemma_items_value(items.drop_last());
        assert forall|i: int| 0 <= i < items.len() implies items_value(items)[i] == json_value(
            #[trigger] items[i],
        ) by {
            if i < items.len() - 1 {
                assert(items.drop_last()[i] == items[i]);
            }
        }
    }
}

/// The member of a name is the last one that is listed under it.
proof fn lemma_member(members: Seq<(String, Json)>, name: Seq<char>, k: int)
    requires
        0 <= k < members.len(),
        members[k].0@ == name,
        forall|j: int| k < j < members.len() ==> (#[trigger] members[j]).0@ != name,
    ensures
        members_value(members).contains_key(name),
        members_value(members)[name] == json_value(members[k].1),
    decreases members.len(),
{
    if k < members.len() - 1 {
        assert(members[members.len() - 1].0@ != name);
        lemma_member(members.drop_last(), name, k);
    }
}

/// A name under which no member is listed has none.
proof fn lemma_no_member(members: Seq<(String, Json)>, name: Seq<char>)
    requires
        forall|j: int| 0 <= j < members.len() ==> (#[trigger] members[j]).0@ != name,
    ensures
        !members_value(members).contains_key(name),
    decreases members.len(),
{
    if members.len() > 0 {
        assert(members[members.len() - 1].0@ != name);
        lemma_no_member(members.drop_last(), name);
    }
}

/// A member whose name does not come twice is found under its name.
proof fn lemma_entry(entries: Seq<(String, serde_json::Value)>, k: int)
    requires
        0 <= k < entries.len(),
        forall|i: int, j: int| 0 <= i < j < entries.len() ==> (#[trigger] entries[i]).0@ != (#[trigger] entries[j]).0@,
    ensures
        entries_contents(entries).contains_key(entries[k].0@),
        entries_contents(entries)[entries[k].0@] == value_contents(entries[k].1),
    decreases entries.len(),
{
    if k < entries.len() - 1 {
        lemma_entry(entries.drop_last(), k);
    }
}

/// The document that a `serde_json::Value` holds.
fn from_value(v: serde_json::Value) -> (r: Json)
    ensures
        r@ == value_contents(v),
    decreases value_contents(v),
{
    match open_value(v) {
        Node::Null => Json::Null,
        Node::Bool(b) => Json::Bool(b),
        Node::Number(n) => Json::Number(n),
        Node::Text(s) => Json::Text(s),
        Node::Array(items) => {
            let mut out: Vec<Json> = Vec::new();
            for item in it: items.into_iter()
                invariant
                    it.seq() == items@,
                    value_contents(v) == node_contents(Node::Array(items)),
                    items_value(out@) == value_contents(v)->Array_0.take(it.index() as int),
            {
                assert(value_contents(v)->Array_0[it.index() as int] == value_contents(item));
                let ghost before = out@;
                out.push(from_value(item));
                assert(out@.drop_last() =~= before);
                assert(items_value(out@) =~= value_contents(v)->Array_0.take(it.index() as int + 1));
            }
            assert(items_value(out@) =~= value_contents(v)->Array_0);
            Json::Array(out)
        },
        Node::Object(members) => {
            let entries = map_members(members);
            let mut out: Vec<(String, Json)> = Vec::new();
            for entry in it: entries.into_iter()
                invariant
                    it.seq() == entries@,
                    value_contents(v) == JsonValue::Object(entries_contents(entries@)),
                    forall|i: int, j: int|
                        0 <= i < j < entries@.len() ==> (#[trigger] entries@[i]).0@ != (#[trigger] entries@[j]).0@,
                    members_value(out@) == entries_contents(entries@.take(it.index() as int)),
            {
                let (name, value) = entry;
                proof {
                    lemma_entry(entries@, it.index() as int);
                    assert(value_contents(v)->Object_0[name@] == value_contents(value));
                    assert(entries@.take(it.index() as int + 1).drop_last() =~= entries@.take(
                        it.index() as int,
                    ));
                }
                let ghost before = out@;
                out.push((name, from_value(value)));
                assert(out@.drop_last() =~= before);
            }
            assert(entries@.take(entries@.len() as int) =~= entries@);
            Json::Object(out)
        },
    }
}

/// The `serde_json::Value` that holds the document `j`.
fn to_value(j: &Json) -> (r: serde_json::Value)
    ensures
        value_contents(r) == j@,
    decreases j,
{
    match j {
        Json::Null => close_value(Node::Null),
        Json::Bool(b) => close_value(Node::Bool(*b)),
        Json::Number(n) => close_value(Node::Number(number_clone(n))),
        Json::Text(s) => close_value(Node::Text(s.clone())),
        Json::Array(items) => {
            let mut out: Vec<serde_json::Value> = Vec::new();
            for i in 0..items.len()
                invariant
                    *j == Json::Array(*items),
                    out@.len() == i,
                    forall|k: int| 0 <= k < i ==> value_contents(#[trigger] out@[k]) == json_value(items@[k]),
            {
                assert(decreases_to!(j->Array_0 => items[i as int]));
                out.push(to_value(&items[i]));
            }
            proof {
                lemma_items_value(items@);
                assert(node_contents(Node::Array(out))->Array_0 =~= items_value(items@));
            }
            close_value(Node::Array(out))
        },
        Json::Object(members) => {
            let mut out = map_new();
            for i in 0..members.len()
                invariant
                    *j == Json::Object(*members),
                    map_contents(out) == members_value(members@.take(i as int)),
            {
                assert(decreases_to!(j->Object_0 => members[i as int]));
                let (name, value) = &members[i];
                map_insert(&mut out, name.clone(), to_value(value));
                assert(members@.take(i as int + 1).drop_last() =~= members@.take(i as int));
            }
            assert(members@.take(members@.len() as int) =~= members@);
            close_value(Node::Object(out))
        },
    }
}

impl Json {
    /// Reads the document that `text` states; an error comes as its message.
    pub fn parse(text: &str) -> (r: Result<Json, String>)
        ensures
            match r {
                Ok(j) => document_of_text(text@) == Ok::<JsonValue, Seq<char>>(j@),
                Err(e) => document_of_text(text@) == Err::<JsonValue, Seq<char>>(e@),
            },
    {
        match value_of_text(text) {
            Ok(v) => Ok(from_value(v)),
            Err(e) => Err(e),
        }
    }

    /// Reads the document that `bytes` state; an error comes as its message.
    pub fn parse_bytes(bytes: &[u8]) -> (r: Result<Json, String>)
        ensures
            match r {
                Ok(j) => document_of_bytes(bytes@) == Ok::<JsonValue, Seq<char>>(j@),
                Err(e) => document_of_bytes(bytes@) == Err::<JsonValue, Seq<char>>(e@),
            },
    {
        match value_of_bytes(bytes) {
            Ok(v) => Ok(from_value(v)),
            Err(e) => Err(e),
        }
    }

    /// The document as text without white space between its tokens.
    pub fn to_text(&self) -> (r: String)
        ensures
            r@ == compact_text(self@),
    {
        value_to_text(&to_value(self))
    }

    /// The document as text. It never fails.
    pub fn to_written_text(&self) -> (r: Result<String, String>)
        ensures
            r matches Ok(s) && s@ == written_text(self@),
    {
        value_to_written_text(&to_value(self))
    }

    /// The document as indented text. It never fails.
    pub fn to_pretty_text(&self) -> (r: Result<String, String>)
        ensures
            r matches Ok(s) && s@ == pretty_text(self@),
    {
        value_to_pretty_text(&to_value(self))
    }

    /// The `serde_json::Value` that holds the document.
    pub fn to_value(&self) -> (r: serde_json::Value)
        ensures
            value_contents(r) == self@,
    {
        to_value(self)
    }

    /// A string.
    pub fn of_text(s: &str) -> (r: Json)
        ensures
            r@ == JsonValue::Text(s@),
    {
        Json::Text(s.to_owned())
    }

    /// An array.
    pub fn array(items: Vec<Json>) -> (r: Json)
        ensures
            r@ is Array,
            r@->Array_0.len() == items@.len(),
            forall|i: int|
                0 <= i < items@.len() ==> (#[trigger] r@->Array_0[i]) == items@[i]@,
    {
        proof {
            lemma_items_value(items@);
        }
        Json::Array(items)
    }

    /// The object without members.
    pub fn object() -> (r: Json)
        ensures
            r@ == empty_object(),
    {
        Json::Object(Vec::new())
    }

    /// The object with `value` as its member `name`; any other document is
    /// left as it is.
    pub fn with(self, name: &str, value: Json) -> (r: Json)
        ensures
            r@ == self@.with(name@, value@),
    {
        match self {
            Json::Object(members) => {
                let mut all = members;
                all.push((name.to_owned(), value));
                assert(all@.drop_last() =~= members@);
                Json::Object(all)
            },
            other => other,
        }
    }

    /// An integer.
    pub fn of_u64(n: u64) -> (r: Json)
        ensures
            r@ == JsonValue::Number(u64_number(n)),
    {
        Json::Number(number_of_u64(n))
    }

    /// The member `name` of an object; nothing for any other document.
    pub fn get(&self, name: &str) -> (r: Option<&Json>)
        ensures
            match r {
                Some(j) => self@.member(name@) == Some(j@),
                None => self@.member(name@) is None,
            },
    {
        match self {
            Json::Object(members) => {
                let mut i: usize = members.len();
                while i > 0
                    invariant
                        i <= members.len(),
                        *self == Json::Object(*members),
                        forall|j: int| i <= j < members@.len() ==> (#[trigger] members@[j]).0@ != name@,
                    decreases i,
                {
                    i = i - 1;
                    if same_text(members[i].0.as_str(), name) {
                        proof {
                            lemma_member(members@, name@, i as int);
                        }
                        return Some(&members[i].1);
                    }
                }
                proof {
                    lemma_no_member(members@, name@);
                }
                None
            },
            _ => None,
        }
    }

    /// The text of a string.
    pub fn as_str(&self) -> (r: Option<&str>)
        ensures
            match r {
                Some(s) => self@.text() == Some(s@),
                None => self@.text() is None,
            },
    {
        match self {
            Json::Text(s) => Some(s.as_str()),
            _ => None,
        }
    }

    /// The truth value of a boolean.
    pub fn as_bool(&self) -> (r: Option<bool>)
        ensures
            r == self@.boolean(),
    {
        match self {
            Json::Bool(b) => Some(*b),
            _ => None,
        }
    }

    /// The value of a number that is an unsigned integer of 64 bits.
    pub fn as_u64(&self) -> (r: Option<u64>)
        ensures
            r == self@.unsigned(),
    {
        match self {
            Json::Number(n) => {
                let r = number_as_u64(n);
                proof {
                    if let Some(k) = r {
                        assert(*n == u64_number(k));
                    }
                }
                r
            },
            _ => None,
        }
    }

    /// The items of an array.
    pub fn as_array(&self) -> (r: Option<&Vec<Json>>)
        ensures
            match r {
                Some(items) => {
                    &&& self@.items() matches Some(values)
                    &&& values.len() == items@.len()
                    &&& forall|i: int|
                        0 <= i < items@.len() ==> (#[trigger] values[i]) == items@[i]@
                },
                None => self@.items() is None,
            },
    {
        match self {
            Json::Array(items) => {
                proof {
                    lemma_items_value(items@);
                }
                Some(items)
            },
            _ => None,
        }
    }

    /// A copy of the member `name`, or null where there is none.
    pub fn field(&self, name: &str) -> (r: Json)
        ensures
            r@ == self@.field(name@),
    {
        match self.get(name) {
            Some(j) => j.copy(),
            None => Json::Null,
        }
    }

    /// The text of the member `name`, where it is a string.
    pub fn text_at(&self, name: &str) -> (r: Option<&str>)
        ensures
            match r {
                Some(s) => self@.text_member(name@) == Some(s@),
                None => self@.text_member(name@) is None,
            },
    {
        match self.get(name) {
            Some(j) => j.as_str(),
            None => None,
        }
    }

    /// The truth value of the member `name`, where it is a boolean.
    pub fn bool_at(&self, name: &str) -> (r: Option<bool>)
        ensures
            r == self@.bool_member(name@),
    {
        match self.get(name) {
            Some(j) => j.as_bool(),
            None => None,
        }
    }

    /// A document that says the same.
    pub fn copy(&self) -> (r: Json)
        ensures
            r@ == self@,
        decreases self,
    {
        match self {
            Json::Null => Json::Null,
            Json::Bool(b) => Json::Bool(*b),
            Json::Number(n) => Json::Number(number_clone(n)),
            Json::Text(s) => Json::Text(s.clone()),
            Json::Array(items) => {
                let mut out: Vec<Json> = Vec::new();
                for i in 0..items.len()
                    invariant
                        *self == Json::Array(*items),
                        items_value(out@) == items_value(items@.take(i as int)),
                {
                    let ghost before = out@;
                    assert(decreases_to!(self->Array_0 => items[i as int]));
                    out.push(items[i].copy());
                    assert(out@.drop_last() =~= before);
                    assert(items@.take(i as int + 1).drop_last() =~= items@.take(i as int));
                }
                assert(items@.take(items@.len() as int) =~= items@);
                Json::Array(out)
            },
            Json::Object(members) => {
                let mut out: Vec<(String, Json)> = Vec::new();
                for i in 0..members.len()
                    invariant
                        *self == Json::Object(*members),
                        members_value(out@) == members_value(members@.take(i as int)),
                {
                    let ghost before = out@;
                    assert(decreases_to!(self->Object_0 => members[i as int]));
                    let (name, value) = &members[i];
                    out.push((name.clone(), value.copy()));
                    assert(out@.drop_last() =~= before);
                    assert(members@.take(i as int + 1).drop_last() =~= members@.take(i as int));
                }
                assert(members@.take(members@.len() as int) =~= members@);
                Json::Object(out)
            },
        }
    }
}

impl Clone for Json {
    fn clone(&self) -> (r: Self)
        ensures
            r@ == self@,
    {
        self.copy()
    }
}

/// What is set as a member of an object is found there, and every other member
/// stays.
pub proof fn law_members_are_found_where_they_were_set(
    object: JsonValue,
    name: Seq<char>,
    value: JsonValue,
    other: Seq<char>,
)
    requires
        object is Object,
    ensures
        object.with(name, value).member(name) == Some(value),
        object.with(name, value).field(name) == value,
        other != name ==> object.with(name, value).member(other) == object.member(other),
        empty_object() is Object,
        empty_object().member(name) is None,
{
}

/// A member is read as a text, or as a truth value, exactly if it is one; one
/// that is not there is null as a field.
pub proof fn law_members_are_read_by_their_kind(
    value: JsonValue,
    name: Seq<char>,
    text: Seq<char>,
    truth: bool,
)
    ensures
        value.text_member(name) == Some(text) <==> value.member(name) == Some(
            JsonValue::Text(text),
        ),
        value.bool_member(name) == Some(truth) <==> value.member(name) == Some(
            JsonValue::Bool(truth),
        ),
        value.member(name) matches Some(v) ==> value.field(name) == v,
        value.member(name) is None ==> value.field(name) == JsonValue::Null,
        value.member(name) matches Some(v) ==> value matches JsonValue::Object(members)
            && members.contains_key(name) && members[name] == v,
        value matches JsonValue::Object(members) ==> (members.contains_key(name)
            <==> value.member(name) is Some),
        value matches JsonValue::Array(items) ==> value.items() == Some(items),
        !(value is Array) ==> value.items() is None,
        value.unsigned() matches Some(k) ==> value == JsonValue::Number(u64_number(k)),
        !(value is Number) ==> value.unsigned() is None,
{
}

/// A document says what it holds: scalars themselves, an array its items in
/// their order, and an object under each name the last member of that name.
pub proof fn law_documents_say_what_they_hold(
    b: bool,
    n: serde_json::Number,
    s: String,
    items: Vec<Json>,
    members: Vec<(String, Json)>,
    i: int,
)
    ensures
        Json::Null@ == JsonValue::Null,
        Json::Bool(b)@ == JsonValue::Bool(b),
        Json::Number(n)@ == JsonValue::Number(n),
        Json::Text(s)@ == JsonValue::Text(s@),
        Json::Array(items)@ matches JsonValue::Array(values) && values.len() == items@.len() && (0
            <= i < items@.len() ==> values[i] == items@[i]@),
        Json::Object(members)@ is Object,
        0 <= i < members@.len() && (forall|j: int|
            i < j < members@.len() ==> (#[trigger] members@[j]).0@ != members@[i].0@)
            ==> Json::Object(members)@.member(members@[i].0@) == Some(members@[i].1@),
{
    lemma_items_value(items@);
    if 0 <= i < members@.len() && (forall|j: int|
        i < j < members@.len() ==> (#[trigger] members@[j]).0@ != members@[i].0@) {
        lemma_member(members@, members@[i].0@, i);
    }
}

/// A name under which nothing is listed has no member.
pub proof fn law_objects_have_no_other_members(members: Vec<(String, Json)>, name: Seq<char>)
    requires
        forall|j: int| 0 <= j < members@.len() ==> (#[trigger] members@[j]).0@ != name,
    ensures
        Json::Object(members)@.member(name) is None,
{
    lemma_no_member(members@, name);
}

}
