//! JSON documents: the model the rest of the library reads and builds, and the
//! boundary to `serde_json`, which turns text into documents and back.

use crate::text::same_text;
use vstd::prelude::*;

verus! {

#[verifier::external_type_specification]
#[verifier::external_body]
pub struct ExNumber(serde_json::Number);

#[verifier::external_type_specification]
#[verifier::external_body]
pub struct ExValue(serde_json::Value);

/// `serde_json::Number` is a plain value: its clone is equal to it.
pub assume_specification[ <serde_json::Number as Clone>::clone ](n: &serde_json::Number) -> (r:
    serde_json::Number)
    ensures
        r == *n,
;

/// A JSON document as a mathematical value. An object is the sequence of its
/// members in document order. Numbers are carried, never looked into.
pub enum JsonValue {
    Null,
    Bool(bool),
    Number(serde_json::Number),
    Text(Seq<char>),
    List(Seq<JsonValue>),
    Object(Seq<(Seq<char>, JsonValue)>),
}

impl JsonValue {
    /// A string document.
    pub open spec fn text(s: Seq<char>) -> JsonValue {
        JsonValue::Text(s)
    }

    /// The object without members.
    pub open spec fn object() -> JsonValue {
        JsonValue::Object(Seq::empty())
    }

    /// The object with one more member at its end; anything but an object is
    /// left as it is.
    pub open spec fn with(self, name: Seq<char>, value: JsonValue) -> JsonValue {
        match self {
            JsonValue::Object(members) => JsonValue::Object(members.push((name, value))),
            _ => self,
        }
    }

    /// The list without items.
    pub open spec fn list() -> JsonValue {
        JsonValue::List(Seq::empty())
    }

    /// The list with one more item at its end; anything but a list is left as
    /// it is.
    pub open spec fn and(self, item: JsonValue) -> JsonValue {
        match self {
            JsonValue::List(items) => JsonValue::List(items.push(item)),
            _ => self,
        }
    }

    /// The value of the first member named `key` among `members`.
    pub open spec fn lookup(members: Seq<(Seq<char>, JsonValue)>, key: Seq<char>) -> Option<
        JsonValue,
    >
        decreases members.len(),
    {
        if members.len() == 0 {
            None
        } else if members[0].0 == key {
            Some(members[0].1)
        } else {
            Self::lookup(members.drop_first(), key)
        }
    }

    /// The member `key` of an object; `None` for anything that is not an
    /// object or has no such member.
    pub open spec fn field(self, key: Seq<char>) -> Option<JsonValue> {
        match self {
            JsonValue::Object(members) => Self::lookup(members, key),
            _ => None,
        }
    }

    /// No two of `members` share a name.
    pub open spec fn names_distinct(members: Seq<(Seq<char>, JsonValue)>) -> bool {
        forall|i: int, j: int|
            0 <= i < j < members.len() ==> (#[trigger] members[i]).0 != (#[trigger] members[j]).0
    }

    /// No object anywhere in the document names a member twice.
    pub open spec fn unambiguous(self) -> bool
        decreases self,
    {
        match self {
            JsonValue::List(items) => forall|i: int|
                0 <= i < items.len() ==> (#[trigger] items[i]).unambiguous(),
            JsonValue::Object(members) => {
                &&& Self::names_distinct(members)
                &&& forall|i: int|
                    0 <= i < members.len() ==> (#[trigger] members[i]).1.unambiguous()
            },
            _ => true,
        }
    }

    /// An object with distinct member names whose values are all strings.
    pub open spec fn is_text_record(self) -> bool {
        &&& self matches JsonValue::Object(members)
        &&& Self::names_distinct(members)
        &&& forall|i: int| 0 <= i < members.len() ==> (#[trigger] members[i]).1 is Text
    }

    /// A record of strings in which no member bears a name that `serde_json`
    /// keeps for itself.
    pub open spec fn is_plain_record(self) -> bool {
        &&& self.is_text_record()
        &&& forall|i: int|
            0 <= i < self->Object_0.len() ==> !is_reserved_name((#[trigger] self->Object_0[i]).0)
    }
}

/// The member names that `serde_json` keeps for itself: an object that bears
/// one of them is not read as an object, but as the raw value or the number
/// that its member holds.
pub open spec fn is_reserved_name(name: Seq<char>) -> bool {
    name == "$serde_json::private::RawValue"@ || name == "$serde_json::private::Number"@
}

/// No two of `entries` stand under the same key.
pub open spec fn distinct_keys<T>(entries: Seq<(Seq<char>, T)>) -> bool {
    forall|i: int, j: int|
        0 <= i < j < entries.len() ==> (#[trigger] entries[i]).0 != (#[trigger] entries[j]).0
}

/// What a lookup finds is the value of one of the members.
pub proof fn lemma_lookup_finds_a_member(members: Seq<(Seq<char>, JsonValue)>, key: Seq<char>)
    requires
        JsonValue::lookup(members, key) is Some,
    ensures
        exists|i: int|
            0 <= i < members.len() && (#[trigger] members[i]).1 == JsonValue::lookup(
                members,
                key,
            )->0,
    decreases members.len(),
{
    if members[0].0 == key {
        assert(members[0].1 == JsonValue::lookup(members, key)->0);
    } else {
        lemma_lookup_finds_a_member(members.drop_first(), key);
        let i = choose|i: int|
            0 <= i < members.drop_first().len() && (#[trigger] members.drop_first()[i]).1
                == JsonValue::lookup(members.drop_first(), key)->0;
        assert(members[i + 1] == members.drop_first()[i]);
    }
}

/// The members of a document that names no member twice name no member
/// twice either.
pub proof fn lemma_field_of_unambiguous(value: JsonValue, key: Seq<char>)
    requires
        value.unambiguous(),
        value.field(key) is Some,
    ensures
        value.field(key)->0.unambiguous(),
{
    let members = value->Object_0;
    lemma_lookup_finds_a_member(members, key);
}

/// A record of strings has no member twice, at any depth.
pub proof fn lemma_text_record_is_unambiguous(value: JsonValue)
    requires
        value.is_text_record(),
    ensures
        value.unambiguous(),
{
    let members = value->Object_0;
    assert forall|i: int| 0 <= i < members.len() implies (#[trigger] members[i]).1.unambiguous() by {
        assert(members[i].1 is Text);
    }
}

/// A JSON document.
#[derive(Debug, PartialEq)]
pub enum Json {
    Null,
    Bool(bool),
    Number(serde_json::Number),
    Text(String),
    List(Vec<Json>),
    Object(Vec<Member>),
}

/// One member of a JSON object.
#[derive(Debug, PartialEq)]
pub struct Member {
    pub name: String,
    pub value: Json,
}

impl Member {
    /// The member as a pair of name and value.
    pub open spec fn pair(self) -> (Seq<char>, JsonValue)
        decreases self,
    {
        (self.name@, self.value.view())
    }

    pub fn new(name: &str, value: Json) -> (member: Member)
        ensures
            member.pair() == (name@, value@),
    {
        Member { name: name.to_owned(), value }
    }
}

impl View for Json {
    type V = JsonValue;

    open spec fn view(&self) -> JsonValue
        decreases self,
    {
        match self {
            Json::Null => JsonValue::Null,
            Json::Bool(b) => JsonValue::Bool(*b),
            Json::Number(n) => JsonValue::Number(*n),
            Json::Text(s) => JsonValue::Text(s@),
            Json::List(items) => JsonValue::List(
                Seq::new(
                    items@.len(),
                    |i: int|
                        if 0 <= i < items@.len() {
                            items@[i].view()
                        } else {
                            JsonValue::Null
                        },
                ),
            ),
            Json::Object(members) => JsonValue::Object(
                Seq::new(
                    members@.len(),
                    |i: int|
                        if 0 <= i < members@.len() {
                            members@[i].pair()
                        } else {
                            (Seq::empty(), JsonValue::Null)
                        },
                ),
            ),
        }
    }
}

/// The views of a run of documents.
pub open spec fn list_view(items: Seq<Json>) -> Seq<JsonValue> {
    Seq::new(items.len(), |i: int| items[i]@)
}

/// The views of a run of object members.
pub open spec fn members_view(members: Seq<Member>) -> Seq<(Seq<char>, JsonValue)> {
    Seq::new(members.len(), |i: int| members[i].pair())
}

/// The view of a list is the list of its items' views.
pub proof fn lemma_list_view(items: Vec<Json>)
    ensures
        Json::List(items)@ == JsonValue::List(list_view(items@)),
{
    assert(Json::List(items)@->List_0 =~= list_view(items@));
}

/// The view of an object is the sequence of its members' views.
pub proof fn lemma_object_view(members: Vec<Member>)
    ensures
        Json::Object(members)@ == JsonValue::Object(members_view(members@)),
{
    assert(Json::Object(members)@->Object_0 =~= members_view(members@));
}

/// What `serde_json::from_str` reads from a text: the document, or `None`
/// where it reports an error.
pub uninterp spec fn json_parsed(text: Seq<char>) -> Option<JsonValue>;

/// What `serde_json::to_string` writes for a document, or `None` where it
/// reports an error.
pub uninterp spec fn json_printed(value: JsonValue) -> Option<Seq<char>>;

/// The document that a `serde_json::Value` holds.
pub uninterp spec fn value_model(v: serde_json::Value) -> JsonValue;

/// Calls `serde_json::from_str` for a `serde_json::Value`. The contract only
/// names the outcome: the value read, or the fact that the text was refused.
#[verifier::external_body]
fn value_from_str(text: &str) -> (read: Option<serde_json::Value>)
    ensures
        match read {
            Some(v) => json_parsed(text@) == Some(value_model(v)),
            None => json_parsed(text@) is None,
        },
{
    match serde_json::from_str::<serde_json::Value>(text) {
        Ok(v) => Some(v),
        Err(_) => None,
    }
}

/// Calls `serde_json::to_string` on a `serde_json::Value` and names the
/// outcome. Claims that a `Value` is always written: `to_string` fails only
/// where a type refuses to be serialized or a map has a key that is no
/// string, and a `Value` does neither. Claims also that `serde_json::from_str`
/// reads an object whose members are all strings back from what was written
/// for it, unless a member bears one of the names that `serde_json` keeps for
/// itself: such an object is written like any other, but not read as one.
#[verifier::external_body]
fn value_to_string(v: &serde_json::Value) -> (written: Option<String>)
    ensures
        match written {
            Some(t) => json_printed(value_model(*v)) == Some(t@),
            None => json_printed(value_model(*v)) is None,
        },
        written is Some,
        value_model(*v).is_plain_record() ==> json_parsed(written->0@) == Some(value_model(*v)),
{
    match serde_json::to_string(v) {
        Ok(t) => Some(t),
        Err(_) => None,
    }
}

/// Moves a `serde_json::Value` into a `Json`, variant by variant. Claims that
/// the result is the document the value holds, and that no object in it names a
/// member twice: `serde_json::Map` keeps one entry for each key. The members
/// of an object come in the order of the map, which is the order of the text
/// it was read from, since `serde_json` is built with `preserve_order`.
#[verifier::external_body]
fn json_of_value(v: serde_json::Value) -> (j: Json)
    ensures
        j@ == value_model(v),
        j@.unambiguous(),
{
    match v {
        serde_json::Value::Null => Json::Null,
        serde_json::Value::Bool(b) => Json::Bool(b),
        serde_json::Value::Number(n) => Json::Number(n),
        serde_json::Value::String(s) => Json::Text(s),
        serde_json::Value::Array(a) => Json::List(a.into_iter().map(json_of_value).collect()),
        serde_json::Value::Object(m) => Json::Object(
            m.into_iter().map(|(name, x)| Member { name, value: json_of_value(x) }).collect(),
        ),
    }
}

/// Copies a `Json` into a `serde_json::Value`, variant by variant. Claims that
/// the value holds the same document, members in the same order, provided that
/// no object in it names a member twice (`serde_json::Map` would keep only one
/// of the two). The order is kept since `serde_json` is built with
/// `preserve_order`.
#[verifier::external_body]
fn value_of_json(j: &Json) -> (v: serde_json::Value)
    ensures
        j@.unambiguous() ==> value_model(v) == j@,
{
    match j {
        Json::Null => serde_json::Value::Null,
        Json::Bool(b) => serde_json::Value::Bool(*b),
        Json::Number(n) => serde_json::Value::Number(n.clone()),
        Json::Text(s) => serde_json::Value::String(s.clone()),
        Json::List(items) => serde_json::Value::Array(items.iter().map(value_of_json).collect()),
        Json::Object(members) => serde_json::Value::Object(
            members.iter().map(|m| (m.name.clone(), value_of_json(&m.value))).collect(),
        ),
    }
}

impl Clone for Json {
    fn clone(&self) -> (copy: Self)
        ensures
            copy@ == self@,
        decreases self,
    {
        match self {
            Json::Null => Json::Null,
            Json::Bool(b) => Json::Bool(*b),
            Json::Number(n) => Json::Number(n.clone()),
            Json::Text(s) => Json::Text(s.clone()),
            Json::List(items) => {
                let mut copies: Vec<Json> = Vec::new();
                let mut i: usize = 0;
                while i < items.len()
                    invariant
                        *self == Json::List(*items),
                        i <= items.len(),
                        copies.len() == i,
                        forall|k: int| 0 <= k < i ==> (#[trigger] copies@[k])@ == items@[k]@,
                    decreases items.len() - i,
                {
                    assert(self->List_0 == *items);
                    assert(decreases_to!(*self => self->List_0));
                    copies.push(items[i].clone());
                    i += 1;
                }
                proof {
                    lemma_list_view(*items);
                    lemma_list_view(copies);
                    assert(list_view(copies@) =~= list_view(items@));
                }
                Json::List(copies)
            },
            Json::Object(members) => {
                let mut copies: Vec<Member> = Vec::new();
                let mut i: usize = 0;
                while i < members.len()
                    invariant
                        *self == Json::Object(*members),
                        i <= members.len(),
                        copies.len() == i,
                        forall|k: int|
                            0 <= k < i ==> (#[trigger] copies@[k]).pair() == members@[k].pair(),
                    decreases members.len() - i,
                {
                    assert(self->Object_0 == *members);
                    assert(decreases_to!(*self => self->Object_0));
                    let member = &members[i];
                    copies.push(Member { name: member.name.clone(), value: member.value.clone() });
                    i += 1;
                }
                proof {
                    lemma_object_view(*members);
                    lemma_object_view(copies);
                    assert(members_view(copies@) =~= members_view(members@));
                }
                Json::Object(copies)
            },
        }
    }
}

impl Json {
    /// Reads a document from JSON text; `None` where the text is not JSON.
    pub fn parse(text: &str) -> (read: Option<Json>)
        ensures
            match read {
                Some(j) => json_parsed(text@) == Some(j@) && j@.unambiguous(),
                None => json_parsed(text@) is None,
            },
    {
        match value_from_str(text) {
            Some(v) => Some(json_of_value(v)),
            None => None,
        }
    }

    /// Writes the document as compact JSON text. There always is a text. A
    /// record of strings is read back from its text, unless one of its
    /// members bears a name that `serde_json` keeps for itself.
    pub fn to_text(&self) -> (written: Option<String>)
        ensures
            written is Some,
            self@.unambiguous() ==> json_printed(self@) == Some(written->0@),
            self@.is_plain_record() ==> json_parsed(written->0@) == Some(self@),
    {
        proof {
            if self@.is_text_record() {
                lemma_text_record_is_unambiguous(self@);
            }
        }
        let v = value_of_json(self);
        value_to_string(&v)
    }

    /// An object without members.
    pub fn empty_object() -> (j: Json)
        ensures
            j@ == JsonValue::object(),
    {
        let members: Vec<Member> = Vec::new();
        proof {
            lemma_object_view(members);
            assert(members_view(members@) =~= Seq::empty());
        }
        Json::Object(members)
    }

    /// The object with one more member at its end. Anything but an object is
    /// handed back as it is.
    pub fn with(self, name: &str, value: Json) -> (j: Json)
        ensures
            j@ == self@.with(name@, value@),
    {
        match self {
            Json::Object(mut members) => {
                proof {
                    lemma_object_view(members);
                }
                let ghost before = members@;
                members.push(Member::new(name, value));
                proof {
                    lemma_object_view(members);
                    assert(members_view(members@) =~= members_view(before).push((name@, value@)));
                }
                Json::Object(members)
            },
            other => other,
        }
    }

    /// A list without items.
    pub fn empty_list() -> (j: Json)
        ensures
            j@ == JsonValue::list(),
    {
        let items: Vec<Json> = Vec::new();
        proof {
            lemma_list_view(items);
            assert(list_view(items@) =~= Seq::empty());
        }
        Json::List(items)
    }

    /// The list with one more item at its end. Anything but a list is handed
    /// back as it is.
    pub fn and(self, item: Json) -> (j: Json)
        ensures
            j@ == self@.and(item@),
    {
        match self {
            Json::List(mut items) => {
                proof {
                    lemma_list_view(items);
                }
                let ghost before = items@;
                items.push(item);
                proof {
                    lemma_list_view(items);
                    assert(list_view(items@) =~= list_view(before).push(item@));
                }
                Json::List(items)
            },
            other => other,
        }
    }

    /// A string document holding `s`.
    pub fn text(s: &str) -> (j: Json)
        ensures
            j@ == JsonValue::text(s@),
    {
        Json::Text(s.to_owned())
    }

    /// The member `key` of an object.
    pub fn get(&self, key: &str) -> (found: Option<&Json>)
        ensures
            match found {
                Some(j) => self@.field(key@) == Some(j@) && (self@.unambiguous()
                    ==> j@.unambiguous()),
                None => self@.field(key@) is None,
            },
    {
        proof {
            if self@.unambiguous() && self@.field(key@) is Some {
                lemma_field_of_unambiguous(self@, key@);
            }
        }
        match self {
            Json::Object(members) => {
                proof {
                    lemma_object_view(*members);
                }
                let ghost all = members_view(members@);
                assert(all.skip(0) =~= all);
                let mut i: usize = 0;
                while i < members.len()
                    invariant
                        i <= members.len(),
                        all == members_view(members@),
                        self@ == JsonValue::Object(all),
                        JsonValue::lookup(all, key@) == JsonValue::lookup(all.skip(i as int), key@),
                    decreases members.len() - i,
                {
                    let ghost rest = all.skip(i as int);
                    assert(rest[0] == all[i as int]);
                    assert(rest.drop_first() =~= all.skip(i + 1));
                    if same_text(members[i].name.as_str(), key) {
                        return Some(&members[i].value);
                    }
                    i += 1;
                }
                None
            },
            _ => None,
        }
    }

    /// The text of a string document.
    pub fn as_str(&self) -> (text: Option<&str>)
        ensures
            match text {
                Some(s) => self@ == JsonValue::Text(s@),
                None => !(self@ is Text),
            },
    {
        match self {
            Json::Text(s) => Some(s.as_str()),
            _ => None,
        }
    }

    /// The truth value of a boolean document.
    pub fn as_bool(&self) -> (truth: Option<bool>)
        ensures
            match truth {
                Some(b) => self@ == JsonValue::Bool(b),
                None => !(self@ is Bool),
            },
    {
        match self {
            Json::Bool(b) => Some(*b),
            _ => None,
        }
    }

    /// The items of a list document.
    pub fn as_list(&self) -> (items: Option<&Vec<Json>>)
        ensures
            match items {
                Some(v) => self@ == JsonValue::List(list_view(v@)),
                None => !(self@ is List),
            },
    {
        match self {
            Json::List(items) => {
                proof {
                    lemma_list_view(*items);
                }
                Some(items)
            },
            _ => None,
        }
    }

    /// The members of an object document, in document order.
    pub fn as_object(&self) -> (members: Option<&Vec<Member>>)
        ensures
            match members {
                Some(v) => self@ == JsonValue::Object(members_view(v@)),
                None => !(self@ is Object),
            },
    {
        match self {
            Json::Object(members) => {
                proof {
                    lemma_object_view(*members);
                }
                Some(members)
            },
            _ => None,
        }
    }

    /// Whether the document is `null`.
    pub fn is_null(&self) -> (null: bool)
        ensures
            null == (self@ is Null),
    {
        match self {
            Json::Null => true,
            _ => false,
        }
    }
}

} // verus!
