//! JSON values as the session core reads and writes them.
//!
//! The text form is the business of `serde_json`: its parser and its
//! serializer are called through the trusted items at the end of this file.
//! Everything in between works on [`Json`], a plain tree.

use vstd::prelude::*;
use crate::text::same_text;

verus! {

/// A JSON value held as a plain tree.
///
/// An object keeps its members in a list; where a key occurs more than once
/// the last occurrence is the member.
#[derive(Debug, PartialEq, Eq)]
pub enum Json {
    Null,
    Bool(bool),
    Number(serde_json::Number),
    Str(String),
    Array(Vec<Json>),
    Object(Vec<(String, Json)>),
}

/// The mathematical value of a [`Json`] tree: objects are maps, arrays are
/// sequences, strings are sequences of characters.
#[verifier::ext_equal]
pub enum JsonView {
    Null,
    Bool(bool),
    Number(serde_json::Number),
    Str(Seq<char>),
    Array(Seq<JsonView>),
    Object(Map<Seq<char>, JsonView>),
}

/// The value of a tree.
pub open spec fn tree_view(j: Json) -> JsonView
    decreases j,
{
    match j {
        Json::Null => JsonView::Null,
        Json::Bool(b) => JsonView::Bool(b),
        Json::Number(n) => JsonView::Number(n),
        Json::Str(s) => JsonView::Str(s@),
        Json::Array(items) => JsonView::Array(items_view(items@)),
        Json::Object(entries) => JsonView::Object(entries_view(entries@)),
    }
}

/// The values of a list of trees, in order.
pub open spec fn items_view(items: Seq<Json>) -> Seq<JsonView>
    decreases items,
{
    if items.len() == 0 {
        Seq::empty()
    } else {
        items_view(items.drop_last()).push(tree_view(items.last()))
    }
}

/// The map that a list of members stands for: later members replace earlier
/// ones of the same key.
pub open spec fn entries_view(entries: Seq<(String, Json)>) -> Map<Seq<char>, JsonView>
    decreases entries,
{
    if entries.len() == 0 {
        Map::empty()
    } else {
        entries_view(entries.drop_last()).insert(entries.last().0@, tree_view(entries.last().1))
    }
}

impl View for Json {
    type V = JsonView;

    open spec fn view(&self) -> JsonView {
        tree_view(*self)
    }
}

impl JsonView {
    /// The member of an object under a key; `None` for a key the object
    /// does not have, and for a value that is no object.
    pub open spec fn field(self, key: Seq<char>) -> Option<JsonView> {
        match self {
            JsonView::Object(m) => if m.contains_key(key) {
                Some(m[key])
            } else {
                None
            },
            _ => None,
        }
    }

    /// The member under a key, or `Null` where there is none.
    pub open spec fn member(self, key: Seq<char>) -> JsonView {
        match self.field(key) {
            Some(v) => v,
            None => JsonView::Null,
        }
    }

    /// The characters of a string value.
    pub open spec fn as_str(self) -> Option<Seq<char>> {
        match self {
            JsonView::Str(s) => Some(s),
            _ => None,
        }
    }

    /// The truth value of a boolean value.
    pub open spec fn as_bool(self) -> Option<bool> {
        match self {
            JsonView::Bool(b) => Some(b),
            _ => None,
        }
    }

    /// The items of an array value.
    pub open spec fn as_array(self) -> Option<Seq<JsonView>> {
        match self {
            JsonView::Array(items) => Some(items),
            _ => None,
        }
    }

    /// The members of an object; no members for a value that is no object.
    pub open spec fn members(self) -> Map<Seq<char>, JsonView> {
        match self {
            JsonView::Object(m) => m,
            _ => Map::empty(),
        }
    }

    /// The object with one member put in or replaced.
    pub open spec fn with(self, key: Seq<char>, value: JsonView) -> JsonView {
        JsonView::Object(self.members().insert(key, value))
    }

    /// The object without members.
    pub open spec fn empty_object() -> JsonView {
        JsonView::Object(Map::empty())
    }
}

/// The values of a list of trees are the values of its trees, place by place.
pub proof fn lemma_items_view(items: Seq<Json>)
    ensures
        items_view(items).len() == items.len(),
        forall|i: int| 0 <= i < items.len() ==> #[trigger] items_view(items)[i] == items[i]@,
    decreases items.len(),
{
    if items.len() > 0 {
        lemma_items_view(items.drop_last());
    }
}

/// The member of a key is the last entry of the list that has the key.
pub proof fn lemma_entries_last_wins(entries: Seq<(String, Json)>, key: Seq<char>, i: int)
    requires
        0 <= i < entries.len(),
        entries[i].0@ == key,
        forall|j: int| i < j < entries.len() ==> entries[j].0@ != key,
    ensures
        entries_view(entries).contains_key(key),
        entries_view(entries)[key] == entries[i].1@,
    decreases entries.len(),
{
    if i < entries.len() - 1 {
        assert(entries[entries.len() - 1].0@ != key);
        lemma_entries_last_wins(entries.drop_last(), key, i);
    }
}

/// A key that no entry of the list has is no key of the map.
pub proof fn lemma_entries_absent(entries: Seq<(String, Json)>, key: Seq<char>)
    requires
        forall|j: int| 0 <= j < entries.len() ==> entries[j].0@ != key,
    ensures
        !entries_view(entries).contains_key(key),
    decreases entries.len(),
{
    if entries.len() > 0 {
        assert(entries[entries.len() - 1].0@ != key);
        lemma_entries_absent(entries.drop_last(), key);
    }
}

impl Json {
    /// The member of an object under a key.
    pub fn get(&self, key: &str) -> (r: Option<&Json>)
        ensures
            match r {
                Some(j) => self@.field(key@) == Some(j@),
                None => self@.field(key@) is None,
            },
    {
        match self {
            Json::Object(entries) => {
                let mut i: usize = entries.len();
                while i > 0
                    invariant
                        i <= entries@.len(),
                        self@ == JsonView::Object(entries_view(entries@)),
                        forall|j: int| i <= j < entries@.len() ==> entries@[j].0@ != key@,
                    decreases i,
                {
                    i -= 1;
                    if same_text(entries[i].0.as_str(), key) {
                        proof {
                            lemma_entries_last_wins(entries@, key@, i as int);
                        }
                        return Some(&entries[i].1);
                    }
                }
                proof {
                    lemma_entries_absent(entries@, key@);
                }
                None
            },
            _ => None,
        }
    }

    /// The text of a string value.
    pub fn as_str(&self) -> (r: Option<&str>)
        ensures
            match r {
                Some(s) => self@.as_str() == Some(s@),
                None => self@.as_str() is None,
            },
    {
        match self {
            Json::Str(s) => Some(s.as_str()),
            _ => None,
        }
    }

    /// The truth value of a boolean value.
    pub fn as_bool(&self) -> (r: Option<bool>)
        ensures
            r == self@.as_bool(),
    {
        match self {
            Json::Bool(b) => Some(*b),
            _ => None,
        }
    }

    /// The items of an array value.
    pub fn as_array(&self) -> (r: Option<&Vec<Json>>)
        ensures
            match r {
                Some(items) => self@.as_array() == Some(items_view(items@)),
                None => self@.as_array() is None,
            },
    {
        match self {
            Json::Array(items) => Some(items),
            _ => None,
        }
    }

    /// A string value.
    pub fn text(s: &str) -> (r: Json)
        ensures
            r@ == JsonView::Str(s@),
    {
        Json::Str(s.to_string())
    }

    /// An object without members.
    pub fn object() -> (r: Json)
        ensures
            r@ == JsonView::empty_object(),
    {
        Json::Object(Vec::new())
    }

    /// The object with one more member; a member of the same key is
    /// replaced. A value that is no object counts as the empty object.
    pub fn with(self, key: &str, value: Json) -> (r: Json)
        ensures
            r@ == self@.with(key@, value@),
    {
        let mut entries = match self {
            Json::Object(entries) => entries,
            _ => Vec::new(),
        };
        let ghost before = entries@;
        assert(entries_view(before) == self@.members());
        entries.push((key.to_string(), value));
        assert(entries@.drop_last() =~= before);
        assert(entries_view(entries@) == entries_view(before).insert(key@, value@));
        Json::Object(entries)
    }
}

/// `serde_json::Value`, the tree that the parser yields and the serializer takes.
#[verifier::external_type_specification]
#[verifier::external_body]
pub struct ExValue(serde_json::Value);

/// `serde_json::Number`, carried through unread.
#[verifier::external_type_specification]
#[verifier::external_body]
pub struct ExNumber(serde_json::Number);

/// `serde_json::Error`, what the parser reports for text that is not JSON.
#[verifier::external_type_specification]
#[verifier::external_body]
pub struct ExError(serde_json::Error);

/// What a `serde_json::Value` holds, as a tree value.
pub uninterp spec fn value_tree(v: serde_json::Value) -> JsonView;

/// What `serde_json::from_str` makes of a text: the tree it parses to, or
/// nothing where the text is not one JSON value.
pub uninterp spec fn parsed_text(text: Seq<char>) -> Option<JsonView>;

/// The compact text that `serde_json` writes for a tree.
pub uninterp spec fn rendered_text(tree: JsonView) -> Seq<char>;

/// Calls `serde_json::from_str` for a `Value`. The result depends on the text
/// alone; it is an error exactly where the text is not one JSON value.
#[verifier::external_body]
fn value_from_str(text: &str) -> (r: Result<serde_json::Value, serde_json::Error>)
    ensures
        match r {
            Ok(v) => parsed_text(text@) == Some(value_tree(v)),
            Err(_) => parsed_text(text@) is None,
        },
{
    serde_json::from_str::<serde_json::Value>(text)
}

/// Copies a `serde_json::Value` into a [`Json`] tree, variant by variant.
/// The members of an object come out in the order of its map, each key once.
#[verifier::external_body]
fn import(v: &serde_json::Value) -> (r: Json)
    ensures
        r@ == value_tree(*v),
{
    match v {
        serde_json::Value::Null => Json::Null,
        serde_json::Value::Bool(b) => Json::Bool(*b),
        serde_json::Value::Number(n) => Json::Number(n.clone()),
        serde_json::Value::String(s) => Json::Str(s.clone()),
        serde_json::Value::Array(a) => Json::Array(a.iter().map(import).collect()),
        serde_json::Value::Object(o) => {
            Json::Object(o.iter().map(|(k, x)| (k.clone(), import(x))).collect())
        },
    }
}

/// Copies a [`Json`] tree into a `serde_json::Value`, variant by variant. The
/// members of an object are put into the map with `Map::insert`, in order, so
/// a later member replaces an earlier one of the same key.
#[verifier::external_body]
fn export(j: &Json) -> (r: serde_json::Value)
    ensures
        value_tree(r) == j@,
{
    match j {
        Json::Null => serde_json::Value::Null,
        Json::Bool(b) => serde_json::Value::Bool(*b),
        Json::Number(n) => serde_json::Value::Number(n.clone()),
        Json::Str(s) => serde_json::Value::String(s.clone()),
        Json::Array(a) => serde_json::Value::Array(a.iter().map(export).collect()),
        Json::Object(o) => {
            let mut m = serde_json::Map::new();
            for (k, x) in o.iter() {
                m.insert(k.clone(), export(x));
            }
            serde_json::Value::Object(m)
        },
    }
}

/// Calls `to_string` of a `serde_json::Value`, which writes the compact text
/// of the value.
#[verifier::external_body]
fn value_to_string(v: &serde_json::Value) -> (r: String)
    ensures
        r@ == rendered_text(value_tree(*v)),
{
    v.to_string()
}

/// Why a text could not be read as a frame.
#[derive(Debug, Clone, Copy, PartialEq, Eq, Structural)]
pub enum ParseError {
    /// The text is not one JSON value.
    NotJson,
}

/// Parses a text into a tree.
pub fn parse(text: &str) -> (r: Result<Json, ParseError>)
    ensures
        match r {
            Ok(j) => parsed_text(text@) == Some(j@),
            Err(e) => parsed_text(text@) is None && e == ParseError::NotJson,
        },
{
    match value_from_str(text) {
        Ok(v) => Ok(import(&v)),
        Err(_) => Err(ParseError::NotJson),
    }
}

/// Writes a tree as compact JSON text.
pub fn render(j: &Json) -> (r: String)
    ensures
        r@ == rendered_text(j@),
{
    let v = export(j);
    value_to_string(&v)
}

} // verus!
