//! JSON documents as plain trees.
//!
//! Reading JSON text is left to `serde_json`; everything the rest of the crate does with a
//! document (walking it, looking members up, reading numbers) is done here on [`Json`].

use vstd::prelude::*;
use vstd::string::StringExecFns;
use crate::decimal::{decimal_within, parse_decimal};
use crate::text::{optional_optional_text, optional_text, optional_texts, texts_view};

verus! {

/// A JSON document.
///
/// A number is kept as the text `serde_json` prints for it, so that no precision is lost
/// and no floating point is needed. The members of an object are kept in the order in
/// which `serde_json` hands them out.
#[derive(Debug, PartialEq, Eq)]
pub enum Json {
    Null,
    Bool(bool),
    Number(String),
    Text(String),
    Array(Vec<Json>),
    Object(Vec<(String, Json)>),
}

/// The mathematical value of a [`Json`].
pub enum JsonView {
    Null,
    Bool(bool),
    Number(Seq<char>),
    Text(Seq<char>),
    Array(Seq<JsonView>),
    Object(Seq<(Seq<char>, JsonView)>),
}

/// The value of a document: strings by their characters, arrays and objects by the values
/// of what they hold.
pub open spec fn json_view(doc: Json) -> JsonView
    decreases doc,
{
    match doc {
        Json::Null => JsonView::Null,
        Json::Bool(b) => JsonView::Bool(b),
        Json::Number(n) => JsonView::Number(n@),
        Json::Text(t) => JsonView::Text(t@),
        Json::Array(items) => JsonView::Array(
            Seq::new(
                items@.len(),
                |i: int|
                    if 0 <= i < items@.len() {
                        json_view(items@[i])
                    } else {
                        JsonView::Null
                    },
            ),
        ),
        Json::Object(members) => JsonView::Object(
            Seq::new(
                members@.len(),
                |i: int|
                    if 0 <= i < members@.len() {
                        (members@[i].0@, json_view(members@[i].1))
                    } else {
                        (Seq::<char>::empty(), JsonView::Null)
                    },
            ),
        ),
    }
}

impl View for Json {
    type V = JsonView;

    open spec fn view(&self) -> JsonView {
        json_view(*self)
    }
}

/// `serde_json::Value`, which is carried through as it is: nothing of what is inside a
/// value is known but through [`value_content`].
#[verifier::external_type_specification]
#[verifier::external_body]
pub struct ExValue(serde_json::Value);

/// What `serde_json::from_str` makes of `text` when asked for a `serde_json::Value`: the
/// content of the value it reads (see [`value_content`]), or the message that its error
/// displays.
pub uninterp spec fn json_parse(text: Seq<char>) -> Result<JsonView, Seq<char>>;

/// The document that a `serde_json::Value` holds: a number by the text that
/// `serde_json::Number` displays, an array by the content of its elements, an object by
/// its names and the content of its values, in the order in which `serde_json::Map::iter`
/// hands the members out.
pub uninterp spec fn value_content(value: serde_json::Value) -> JsonView;

/// One level of a `serde_json::Value`: its variant, with the values below it untouched.
enum ValueParts<'a> {
    Null,
    Bool(bool),
    Number(String),
    Text(&'a String),
    Array(&'a Vec<serde_json::Value>),
    Object(Vec<(&'a String, &'a serde_json::Value)>),
}

impl<'a> ValueParts<'a> {
    /// The document that the parts make up.
    spec fn content(self) -> JsonView {
        match self {
            ValueParts::Null => JsonView::Null,
            ValueParts::Bool(b) => JsonView::Bool(b),
            ValueParts::Number(n) => JsonView::Number(n@),
            ValueParts::Text(t) => JsonView::Text(t@),
            ValueParts::Array(items) => JsonView::Array(
                Seq::new(items@.len(), |i: int| value_content(items@[i])),
            ),
            ValueParts::Object(members) => JsonView::Object(
                Seq::new(members@.len(), |i: int| (members@[i].0@, value_content(*members@[i].1))),
            ),
        }
    }
}

/// Calls `serde_json::from_str` for a `serde_json::Value`. The contract only gives the
/// outcome its name: `json_parse` of the text is the content of the value that came back,
/// or the text of the error.
#[verifier::external_body]
fn read_value(text: &str) -> (result: Result<serde_json::Value, String>)
    ensures
        match result {
            Ok(value) => json_parse(text@) == Ok::<JsonView, Seq<char>>(value_content(value)),
            Err(message) => json_parse(text@) == Err::<JsonView, Seq<char>>(message@),
        },
{
    serde_json::from_str::<serde_json::Value>(text).map_err(|e| e.to_string())
}

/// Tells the variants of `serde_json::Value` apart, one arm each. A number is handed out as
/// the text that `serde_json::Number` displays, an object as its members in the order of
/// `serde_json::Map::iter`. The contract says that the parts make up the content of the
/// value.
#[verifier::external_body]
fn take_apart<'a>(value: &'a serde_json::Value) -> (parts: ValueParts<'a>)
    ensures
        parts.content() == value_content(*value),
{
    match value {
        serde_json::Value::Null => ValueParts::Null,
        serde_json::Value::Bool(b) => ValueParts::Bool(*b),
        serde_json::Value::Number(n) => ValueParts::Number(n.to_string()),
        serde_json::Value::String(s) => ValueParts::Text(s),
        serde_json::Value::Array(items) => ValueParts::Array(items),
        serde_json::Value::Object(members) => ValueParts::Object(members.iter().collect()),
    }
}

/// Copies a `serde_json::Value` into a tree of the library's own.
fn tree_of(value: &serde_json::Value) -> (doc: Json)
    ensures
        doc@ == value_content(*value),
    decreases value_content(*value),
{
    match take_apart(value) {
        ValueParts::Null => Json::Null,
        ValueParts::Bool(b) => Json::Bool(b),
        ValueParts::Number(n) => Json::Number(n),
        ValueParts::Text(t) => Json::Text(t.clone()),
        ValueParts::Array(items) => {
            let ghost whole = value_content(*value);
            let mut out: Vec<Json> = Vec::new();
            let mut i: usize = 0;
            while i < items.len()
                invariant
                    i <= items@.len(),
                    out@.len() == i,
                    whole == value_content(*value),
                    whole == JsonView::Array(
                        Seq::new(items@.len(), |k: int| value_content(items@[k])),
                    ),
                    forall|k: int| 0 <= k < i ==> (#[trigger] out@[k])@ == value_content(items@[k]),
                decreases items@.len() - i,
            {
                proof {
                    let below = Seq::new(items@.len(), |k: int| value_content(items@[k]));
                    assert(whole->Array_0 == below);
                    assert(decreases_to!(below => below[i as int]));
                }
                let item = tree_of(&items[i]);
                out.push(item);
                i = i + 1;
            }
            let doc = Json::Array(out);
            assert(doc@->Array_0 =~= whole->Array_0);
            doc
        },
        ValueParts::Object(members) => {
            let ghost whole = value_content(*value);
            let mut out: Vec<(String, Json)> = Vec::new();
            let mut i: usize = 0;
            while i < members.len()
                invariant
                    i <= members@.len(),
                    out@.len() == i,
                    whole == value_content(*value),
                    whole == JsonView::Object(
                        Seq::new(
                            members@.len(),
                            |k: int| (members@[k].0@, value_content(*members@[k].1)),
                        ),
                    ),
                    forall|k: int|
                        0 <= k < i ==> (#[trigger] out@[k]).0@ == members@[k].0@ && out@[k].1@
                            == value_content(*members@[k].1),
                decreases members@.len() - i,
            {
                proof {
                    let below = Seq::new(
                        members@.len(),
                        |k: int| (members@[k].0@, value_content(*members@[k].1)),
                    );
                    assert(below[i as int].1 == value_content(*members@[i as int].1));
                    assert(whole->Object_0 == below);
                    assert(decreases_to!(below => below[i as int]));
                }
                let name = members[i].0.clone();
                let item = tree_of(members[i].1);
                out.push((name, item));
                i = i + 1;
            }
            let doc = Json::Object(out);
            assert(doc@->Object_0 =~= whole->Object_0);
            doc
        },
    }
}

/// The first member called `name` among `members`, if there is one.
pub open spec fn lookup(members: Seq<(Seq<char>, JsonView)>, name: Seq<char>) -> Option<JsonView>
    decreases members.len(),
{
    if members.len() == 0 {
        None
    } else if members[0].0 == name {
        Some(members[0].1)
    } else {
        lookup(members.drop_first(), name)
    }
}

/// The 32-bit unsigned integer that the text of a number writes, if it writes one: the
/// text is then a run of decimal digits and nothing else.
pub open spec fn decimal_u32(text: Seq<char>) -> Option<u32> {
    match decimal_within(text, false, u32::MAX as nat) {
        Some(value) => Some(value as u32),
        None => None,
    }
}

impl JsonView {
    /// The member called `name`, where the document is an object that has one.
    pub open spec fn member(self, name: Seq<char>) -> Option<JsonView> {
        match self {
            JsonView::Object(members) => lookup(members, name),
            _ => None,
        }
    }

    /// The characters of the document, where it is a string.
    pub open spec fn text(self) -> Option<Seq<char>> {
        match self {
            JsonView::Text(t) => Some(t),
            _ => None,
        }
    }

    /// The document as a 32-bit unsigned integer, where it is a number that is one.
    pub open spec fn unsigned(self) -> Option<u32> {
        match self {
            JsonView::Number(n) => decimal_u32(n),
            _ => None,
        }
    }

    /// The elements of the document, where it is an array.
    pub open spec fn items(self) -> Option<Seq<JsonView>> {
        match self {
            JsonView::Array(items) => Some(items),
            _ => None,
        }
    }

    /// The strings of the document in order, where it is an array of strings.
    pub open spec fn texts(self) -> Option<Seq<Seq<char>>> {
        match self {
            JsonView::Array(items) => if forall|i: int|
                0 <= i < items.len() ==> (#[trigger] items[i]) is Text {
                Some(Seq::new(items.len(), |i: int| items[i]->Text_0))
            } else {
                None
            },
            _ => None,
        }
    }

    /// The string that is the member called `name`.
    pub open spec fn text_at(self, name: Seq<char>) -> Option<Seq<char>> {
        match self.member(name) {
            Some(value) => value.text(),
            None => None,
        }
    }

    /// The 32-bit unsigned integer that is the member called `name`.
    pub open spec fn unsigned_at(self, name: Seq<char>) -> Option<u32> {
        match self.member(name) {
            Some(value) => value.unsigned(),
            None => None,
        }
    }

    /// The array of strings that is the member called `name`.
    pub open spec fn texts_at(self, name: Seq<char>) -> Option<Seq<Seq<char>>> {
        match self.member(name) {
            Some(value) => value.texts(),
            None => None,
        }
    }

    /// The string that the member called `name` may hold: no string where the member is
    /// absent or null, and nothing at all where it is of another kind.
    pub open spec fn optional_text_at(self, name: Seq<char>) -> Option<Option<Seq<char>>> {
        match self.member(name) {
            None => Some(None),
            Some(JsonView::Null) => Some(None),
            Some(JsonView::Text(text)) => Some(Some(text)),
            Some(_) => None,
        }
    }
}

/// Reads the text of a number as a 32-bit unsigned integer.
pub fn parse_u32(text: &str) -> (number: Option<u32>)
    ensures
        number == decimal_u32(text@),
{
    match parse_decimal(text, false, 0xffff_ffff) {
        Some(value) => Some(value as u32),
        None => None,
    }
}

impl Json {
    /// The member called `name`, where the document is an object that has one.
    pub fn member<'a>(&'a self, name: &str) -> (found: Option<&'a Json>)
        ensures
            match found {
                Some(value) => self@.member(name@) == Some(value@),
                None => self@.member(name@) is None,
            },
    {
        match self {
            Json::Object(members) => {
                let wanted = String::from_str(name);
                let ghost all = self@->Object_0;
                assert(all.len() == members@.len());
                assert(all.skip(0) =~= all);
                let mut i: usize = 0;
                while i < members.len()
                    invariant
                        i <= members@.len(),
                        wanted@ == name@,
                        self@ == JsonView::Object(all),
                        all.len() == members@.len(),
                        forall|k: int|
                            0 <= k < members@.len() ==> #[trigger] all[k] == (
                                members@[k].0@,
                                members@[k].1@,
                            ),
                        lookup(all, name@) == lookup(all.skip(i as int), name@),
                    decreases members@.len() - i,
                {
                    proof {
                        assert(all.skip(i as int)[0] == all[i as int]);
                        assert(all.skip(i as int).drop_first() =~= all.skip(i + 1));
                    }
                    if members[i].0 == wanted {
                        return Some(&members[i].1);
                    }
                    i = i + 1;
                }
                None
            },
            _ => None,
        }
    }

    /// The document as a string.
    pub fn as_text(&self) -> (found: Option<&String>)
        ensures
            match found {
                Some(text) => self@.text() == Some(text@),
                None => self@.text() is None,
            },
    {
        match self {
            Json::Text(t) => Some(t),
            _ => None,
        }
    }

    /// The document as a 32-bit unsigned integer.
    pub fn as_u32(&self) -> (found: Option<u32>)
        ensures
            found == self@.unsigned(),
    {
        match self {
            Json::Number(n) => parse_u32(n.as_str()),
            _ => None,
        }
    }

    /// The elements of the document, where it is an array.
    pub fn as_items(&self) -> (found: Option<&Vec<Json>>)
        ensures
            match found {
                Some(items) => self@.items() == Some(Seq::new(items@.len(), |i: int| items@[i]@)),
                None => self@.items() is None,
            },
    {
        match self {
            Json::Array(items) => {
                assert(self@->Array_0 =~= Seq::new(items@.len(), |i: int| items@[i]@));
                Some(items)
            },
            _ => None,
        }
    }

    /// The strings of the document in order, where it is an array of strings.
    pub fn texts(&self) -> (found: Option<Vec<String>>)
        ensures
            optional_texts(found) == self@.texts(),
    {
        match self {
            Json::Array(items) => {
                let ghost all = self@->Array_0;
                assert(all.len() == items@.len());
                let mut out: Vec<String> = Vec::new();
                let mut i: usize = 0;
                while i < items.len()
                    invariant
                        i <= items@.len(),
                        out@.len() == i,
                        self@ == JsonView::Array(all),
                        all.len() == items@.len(),
                        forall|k: int| 0 <= k < items@.len() ==> #[trigger] all[k] == items@[k]@,
                        forall|k: int| 0 <= k < i ==> (#[trigger] all[k]) is Text,
                        forall|k: int| 0 <= k < i ==> (#[trigger] out@[k])@ == all[k]->Text_0,
                    decreases items@.len() - i,
                {
                    match &items[i] {
                        Json::Text(t) => {
                            out.push(t.clone());
                        },
                        _ => {
                            assert(!(all[i as int] is Text));
                            return None;
                        },
                    }
                    i = i + 1;
                }
                assert(texts_view(out@) =~= Seq::new(all.len(), |k: int| all[k]->Text_0));
                Some(out)
            },
            _ => None,
        }
    }

    /// The string that is the member called `name`.
    pub fn text_at(&self, name: &str) -> (found: Option<String>)
        ensures
            optional_text(found) == self@.text_at(name@),
    {
        match self.member(name) {
            Some(value) => match value.as_text() {
                Some(text) => Some(text.clone()),
                None => None,
            },
            None => None,
        }
    }

    /// The 32-bit unsigned integer that is the member called `name`.
    pub fn unsigned_at(&self, name: &str) -> (found: Option<u32>)
        ensures
            found == self@.unsigned_at(name@),
    {
        match self.member(name) {
            Some(value) => value.as_u32(),
            None => None,
        }
    }

    /// The array of strings that is the member called `name`.
    pub fn texts_at(&self, name: &str) -> (found: Option<Vec<String>>)
        ensures
            optional_texts(found) == self@.texts_at(name@),
    {
        match self.member(name) {
            Some(value) => value.texts(),
            None => None,
        }
    }

    /// The string that the member called `name` may hold: no string where the member is
    /// absent or null, and no answer where it is of another kind.
    pub fn optional_text_at(&self, name: &str) -> (found: Option<Option<String>>)
        ensures
            optional_optional_text(found) == self@.optional_text_at(name@),
    {
        match self.member(name) {
            None => Some(None),
            Some(value) => match value {
                Json::Null => Some(None),
                Json::Text(text) => Some(Some(text.clone())),
                _ => None,
            },
        }
    }
}

/// The view of what [`parse`] returns.
pub open spec fn parsed_view(parsed: Result<Json, String>) -> Result<JsonView, Seq<char>> {
    match parsed {
        Ok(doc) => Ok(doc@),
        Err(message) => Err(message@),
    }
}

/// Reads `text` as one JSON document.
///
/// The result is what `serde_json` makes of the text: the document, or the message of its
/// error.
pub fn parse(text: &str) -> (parsed: Result<Json, String>)
    ensures
        parsed_view(parsed) == json_parse(text@),
{
    match read_value(text) {
        Ok(value) => Ok(tree_of(&value)),
        Err(message) => Err(message),
    }
}

} // verus!
