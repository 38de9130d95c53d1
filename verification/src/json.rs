//! A JSON document as a plain value, with its mathematical model.
//!
//! Search requests are built as [`Json`] values and search results are read
//! from them. Every operation is specified over [`Doc`], the model of a
//! document.

use vstd::prelude::*;
use crate::text::decimal;
use crate::text::decimal_text;
use crate::text::text_eq;

verus! {

/// The mathematical model of a JSON document.
///
/// Integers are unbounded; a number that is no integer is held as it is
/// written; an object is the list of its members in order.
pub ghost enum Doc {
    Null,
    Bool(bool),
    Int(int),
    Float(Seq<char>),
    Text(Seq<char>),
    List(Seq<Doc>),
    Object(Seq<(Seq<char>, Doc)>),
}

/// The first member of `fields` named `key`, if there is one.
pub open spec fn member(fields: Seq<(Seq<char>, Doc)>, key: Seq<char>) -> Option<Doc>
    decreases fields.len(),
{
    if fields.len() == 0 {
        None
    } else if fields[0].0 == key {
        Some(fields[0].1)
    } else {
        member(fields.drop_first(), key)
    }
}

impl Doc {
    /// The member `key` of an object; `None` for a missing member and for
    /// anything that is not an object.
    pub open spec fn get(self, key: Seq<char>) -> Option<Doc> {
        match self {
            Doc::Object(fields) => member(fields, key),
            _ => None,
        }
    }

    /// Like [`Doc::get`], with `Null` standing in for what is missing.
    pub open spec fn at(self, key: Seq<char>) -> Doc {
        match self.get(key) {
            Some(d) => d,
            None => Doc::Null,
        }
    }

    /// The value of a non-negative integer that fits 64 bits.
    pub open spec fn as_u64(self) -> Option<u64> {
        match self {
            Doc::Int(n) => if 0 <= n <= u64::MAX {
                Some(n as u64)
            } else {
                None
            },
            _ => None,
        }
    }

    /// The characters of a string.
    pub open spec fn as_str(self) -> Option<Seq<char>> {
        match self {
            Doc::Text(s) => Some(s),
            _ => None,
        }
    }

    /// The items of an array.
    pub open spec fn as_array(self) -> Option<Seq<Doc>> {
        match self {
            Doc::List(items) => Some(items),
            _ => None,
        }
    }
}

/// A JSON document.
///
/// `UInt` and `Int` both stand for integers; `Float` holds a number that is
/// no integer, as it is written in JSON.
#[derive(Debug, PartialEq)]
pub enum Json {
    Null,
    Bool(bool),
    UInt(u64),
    Int(i64),
    Float(String),
    Str(String),
    Array(Vec<Json>),
    Object(Vec<(String, Json)>),
}

/// The document that `j` stands for.
pub open spec fn doc_of(j: Json) -> Doc
    decreases j,
{
    match j {
        Json::Null => Doc::Null,
        Json::Bool(b) => Doc::Bool(b),
        Json::UInt(n) => Doc::Int(n as int),
        Json::Int(n) => Doc::Int(n as int),
        Json::Float(written) => Doc::Float(written@),
        Json::Str(s) => Doc::Text(s@),
        Json::Array(items) => Doc::List(
            Seq::new(
                items@.len(),
                |i: int|
                    if 0 <= i < items@.len() {
                        doc_of(items@[i])
                    } else {
                        Doc::Null
                    },
            ),
        ),
        Json::Object(fields) => Doc::Object(
            Seq::new(
                fields@.len(),
                |i: int|
                    if 0 <= i < fields@.len() {
                        (fields@[i].0@, doc_of(fields@[i].1))
                    } else {
                        (Seq::empty(), Doc::Null)
                    },
            ),
        ),
    }
}

impl View for Json {
    type V = Doc;

    open spec fn view(&self) -> Doc {
        doc_of(*self)
    }
}

/// The models of a list of documents.
pub open spec fn docs_of(items: Seq<Json>) -> Seq<Doc> {
    Seq::new(items.len(), |i: int| items[i]@)
}

/// The models of a list of named documents.
pub open spec fn fields_of(fields: Seq<(String, Json)>) -> Seq<(Seq<char>, Doc)> {
    Seq::new(fields.len(), |i: int| (fields[i].0@, fields[i].1@))
}

/// Looking a key up skips every leading member with another name.
pub proof fn lemma_member_skip(fields: Seq<(Seq<char>, Doc)>, key: Seq<char>, n: int)
    requires
        0 <= n <= fields.len(),
        forall|j: int| 0 <= j < n ==> fields[j].0 != key,
    ensures
        member(fields, key) == member(fields.skip(n), key),
    decreases n,
{
    if n == 0 {
        assert(fields.skip(0) =~= fields);
    } else {
        assert(fields.drop_first().skip(n - 1) =~= fields.skip(n));
        lemma_member_skip(fields.drop_first(), key, n - 1);
    }
}

impl Json {
    /// A string document.
    pub fn string(s: &str) -> (r: Json)
        ensures
            r@ == Doc::Text(s@),
    {
        Json::Str(s.to_owned())
    }

    /// An array document.
    pub fn array(items: Vec<Json>) -> (r: Json)
        ensures
            r@ == Doc::List(docs_of(items@)),
    {
        let r = Json::Array(items);
        proof {
            assert(r@->List_0 =~= docs_of(items@));
        }
        r
    }

    /// An object document with the given members, in order.
    pub fn object(fields: Vec<(String, Json)>) -> (r: Json)
        ensures
            r@ == Doc::Object(fields_of(fields@)),
    {
        let r = Json::Object(fields);
        proof {
            assert(r@->Object_0 =~= fields_of(fields@));
        }
        r
    }

    /// An object with one member.
    pub fn singleton(key: &str, value: Json) -> (r: Json)
        ensures
            r@ == Doc::Object(seq![(key@, value@)]),
    {
        let mut fields: Vec<(String, Json)> = Vec::new();
        fields.push((key.to_owned(), value));
        let r = Json::object(fields);
        proof {
            assert(r@->Object_0 =~= seq![(key@, value@)]);
        }
        r
    }

    /// The member `key` of an object.
    pub fn get(&self, key: &str) -> (r: Option<&Json>)
        ensures
            match r {
                Some(j) => self@.get(key@) == Some(j@),
                None => self@.get(key@).is_none(),
            },
    {
        match self {
            Json::Object(fields) => {
                let ghost fs = fields_of(fields@);
                proof {
                    assert(self@->Object_0 =~= fs);
                }
                let mut i: usize = 0;
                while i < fields.len()
                    invariant
                        i <= fields.len(),
                        fs == fields_of(fields@),
                        self@ == Doc::Object(fs),
                        forall|j: int| 0 <= j < i ==> fs[j].0 != key@,
                    decreases fields.len() - i,
                {
                    if text_eq(fields[i].0.as_str(), key) {
                        proof {
                            lemma_member_skip(fs, key@, i as int);
                            assert(fs.skip(i as int)[0] == fs[i as int]);
                        }
                        return Some(&fields[i].1);
                    }
                    i += 1;
                }
                proof {
                    lemma_member_skip(fs, key@, fs.len() as int);
                }
                None
            },
            _ => None,
        }
    }

    /// The member `key`, or `Null` where [`Json::get`] finds nothing.
    pub fn at(&self, key: &str) -> (r: &Json)
        ensures
            r@ == self@.at(key@),
    {
        match self.get(key) {
            Some(j) => j,
            None => &Json::Null,
        }
    }

    /// The value of a non-negative integer.
    pub fn as_u64(&self) -> (r: Option<u64>)
        ensures
            r == self@.as_u64(),
    {
        match self {
            Json::UInt(n) => Some(*n),
            Json::Int(n) => if *n >= 0 {
                Some(*n as u64)
            } else {
                None
            },
            _ => None,
        }
    }

    /// The characters of a string.
    pub fn as_str(&self) -> (r: Option<&str>)
        ensures
            match r {
                Some(s) => self@.as_str() == Some(s@),
                None => self@.as_str().is_none(),
            },
    {
        match self {
            Json::Str(s) => Some(s.as_str()),
            _ => None,
        }
    }

    /// The items of an array.
    pub fn as_array(&self) -> (r: Option<&Vec<Json>>)
        ensures
            match r {
                Some(items) => self@.as_array() == Some(docs_of(items@)),
                None => self@.as_array().is_none(),
            },
    {
        match self {
            Json::Array(items) => {
                proof {
                    assert(self@->List_0 =~= docs_of(items@));
                }
                Some(items)
            },
            _ => None,
        }
    }
}


/// Appends a member to the members of an object under construction.
pub fn push_field(fields: &mut Vec<(String, Json)>, key: &str, value: Json)
    ensures
        fields_of(final(fields)@) == fields_of(old(fields)@).push((key@, value@)),
{
    fields.push((key.to_owned(), value));
    proof {
        assert(fields_of(fields@) =~= fields_of(old(fields)@).push((key@, value@)));
    }
}

/// Appends an item to the items of an array under construction.
pub fn push_item(items: &mut Vec<Json>, value: Json)
    ensures
        docs_of(final(items)@) == docs_of(old(items)@).push(value@),
{
    items.push(value);
    proof {
        assert(docs_of(items@) =~= docs_of(old(items)@).push(value@));
    }
}


/// A string as serde_json writes it in a document: between quotes, with what
/// JSON does not take as it is escaped.
pub uninterp spec fn json_quoted(s: Seq<char>) -> Seq<char>;

/// serde_json's `to_string`, on a string. What comes back is the string
/// as a JSON document, a function of its characters alone.
#[verifier::external_body]
fn quote(s: &str) -> (r: String)
    ensures
        r@ == json_quoted(s@),
{
    match serde_json::to_string(s) {
        Ok(text) => text,
        Err(_) => String::new(),
    }
}

/// An integer in decimal, with a minus sign where it is below zero.
pub open spec fn int_text(n: int) -> Seq<char> {
    if n < 0 {
        "-"@ + decimal((-n) as nat)
    } else {
        decimal(n as nat)
    }
}

/// A document written out in the compact form of JSON: no blanks, the
/// members of an object in their order.
pub open spec fn json_text(d: Doc) -> Seq<char>
    decreases d, 0nat,
{
    match d {
        Doc::Null => "null"@,
        Doc::Bool(b) => if b {
            "true"@
        } else {
            "false"@
        },
        Doc::Int(n) => int_text(n),
        Doc::Float(written) => written,
        Doc::Text(s) => json_quoted(s),
        Doc::List(items) => "["@ + items_text(items, items.len()) + "]"@,
        Doc::Object(fields) => "{"@ + fields_text(fields, fields.len()) + "}"@,
    }
}

/// The first `n` of `items` written out, with commas between them.
pub open spec fn items_text(items: Seq<Doc>, n: nat) -> Seq<char>
    decreases items, n,
{
    if n == 0 || n > items.len() {
        Seq::empty()
    } else if n == 1 {
        json_text(items[0])
    } else {
        items_text(items, (n - 1) as nat) + ","@ + json_text(items[n - 1])
    }
}

/// One member written out: its name in quotes, a colon, its value.
pub open spec fn field_text(name: Seq<char>, value: Seq<char>) -> Seq<char> {
    json_quoted(name) + ":"@ + value
}

/// The first `n` of `fields` written out, with commas between them.
pub open spec fn fields_text(fields: Seq<(Seq<char>, Doc)>, n: nat) -> Seq<char>
    decreases fields, n,
{
    if n == 0 || n > fields.len() {
        Seq::empty()
    } else if n == 1 {
        field_text(fields[0].0, json_text(fields[0].1))
    } else {
        fields_text(fields, (n - 1) as nat) + ","@ + field_text(
            fields[n - 1].0,
            json_text(fields[n - 1].1),
        )
    }
}

fn int_to_text(n: i64) -> (r: String)
    ensures
        r@ == int_text(n as int),
{
    if n < 0 {
        let magnitude: u64 = if n == i64::MIN {
            9_223_372_036_854_775_808u64
        } else {
            (-n) as u64
        };
        let mut r = "-".to_owned();
        r.append(decimal_text(magnitude).as_str());
        r
    } else {
        decimal_text(n as u64)
    }
}

impl Json {
    /// Writes the document out in the compact form of JSON.
    pub fn render(&self) -> (r: String)
        ensures
            r@ == json_text(self@),
        decreases self,
    {
        match self {
            Json::Null => "null".to_owned(),
            Json::Bool(b) => if *b {
                "true".to_owned()
            } else {
                "false".to_owned()
            },
            Json::UInt(n) => decimal_text(*n),
            Json::Int(n) => int_to_text(*n),
            Json::Float(written) => written.clone(),
            Json::Str(s) => quote(s.as_str()),
            Json::Array(items) => {
                let ghost all = docs_of(items@);
                proof {
                    assert(self@->List_0 =~= all);
                }
                let mut out = "[".to_owned();
                let mut i: usize = 0;
                while i < items.len()
                    invariant
                        i <= items.len(),
                        all == docs_of(items@),
                        *self == Json::Array(*items),
                        out@ == "["@ + items_text(all, i as nat),
                    decreases items.len() - i,
                {
                    if i > 0 {
                        out.append(",");
                    }
                    proof {
                        assert(self->Array_0 == *items);
                        assert(decreases_to!(*self => self->Array_0));
                        assert(decreases_to!(*items => items@));
                        assert(decreases_to!(items@ => items@[i as int]));
                    }
                    let one = items[i].render();
                    out.append(one.as_str());
                    proof {
                        assert(items[i as int]@ == all[i as int]);
                        assert(out@ =~= "["@ + items_text(all, (i + 1) as nat));
                    }
                    i += 1;
                }
                out.append("]");
                out
            },
            Json::Object(fields) => {
                let ghost all = fields_of(fields@);
                proof {
                    assert(self@->Object_0 =~= all);
                }
                let mut out = "{".to_owned();
                let mut i: usize = 0;
                while i < fields.len()
                    invariant
                        i <= fields.len(),
                        all == fields_of(fields@),
                        *self == Json::Object(*fields),
                        out@ == "{"@ + fields_text(all, i as nat),
                    decreases fields.len() - i,
                {
                    if i > 0 {
                        out.append(",");
                    }
                    let name = quote(fields[i].0.as_str());
                    proof {
                        assert(self->Object_0 == *fields);
                        assert(decreases_to!(*self => self->Object_0));
                        assert(decreases_to!(*fields => fields@));
                        assert(decreases_to!(fields@ => fields@[i as int]));
                        assert(decreases_to!(fields@[i as int] => fields@[i as int].1));
                    }
                    let value = fields[i].1.render();
                    out.append(name.as_str());
                    out.append(":");
                    out.append(value.as_str());
                    proof {
                        assert(fields[i as int].1@ == all[i as int].1);
                        assert(out@ =~= "{"@ + fields_text(all, (i + 1) as nat));
                    }
                    i += 1;
                }
                out.append("}");
                out
            },
        }
    }
}

} // verus!
