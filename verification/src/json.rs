//! JSON documents as the helpers report them.
use vstd::prelude::*;

use crate::text;

verus! {

/// A JSON value; numbers keep their digits.
#[derive(Debug, PartialEq, Eq)]
pub enum Json {
    Null,
    Bool(bool),
    Number(String),
    Text(String),
    Array(Vec<Json>),
    Object(Vec<JsonField>),
}

/// A field of a JSON object; no two fields of an object have one key.
#[derive(Debug, PartialEq, Eq)]
pub struct JsonField {
    pub key: String,
    pub value: Json,
}

/// The first field with a key.
pub open spec fn field(fields: Seq<JsonField>, key: Seq<char>) -> Option<Json>
    decreases fields.len(),
{
    if fields.len() == 0 {
        None
    } else if fields[0].key@ == key {
        Some(fields[0].value)
    } else {
        field(fields.skip(1), key)
    }
}

impl Json {
    /// The value under a key; none where this is no object or has no such key.
    pub open spec fn at(self, key: Seq<char>) -> Option<Json> {
        match self {
            Json::Object(fields) => field(fields@, key),
            _ => None,
        }
    }

    /// The text under a key, where there is one.
    pub open spec fn text_at(self, key: Seq<char>) -> Option<Seq<char>> {
        match self.at(key) {
            Some(Json::Text(s)) => Some(s@),
            _ => None,
        }
    }

    /// The truth value under a key, where there is one.
    pub open spec fn bool_at(self, key: Seq<char>) -> Option<bool> {
        match self.at(key) {
            Some(Json::Bool(b)) => Some(b),
            _ => None,
        }
    }

    /// The items of the array under a key, where there is one.
    pub open spec fn items_at(self, key: Seq<char>) -> Option<Seq<Json>> {
        match self.at(key) {
            Some(Json::Array(items)) => Some(items@),
            _ => None,
        }
    }

    /// The value under a key.
    pub fn get(&self, key: &str) -> (r: Option<&Json>)
        ensures
            match r {
                Some(v) => self.at(key@) == Some(*v),
                None => self.at(key@) is None,
            },
    {
        match self {
            Json::Object(fields) => {
                let mut i: usize = 0;
                assert(fields@.skip(0) == fields@);
                while i < fields.len()
                    invariant
                        i <= fields.len(),
                        field(fields@, key@) == field(fields@.skip(i as int), key@),
                        self.at(key@) == field(fields@, key@),
                    decreases fields.len() - i,
                {
                    if text::same_text(&fields[i].key, key) {
                        return Some(&fields[i].value);
                    }
                    assert(fields@.skip(i as int).skip(1) == fields@.skip(i + 1));
                    i += 1;
                }
                None
            },
            _ => None,
        }
    }

    /// The text under a key, where there is one.
    pub fn get_text(&self, key: &str) -> (r: Option<&str>)
        ensures
            text::opt_str(r) == self.text_at(key@),
    {
        match self.get(key) {
            Some(Json::Text(s)) => Some(s.as_str()),
            _ => None,
        }
    }

    /// The truth value under a key, where there is one.
    pub fn get_bool(&self, key: &str) -> (r: Option<bool>)
        ensures
            r == self.bool_at(key@),
    {
        match self.get(key) {
            Some(Json::Bool(b)) => Some(*b),
            _ => None,
        }
    }

    /// The items of the array under a key, where there is one.
    pub fn get_items(&self, key: &str) -> (r: Option<&Vec<Json>>)
        ensures
            match r {
                Some(v) => self.items_at(key@) == Some(v@),
                None => self.items_at(key@) is None,
            },
    {
        match self.get(key) {
            Some(Json::Array(items)) => Some(items),
            _ => None,
        }
    }
}

/// The fields with a value under a key: in the place of the field that has it,
/// else as the last one.
pub open spec fn with_field(fields: Seq<JsonField>, key: String, value: Json) -> Seq<JsonField>
    decreases fields.len(),
{
    if fields.len() == 0 {
        seq![JsonField { key, value }]
    } else if fields[0].key@ == key@ {
        seq![JsonField { key: fields[0].key, value }] + fields.skip(1)
    } else {
        seq![fields[0]] + with_field(fields.skip(1), key, value)
    }
}

proof fn lemma_with_field_at(fields: Seq<JsonField>, key: String, value: Json, i: int)
    requires
        0 <= i <= fields.len(),
        forall|k: int| 0 <= k < i ==> (#[trigger] fields[k]).key@ != key@,
        i < fields.len() ==> fields[i].key@ == key@,
    ensures
        with_field(fields, key, value) == (if i < fields.len() {
            fields.update(i, JsonField { key: fields[i].key, value })
        } else {
            fields.push(JsonField { key, value })
        }),
    decreases fields.len(),
{
    if fields.len() == 0 {
        assert(with_field(fields, key, value) =~= fields.push(JsonField { key, value }));
    } else if i == 0 {
        assert(seq![JsonField { key: fields[0].key, value }] + fields.skip(1) =~= fields.update(
            0,
            JsonField { key: fields[0].key, value },
        ));
    } else {
        assert forall|k: int| 0 <= k < i - 1 implies (#[trigger] fields.skip(1)[k]).key@
            != key@ by {
            assert(fields.skip(1)[k] == fields[k + 1]);
        }
        lemma_with_field_at(fields.skip(1), key, value, i - 1);
        let inner = with_field(fields.skip(1), key, value);
        assert(seq![fields[0]] + inner =~= (if i < fields.len() {
            fields.update(i, JsonField { key: fields[i].key, value })
        } else {
            fields.push(JsonField { key, value })
        }));
    }
}

/// Sets the value under a key.
pub fn set_field(fields: &mut Vec<JsonField>, key: String, value: Json)
    ensures
        final(fields)@ == with_field(old(fields)@, key, value),
{
    let ghost before = fields@;
    let mut i: usize = 0;
    while i < fields.len()
        invariant
            i <= fields.len(),
            fields@ == before,
            before == old(fields)@,
            forall|k: int| 0 <= k < i ==> (#[trigger] before[k]).key@ != key@,
        decreases fields.len() - i,
    {
        if text::same_text(&fields[i].key, &key) {
            proof {
                lemma_with_field_at(before, key, value, i as int);
            }
            let own = fields[i].key.clone();
            fields.set(i, JsonField { key: own, value });
            return ;
        }
        i += 1;
    }
    proof {
        lemma_with_field_at(before, key, value, i as int);
    }
    fields.push(JsonField { key, value });
}

/// What is set under a key is found under it, and nothing else changes.
pub proof fn law_set_field_reads_back(
    fields: Seq<JsonField>,
    key: String,
    value: Json,
    other: Seq<char>,
)
    ensures
        field(with_field(fields, key, value), other) == (if other == key@ {
            Some(value)
        } else {
            field(fields, other)
        }),
    decreases fields.len(),
{
    let r = with_field(fields, key, value);
    if fields.len() == 0 {
        assert(r.skip(1) =~= Seq::<JsonField>::empty());
        assert(field(Seq::<JsonField>::empty(), other) is None);
    } else if fields[0].key@ == key@ {
        assert(r.skip(1) =~= fields.skip(1));
    } else {
        law_set_field_reads_back(fields.skip(1), key, value, other);
        assert(r.skip(1) =~= with_field(fields.skip(1), key, value));
    }
}

/// What a JSON text holds under a key: nothing where it is no object with that key, or else the
/// text that stands there, if it is a text.
pub uninterp spec fn json_field(document: Seq<char>, key: Seq<char>) -> Option<Option<Seq<char>>>;

/// Reads `document` with `serde_json::from_str` into a `serde_json::Value`, and looks `key` up in
/// it with `Value::get` and `Value::as_str`. The result is named by `json_field`: it depends on
/// the two texts alone, and nothing more is claimed of it.
#[verifier::external_body]
pub(crate) fn read_field(document: &str, key: &str) -> (r: Option<Option<String>>)
    ensures
        held(r) == json_field(document@, key@),
{
    match serde_json::from_str::<serde_json::Value>(document) {
        Ok(value) => value.get(key).map(|field| field.as_str().map(str::to_string)),
        Err(_) => None,
    }
}

/// The view of what stands under a key.
pub open spec fn held(field: Option<Option<String>>) -> Option<Option<Seq<char>>> {
    match field {
        None => None,
        Some(value) => Some(text::opt_text(value)),
    }
}

/// The text under a key of a JSON text, if there is one.
pub open spec fn text_in(document: Seq<char>, key: Seq<char>) -> Option<Seq<char>> {
    match json_field(document, key) {
        Some(value) => value,
        None => None,
    }
}

/// The text under the first of two keys that a JSON text has, if it is a text.
pub open spec fn text_in_either(document: Seq<char>, first: Seq<char>, second: Seq<char>) -> Option<
    Seq<char>,
> {
    match json_field(document, first) {
        Some(value) => value,
        None => text_in(document, second),
    }
}

/// Reads the text under a key of a JSON text.
pub fn read_text(document: &str, key: &str) -> (r: Option<String>)
    ensures
        text::opt_text(r) == text_in(document@, key@),
{
    match read_field(document, key) {
        Some(value) => value,
        None => None,
    }
}

/// Reads the text under the first of two keys that a JSON text has.
pub fn read_text_either(document: &str, first: &str, second: &str) -> (r: Option<String>)
    ensures
        text::opt_text(r) == text_in_either(document@, first@, second@),
{
    match read_field(document, first) {
        Some(value) => value,
        None => read_text(document, second),
    }
}

} // verus!
