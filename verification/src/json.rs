//! A JSON document model that the library reads and builds.
use vstd::prelude::*;

verus! {

broadcast use vstd::std_specs::vec::axiom_vec_decreases_to_view;

/// A JSON number as the wire carries it.
#[derive(Debug)]
pub enum JsonNumber {
    /// A non-negative integer.
    PosInt(u64),
    /// A negative integer.
    NegInt(i64),
    /// Any other number, kept as its decimal text.
    Float(String),
}

/// A JSON document.
#[derive(Debug)]
pub enum Json {
    Null,
    Bool(bool),
    Number(JsonNumber),
    Str(String),
    Array(Vec<Json>),
    /// Object fields in order; a lookup finds the first field with a key.
    Object(Vec<(String, Json)>),
}

/// The mathematical value of a JSON number.
pub enum JsonNum {
    PosInt(u64),
    NegInt(i64),
    Float(Seq<char>),
}

/// The mathematical value of a JSON document.
pub enum JsonValue {
    Null,
    Bool(bool),
    Number(JsonNum),
    Str(Seq<char>),
    Array(Seq<JsonValue>),
    Object(Seq<(Seq<char>, JsonValue)>),
}

pub open spec fn number_view(n: JsonNumber) -> JsonNum {
    match n {
        JsonNumber::PosInt(u) => JsonNum::PosInt(u),
        JsonNumber::NegInt(i) => JsonNum::NegInt(i),
        JsonNumber::Float(s) => JsonNum::Float(s@),
    }
}

pub open spec fn items_view(items: Seq<Json>) -> Seq<JsonValue>
    decreases items, 0int,
{
    if items.len() == 0 {
        Seq::empty()
    } else {
        seq![json_view(items[0])] + items_view(items.drop_first())
    }
}

pub open spec fn fields_view(fields: Seq<(String, Json)>) -> Seq<(Seq<char>, JsonValue)>
    decreases fields, 0int,
{
    if fields.len() == 0 {
        Seq::empty()
    } else {
        seq![(fields[0].0@, json_view(fields[0].1))] + fields_view(fields.drop_first())
    }
}

pub open spec fn json_view(j: Json) -> JsonValue
    decreases j, 1int,
{
    match j {
        Json::Null => JsonValue::Null,
        Json::Bool(b) => JsonValue::Bool(b),
        Json::Number(n) => JsonValue::Number(number_view(n)),
        Json::Str(s) => JsonValue::Str(s@),
        Json::Array(items) => JsonValue::Array(items_view(items@)),
        Json::Object(fields) => JsonValue::Object(fields_view(fields@)),
    }
}

impl View for Json {
    type V = JsonValue;

    open spec fn view(&self) -> JsonValue {
        json_view(*self)
    }
}


/// The value of the first field named `key`, if any.
pub open spec fn field_lookup(fields: Seq<(Seq<char>, JsonValue)>, key: Seq<char>) -> Option<JsonValue>
    decreases fields.len(),
{
    if fields.len() == 0 {
        None
    } else if fields[0].0 == key {
        Some(fields[0].1)
    } else {
        field_lookup(fields.drop_first(), key)
    }
}

impl JsonValue {
    /// What `Value::get` with a string key gives: the field of an object, nothing otherwise.
    pub open spec fn get(self, key: Seq<char>) -> Option<JsonValue> {
        match self {
            JsonValue::Object(fields) => field_lookup(fields, key),
            _ => None,
        }
    }

    pub open spec fn as_str(self) -> Option<Seq<char>> {
        match self {
            JsonValue::Str(s) => Some(s),
            _ => None,
        }
    }

    pub open spec fn as_u64(self) -> Option<u64> {
        match self {
            JsonValue::Number(JsonNum::PosInt(u)) => Some(u),
            _ => None,
        }
    }

    pub open spec fn as_bool(self) -> Option<bool> {
        match self {
            JsonValue::Bool(b) => Some(b),
            _ => None,
        }
    }

    pub open spec fn as_array(self) -> Option<Seq<JsonValue>> {
        match self {
            JsonValue::Array(items) => Some(items),
            _ => None,
        }
    }

    /// A string field of an object.
    pub open spec fn get_str(self, key: Seq<char>) -> Option<Seq<char>> {
        match self.get(key) {
            Some(v) => v.as_str(),
            None => None,
        }
    }
}

pub proof fn lemma_items_view(s: Seq<Json>)
    ensures
        items_view(s).len() == s.len(),
        forall|k: int| 0 <= k < s.len() ==> #[trigger] items_view(s)[k] == json_view(s[k]),
    decreases s.len(),
{
    if s.len() > 0 {
        lemma_items_view(s.drop_first());
        assert forall|k: int| 0 <= k < s.len() implies #[trigger] items_view(s)[k] == json_view(s[k]) by {
            if k > 0 {
                assert(s.drop_first()[k - 1] == s[k]);
            }
        }
    }
}

pub proof fn lemma_fields_view(s: Seq<(String, Json)>)
    ensures
        fields_view(s).len() == s.len(),
        forall|k: int|
            0 <= k < s.len() ==> #[trigger] fields_view(s)[k] == (s[k].0@, json_view(s[k].1)),
    decreases s.len(),
{
    if s.len() > 0 {
        lemma_fields_view(s.drop_first());
        assert forall|k: int| 0 <= k < s.len() implies #[trigger] fields_view(s)[k] == (
        s[k].0@, json_view(s[k].1)) by {
            if k > 0 {
                assert(s.drop_first()[k - 1] == s[k]);
            }
        }
    }
}

/// The lookup finds the first field with the key.
pub proof fn lemma_field_lookup_first(fields: Seq<(Seq<char>, JsonValue)>, key: Seq<char>, i: int)
    requires
        0 <= i <= fields.len(),
        forall|j: int| 0 <= j < i ==> (#[trigger] fields[j]).0 != key,
    ensures
        i < fields.len() && fields[i].0 == key ==> field_lookup(fields, key) == Some(fields[i].1),
        i == fields.len() ==> field_lookup(fields, key) is None,
    decreases i,
{
    if i > 0 {
        assert(fields[0].0 != key);
        let rest = fields.drop_first();
        assert forall|j: int| 0 <= j < i - 1 implies (#[trigger] rest[j]).0 != key by {
            assert(rest[j] == fields[j + 1]);
        }
        lemma_field_lookup_first(rest, key, i - 1);
        if i < fields.len() {
            assert(rest[i - 1] == fields[i]);
        }
    }
}

/// Appends a field to the fields of an object under construction.
pub fn push_field(fields: &mut Vec<(String, Json)>, key: &str, value: Json)
    ensures
        fields_view(final(fields)@) == fields_view(old(fields)@).push((key@, value@)),
{
    let k = crate::text::str_to_string(key);
    fields.push((k, value));
    proof {
        lemma_fields_view(old(fields)@);
        lemma_fields_view(final(fields)@);
        assert(fields_view(final(fields)@) =~= fields_view(old(fields)@).push((key@, value@)));
    }
}

/// Appends an item to an array under construction.
pub fn push_item(items: &mut Vec<Json>, value: Json)
    ensures
        items_view(final(items)@) == items_view(old(items)@).push(value@),
{
    items.push(value);
    proof {
        lemma_items_view(old(items)@);
        lemma_items_view(final(items)@);
        assert(items_view(final(items)@) =~= items_view(old(items)@).push(value@));
    }
}

impl Json {
    /// A JSON string.
    pub fn text(s: &str) -> (j: Json)
        ensures
            j@ == JsonValue::Str(s@),
    {
        Json::Str(crate::text::str_to_string(s))
    }

    /// A JSON non-negative integer.
    pub fn uint(n: u64) -> (j: Json)
        ensures
            j@ == JsonValue::Number(JsonNum::PosInt(n)),
    {
        Json::Number(JsonNumber::PosInt(n))
    }

    /// `Value::get` with a string key.
    pub fn get(&self, key: &str) -> (r: Option<&Json>)
        ensures
            match r {
                Some(v) => self@.get(key@) == Some(v@),
                None => self@.get(key@) is None,
            },
    {
        match self {
            Json::Object(fields) => {
                let k = crate::text::str_to_string(key);
                let ghost fv = fields_view(fields@);
                proof {
                    lemma_fields_view(fields@);
                }
                assert(self@ == JsonValue::Object(fv));
                let mut i: usize = 0;
                while i < fields.len()
                    invariant
                        0 <= i <= fields.len(),
                        k@ == key@,
                        fv == fields_view(fields@),
                        self@ == JsonValue::Object(fv),
                        fv.len() == fields@.len(),
                        forall|m: int|
                            0 <= m < fields@.len() ==> #[trigger] fv[m] == (
                            fields@[m].0@, json_view(fields@[m].1)),
                        forall|j: int| 0 <= j < i ==> (#[trigger] fv[j]).0 != key@,
                    decreases fields.len() - i,
                {
                    if fields[i].0 == k {
                        proof {
                            lemma_field_lookup_first(fv, key@, i as int);
                            assert(self@ == JsonValue::Object(fv));
                            assert(fv[i as int].1 == json_view(fields@[i as int].1));
                        }
                        return Some(&fields[i].1);
                    }
                    i = i + 1;
                }
                proof {
                    lemma_field_lookup_first(fv, key@, i as int);
                    assert(self@ == JsonValue::Object(fv));
                }
                None
            },
            _ => None,
        }
    }

    /// `Value::as_str`.
    pub fn as_str(&self) -> (r: Option<&String>)
        ensures
            match r {
                Some(s) => self@.as_str() == Some(s@),
                None => self@.as_str() is None,
            },
    {
        match self {
            Json::Str(s) => Some(s),
            _ => None,
        }
    }

    /// `Value::as_u64`.
    pub fn as_u64(&self) -> (r: Option<u64>)
        ensures
            r == self@.as_u64(),
    {
        match self {
            Json::Number(JsonNumber::PosInt(u)) => Some(*u),
            _ => None,
        }
    }

    /// `Value::as_bool`.
    pub fn as_bool(&self) -> (r: Option<bool>)
        ensures
            r == self@.as_bool(),
    {
        match self {
            Json::Bool(b) => Some(*b),
            _ => None,
        }
    }

    /// `Value::as_array`.
    pub fn as_array(&self) -> (r: Option<&Vec<Json>>)
        ensures
            match r {
                Some(items) => self@.as_array() == Some(items_view(items@)),
                None => self@.as_array() is None,
            },
    {
        match self {
            Json::Array(items) => Some(items),
            _ => None,
        }
    }
}

} // verus!
