use vstd::prelude::*;

verus! {

broadcast use vstd::std_specs::vec::group_vec_axioms;

/// A JSON number, kept as plain values: an integer that fits in `u64`, a
/// negative integer that fits in `i64`, or any other number as its decimal text.
#[derive(Debug)]
pub enum JsonNumber {
    Unsigned(u64),
    Signed(i64),
    Decimal(String),
}

/// A JSON document. Object members keep their order; lookups take the first
/// member with the key.
#[derive(Debug)]
pub enum Json {
    Null,
    Bool(bool),
    Number(JsonNumber),
    Str(String),
    Array(Vec<Json>),
    Object(Vec<(String, Json)>),
}

/// The mathematical value of a `JsonNumber`.
pub enum NumberValue {
    Unsigned(u64),
    Signed(i64),
    Decimal(Seq<char>),
}

/// The mathematical value of a `Json` document.
pub enum JsonValue {
    Null,
    Bool(bool),
    Number(NumberValue),
    Str(Seq<char>),
    Array(Seq<JsonValue>),
    Object(Seq<(Seq<char>, JsonValue)>),
}

pub open spec fn number_value(n: JsonNumber) -> NumberValue {
    match n {
        JsonNumber::Unsigned(u) => NumberValue::Unsigned(u),
        JsonNumber::Signed(i) => NumberValue::Signed(i),
        JsonNumber::Decimal(s) => NumberValue::Decimal(s@),
    }
}

pub open spec fn value_of(j: Json) -> JsonValue
    decreases j,
{
    match j {
        Json::Null => JsonValue::Null,
        Json::Bool(b) => JsonValue::Bool(b),
        Json::Number(n) => JsonValue::Number(number_value(n)),
        Json::Str(s) => JsonValue::Str(s@),
        Json::Array(items) => JsonValue::Array(
            Seq::new(
                items.len() as nat,
                |i: int|
                    if 0 <= i < items.len() {
                        value_of(items[i])
                    } else {
                        JsonValue::Null
                    },
            ),
        ),
        Json::Object(ms) => JsonValue::Object(
            Seq::new(
                ms.len() as nat,
                |i: int|
                    if 0 <= i < ms.len() {
                        (ms[i].0@, value_of(ms[i].1))
                    } else {
                        (Seq::empty(), JsonValue::Null)
                    },
            ),
        ),
    }
}

proof fn lemma_array_value(items: Vec<Json>)
    ensures
        value_of(Json::Array(items)) is Array,
        value_of(Json::Array(items))->Array_0.len() == items@.len(),
        forall|i: int|
            0 <= i < items@.len() ==> #[trigger] value_of(Json::Array(items))->Array_0[i]
                == value_of(items@[i]),
{
}

proof fn lemma_object_value(ms: Vec<(String, Json)>)
    ensures
        value_of(Json::Object(ms)) is Object,
        value_of(Json::Object(ms))->Object_0.len() == ms@.len(),
        forall|i: int|
            0 <= i < ms@.len() ==> #[trigger] value_of(Json::Object(ms))->Object_0[i] == (
                ms@[i].0@,
                value_of(ms@[i].1),
            ),
{
}

impl View for JsonNumber {
    type V = NumberValue;

    open spec fn view(&self) -> NumberValue {
        number_value(*self)
    }
}

impl View for Json {
    type V = JsonValue;

    open spec fn view(&self) -> JsonValue {
        value_of(*self)
    }
}

/// The value of the first member of `members` whose key is `key`.
pub open spec fn member_of(members: Seq<(Seq<char>, JsonValue)>, key: Seq<char>) -> Option<
    JsonValue,
>
    decreases members.len(),
{
    if members.len() == 0 {
        None
    } else if members[0].0 == key {
        Some(members[0].1)
    } else {
        member_of(members.drop_first(), key)
    }
}

/// The value of field `key` of `j`, if `j` is an object that has it.
pub open spec fn field(j: JsonValue, key: Seq<char>) -> Option<JsonValue> {
    match j {
        JsonValue::Object(members) => member_of(members, key),
        _ => None,
    }
}

/// The text of `j`, if it is present and a string.
pub open spec fn str_of(j: Option<JsonValue>) -> Option<Seq<char>> {
    match j {
        Some(JsonValue::Str(s)) => Some(s),
        _ => None,
    }
}

/// The items of `j`, if it is present and an array.
pub open spec fn items_of(j: Option<JsonValue>) -> Option<Seq<JsonValue>> {
    match j {
        Some(JsonValue::Array(items)) => Some(items),
        _ => None,
    }
}

/// Text equality of two strings, character by character.
pub fn str_eq(a: &str, b: &str) -> (r: bool)
    ensures
        r == (a@ == b@),
{
    let n = a.unicode_len();
    if n != b.unicode_len() {
        return false;
    }
    let mut i: usize = 0;
    while i < n
        invariant
            n == a@.len(),
            n == b@.len(),
            0 <= i <= n,
            a@.subrange(0, i as int) == b@.subrange(0, i as int),
        decreases n - i,
    {
        if a.get_char(i) != b.get_char(i) {
            return false;
        }
        assert(a@.subrange(0, i + 1) == a@.subrange(0, i as int).push(a@[i as int]));
        assert(b@.subrange(0, i + 1) == b@.subrange(0, i as int).push(b@[i as int]));
        i = i + 1;
    }
    assert(a@ == a@.subrange(0, n as int));
    assert(b@ == b@.subrange(0, n as int));
    true
}

/// A `String` holding the text of `s`.
pub fn owned(s: &str) -> (r: String)
    ensures
        r@ == s@,
{
    s.to_string()
}

impl JsonNumber {
    /// A copy with the same value.
    pub fn copy(&self) -> (r: JsonNumber)
        ensures
            r@ == self@,
    {
        match self {
            JsonNumber::Unsigned(n) => JsonNumber::Unsigned(*n),
            JsonNumber::Signed(n) => JsonNumber::Signed(*n),
            JsonNumber::Decimal(s) => JsonNumber::Decimal(s.clone()),
        }
    }
}

impl Json {
    /// A string value.
    pub fn string(s: &str) -> (r: Json)
        ensures
            r@ == JsonValue::Str(s@),
    {
        Json::Str(owned(s))
    }

    /// An unsigned integer value.
    pub fn unsigned(n: u64) -> (r: Json)
        ensures
            r@ == JsonValue::Number(NumberValue::Unsigned(n)),
    {
        Json::Number(JsonNumber::Unsigned(n))
    }

    /// A signed integer value.
    pub fn signed(n: i64) -> (r: Json)
        ensures
            r@ == JsonValue::Number(NumberValue::Signed(n)),
    {
        Json::Number(JsonNumber::Signed(n))
    }

    /// An empty object.
    pub fn empty_object() -> (r: Json)
        ensures
            r@ == JsonValue::Object(Seq::empty()),
    {
        let members: Vec<(String, Json)> = Vec::new();
        let r = Json::Object(members);
        assert(r@->Object_0 =~= Seq::empty());
        r
    }

    /// `self` with one more member at the end, if `self` is an object;
    /// otherwise `self` unchanged.
    pub fn with_member(self, key: &str, value: Json) -> (r: Json)
        ensures
            match self@ {
                JsonValue::Object(ms) => r@ == JsonValue::Object(ms.push((key@, value@))),
                _ => r@ == self@,
            },
    {
        match self {
            Json::Object(members) => {
                let ghost before = members;
                let mut members = members;
                members.push((owned(key), value));
                let r = Json::Object(members);
                assert(r@->Object_0 =~= value_of(Json::Object(before))->Object_0.push(
                    (key@, value@),
                ));
                r
            },
            other => other,
        }
    }

    /// A deep copy with the same value.
    pub fn copy(&self) -> (r: Json)
        ensures
            r@ == self@,
        decreases self@,
    {
        match self {
            Json::Null => Json::Null,
            Json::Bool(b) => Json::Bool(*b),
            Json::Number(n) => Json::Number(n.copy()),
            Json::Str(s) => Json::Str(s.clone()),
            Json::Array(items) => {
                proof {
                    lemma_array_value(*items);
                }
                let mut out: Vec<Json> = Vec::new();
                let mut i: usize = 0;
                while i < items.len()
                    invariant
                        0 <= i <= items@.len(),
                        self@ is Array,
                        self@->Array_0.len() == items@.len(),
                        forall|k: int|
                            0 <= k < items@.len() ==> #[trigger] self@->Array_0[k] == items@[k]@,
                        out@.len() == i,
                        forall|k: int| 0 <= k < i ==> (#[trigger] out@[k])@ == items@[k]@,
                    decreases items@.len() - i,
                {
                    assert(items@[i as int]@ == self@->Array_0[i as int]);
                    out.push(items[i].copy());
                    i = i + 1;
                }
                let r = Json::Array(out);
                assert(r@->Array_0 =~= self@->Array_0);
                r
            },
            Json::Object(members) => {
                proof {
                    lemma_object_value(*members);
                }
                let mut out: Vec<(String, Json)> = Vec::new();
                let mut i: usize = 0;
                while i < members.len()
                    invariant
                        0 <= i <= members@.len(),
                        self@ is Object,
                        self@->Object_0.len() == members@.len(),
                        forall|k: int|
                            0 <= k < members@.len() ==> #[trigger] self@->Object_0[k] == (
                                members@[k].0@,
                                members@[k].1@,
                            ),
                        out@.len() == i,
                        forall|k: int|
                            0 <= k < i ==> (#[trigger] out@[k]).0@ == members@[k].0@ && out@[k].1@
                                == members@[k].1@,
                    decreases members@.len() - i,
                {
                    let key = members[i].0.clone();
                    assert(members@[i as int].1@ == self@->Object_0[i as int].1);
                    let value = members[i].1.copy();
                    out.push((key, value));
                    i = i + 1;
                }
                let r = Json::Object(out);
                assert(r@->Object_0 =~= self@->Object_0);
                r
            },
        }
    }

    /// The value of field `key`, if `self` is an object that has it.
    pub fn get(&self, key: &str) -> (r: Option<&Json>)
        ensures
            match r {
                Some(v) => field(self@, key@) == Some(v@),
                None => field(self@, key@) is None,
            },
    {
        match self {
            Json::Object(members) => {
                proof {
                    lemma_object_value(*members);
                }
                let ghost ms = self@->Object_0;
                let mut i: usize = 0;
                assert(ms.subrange(0, ms.len() as int) == ms);
                while i < members.len()
                    invariant
                        self@ is Object,
                        ms == self@->Object_0,
                        ms.len() == members@.len(),
                        forall|k: int|
                            0 <= k < ms.len() ==> (#[trigger] ms[k]) == (
                                members@[k].0@,
                                members@[k].1@,
                            ),
                        0 <= i <= ms.len(),
                        member_of(ms, key@) == member_of(ms.subrange(i as int, ms.len() as int), key@),
                    decreases ms.len() - i,
                {
                    let ghost rest = ms.subrange(i as int, ms.len() as int);
                    assert(rest.drop_first() == ms.subrange(i + 1, ms.len() as int));
                    assert(rest[0] == ms[i as int]);
                    if str_eq(members[i].0.as_str(), key) {
                        assert(member_of(rest, key@) == Some(rest[0].1));
                        return Some(&members[i].1);
                    }
                    i = i + 1;
                }
                None
            },
            _ => None,
        }
    }

    /// The text of `self`, if it is a string.
    pub fn as_str(&self) -> (r: Option<&str>)
        ensures
            match r {
                Some(s) => str_of(Some(self@)) == Some(s@),
                None => str_of(Some(self@)) is None,
            },
    {
        match self {
            Json::Str(s) => Some(s.as_str()),
            _ => None,
        }
    }

    /// The items of `self`, if it is an array.
    pub fn as_array(&self) -> (r: Option<&Vec<Json>>)
        ensures
            match r {
                Some(v) => {
                    &&& items_of(Some(self@)) == Some(self@->Array_0)
                    &&& self@->Array_0.len() == v@.len()
                    &&& forall|k: int|
                        0 <= k < v@.len() ==> (#[trigger] v@[k])@ == self@->Array_0[k]
                },
                None => items_of(Some(self@)) is None,
            },
    {
        match self {
            Json::Array(items) => Some(items),
            _ => None,
        }
    }
}

} // verus!
