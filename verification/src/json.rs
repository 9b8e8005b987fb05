use vstd::prelude::*;

use crate::text::{owned, str_equal};

verus! {

/// A JSON number as the wire decoder classifies it: a non-negative integer,
/// a negative integer, or any other finite number kept in its textual form.
#[derive(Debug, Clone, PartialEq)]
pub enum JsonNumber {
    PosInt(u64),
    NegInt(i64),
    Float(String),
}

/// A JSON document tree. Object members keep the order they were given in.
#[derive(Debug, PartialEq)]
pub enum JsonValue {
    Null,
    Bool(bool),
    Number(JsonNumber),
    String(String),
    Array(Vec<JsonValue>),
    Object(Vec<(String, JsonValue)>),
}

/// Mathematical model of [`JsonNumber`].
pub enum SpecJsonNumber {
    PosInt(u64),
    NegInt(i64),
    Float(Seq<char>),
}

/// Mathematical model of [`JsonValue`].
pub enum SpecJson {
    Null,
    Bool(bool),
    Number(SpecJsonNumber),
    Str(Seq<char>),
    Array(Seq<SpecJson>),
    Object(Seq<(Seq<char>, SpecJson)>),
}

impl View for JsonNumber {
    type V = SpecJsonNumber;

    open spec fn view(&self) -> SpecJsonNumber {
        match self {
            JsonNumber::PosInt(n) => SpecJsonNumber::PosInt(*n),
            JsonNumber::NegInt(n) => SpecJsonNumber::NegInt(*n),
            JsonNumber::Float(t) => SpecJsonNumber::Float(t@),
        }
    }
}

impl JsonValue {
    pub open spec fn spec_view(&self) -> SpecJson
        decreases self,
    {
        match self {
            JsonValue::Null => SpecJson::Null,
            JsonValue::Bool(b) => SpecJson::Bool(*b),
            JsonValue::Number(n) => SpecJson::Number(n@),
            JsonValue::String(s) => SpecJson::Str(s@),
            JsonValue::Array(items) => SpecJson::Array(
                Seq::new(
                    items.len() as nat,
                    |i: int|
                        if 0 <= i < items.len() {
                            items@[i].spec_view()
                        } else {
                            SpecJson::Null
                        },
                ),
            ),
            JsonValue::Object(entries) => SpecJson::Object(
                Seq::new(
                    entries.len() as nat,
                    |i: int|
                        if 0 <= i < entries.len() {
                            (entries@[i].0@, entries@[i].1.spec_view())
                        } else {
                            (Seq::empty(), SpecJson::Null)
                        },
                ),
            ),
        }
    }
}

impl View for JsonValue {
    type V = SpecJson;

    open spec fn view(&self) -> SpecJson {
        self.spec_view()
    }
}

/// First member of `entries`, from index `i` on, whose key is `key`.
pub open spec fn obj_lookup(entries: Seq<(Seq<char>, SpecJson)>, key: Seq<char>, i: int) -> Option<
    SpecJson,
>
    decreases entries.len() - i,
{
    if i < 0 || i >= entries.len() {
        None
    } else if entries[i].0 == key {
        Some(entries[i].1)
    } else {
        obj_lookup(entries, key, i + 1)
    }
}

/// Looking up from index `a.len() + j` of `a + b` is looking up from `j` in `b`.
proof fn lemma_obj_lookup_shift(
    a: Seq<(Seq<char>, SpecJson)>,
    b: Seq<(Seq<char>, SpecJson)>,
    key: Seq<char>,
    j: int,
)
    requires
        0 <= j,
    ensures
        obj_lookup(a + b, key, a.len() + j) == obj_lookup(b, key, j),
    decreases b.len() - j,
{
    if j < b.len() {
        assert((a + b)[a.len() + j] == b[j]);
        lemma_obj_lookup_shift(a, b, key, j + 1);
    }
}

/// Looking up from index `i` of `a + b` finds the member in `a` if it is
/// there, else in `b`.
proof fn lemma_obj_lookup_concat_from(
    a: Seq<(Seq<char>, SpecJson)>,
    b: Seq<(Seq<char>, SpecJson)>,
    key: Seq<char>,
    i: int,
)
    requires
        0 <= i <= a.len(),
    ensures
        obj_lookup(a + b, key, i) == match obj_lookup(a, key, i) {
            Some(v) => Some(v),
            None => obj_lookup(b, key, 0),
        },
    decreases a.len() - i,
{
    if i == a.len() {
        lemma_obj_lookup_shift(a, b, key, 0);
    } else {
        assert((a + b)[i] == a[i]);
        lemma_obj_lookup_concat_from(a, b, key, i + 1);
    }
}

/// The first member of `a + b` with a key is the first such member of `a`,
/// or, when `a` has none, of `b`.
pub proof fn lemma_obj_lookup_concat(a: Seq<(Seq<char>, SpecJson)>, b: Seq<(Seq<char>, SpecJson)>)
    ensures
        forall|key: Seq<char>|
            #[trigger] obj_lookup(a + b, key, 0) == match obj_lookup(a, key, 0) {
                Some(v) => Some(v),
                None => obj_lookup(b, key, 0),
            },
{
    assert forall|key: Seq<char>|
        #[trigger] obj_lookup(a + b, key, 0) == match obj_lookup(a, key, 0) {
            Some(v) => Some(v),
            None => obj_lookup(b, key, 0),
        } by {
        lemma_obj_lookup_concat_from(a, b, key, 0);
    }
}

/// A single member is found under its own key only.
pub proof fn lemma_obj_lookup_single(k: Seq<char>, v: SpecJson)
    ensures
        forall|key: Seq<char>|
            #[trigger] obj_lookup(seq![(k, v)], key, 0) == if k == key {
                Some(v)
            } else {
                None
            },
{
    assert forall|key: Seq<char>|
        #[trigger] obj_lookup(seq![(k, v)], key, 0) == if k == key {
            Some(v)
        } else {
            None
        } by {
        assert(obj_lookup(seq![(k, v)], key, 1) is None);
    }
}

impl SpecJson {
    /// Member lookup; `None` for non-objects and missing keys.
    pub open spec fn get(self, key: Seq<char>) -> Option<SpecJson> {
        match self {
            SpecJson::Object(entries) => obj_lookup(entries, key, 0),
            _ => None,
        }
    }

    pub open spec fn as_str(self) -> Option<Seq<char>> {
        match self {
            SpecJson::Str(s) => Some(s),
            _ => None,
        }
    }

    pub open spec fn as_u64(self) -> Option<u64> {
        match self {
            SpecJson::Number(SpecJsonNumber::PosInt(n)) => Some(n),
            _ => None,
        }
    }

    pub open spec fn as_array(self) -> Option<Seq<SpecJson>> {
        match self {
            SpecJson::Array(items) => Some(items),
            _ => None,
        }
    }

    pub open spec fn is_object(self) -> bool {
        self is Object
    }

    /// The string member `key`, if present and a string.
    pub open spec fn str_at(self, key: Seq<char>) -> Option<Seq<char>> {
        match self.get(key) {
            Some(v) => v.as_str(),
            None => None,
        }
    }

    /// The unsigned member `key`, if present and representable as `u64`.
    pub open spec fn u64_at(self, key: Seq<char>) -> Option<u64> {
        match self.get(key) {
            Some(v) => v.as_u64(),
            None => None,
        }
    }

    /// The member `key`, if present and an unsigned integer that fits in `u32`.
    pub open spec fn u32_at(self, key: Seq<char>) -> Option<u32> {
        match self.u64_at(key) {
            Some(n) => if n <= u32::MAX {
                Some(n as u32)
            } else {
                None
            },
            None => None,
        }
    }
}

/// The view of an optional borrowed value.
pub open spec fn opt_view(r: Option<&JsonValue>) -> Option<SpecJson> {
    match r {
        Some(v) => Some(v@),
        None => None,
    }
}

/// The view of an optional borrowed string.
pub open spec fn opt_str_view(r: Option<&str>) -> Option<Seq<char>> {
    match r {
        Some(s) => Some(s@),
        None => None,
    }
}

impl JsonValue {
    /// Member `key` of an object (`Value::get`).
    pub fn get<'a>(&'a self, key: &str) -> (r: Option<&'a JsonValue>)
        ensures
            opt_view(r) == self@.get(key@),
    {
        match self {
            JsonValue::Object(entries) => {
                let n = entries.len();
                let ghost es = self@->Object_0;
                assert(es.len() == n);
                let mut i: usize = 0;
                while i < n
                    invariant
                        n == entries.len(),
                        es.len() == n,
                        self@ == SpecJson::Object(es),
                        forall|k: int|
                            0 <= k < n ==> #[trigger] es[k] == (entries@[k].0@, entries@[k].1@),
                        i <= n,
                        obj_lookup(es, key@, i as int) == obj_lookup(es, key@, 0),
                    decreases n - i,
                {
                    if str_equal(entries[i].0.as_str(), key) {
                        return Some(&entries[i].1);
                    }
                    i = i + 1;
                }
                None
            },
            _ => None,
        }
    }

    /// The text of a string value (`Value::as_str`).
    pub fn as_str(&self) -> (r: Option<&str>)
        ensures
            opt_str_view(r) == self@.as_str(),
    {
        match self {
            JsonValue::String(s) => Some(s.as_str()),
            _ => None,
        }
    }

    /// An unsigned integer value (`Value::as_u64`).
    pub fn as_u64(&self) -> (r: Option<u64>)
        ensures
            r == self@.as_u64(),
    {
        match self {
            JsonValue::Number(JsonNumber::PosInt(n)) => Some(*n),
            _ => None,
        }
    }

    /// The items of an array value (`Value::as_array`).
    pub fn as_array(&self) -> (r: Option<&Vec<JsonValue>>)
        ensures
            match r {
                Some(items) => self@.as_array() == Some(
                    Seq::new(items.len() as nat, |i: int| items@[i]@),
                ),
                None => self@.as_array() is None,
            },
    {
        match self {
            JsonValue::Array(items) => {
                assert(self@->Array_0 =~= Seq::new(items.len() as nat, |i: int| items@[i]@));
                Some(items)
            },
            _ => None,
        }
    }

    /// Whether the value is an object (`Value::is_object`).
    pub fn is_object(&self) -> (r: bool)
        ensures
            r == self@.is_object(),
    {
        match self {
            JsonValue::Object(_) => true,
            _ => false,
        }
    }
}

impl JsonNumber {
    /// A copy with the same view.
    pub fn copy(&self) -> (r: JsonNumber)
        ensures
            r@ == self@,
    {
        match self {
            JsonNumber::PosInt(n) => JsonNumber::PosInt(*n),
            JsonNumber::NegInt(n) => JsonNumber::NegInt(*n),
            JsonNumber::Float(t) => JsonNumber::Float(t.clone()),
        }
    }
}

impl JsonValue {
    /// A deep copy with the same view.
    #[verifier::loop_isolation(false)]
    pub fn copy(&self) -> (r: JsonValue)
        ensures
            r@ == self@,
        decreases self,
    {
        match self {
            JsonValue::Null => JsonValue::Null,
            JsonValue::Bool(b) => JsonValue::Bool(*b),
            JsonValue::Number(n) => JsonValue::Number(n.copy()),
            JsonValue::String(s) => JsonValue::String(s.clone()),
            JsonValue::Array(items) => {
                let mut out: Vec<JsonValue> = Vec::new();
                let mut i: usize = 0;
                while i < items.len()
                    invariant
                        i <= items.len(),
                        out.len() == i,
                        forall|k: int| 0 <= k < i ==> (#[trigger] out@[k])@ == items@[k]@,
                    decreases items.len() - i,
                {
                    proof {
                        assert(decreases_to!(*self => self->Array_0));
                        assert(decreases_to!(*items => items@));
                        assert(decreases_to!(items@ => items@[i as int]));
                        assert(decreases_to!(*self => items@[i as int]));
                    }
                    out.push(items[i].copy());
                    i = i + 1;
                }
                let r = JsonValue::Array(out);
                assert(r@->Array_0 =~= self@->Array_0);
                r
            },
            JsonValue::Object(entries) => {
                let mut out: Vec<(String, JsonValue)> = Vec::new();
                let mut i: usize = 0;
                while i < entries.len()
                    invariant
                        i <= entries.len(),
                        out.len() == i,
                        forall|k: int|
                            0 <= k < i ==> (#[trigger] out@[k]).0@ == entries@[k].0@ && out@[k].1@
                                == entries@[k].1@,
                    decreases entries.len() - i,
                {
                    proof {
                        assert(decreases_to!(*self => self->Object_0));
                        assert(decreases_to!(*entries => entries@));
                        assert(decreases_to!(entries@ => entries@[i as int]));
                        assert(decreases_to!(entries@[i as int] => entries@[i as int].1));
                        assert(decreases_to!(*self => entries@[i as int].1));
                    }
                    let value = entries[i].1.copy();
                    out.push((entries[i].0.clone(), value));
                    i = i + 1;
                }
                let r = JsonValue::Object(out);
                assert(r@->Object_0 =~= self@->Object_0);
                r
            },
        }
    }
}

#[verifier::external_type_specification]
#[verifier::external_body]
pub struct ExSerdeJsonValue(serde_json::Value);

/// Moves a decoded `serde_json::Value` tree into [`JsonValue`], variant by variant.
/// Numbers keep serde_json's own split into unsigned, negative and other numbers,
/// the last in the text that `serde_json::Number`'s `Display` writes.
#[verifier::external_body]
fn from_serde_value(value: serde_json::Value) -> JsonValue {
    match value {
        serde_json::Value::Null => JsonValue::Null,
        serde_json::Value::Bool(b) => JsonValue::Bool(b),
        serde_json::Value::Number(n) => JsonValue::Number(match (n.as_u64(), n.as_i64()) {
            (Some(u), _) => JsonNumber::PosInt(u),
            (None, Some(i)) => JsonNumber::NegInt(i),
            (None, None) => JsonNumber::Float(n.to_string()),
        }),
        serde_json::Value::String(s) => JsonValue::String(s),
        serde_json::Value::Array(a) => JsonValue::Array(a.into_iter().map(from_serde_value).collect()),
        serde_json::Value::Object(m) => JsonValue::Object(m.into_iter().map(|(k, v)| (k, from_serde_value(v))).collect()),
    }
}

/// Moves a [`JsonValue`] tree into a `serde_json::Value`, variant by variant;
/// a number text is read back with `serde_json::from_str`.
#[verifier::external_body]
fn to_serde_value(value: &JsonValue) -> serde_json::Value {
    match value {
        JsonValue::Null => serde_json::Value::Null,
        JsonValue::Bool(b) => serde_json::Value::Bool(*b),
        JsonValue::Number(JsonNumber::PosInt(n)) => serde_json::Value::from(*n),
        JsonValue::Number(JsonNumber::NegInt(n)) => serde_json::Value::from(*n),
        JsonValue::Number(JsonNumber::Float(t)) => serde_json::from_str(t).unwrap_or(serde_json::Value::Null),
        JsonValue::String(s) => serde_json::Value::String(s.clone()),
        JsonValue::Array(a) => serde_json::Value::Array(a.iter().map(to_serde_value).collect()),
        JsonValue::Object(m) => serde_json::Value::Object(m.iter().map(|(k, v)| (k.clone(), to_serde_value(v))).collect()),
    }
}

/// What `serde_json::from_str::<serde_json::Value>` makes of a text: the decoded
/// document, or the text that its error's `Display` writes.
pub uninterp spec fn spec_parse_json(text: Seq<char>) -> Result<SpecJson, Seq<char>>;

/// `serde_json::from_str::<serde_json::Value>`: the decoded document, or the
/// rendered error where serde_json rejects the text. The contract only names the result.
#[verifier::external_body]
pub(crate) fn parse_json_text(text: &str) -> (r: Result<JsonValue, String>)
    ensures
        match r {
            Ok(v) => spec_parse_json(text@) == Ok::<SpecJson, Seq<char>>(v@),
            Err(e) => spec_parse_json(text@) == Err::<SpecJson, Seq<char>>(e@),
        },
{
    match serde_json::from_str::<serde_json::Value>(text) {
        Ok(v) => Ok(from_serde_value(v)),
        Err(e) => Err(e.to_string()),
    }
}

/// The compact text that `serde_json::to_string` writes for a document, or
/// `None` where it reports an error.
pub uninterp spec fn spec_json_text(value: SpecJson) -> Option<Seq<char>>;

/// `serde_json::to_string` on the document. The contract only names the result.
#[verifier::external_body]
pub(crate) fn json_to_text(value: &JsonValue) -> (r: Option<String>)
    ensures
        match r {
            Some(t) => spec_json_text(value@) == Some(t@),
            None => spec_json_text(value@) is None,
        },
{
    serde_json::to_string(&to_serde_value(value)).ok()
}

/// An object with the given members, in the given order.
pub fn object_of(entries: Vec<(String, JsonValue)>) -> (r: JsonValue)
    ensures
        r@ == SpecJson::Object(entries@.map_values(|e: (String, JsonValue)| (e.0@, e.1@))),
{
    let ghost ev = entries@.map_values(|e: (String, JsonValue)| (e.0@, e.1@));
    let r = JsonValue::Object(entries);
    assert(r@->Object_0 =~= ev);
    r
}

/// An array of the given items.
pub fn array_of(items: Vec<JsonValue>) -> (r: JsonValue)
    ensures
        r@ == SpecJson::Array(items@.map_values(|x: JsonValue| x@)),
{
    let ghost iv = items@.map_values(|x: JsonValue| x@);
    let r = JsonValue::Array(items);
    assert(r@->Array_0 =~= iv);
    r
}

/// A string value.
pub fn string_of(s: &str) -> (r: JsonValue)
    ensures
        r@ == SpecJson::Str(s@),
{
    JsonValue::String(owned(s))
}

/// The string member `key` of `value`.
pub fn json_str<'a>(value: &'a JsonValue, key: &str) -> (r: Option<&'a str>)
    ensures
        opt_str_view(r) == value@.str_at(key@),
{
    match value.get(key) {
        Some(v) => v.as_str(),
        None => None,
    }
}

/// The member `key` of `value` when it is an unsigned integer that fits in `u32`.
pub fn json_u32(value: &JsonValue, key: &str) -> (r: Option<u32>)
    ensures
        r == value@.u32_at(key@),
{
    match value.get(key) {
        Some(v) => match v.as_u64() {
            Some(n) => if n <= 0xffff_ffffu64 {
                Some(n as u32)
            } else {
                None
            },
            None => None,
        },
        None => None,
    }
}

/// The unsigned integer member `key` of `value`.
pub fn json_u64(value: &JsonValue, key: &str) -> (r: Option<u64>)
    ensures
        r == value@.u64_at(key@),
{
    match value.get(key) {
        Some(v) => v.as_u64(),
        None => None,
    }
}

} // verus!
