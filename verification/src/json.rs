//! The JSON value type the protocol logic reads and builds.
//!
//! `JsonValue` is the executable tree; `Json` is its mathematical model
//! (strings as `Seq<char>`). Objects keep their fields in order; lookups
//! answer with the first field of the given name.

use vstd::prelude::*;
use crate::text::str_eq;
use crate::tool::opt_view;

verus! {

/// A JSON number: a non-negative integer, a negative integer, or any other
/// number kept as its decimal text.
#[derive(Debug, Clone, PartialEq)]
pub enum JsonNumber {
    PosInt(u64),
    NegInt(i64),
    Float(String),
}

/// Model of a JSON number.
pub enum JsonNum {
    PosInt(u64),
    NegInt(i64),
    Float(Seq<char>),
}

/// An executable JSON value.
#[derive(Debug, PartialEq)]
pub enum JsonValue {
    Null,
    Bool(bool),
    Number(JsonNumber),
    String(String),
    Array(Vec<JsonValue>),
    Object(Vec<(String, JsonValue)>),
}

/// Model of a JSON value.
pub enum Json {
    Null,
    Bool(bool),
    Number(JsonNum),
    Str(Seq<char>),
    Array(Seq<Json>),
    Object(Seq<(Seq<char>, Json)>),
}

impl JsonNumber {
    pub open spec fn model(self) -> JsonNum {
        match self {
            JsonNumber::PosInt(n) => JsonNum::PosInt(n),
            JsonNumber::NegInt(n) => JsonNum::NegInt(n),
            JsonNumber::Float(s) => JsonNum::Float(s@),
        }
    }
}

impl JsonValue {
    /// The model of this value.
    pub open spec fn model(self) -> Json
        decreases self,
    {
        match self {
            JsonValue::Null => Json::Null,
            JsonValue::Bool(b) => Json::Bool(b),
            JsonValue::Number(n) => Json::Number(n.model()),
            JsonValue::String(s) => Json::Str(s@),
            JsonValue::Array(a) => Json::Array(models_of(a@)),
            JsonValue::Object(f) => Json::Object(field_models_of(f@)),
        }
    }
}

/// Models of a sequence of values.
pub open spec fn models_of(a: Seq<JsonValue>) -> Seq<Json>
    decreases a,
{
    if a.len() == 0 {
        Seq::empty()
    } else {
        seq![a[0].model()] + models_of(a.subrange(1, a.len() as int))
    }
}

/// Models of a sequence of object fields.
pub open spec fn field_models_of(f: Seq<(String, JsonValue)>) -> Seq<(Seq<char>, Json)>
    decreases f,
{
    if f.len() == 0 {
        Seq::empty()
    } else {
        seq![(f[0].0@, f[0].1.model())] + field_models_of(f.subrange(1, f.len() as int))
    }
}

impl View for JsonValue {
    type V = Json;

    open spec fn view(&self) -> Json {
        self.model()
    }
}


impl Json {
    /// Value of the first field named `key`, when this is an object.
    pub open spec fn get(self, key: Seq<char>) -> Option<Json> {
        match self {
            Json::Object(f) => fields_get(f, key),
            _ => None,
        }
    }

    /// Element `i` of an array.
    pub open spec fn at(self, i: int) -> Option<Json> {
        match self {
            Json::Array(a) => if 0 <= i < a.len() { Some(a[i]) } else { None },
            _ => None,
        }
    }

    pub open spec fn as_str(self) -> Option<Seq<char>> {
        match self {
            Json::Str(s) => Some(s),
            _ => None,
        }
    }

    pub open spec fn as_u64(self) -> Option<u64> {
        match self {
            Json::Number(JsonNum::PosInt(n)) => Some(n),
            _ => None,
        }
    }

    pub open spec fn as_bool(self) -> Option<bool> {
        match self {
            Json::Bool(b) => Some(b),
            _ => None,
        }
    }

    pub open spec fn as_array(self) -> Option<Seq<Json>> {
        match self {
            Json::Array(a) => Some(a),
            _ => None,
        }
    }

    pub open spec fn is_object(self) -> bool {
        self is Object
    }

    /// The object with `key` set to `v`: the first field of that name is
    /// replaced in place, or a new field is appended.
    pub open spec fn set(self, key: Seq<char>, v: Json) -> Json {
        match self {
            Json::Object(f) => Json::Object(fields_set(f, key, v)),
            _ => self,
        }
    }
}

/// First field named `key`.
pub open spec fn fields_get(f: Seq<(Seq<char>, Json)>, key: Seq<char>) -> Option<Json>
    decreases f.len(),
{
    if f.len() == 0 {
        None
    } else if f[0].0 == key {
        Some(f[0].1)
    } else {
        fields_get(f.drop_first(), key)
    }
}

/// Replace the first field named `key`, or append it.
pub open spec fn fields_set(f: Seq<(Seq<char>, Json)>, key: Seq<char>, v: Json) -> Seq<(Seq<char>, Json)>
    decreases f.len(),
{
    if f.len() == 0 {
        seq![(key, v)]
    } else if f[0].0 == key {
        f.update(0, (key, v))
    } else {
        seq![f[0]] + fields_set(f.drop_first(), key, v)
    }
}

/// Reading back a field just set gives the value set.
pub proof fn lemma_fields_get_set_same(f: Seq<(Seq<char>, Json)>, k: Seq<char>, v: Json)
    ensures
        fields_get(fields_set(f, k, v), k) == Some(v),
    decreases f.len(),
{
    if f.len() > 0 && f[0].0 != k {
        lemma_fields_get_set_same(f.drop_first(), k, v);
        assert((seq![f[0]] + fields_set(f.drop_first(), k, v)).drop_first() =~= fields_set(f.drop_first(), k, v));
    }
}

/// Setting one field leaves every other field as it was.
pub proof fn lemma_fields_get_set_other(f: Seq<(Seq<char>, Json)>, k: Seq<char>, v: Json, k2: Seq<char>)
    requires
        k2 != k,
    ensures
        fields_get(fields_set(f, k, v), k2) == fields_get(f, k2),
    decreases f.len(),
{
    let g = fields_set(f, k, v);
    if f.len() == 0 {
        assert(g == seq![(k, v)]);
        assert(g[0].0 != k2);
        assert(g.drop_first() =~= Seq::<(Seq<char>, Json)>::empty());
        assert(fields_get(g, k2) == fields_get(g.drop_first(), k2));
    } else if f[0].0 == k {
        assert(g == f.update(0, (k, v)));
        assert(g[0].0 != k2);
        assert(g.drop_first() =~= f.drop_first());
        assert(fields_get(g, k2) == fields_get(g.drop_first(), k2));
        assert(fields_get(f, k2) == fields_get(f.drop_first(), k2));
    } else {
        lemma_fields_get_set_other(f.drop_first(), k, v, k2);
        assert(g == seq![f[0]] + fields_set(f.drop_first(), k, v));
        assert(g[0] == f[0]);
        assert(g.drop_first() =~= fields_set(f.drop_first(), k, v));
    }
}

pub proof fn lemma_models_of_index(a: Seq<JsonValue>)
    ensures
        models_of(a).len() == a.len(),
        forall|i: int| 0 <= i < a.len() ==> #[trigger] models_of(a)[i] == a[i].model(),
    decreases a.len(),
{
    if a.len() > 0 {
        lemma_models_of_index(a.subrange(1, a.len() as int));
    }
}

pub proof fn lemma_field_models_of_index(f: Seq<(String, JsonValue)>)
    ensures
        field_models_of(f).len() == f.len(),
        forall|i: int| 0 <= i < f.len() ==> #[trigger] field_models_of(f)[i] == (f[i].0@, f[i].1.model()),
    decreases f.len(),
{
    if f.len() > 0 {
        lemma_field_models_of_index(f.subrange(1, f.len() as int));
    }
}

/// Setting a key whose first occurrence is at `i` (or which is absent when
/// `i == f.len()`) updates that position or appends.
proof fn lemma_fields_set_prefix(f: Seq<(Seq<char>, Json)>, key: Seq<char>, v: Json, i: int)
    requires
        0 <= i <= f.len(),
        forall|j: int| 0 <= j < i ==> f[j].0 != key,
        i < f.len() ==> f[i].0 == key,
    ensures
        i < f.len() ==> fields_set(f, key, v) == f.update(i, (key, v)),
        i == f.len() ==> fields_set(f, key, v) == f + seq![(key, v)],
    decreases i,
{
    if i > 0 {
        lemma_fields_set_prefix(f.drop_first(), key, v, i - 1);
        if i < f.len() {
            assert(f.drop_first().update(i - 1, (key, v)) =~= f.update(i, (key, v)).drop_first());
            assert(seq![f[0]] + f.update(i, (key, v)).drop_first() =~= f.update(i, (key, v)));
        } else {
            assert(f.drop_first() + seq![(key, v)] =~= (f + seq![(key, v)]).drop_first());
            assert(seq![f[0]] + (f + seq![(key, v)]).drop_first() =~= f + seq![(key, v)]);
        }
    } else if f.len() == 0 {
        assert(f + seq![(key, v)] =~= seq![(key, v)]);
    }
}

impl JsonValue {
    /// `serde_json`-style lookup of an object field.
    pub fn get(&self, key: &str) -> (r: Option<&JsonValue>)
        ensures
            match r {
                Some(x) => self@.get(key@) == Some(x@),
                None => self@.get(key@) is None,
            },
    {
        match self {
            JsonValue::Object(f) => {
                proof { lemma_field_models_of_index(f@); }
                let ghost fm = field_models_of(f@);
                assert(fm.subrange(0, fm.len() as int) =~= fm);
                let mut i: usize = 0;
                while i < f.len()
                    invariant
                        0 <= i <= f.len(),
                        fm == field_models_of(f@),
                        self@ == Json::Object(fm),
                        fm.len() == f@.len(),
                        forall|j: int| 0 <= j < f@.len() ==> #[trigger] fm[j] == (f@[j].0@, f@[j].1.model()),
                        fields_get(fm, key@) == fields_get(fm.subrange(i as int, fm.len() as int), key@),
                    decreases f.len() - i,
                {
                    let ghost rest = fm.subrange(i as int, fm.len() as int);
                    assert(rest.drop_first() =~= fm.subrange(i + 1, fm.len() as int));
                    if str_eq(f[i].0.as_str(), key) {
                        assert(rest[0] == fm[i as int]);
                        return Some(&f[i].1);
                    }
                    i = i + 1;
                }
                assert(fm.subrange(i as int, fm.len() as int).len() == 0);
                None
            },
            _ => None,
        }
    }

    /// Element `i` of an array.
    pub fn at(&self, i: usize) -> (r: Option<&JsonValue>)
        ensures
            match r {
                Some(x) => self@.at(i as int) == Some(x@),
                None => self@.at(i as int) is None,
            },
    {
        match self {
            JsonValue::Array(a) => {
                proof { lemma_models_of_index(a@); }
                if i < a.len() {
                    Some(&a[i])
                } else {
                    None
                }
            },
            _ => None,
        }
    }

    pub fn as_str(&self) -> (r: Option<&str>)
        ensures
            match r {
                Some(s) => self@.as_str() == Some(s@),
                None => self@.as_str() is None,
            },
    {
        match self {
            JsonValue::String(s) => Some(s.as_str()),
            _ => None,
        }
    }

    pub fn as_u64(&self) -> (r: Option<u64>)
        ensures
            r == self@.as_u64(),
    {
        match self {
            JsonValue::Number(JsonNumber::PosInt(n)) => Some(*n),
            _ => None,
        }
    }

    pub fn as_bool(&self) -> (r: Option<bool>)
        ensures
            r == self@.as_bool(),
    {
        match self {
            JsonValue::Bool(b) => Some(*b),
            _ => None,
        }
    }

    pub fn as_array(&self) -> (r: Option<&Vec<JsonValue>>)
        ensures
            match r {
                Some(a) => self@.as_array() == Some(models_of(a@)),
                None => self@.as_array() is None,
            },
    {
        match self {
            JsonValue::Array(a) => Some(a),
            _ => None,
        }
    }

    /// A deep copy with the same model.
    #[verifier::loop_isolation(false)]
    pub fn duplicate(&self) -> (r: JsonValue)
        ensures
            r@ == self@,
        decreases self,
    {
        match self {
            JsonValue::Null => JsonValue::Null,
            JsonValue::Bool(b) => JsonValue::Bool(*b),
            JsonValue::Number(JsonNumber::PosInt(n)) => JsonValue::Number(JsonNumber::PosInt(*n)),
            JsonValue::Number(JsonNumber::NegInt(n)) => JsonValue::Number(JsonNumber::NegInt(*n)),
            JsonValue::Number(JsonNumber::Float(t)) => JsonValue::Number(JsonNumber::Float(t.clone())),
            JsonValue::String(t) => JsonValue::String(t.clone()),
            JsonValue::Array(a) => {
                proof { lemma_models_of_index(a@); }
                let mut out: Vec<JsonValue> = Vec::new();
                let mut i: usize = 0;
                while i < a.len()
                    invariant
                        0 <= i <= a.len(),
                        out@.len() == i,
                        forall|j: int| 0 <= j < i ==> #[trigger] out@[j].model() == a@[j].model(),
                    decreases a.len() - i,
                {
                    assert(decreases_to!(self => a@[i as int]));
                    let e = a[i].duplicate();
                    out.push(e);
                    i = i + 1;
                }
                proof {
                    lemma_models_of_index(out@);
                    assert(models_of(out@) =~= models_of(a@));
                }
                JsonValue::Array(out)
            },
            JsonValue::Object(f) => {
                proof { lemma_field_models_of_index(f@); }
                let mut out: Vec<(String, JsonValue)> = Vec::new();
                let mut i: usize = 0;
                while i < f.len()
                    invariant
                        0 <= i <= f.len(),
                        out@.len() == i,
                        forall|j: int| 0 <= j < i ==> #[trigger] out@[j].0@ == f@[j].0@ && out@[j].1.model() == f@[j].1.model(),
                    decreases f.len() - i,
                {
                    assert(decreases_to!(self => f@[i as int].1));
                    let e = f[i].1.duplicate();
                    out.push((f[i].0.clone(), e));
                    i = i + 1;
                }
                proof {
                    lemma_field_models_of_index(out@);
                    assert(field_models_of(out@) =~= field_models_of(f@));
                }
                JsonValue::Object(out)
            },
        }
    }

    /// Set `key` to `v` in an object (replace the first field of that name,
    /// or append). Other values are left unchanged.
    #[verifier::loop_isolation(false)]
    pub fn set(&mut self, key: &str, v: JsonValue)
        ensures
            final(self)@ == old(self)@.set(key@, v@),
    {
        match self {
            JsonValue::Object(f) => {
                let ghost fm0 = field_models_of(f@);
                proof { lemma_field_models_of_index(f@); }
                let mut i: usize = 0;
                while i < f.len()
                    invariant
                        0 <= i <= f.len(),
                        fm0.len() == f@.len(),
                        forall|j: int| 0 <= j < f@.len() ==> #[trigger] fm0[j] == (f@[j].0@, f@[j].1.model()),
                        forall|j: int| 0 <= j < i ==> fm0[j].0 != key@,
                    decreases f.len() - i,
                {
                    if str_eq(f[i].0.as_str(), key) {
                        break;
                    }
                    i = i + 1;
                }
                proof { lemma_fields_set_prefix(fm0, key@, v@, i as int); }
                if i < f.len() {
                    let ghost before = f@;
                    f.set(i, (key.to_owned(), v));
                    proof {
                        lemma_field_models_of_index(f@);
                        assert(field_models_of(f@) =~= fm0.update(i as int, (key@, v@)));
                    }
                } else {
                    f.push((key.to_owned(), v));
                    proof {
                        lemma_field_models_of_index(f@);
                        assert(field_models_of(f@) =~= fm0 + seq![(key@, v@)]);
                    }
                }
            },
            _ => {},
        }
    }

    pub fn is_object(&self) -> (r: bool)
        ensures
            r == self@.is_object(),
    {
        match self {
            JsonValue::Object(_) => true,
            _ => false,
        }
    }
}


pub proof fn lemma_models_push(a: Seq<JsonValue>, x: JsonValue)
    ensures
        models_of(a.push(x)) == models_of(a).push(x.model()),
{
    lemma_models_of_index(a);
    lemma_models_of_index(a.push(x));
    assert(models_of(a.push(x)) =~= models_of(a).push(x.model()));
}

/// A JSON string holding `s`.
pub fn json_str(s: &str) -> (r: JsonValue)
    ensures
        r@ == Json::Str(s@),
{
    JsonValue::String(s.to_owned())
}

/// The empty object.
pub fn obj0() -> (r: JsonValue)
    ensures
        r@ == Json::Object(Seq::empty()),
{
    let r = JsonValue::Object(Vec::new());
    assert(field_models_of(Seq::<(String, JsonValue)>::empty()) =~= Seq::empty());
    r
}

/// `{k1: v1}`
pub fn obj1(k1: &str, v1: JsonValue) -> (r: JsonValue)
    ensures
        r@ == Json::Object(seq![(k1@, v1@)]),
{
    let f = vec![(k1.to_owned(), v1)];
    proof { lemma_field_models_of_index(f@); }
    assert(field_models_of(f@) =~= seq![(k1@, v1@)]);
    JsonValue::Object(f)
}

/// `{k1: v1, k2: v2}`
pub fn obj2(k1: &str, v1: JsonValue, k2: &str, v2: JsonValue) -> (r: JsonValue)
    ensures
        r@ == Json::Object(seq![(k1@, v1@), (k2@, v2@)]),
{
    let f = vec![(k1.to_owned(), v1), (k2.to_owned(), v2)];
    proof { lemma_field_models_of_index(f@); }
    assert(field_models_of(f@) =~= seq![(k1@, v1@), (k2@, v2@)]);
    JsonValue::Object(f)
}

/// `{k1: v1, k2: v2, k3: v3}`
pub fn obj3(k1: &str, v1: JsonValue, k2: &str, v2: JsonValue, k3: &str, v3: JsonValue) -> (r: JsonValue)
    ensures
        r@ == Json::Object(seq![(k1@, v1@), (k2@, v2@), (k3@, v3@)]),
{
    let f = vec![(k1.to_owned(), v1), (k2.to_owned(), v2), (k3.to_owned(), v3)];
    proof { lemma_field_models_of_index(f@); }
    assert(field_models_of(f@) =~= seq![(k1@, v1@), (k2@, v2@), (k3@, v3@)]);
    JsonValue::Object(f)
}

/// `{k1: v1, k2: v2, k3: v3, k4: v4}`
pub fn obj4(
    k1: &str,
    v1: JsonValue,
    k2: &str,
    v2: JsonValue,
    k3: &str,
    v3: JsonValue,
    k4: &str,
    v4: JsonValue,
) -> (r: JsonValue)
    ensures
        r@ == Json::Object(seq![(k1@, v1@), (k2@, v2@), (k3@, v3@), (k4@, v4@)]),
{
    let f = vec![(k1.to_owned(), v1), (k2.to_owned(), v2), (k3.to_owned(), v3), (k4.to_owned(), v4)];
    proof { lemma_field_models_of_index(f@); }
    assert(field_models_of(f@) =~= seq![(k1@, v1@), (k2@, v2@), (k3@, v3@), (k4@, v4@)]);
    JsonValue::Object(f)
}

/// `{k1: v1, …, k5: v5}`
pub fn obj5(
    k1: &str,
    v1: JsonValue,
    k2: &str,
    v2: JsonValue,
    k3: &str,
    v3: JsonValue,
    k4: &str,
    v4: JsonValue,
    k5: &str,
    v5: JsonValue,
) -> (r: JsonValue)
    ensures
        r@ == Json::Object(seq![(k1@, v1@), (k2@, v2@), (k3@, v3@), (k4@, v4@), (k5@, v5@)]),
{
    let f = vec![(k1.to_owned(), v1), (k2.to_owned(), v2), (k3.to_owned(), v3), (k4.to_owned(), v4), (k5.to_owned(), v5)];
    proof { lemma_field_models_of_index(f@); }
    assert(field_models_of(f@) =~= seq![(k1@, v1@), (k2@, v2@), (k3@, v3@), (k4@, v4@), (k5@, v5@)]);
    JsonValue::Object(f)
}

/// `[v1]`
pub fn arr1(v1: JsonValue) -> (r: JsonValue)
    ensures
        r@ == Json::Array(seq![v1@]),
{
    let a = vec![v1];
    proof { lemma_models_of_index(a@); }
    assert(models_of(a@) =~= seq![v1@]);
    JsonValue::Array(a)
}

/// `[v1, v2]`
pub fn arr2(v1: JsonValue, v2: JsonValue) -> (r: JsonValue)
    ensures
        r@ == Json::Array(seq![v1@, v2@]),
{
    let a = vec![v1, v2];
    proof { lemma_models_of_index(a@); }
    assert(models_of(a@) =~= seq![v1@, v2@]);
    JsonValue::Array(a)
}

/// The JSON number `n`.
pub fn json_u64(n: u64) -> (r: JsonValue)
    ensures
        r@ == Json::Number(JsonNum::PosInt(n)),
{
    JsonValue::Number(JsonNumber::PosInt(n))
}

/// A string field of an optional object, or `None`.
pub open spec fn get_str(v: Option<Json>, key: Seq<char>) -> Option<Seq<char>> {
    match v {
        Some(j) => match j.get(key) {
            Some(x) => x.as_str(),
            None => None,
        },
        None => None,
    }
}

pub open spec fn unwrap_or_empty(o: Option<Seq<char>>) -> Seq<char> {
    match o {
        Some(s) => s,
        None => Seq::empty(),
    }
}

/// `tc.index` as a `u32` (0 when absent), as `as u32` truncates it.
pub open spec fn index_of(tc: Json, key: Seq<char>) -> u32 {
    match tc.get(key) {
        Some(i) => match i.as_u64() {
            Some(n) => n as u32,
            None => 0u32,
        },
        None => 0u32,
    }
}

/// A string field of an optional object, copied out.
pub fn str_field(v: Option<&JsonValue>, key: &str) -> (r: Option<String>)
    ensures
        opt_view(r) == get_str(match v { Some(j) => Some(j@), None => None }, key@),
{
    match v {
        Some(j) => match j.get(key) {
            Some(x) => match x.as_str() {
                Some(s) => Some(s.to_owned()),
                None => None,
            },
            None => None,
        },
        None => None,
    }
}

/// An index field as a `u32` (0 when absent; truncated as `as u32` does).
pub fn index_field(v: &JsonValue, key: &str) -> (r: u32)
    ensures
        r == index_of(v@, key@),
{
    match v.get(key) {
        Some(i) => match i.as_u64() {
            Some(n) => n as u32,
            None => 0,
        },
        None => 0,
    }
}

} // verus!
