//! A JSON document as plain values.
//!
//! Decoding works over this type rather than over an opaque parser value, so
//! the schema rules are stated and checked directly. The raw bytes of a
//! delivery are turned into a `Json` value by `parse_json`, which relies on
//! `serde_json` for the grammar; everything after that point is the
//! library's own, verified logic.

use vstd::prelude::*;

verus! {

/// An in-memory JSON document.
#[derive(Debug, PartialEq)]
pub enum Json {
    Null,
    Bool(bool),
    Num(i64),
    Str(String),
    Arr(Vec<Json>),
    Obj(Vec<(String, Json)>),
}

/// The mathematical model of a JSON document.
#[verifier::ext_equal]
pub enum JsonV {
    Null,
    Bool(bool),
    Num(int),
    Str(Seq<char>),
    Arr(Seq<JsonV>),
    Obj(Seq<(Seq<char>, JsonV)>),
}

/// The model of a `Json` value.
pub open spec fn jv(j: Json) -> JsonV
    decreases j,
{
    match j {
        Json::Null => JsonV::Null,
        Json::Bool(b) => JsonV::Bool(b),
        Json::Num(n) => JsonV::Num(n as int),
        Json::Str(s) => JsonV::Str(s@),
        Json::Arr(items) => JsonV::Arr(
            Seq::new(
                items.len() as nat,
                |i: int|
                    if 0 <= i < items.len() {
                        jv(items[i])
                    } else {
                        JsonV::Null
                    },
            ),
        ),
        Json::Obj(pairs) => JsonV::Obj(
            Seq::new(
                pairs.len() as nat,
                |i: int|
                    if 0 <= i < pairs.len() {
                        (pairs[i].0@, jv(pairs[i].1))
                    } else {
                        (Seq::empty(), JsonV::Null)
                    },
            ),
        ),
    }
}

impl View for Json {
    type V = JsonV;

    open spec fn view(&self) -> JsonV {
        jv(*self)
    }
}

/// The model of an object's pair list.
pub open spec fn pairs_v(pairs: Seq<(String, Json)>) -> Seq<(Seq<char>, JsonV)> {
    Seq::new(pairs.len(), |i: int| (pairs[i].0@, pairs[i].1@))
}

/// The model of an array's item list.
pub open spec fn items_v(items: Seq<Json>) -> Seq<JsonV> {
    Seq::new(items.len(), |i: int| items[i]@)
}

/// An object's model is the model of its pair list.
pub proof fn lemma_jv_obj(pairs: Vec<(String, Json)>)
    ensures
        jv(Json::Obj(pairs)) == JsonV::Obj(pairs_v(pairs@)),
{
    assert(jv(Json::Obj(pairs))->Obj_0 =~= pairs_v(pairs@));
}

/// An array's model is the model of its item list.
pub proof fn lemma_jv_arr(items: Vec<Json>)
    ensures
        jv(Json::Arr(items)) == JsonV::Arr(items_v(items@)),
{
    assert(jv(Json::Arr(items))->Arr_0 =~= items_v(items@));
}

/// The value under the first occurrence of a key in an object's pair list.
pub open spec fn obj_get(ps: Seq<(Seq<char>, JsonV)>, k: Seq<char>) -> Option<JsonV>
    decreases ps.len(),
{
    if ps.len() == 0 {
        None
    } else if ps[0].0 == k {
        Some(ps[0].1)
    } else {
        obj_get(ps.drop_first(), k)
    }
}

/// If none of the first `n` keys is `k`, the lookup is decided by the rest.
pub proof fn lemma_obj_get_skip(ps: Seq<(Seq<char>, JsonV)>, k: Seq<char>, n: int)
    requires
        0 <= n <= ps.len(),
        forall|i: int| 0 <= i < n ==> ps[i].0 != k,
    ensures
        obj_get(ps, k) == obj_get(ps.skip(n), k),
    decreases n,
{
    if n > 0 {
        assert(ps[0].0 != k);
        assert(obj_get(ps, k) == obj_get(ps.drop_first(), k));
        lemma_obj_get_skip(ps.drop_first(), k, n - 1);
        assert(ps.drop_first().skip(n - 1) =~= ps.skip(n));
    } else {
        assert(ps.skip(0) =~= ps);
    }
}

/// The string field under a key, if the key is present with a string value.
pub open spec fn str_field(ps: Seq<(Seq<char>, JsonV)>, k: Seq<char>) -> Option<Seq<char>> {
    match obj_get(ps, k) {
        Some(JsonV::Str(s)) => Some(s),
        _ => None,
    }
}

/// The boolean field under a key, if present with a boolean value.
pub open spec fn bool_field(ps: Seq<(Seq<char>, JsonV)>, k: Seq<char>) -> Option<bool> {
    match obj_get(ps, k) {
        Some(JsonV::Bool(b)) => Some(b),
        _ => None,
    }
}

/// The integer field under a key, if present with a numeric value.
pub open spec fn num_field(ps: Seq<(Seq<char>, JsonV)>, k: Seq<char>) -> Option<int> {
    match obj_get(ps, k) {
        Some(JsonV::Num(n)) => Some(n),
        _ => None,
    }
}

#[verifier::external_type_specification]
#[verifier::external_body]
pub struct ExValue(serde_json::Value);

/// The JSON document the engine reads from a byte string, if the bytes are
/// a well-formed document; a function of the bytes alone.
pub uninterp spec fn json_of(bytes: Seq<u8>) -> Option<JsonV>;

/// The conversion half of `parse_json`: carries a parsed
/// `serde_json::Value` over into the engine's own document type, variant by
/// variant. Numbers outside the `i64` range are carried as null; the engine
/// reads no such field. Called only from `parse_json`.
#[verifier::external_body]
fn from_value(v: serde_json::Value) -> Json {
    match v {
        serde_json::Value::Null => Json::Null,
        serde_json::Value::Bool(b) => Json::Bool(b),
        serde_json::Value::Number(n) => n.as_i64().map_or(Json::Null, Json::Num),
        serde_json::Value::String(s) => Json::Str(s),
        serde_json::Value::Array(a) => Json::Arr(a.into_iter().map(from_value).collect()),
        serde_json::Value::Object(m) => Json::Obj(
            m.into_iter().map(|(k, x)| (k, from_value(x))).collect(),
        ),
    }
}

/// Relies on `serde_json::from_slice::<serde_json::Value>`: whether and how
/// a byte string parses as a JSON document depends on the bytes alone;
/// `None` exactly when they are not a well-formed document.
#[verifier::external_body]
pub fn parse_json(bytes: &[u8]) -> (r: Option<Json>)
    ensures
        match r {
            Some(j) => json_of(bytes@) == Some(j@),
            None => json_of(bytes@) is None,
        },
{
    serde_json::from_slice::<serde_json::Value>(bytes).ok().map(from_value)
}

impl Json {
    /// A copy of the document, field for field.
    #[verifier::loop_isolation(false)]
    pub fn duplicate(&self) -> (r: Json)
        ensures
            r@ == self@,
        decreases *self,
    {
        match self {
            Json::Null => Json::Null,
            Json::Bool(b) => Json::Bool(*b),
            Json::Num(n) => Json::Num(*n),
            Json::Str(s) => Json::Str(s.clone()),
            Json::Arr(items) => {
                let mut out: Vec<Json> = Vec::new();
                let mut i: usize = 0;
                while i < items.len()
                    invariant
                        0 <= i <= items.len(),
                        out@.len() == i,
                        forall|k: int| 0 <= k < i ==> out@[k]@ == items@[k]@,
                    decreases items.len() - i,
                {
                    let d = items[i].duplicate();
                    out.push(d);
                    i = i + 1;
                }
                let r = Json::Arr(out);
                proof {
                    assert(r@->Arr_0 =~= (*self)@->Arr_0);
                    assert(r@ =~= (*self)@);
                }
                r
            },
            Json::Obj(pairs) => {
                let mut out: Vec<(String, Json)> = Vec::new();
                let mut i: usize = 0;
                while i < pairs.len()
                    invariant
                        0 <= i <= pairs.len(),
                        out@.len() == i,
                        forall|k: int|
                            0 <= k < i ==> out@[k].0@ == pairs@[k].0@ && out@[k].1@
                                == pairs@[k].1@,
                    decreases pairs.len() - i,
                {
                    let key = pairs[i].0.clone();
                    let d = pairs[i].1.duplicate();
                    out.push((key, d));
                    i = i + 1;
                }
                let r = Json::Obj(out);
                proof {
                    assert(r@->Obj_0 =~= (*self)@->Obj_0);
                    assert(r@ =~= (*self)@);
                }
                r
            },
        }
    }

    /// Looks a key up in an object's pair list; first occurrence wins.
    pub fn lookup<'a>(pairs: &'a Vec<(String, Json)>, key: &str) -> (r: Option<&'a Json>)
        ensures
            match r {
                Some(j) => obj_get(pairs_v(pairs@), key@) == Some(j@),
                None => obj_get(pairs_v(pairs@), key@) is None,
            },
    {
        let ghost ps = pairs_v(pairs@);
        let mut i: usize = 0;
        while i < pairs.len()
            invariant
                0 <= i <= pairs.len(),
                ps == pairs_v(pairs@),
                ps.len() == pairs.len(),
                forall|n: int| 0 <= n < pairs.len() ==> ps[n] == (pairs[n as int].0@, pairs[n as int].1@),
                forall|n: int| 0 <= n < i ==> ps[n].0 != key@,
            decreases pairs.len() - i,
        {
            if crate::classify::str_eq(pairs[i].0.as_str(), key) {
                proof {
                    lemma_obj_get_skip(ps, key@, i as int);
                    assert(ps.skip(i as int)[0] == ps[i as int]);
                }
                return Some(&pairs[i].1);
            }
            i = i + 1;
        }
        proof {
            lemma_obj_get_skip(ps, key@, i as int);
            assert(ps.skip(i as int).len() == 0);
        }
        None
    }
}

} // verus!
