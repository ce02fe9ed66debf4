//! JSON trees.
//!
//! `JsonValue` is the executable document tree: script parameters, protocol
//! responses and whole script files are carried in it.  Numbers keep their
//! decimal rendering as text, so a document round-trips without loss and the
//! crate stays free of floating point.  `JsonV` is the mathematical mirror
//! used in specifications.

use vstd::prelude::*;

verus! {

/// Mathematical JSON tree used in specifications.
pub enum JsonV {
    Null,
    Bool(bool),
    Num(Seq<char>),
    Str(Seq<char>),
    Arr(Seq<JsonV>),
    Obj(Seq<(Seq<char>, JsonV)>),
}

/// Executable JSON tree.  A `Num` holds the decimal rendering of the number;
/// an `Obj` holds its entries in document order.
#[derive(Debug)]
pub enum JsonValue {
    Null,
    Bool(bool),
    Num(String),
    Str(String),
    Arr(Vec<JsonValue>),
    Obj(Vec<(String, JsonValue)>),
}

/// The mathematical tree of an executable JSON value.
pub open spec fn jv(v: JsonValue) -> JsonV
    decreases v,
{
    match v {
        JsonValue::Null => JsonV::Null,
        JsonValue::Bool(b) => JsonV::Bool(b),
        JsonValue::Num(s) => JsonV::Num(s@),
        JsonValue::Str(s) => JsonV::Str(s@),
        JsonValue::Arr(a) => JsonV::Arr(jv_list(a@)),
        JsonValue::Obj(o) => JsonV::Obj(jv_entries(o@)),
    }
}

/// The mathematical trees of a sequence of JSON values.
pub open spec fn jv_list(s: Seq<JsonValue>) -> Seq<JsonV>
    decreases s,
{
    Seq::new(
        s.len(),
        |i: int|
            if 0 <= i < s.len() {
                jv(s[i])
            } else {
                JsonV::Null
            },
    )
}

/// The mathematical entries of a sequence of JSON object entries.
pub open spec fn jv_entries(s: Seq<(String, JsonValue)>) -> Seq<(Seq<char>, JsonV)>
    decreases s,
{
    Seq::new(
        s.len(),
        |i: int|
            if 0 <= i < s.len() {
                (s[i].0@, jv(s[i].1))
            } else {
                (Seq::empty(), JsonV::Null)
            },
    )
}

impl View for JsonValue {
    type V = JsonV;

    open spec fn view(&self) -> JsonV {
        jv(*self)
    }
}

/// The value under `key` in an object's entries, first occurrence wins.
pub open spec fn obj_lookup(entries: Seq<(Seq<char>, JsonV)>, key: Seq<char>) -> Option<JsonV>
    decreases entries.len(),
{
    if entries.len() == 0 {
        None
    } else if entries[0].0 == key {
        Some(entries[0].1)
    } else {
        obj_lookup(entries.drop_first(), key)
    }
}

/// Whether an object's entries carry `key`.
pub open spec fn obj_has_key(entries: Seq<(Seq<char>, JsonV)>, key: Seq<char>) -> bool {
    obj_lookup(entries, key) is Some
}

/// A lookup that ends at index `i` returns the value there.
pub proof fn lemma_obj_lookup_found(
    entries: Seq<(Seq<char>, JsonV)>,
    key: Seq<char>,
    i: int,
)
    requires
        0 <= i < entries.len(),
        entries[i].0 == key,
        forall|j: int| 0 <= j < i ==> entries[j].0 != key,
    ensures
        obj_lookup(entries, key) == Some(entries[i].1),
    decreases i,
{
    if i > 0 {
        lemma_obj_lookup_found(entries.drop_first(), key, i - 1);
    }
}

/// A lookup over entries without the key returns nothing.
pub proof fn lemma_obj_lookup_absent(entries: Seq<(Seq<char>, JsonV)>, key: Seq<char>)
    requires
        forall|j: int| 0 <= j < entries.len() ==> entries[j].0 != key,
    ensures
        obj_lookup(entries, key) is None,
    decreases entries.len(),
{
    if entries.len() > 0 {
        lemma_obj_lookup_absent(entries.drop_first(), key);
    }
}

impl JsonValue {
    /// Structural copy of the whole tree.
    #[verifier::loop_isolation(false)]
    pub fn deep_clone(&self) -> (r: JsonValue)
        ensures
            r@ == self@,
        decreases *self,
    {
        match self {
            JsonValue::Null => JsonValue::Null,
            JsonValue::Bool(b) => JsonValue::Bool(*b),
            JsonValue::Num(s) => JsonValue::Num(s.clone()),
            JsonValue::Str(s) => JsonValue::Str(s.clone()),
            JsonValue::Arr(a) => {
                let mut out: Vec<JsonValue> = Vec::new();
                let mut i: usize = 0;
                while i < a.len()
                    invariant
                        i <= a.len(),
                        out@.len() == i as int,
                        forall|j: int| 0 <= j < i ==> jv(#[trigger] out@[j]) == jv(a@[j]),
                    decreases a.len() - i,
                {
                    out.push(a[i].deep_clone());
                    i = i + 1;
                }
                proof {
                    assert(jv_list(out@) =~= jv_list(a@));
                }
                JsonValue::Arr(out)
            },
            JsonValue::Obj(o) => {
                let mut out: Vec<(String, JsonValue)> = Vec::new();
                let mut i: usize = 0;
                while i < o.len()
                    invariant
                        i <= o.len(),
                        out@.len() == i as int,
                        forall|j: int| 0 <= j < i ==> #[trigger] out@[j].0@ == o@[j].0@
                            && jv(out@[j].1) == jv(o@[j].1),
                    decreases o.len() - i,
                {
                    let entry = &o[i];
                    out.push((entry.0.clone(), entry.1.deep_clone()));
                    i = i + 1;
                }
                proof {
                    assert(jv_entries(out@) =~= jv_entries(o@));
                }
                JsonValue::Obj(out)
            },
        }
    }
}

/// Find the value stored under `key`, first occurrence wins.
pub fn obj_get<'a>(entries: &'a Vec<(String, JsonValue)>, key: &str) -> (r: Option<
    &'a JsonValue,
>)
    ensures
        match r {
            Some(v) => obj_lookup(jv_entries(entries@), key@) == Some(v@),
            None => obj_lookup(jv_entries(entries@), key@) is None,
        },
{
    let mut i: usize = 0;
    while i < entries.len()
        invariant
            i <= entries.len(),
            forall|j: int| 0 <= j < i ==> jv_entries(entries@)[j].0 != key@,
        decreases entries.len() - i,
    {
        if crate::strutil::string_eq_str(&entries[i].0, key) {
            proof {
                lemma_obj_lookup_found(jv_entries(entries@), key@, i as int);
            }
            return Some(&entries[i].1);
        }
        i = i + 1;
    }
    proof {
        lemma_obj_lookup_absent(jv_entries(entries@), key@);
    }
    None
}

} // verus!
