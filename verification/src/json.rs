//! The document values the pipeline works on.
//!
//! The external engine receives an expression and a document and returns a
//! value of this shape (or an error). Numbers are carried as the engine's
//! own literal text: the pipeline never does arithmetic on them, it only
//! displays them, and the text round-trips exactly.

use vstd::assert_by_contradiction;
use vstd::prelude::*;

verus! {

broadcast use vstd::std_specs::vec::axiom_vec_index_decreases;

/// A JSON document or result value.
pub enum JsonValue {
    Null,
    Bool(bool),
    /// The numeric literal exactly as the engine rendered it.
    Number(String),
    Text(String),
    Array(Vec<JsonValue>),
    Object(Vec<(String, JsonValue)>),
}

/// Structural equality of two values: equal shape, and every piece of text
/// equal character by character.
pub open spec fn spec_json_eq(a: JsonValue, b: JsonValue) -> bool
    decreases a,
{
    match (a, b) {
        (JsonValue::Null, JsonValue::Null) => true,
        (JsonValue::Bool(x), JsonValue::Bool(y)) => x == y,
        (JsonValue::Number(x), JsonValue::Number(y)) => x@ == y@,
        (JsonValue::Text(x), JsonValue::Text(y)) => x@ == y@,
        (JsonValue::Array(x), JsonValue::Array(y)) => x@.len() == y@.len() && (forall|i: int|
            0 <= i < x@.len() ==> spec_json_eq(#[trigger] x@[i], y@[i])),
        (JsonValue::Object(x), JsonValue::Object(y)) => x@.len() == y@.len() && (forall|i: int|
            0 <= i < x@.len() ==> (#[trigger] x@[i]).0@ == y@[i].0@ && spec_json_eq(
                x@[i].1,
                y@[i].1,
            )),
        _ => false,
    }
}

impl JsonValue {
    /// Containers are the foldable nodes: arrays and objects.
    pub open spec fn spec_is_container(&self) -> bool {
        self is Array || self is Object
    }

    pub fn is_container(&self) -> (r: bool)
        ensures
            r == self.spec_is_container(),
    {
        match self {
            JsonValue::Array(_) => true,
            JsonValue::Object(_) => true,
            _ => false,
        }
    }

    /// Structural equality, decided exactly as `spec_json_eq` states it.
    #[verifier::loop_isolation(false)]
    pub fn deep_eq(&self, other: &JsonValue) -> (r: bool)
        ensures
            r == spec_json_eq(*self, *other),
        decreases *self,
    {
        match (self, other) {
            (JsonValue::Null, JsonValue::Null) => true,
            (JsonValue::Bool(a), JsonValue::Bool(b)) => a == b,
            (JsonValue::Number(a), JsonValue::Number(b)) => strings_equal(a, b),
            (JsonValue::Text(a), JsonValue::Text(b)) => strings_equal(a, b),
            (JsonValue::Array(a), JsonValue::Array(b)) => {
                if a.len() != b.len() {
                    return false;
                }
                let mut i: usize = 0;
                while i < a.len()
                    invariant
                        i <= a@.len(),
                        a@.len() == b@.len(),
                        forall|j: int| 0 <= j < i ==> spec_json_eq(#[trigger] a@[j], b@[j]),
                    decreases a@.len() - i,
                {
                    if !a[i].deep_eq(&b[i]) {
                        proof {
                            assert_by_contradiction!(!spec_json_eq(*self, *other), {
                                assert(spec_json_eq(a@[i as int], b@[i as int]));
                            });
                        }
                        return false;
                    }
                    i = i + 1;
                }
                true
            },
            (JsonValue::Object(a), JsonValue::Object(b)) => {
                if a.len() != b.len() {
                    return false;
                }
                let mut i: usize = 0;
                while i < a.len()
                    invariant
                        i <= a@.len(),
                        a@.len() == b@.len(),
                        forall|j: int|
                            0 <= j < i ==> (#[trigger] a@[j]).0@ == b@[j].0@ && spec_json_eq(
                                a@[j].1,
                                b@[j].1,
                            ),
                    decreases a@.len() - i,
                {
                    if !strings_equal(&a[i].0, &b[i].0) {
                        proof {
                            assert_by_contradiction!(!spec_json_eq(*self, *other), {
                                assert((a@[i as int]).0@ == b@[i as int].0@);
                            });
                        }
                        return false;
                    }
                    if !a[i].1.deep_eq(&b[i].1) {
                        proof {
                            assert_by_contradiction!(!spec_json_eq(*self, *other), {
                                assert((a@[i as int]).0@ == b@[i as int].0@ && spec_json_eq(
                                    a@[i as int].1,
                                    b@[i as int].1,
                                ));
                            });
                        }
                        return false;
                    }
                    i = i + 1;
                }
                true
            },
            _ => false,
        }
    }
}

impl JsonValue {
    /// A structurally equal copy of the value.
    #[verifier::loop_isolation(false)]
    pub fn deep_clone(&self) -> (r: JsonValue)
        ensures
            spec_json_eq(r, *self),
        decreases *self,
    {
        match self {
            JsonValue::Null => JsonValue::Null,
            JsonValue::Bool(b) => JsonValue::Bool(*b),
            JsonValue::Number(s) => JsonValue::Number(s.clone()),
            JsonValue::Text(s) => JsonValue::Text(s.clone()),
            JsonValue::Array(a) => {
                let mut out: Vec<JsonValue> = Vec::new();
                let mut i: usize = 0;
                while i < a.len()
                    invariant
                        i <= a@.len(),
                        out@.len() == i,
                        forall|j: int| 0 <= j < i ==> spec_json_eq(#[trigger] out@[j], a@[j]),
                    decreases a@.len() - i,
                {
                    out.push(a[i].deep_clone());
                    i = i + 1;
                }
                JsonValue::Array(out)
            },
            JsonValue::Object(m) => {
                let mut out: Vec<(String, JsonValue)> = Vec::new();
                let mut i: usize = 0;
                while i < m.len()
                    invariant
                        i <= m@.len(),
                        out@.len() == i,
                        forall|j: int|
                            0 <= j < i ==> (#[trigger] out@[j]).0@ == m@[j].0@ && spec_json_eq(
                                out@[j].1,
                                m@[j].1,
                            ),
                    decreases m@.len() - i,
                {
                    out.push((m[i].0.clone(), m[i].1.deep_clone()));
                    i = i + 1;
                }
                JsonValue::Object(out)
            },
        }
    }
}

/// Two strings are equal exactly when their character sequences are.
pub fn strings_equal(a: &String, b: &String) -> (r: bool)
    ensures
        r == (a@ == b@),
{
    a.eq(b)
}

} // verus!
