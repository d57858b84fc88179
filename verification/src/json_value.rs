//! A small structured-value model for event payloads and metadata.
//!
//! Payloads carried by events are trees of plain values; the application
//! edge converts them to and from its serialisation form.

use vstd::prelude::*;

verus! {

/// An arbitrary structured value: the payload language of events.
#[derive(Debug)]
pub enum JsonValue {
    Null,
    Bool(bool),
    Int(i64),
    Str(String),
    Arr(Vec<JsonValue>),
    Obj(Vec<(String, JsonValue)>),
}

/// Structural equality of two values: the same shape, with strings
/// compared by their characters.
pub open spec fn json_eq(a: JsonValue, b: JsonValue) -> bool
    decreases a,
{
    match (a, b) {
        (JsonValue::Null, JsonValue::Null) => true,
        (JsonValue::Bool(x), JsonValue::Bool(y)) => x == y,
        (JsonValue::Int(x), JsonValue::Int(y)) => x == y,
        (JsonValue::Str(x), JsonValue::Str(y)) => x@ == y@,
        (JsonValue::Arr(x), JsonValue::Arr(y)) => x@.len() == y@.len() && (forall|i: int|
            0 <= i < x@.len() ==> json_eq(x@[i], y@[i])),
        (JsonValue::Obj(x), JsonValue::Obj(y)) => x@.len() == y@.len() && (forall|i: int|
            0 <= i < x@.len() ==> x@[i].0@ == y@[i].0@ && json_eq(x@[i].1, y@[i].1)),
        _ => false,
    }
}

impl Clone for JsonValue {
    /// A clone is structurally equal to the original, through the whole
    /// tree.
    fn clone(&self) -> (res: Self)
        ensures
            json_eq(*self, res),
        decreases *self,
    {
        match self {
            JsonValue::Null => JsonValue::Null,
            JsonValue::Bool(b) => JsonValue::Bool(*b),
            JsonValue::Int(n) => JsonValue::Int(*n),
            JsonValue::Str(s) => JsonValue::Str(s.clone()),
            JsonValue::Arr(items) => {
                let mut out: Vec<JsonValue> = Vec::new();
                let mut idx: usize = 0;
                while idx < items.len()
                    invariant
                        idx <= items.len(),
                        out@.len() == idx,
                        forall|j: int| 0 <= j < idx ==> json_eq(items@[j], out@[j]),
                        *self == JsonValue::Arr(*items),
                    decreases items.len() - idx,
                {
                    proof {
                        assert(decreases_to!(*self => (*self)->Arr_0));
                        assert(decreases_to!(*items => items@));
                        assert(decreases_to!(items@ => items@[idx as int]));
                    }
                    out.push(items[idx].clone());
                    idx += 1;
                }
                JsonValue::Arr(out)
            },
            JsonValue::Obj(pairs) => {
                let mut out: Vec<(String, JsonValue)> = Vec::new();
                let mut idx: usize = 0;
                while idx < pairs.len()
                    invariant
                        idx <= pairs.len(),
                        out@.len() == idx,
                        forall|j: int|
                            0 <= j < idx ==> out@[j].0@ == pairs@[j].0@ && json_eq(
                                pairs@[j].1,
                                out@[j].1,
                            ),
                        *self == JsonValue::Obj(*pairs),
                    decreases pairs.len() - idx,
                {
                    proof {
                        assert(decreases_to!(*self => (*self)->Obj_0));
                        assert(decreases_to!(*pairs => pairs@));
                        assert(decreases_to!(pairs@ => pairs@[idx as int]));
                        assert(decreases_to!(pairs@[idx as int] => pairs@[idx as int].1));
                    }
                    let pair = &pairs[idx];
                    out.push((pair.0.clone(), pair.1.clone()));
                    idx += 1;
                }
                JsonValue::Obj(out)
            },
        }
    }
}

/// A clone of a value sequence is elementwise structurally equal.
pub fn clone_json_vec(items: &Vec<JsonValue>) -> (out: Vec<JsonValue>)
    ensures
        out@.len() == items@.len(),
        forall|j: int| 0 <= j < items@.len() ==> json_eq(items@[j], out@[j]),
{
    let mut out: Vec<JsonValue> = Vec::new();
    let mut idx: usize = 0;
    while idx < items.len()
        invariant
            idx <= items.len(),
            out@.len() == idx,
            forall|j: int| 0 <= j < idx ==> json_eq(items@[j], out@[j]),
        decreases items.len() - idx,
    {
        out.push(items[idx].clone());
        idx += 1;
    }
    out
}

} // verus!
