use crate::scalar::{list_abs, DoubleBits, FloatBits, ScalarAbs, ScalarValue};
use vstd::prelude::*;

verus! {

/// Conversion from a tagged look-ahead value node into a strongly typed
/// value.
///
/// A conversion succeeds only when the node's tag matches the target type
/// exactly; a mismatch yields absence (`None`), never a coerced value.
pub trait FromLookAheadValue: Sized {
    /// Whether a node with this model converts into a value of this type.
    spec fn converts(v: ScalarAbs) -> bool;

    /// Relates a node's model to the value it converts into.
    spec fn converted(v: ScalarAbs, r: Self) -> bool;

    /// Converts the node, or reports absence on a tag mismatch.
    fn from_look_ahead(v: &ScalarValue) -> (r: Option<Self>)
        ensures
            (r is Some) == Self::converts(v@),
            r matches Some(t) ==> Self::converted(v@, t),
    ;
}

impl FromLookAheadValue for i16 {
    open spec fn converts(v: ScalarAbs) -> bool {
        v is SmallInt
    }

    open spec fn converted(v: ScalarAbs, r: i16) -> bool {
        v == ScalarAbs::SmallInt(r)
    }

    fn from_look_ahead(v: &ScalarValue) -> Option<i16> {
        if let ScalarValue::SmallInt(i) = v {
            Some(*i)
        } else {
            None
        }
    }
}

impl FromLookAheadValue for i32 {
    open spec fn converts(v: ScalarAbs) -> bool {
        v is Int
    }

    open spec fn converted(v: ScalarAbs, r: i32) -> bool {
        v == ScalarAbs::Int(r)
    }

    fn from_look_ahead(v: &ScalarValue) -> Option<i32> {
        if let ScalarValue::Int(i) = v {
            Some(*i)
        } else {
            None
        }
    }
}

impl FromLookAheadValue for i64 {
    open spec fn converts(v: ScalarAbs) -> bool {
        v is BigInt
    }

    open spec fn converted(v: ScalarAbs, r: i64) -> bool {
        v == ScalarAbs::BigInt(r)
    }

    fn from_look_ahead(v: &ScalarValue) -> Option<i64> {
        if let ScalarValue::BigInt(i) = v {
            Some(*i)
        } else {
            None
        }
    }
}

impl FromLookAheadValue for bool {
    open spec fn converts(v: ScalarAbs) -> bool {
        v is Boolean
    }

    open spec fn converted(v: ScalarAbs, r: bool) -> bool {
        v == ScalarAbs::Boolean(r)
    }

    fn from_look_ahead(v: &ScalarValue) -> Option<bool> {
        if let ScalarValue::Boolean(b) = v {
            Some(*b)
        } else {
            None
        }
    }
}

impl FromLookAheadValue for String {
    open spec fn converts(v: ScalarAbs) -> bool {
        v is Text
    }

    open spec fn converted(v: ScalarAbs, r: String) -> bool {
        v == ScalarAbs::Text(r@)
    }

    fn from_look_ahead(v: &ScalarValue) -> Option<String> {
        if let ScalarValue::Text(s) = v {
            Some(s.clone())
        } else {
            None
        }
    }
}

impl FromLookAheadValue for FloatBits {
    open spec fn converts(v: ScalarAbs) -> bool {
        v is Float
    }

    open spec fn converted(v: ScalarAbs, r: FloatBits) -> bool {
        v == ScalarAbs::Float(r.bits)
    }

    fn from_look_ahead(v: &ScalarValue) -> Option<FloatBits> {
        if let ScalarValue::Float(f) = v {
            Some(*f)
        } else {
            None
        }
    }
}

impl FromLookAheadValue for DoubleBits {
    open spec fn converts(v: ScalarAbs) -> bool {
        v is Double
    }

    open spec fn converted(v: ScalarAbs, r: DoubleBits) -> bool {
        v == ScalarAbs::Double(r.bits)
    }

    fn from_look_ahead(v: &ScalarValue) -> Option<DoubleBits> {
        if let ScalarValue::Double(d) = v {
            Some(*d)
        } else {
            None
        }
    }
}

impl<T: FromLookAheadValue> FromLookAheadValue for Vec<T> {
    /// A list node converts only if every element converts: the conversion
    /// fails closed.
    open spec fn converts(v: ScalarAbs) -> bool {
        &&& v is List
        &&& forall|i: int| 0 <= i < v->List_0.len() ==> T::converts(#[trigger] v->List_0[i])
    }

    open spec fn converted(v: ScalarAbs, r: Vec<T>) -> bool {
        &&& v is List
        &&& r@.len() == v->List_0.len()
        &&& forall|i: int| 0 <= i < r@.len() ==> T::converted(#[trigger] v->List_0[i], r@[i])
    }

    fn from_look_ahead(v: &ScalarValue) -> Option<Vec<T>> {
        if let ScalarValue::List(l) = v {
            let ghost nodes = list_abs(l@);
            let mut out: Vec<T> = Vec::new();
            let mut k: usize = 0;
            while k < l.len()
                invariant
                    k <= l@.len(),
                    *v == ScalarValue::List(*l),
                    nodes == list_abs(l@),
                    out@.len() == k,
                    forall|i: int| 0 <= i < k ==> T::converts(#[trigger] nodes[i]),
                    forall|i: int| 0 <= i < k ==> T::converted(#[trigger] nodes[i], out@[i]),
                decreases l@.len() - k,
            {
                match T::from_look_ahead(&l[k]) {
                    Some(t) => out.push(t),
                    None => {
                        proof {
                            assert(v@->List_0 == nodes);
                            assert(!T::converts(v@->List_0[k as int]));
                        }
                        return None;
                    },
                }
                k = k + 1;
            }
            Some(out)
        } else {
            None
        }
    }
}

impl<T: FromLookAheadValue> FromLookAheadValue for Option<T> {
    /// An optional target never fails: the conversion always yields a value,
    /// which is itself absent exactly when the inner conversion fails.
    open spec fn converts(v: ScalarAbs) -> bool {
        true
    }

    open spec fn converted(v: ScalarAbs, r: Option<T>) -> bool {
        match r {
            Some(t) => T::converts(v) && T::converted(v, t),
            None => !T::converts(v),
        }
    }

    fn from_look_ahead(v: &ScalarValue) -> Option<Option<T>> {
        Some(T::from_look_ahead(v))
    }
}

/// Law: converting a value node whose tag does not match the target scalar
/// kind yields absence; in particular a plain-int node never satisfies the
/// small-int or big-int target, and conversely.
pub proof fn lemma_mismatched_tag_never_converts(v: ScalarAbs)
    ensures
        !(v is SmallInt) ==> !<i16 as FromLookAheadValue>::converts(v),
        !(v is Int) ==> !<i32 as FromLookAheadValue>::converts(v),
        !(v is BigInt) ==> !<i64 as FromLookAheadValue>::converts(v),
        !(v is Boolean) ==> !<bool as FromLookAheadValue>::converts(v),
        !(v is Text) ==> !<String as FromLookAheadValue>::converts(v),
        !(v is Float) ==> !<FloatBits as FromLookAheadValue>::converts(v),
        !(v is Double) ==> !<DoubleBits as FromLookAheadValue>::converts(v),
{
}

/// Law: a list node converts exactly when every element converts, and the
/// converted list keeps every element in order; a single failing element
/// makes the whole list conversion absent.
pub proof fn lemma_list_conversion_fails_closed<T: FromLookAheadValue>(
    l: Seq<ScalarAbs>,
    r: Vec<T>,
)
    ensures
        <Vec<T> as FromLookAheadValue>::converts(ScalarAbs::List(l)) <==> (forall|i: int|
            0 <= i < l.len() ==> T::converts(#[trigger] l[i])),
        <Vec<T> as FromLookAheadValue>::converted(ScalarAbs::List(l), r) ==> r@.len() == l.len()
            && (forall|i: int| 0 <= i < l.len() ==> T::converted(#[trigger] l[i], r@[i])),
{
}

/// Law: conversion to an optional target never fails, and the value it
/// yields is the inner conversion's result: present when the inner target
/// converts, absent when it does not.
pub proof fn lemma_option_conversion_never_fails<T: FromLookAheadValue>(v: ScalarAbs, r: Option<T>)
    ensures
        <Option<T> as FromLookAheadValue>::converts(v),
        <Option<T> as FromLookAheadValue>::converted(v, r) ==> ((r is Some) == T::converts(v)),
{
}

} // verus!
