use vstd::prelude::*;

verus! {

broadcast use vstd::std_specs::vec::axiom_vec_decreases_to_view, vstd::seq::axiom_seq_index_decreases;

/// The bit pattern of a single-precision floating point scalar.
///
/// The conversion and filter layers never interpret the numeric value of a
/// float; they only carry it between the query layer and the storage layer,
/// so the value is held as its raw bit pattern.
#[derive(Debug, Clone, Copy, PartialEq, Eq, Structural)]
pub struct FloatBits {
    pub bits: u32,
}

/// The bit pattern of a double-precision floating point scalar.
#[derive(Debug, Clone, Copy, PartialEq, Eq, Structural)]
pub struct DoubleBits {
    pub bits: u64,
}

/// A tagged scalar value node, as handed over by the query layer's
/// look-ahead view of a field argument.
///
/// This is a closed union: a small integer, an integer, a big integer, a
/// boolean, a string, a float (single or double precision), an opaque
/// identifier, a list of further nodes, or the null marker. Values are
/// immutable once constructed. Each variant keeps its own tag; conversions
/// never coerce one integer width into another.
#[derive(Debug, PartialEq)]
pub enum ScalarValue {
    SmallInt(i16),
    Int(i32),
    BigInt(i64),
    Boolean(bool),
    Text(String),
    Float(FloatBits),
    Double(DoubleBits),
    OpaqueId(String),
    List(Vec<ScalarValue>),
    Null,
}

/// The mathematical model of a [`ScalarValue`]: strings become character
/// sequences and lists become sequences of models.
pub enum ScalarAbs {
    SmallInt(i16),
    Int(i32),
    BigInt(i64),
    Boolean(bool),
    Text(Seq<char>),
    Float(u32),
    Double(u64),
    OpaqueId(Seq<char>),
    List(Seq<ScalarAbs>),
    Null,
}

/// Maps a scalar value node to its mathematical model.
pub open spec fn scalar_abs(v: ScalarValue) -> ScalarAbs
    decreases v,
    via scalar_abs_decreases
{
    match v {
        ScalarValue::SmallInt(i) => ScalarAbs::SmallInt(i),
        ScalarValue::Int(i) => ScalarAbs::Int(i),
        ScalarValue::BigInt(i) => ScalarAbs::BigInt(i),
        ScalarValue::Boolean(b) => ScalarAbs::Boolean(b),
        ScalarValue::Text(s) => ScalarAbs::Text(s@),
        ScalarValue::Float(f) => ScalarAbs::Float(f.bits),
        ScalarValue::Double(d) => ScalarAbs::Double(d.bits),
        ScalarValue::OpaqueId(s) => ScalarAbs::OpaqueId(s@),
        ScalarValue::List(l) => ScalarAbs::List(list_abs(l@)),
        ScalarValue::Null => ScalarAbs::Null,
    }
}

/// Maps each node of a list to its mathematical model, keeping the order.
pub open spec fn list_abs(s: Seq<ScalarValue>) -> Seq<ScalarAbs>
    decreases s,
{
    Seq::new(
        s.len(),
        |i: int|
            if 0 <= i < s.len() {
                scalar_abs(s[i])
            } else {
                ScalarAbs::Null
            },
    )
}

#[via_fn]
proof fn scalar_abs_decreases(v: ScalarValue) {
    if v is List {
        let l = v->List_0;
        assert(decreases_to!(v => l));
        assert(decreases_to!(l => l@));
    }
}

impl View for ScalarValue {
    type V = ScalarAbs;

    open spec fn view(&self) -> ScalarAbs {
        scalar_abs(*self)
    }
}

impl Clone for ScalarValue {
    /// A clone denotes the same model value as the original.
    fn clone(&self) -> (res: Self)
        ensures
            res@ == self@,
        decreases *self,
    {
        match self {
            ScalarValue::SmallInt(i) => ScalarValue::SmallInt(*i),
            ScalarValue::Int(i) => ScalarValue::Int(*i),
            ScalarValue::BigInt(i) => ScalarValue::BigInt(*i),
            ScalarValue::Boolean(b) => ScalarValue::Boolean(*b),
            ScalarValue::Text(s) => ScalarValue::Text(s.clone()),
            ScalarValue::Float(f) => ScalarValue::Float(*f),
            ScalarValue::Double(d) => ScalarValue::Double(*d),
            ScalarValue::OpaqueId(s) => ScalarValue::OpaqueId(s.clone()),
            ScalarValue::List(l) => {
                let mut out: Vec<ScalarValue> = Vec::new();
                let mut k: usize = 0;
                while k < l.len()
                    invariant
                        k <= l@.len(),
                        *self == ScalarValue::List(*l),
                        out@.len() == k,
                        forall|i: int| 0 <= i < k ==> out@[i]@ == l@[i]@,
                    decreases l@.len() - k,
                {
                    proof {
                        assert((*self)->List_0 == *l);
                        assert(decreases_to!(*self => (*self)->List_0));
                        assert(decreases_to!(*l => l@));
                        assert(decreases_to!(l@ => l@[k as int]));
                    }
                    out.push(l[k].clone());
                    k = k + 1;
                }
                proof {
                    assert(list_abs(out@) =~= list_abs(l@));
                }
                ScalarValue::List(out)
            },
            ScalarValue::Null => ScalarValue::Null,
        }
    }
}

/// Decides whether two scalar value nodes denote the same model value.
pub fn scalar_value_eq(a: &ScalarValue, b: &ScalarValue) -> (r: bool)
    ensures
        r == (a@ == b@),
    decreases *a,
{
    match (a, b) {
        (ScalarValue::SmallInt(x), ScalarValue::SmallInt(y)) => *x == *y,
        (ScalarValue::Int(x), ScalarValue::Int(y)) => *x == *y,
        (ScalarValue::BigInt(x), ScalarValue::BigInt(y)) => *x == *y,
        (ScalarValue::Boolean(x), ScalarValue::Boolean(y)) => *x == *y,
        (ScalarValue::Text(x), ScalarValue::Text(y)) => x.eq(y),
        (ScalarValue::Float(x), ScalarValue::Float(y)) => x.bits == y.bits,
        (ScalarValue::Double(x), ScalarValue::Double(y)) => x.bits == y.bits,
        (ScalarValue::OpaqueId(x), ScalarValue::OpaqueId(y)) => x.eq(y),
        (ScalarValue::List(x), ScalarValue::List(y)) => {
            if x.len() != y.len() {
                proof {
                    assert(list_abs(x@).len() != list_abs(y@).len());
                }
                return false;
            }
            let mut k: usize = 0;
            while k < x.len()
                invariant
                    k <= x@.len(),
                    x@.len() == y@.len(),
                    *a == ScalarValue::List(*x),
                    *b == ScalarValue::List(*y),
                    forall|i: int| 0 <= i < k ==> list_abs(x@)[i] == list_abs(y@)[i],
                decreases x@.len() - k,
            {
                proof {
                    assert((*a)->List_0 == *x);
                    assert(decreases_to!(*a => (*a)->List_0));
                    assert(decreases_to!(*x => x@));
                    assert(decreases_to!(x@ => x@[k as int]));
                }
                if !scalar_value_eq(&x[k], &y[k]) {
                    proof {
                        assert(list_abs(x@)[k as int] != list_abs(y@)[k as int]);
                    }
                    return false;
                }
                k = k + 1;
            }
            proof {
                assert(list_abs(x@) =~= list_abs(y@));
            }
            true
        },
        (ScalarValue::Null, ScalarValue::Null) => true,
        _ => false,
    }
}

/// Decides whether a scalar value node is the null marker.
pub fn scalar_is_null(v: &ScalarValue) -> (r: bool)
    ensures
        r == (v@ is Null),
{
    match v {
        ScalarValue::Null => true,
        _ => false,
    }
}

} // verus!
