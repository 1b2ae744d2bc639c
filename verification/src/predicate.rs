use crate::scalar::{scalar_abs, ScalarAbs, ScalarValue};
use crate::strings::{like_match, like_matches};
use crate::table::{Database, Row};
use vstd::prelude::*;

verus! {

/// How a relation predicate correlates a row with the rows of a related
/// table: the row's own column is compared with a column of the target
/// table. For a filter through a reference, the own column is the foreign
/// key and the target column is the related table's key; for a filter
/// through a to-many relation, the own column is the key and the target
/// column is the related table's foreign key.
#[derive(Debug, Clone, Copy, PartialEq, Eq, Structural)]
pub struct RelationPath {
    pub own_column: usize,
    pub target_table: usize,
    pub target_column: usize,
}

/// A compiled boolean predicate over one row of a table, as the query
/// backend would receive it.
#[derive(Debug)]
pub enum Predicate {
    Equal(usize, ScalarValue),
    NotEqual(usize, ScalarValue),
    Like(usize, String),
    IsNull(usize, bool),
    Less(usize, ScalarValue),
    Greater(usize, ScalarValue),
    Not(Box<Predicate>),
    And(Box<Predicate>, Box<Predicate>),
    Related(RelationPath, Box<Predicate>),
}

/// The mathematical model of a [`Predicate`].
pub enum PredAbs {
    Equal(usize, ScalarAbs),
    NotEqual(usize, ScalarAbs),
    Like(usize, Seq<char>),
    IsNull(usize, bool),
    Less(usize, ScalarAbs),
    Greater(usize, ScalarAbs),
    Not(Box<PredAbs>),
    And(Box<PredAbs>, Box<PredAbs>),
    Related(RelationPath, Box<PredAbs>),
}

/// Maps a predicate to its mathematical model.
pub open spec fn pred_abs(p: Predicate) -> PredAbs
    decreases p,
{
    match p {
        Predicate::Equal(c, v) => PredAbs::Equal(c, scalar_abs(v)),
        Predicate::NotEqual(c, v) => PredAbs::NotEqual(c, scalar_abs(v)),
        Predicate::Like(c, s) => PredAbs::Like(c, s@),
        Predicate::IsNull(c, b) => PredAbs::IsNull(c, b),
        Predicate::Less(c, v) => PredAbs::Less(c, scalar_abs(v)),
        Predicate::Greater(c, v) => PredAbs::Greater(c, scalar_abs(v)),
        Predicate::Not(inner) => PredAbs::Not(Box::new(pred_abs(*inner))),
        Predicate::And(a, b) => PredAbs::And(Box::new(pred_abs(*a)), Box::new(pred_abs(*b))),
        Predicate::Related(path, inner) => PredAbs::Related(path, Box::new(pred_abs(*inner))),
    }
}

impl View for Predicate {
    type V = PredAbs;

    open spec fn view(&self) -> PredAbs {
        pred_abs(*self)
    }
}

/// The model of an optional predicate.
pub open spec fn opt_pred_abs(r: Option<Predicate>) -> Option<PredAbs> {
    match r {
        Some(p) => Some(pred_abs(p)),
        None => None,
    }
}

/// Strict ordering on scalar models: defined between two numeric values of
/// the same width, and false between anything else.
pub open spec fn scalar_lt(a: ScalarAbs, b: ScalarAbs) -> bool {
    match (a, b) {
        (ScalarAbs::SmallInt(x), ScalarAbs::SmallInt(y)) => x < y,
        (ScalarAbs::Int(x), ScalarAbs::Int(y)) => x < y,
        (ScalarAbs::BigInt(x), ScalarAbs::BigInt(y)) => x < y,
        _ => false,
    }
}

/// The three truth values a predicate can take on a row, as the relational
/// engine's logic assigns them: a comparison over a null cell is neither
/// satisfied nor failed but unknown, and only a true predicate keeps a row.
#[derive(Debug, Clone, Copy, PartialEq, Eq, Structural)]
pub enum Truth {
    True,
    False,
    Unknown,
}

/// Negation in three-valued logic: the unknown stays unknown, so negating a
/// comparison never turns a null cell into a match.
pub open spec fn not3(t: Truth) -> Truth {
    match t {
        Truth::True => Truth::False,
        Truth::False => Truth::True,
        Truth::Unknown => Truth::Unknown,
    }
}

/// Conjunction in three-valued logic: false wins over unknown.
pub open spec fn and3(a: Truth, b: Truth) -> Truth {
    if a is False || b is False {
        Truth::False
    } else if a is True && b is True {
        Truth::True
    } else {
        Truth::Unknown
    }
}

/// Whether one row of a relation predicate's target table correlates with
/// the given cell and satisfies the nested predicate.
pub open spec fn related_row_matches(
    db: Seq<Seq<Seq<ScalarAbs>>>,
    row2: Seq<ScalarAbs>,
    key_column: usize,
    cell: ScalarAbs,
    inner: PredAbs,
) -> bool
    decreases inner, 1int,
{
    &&& (key_column as int) < row2.len()
    &&& row2[key_column as int] == cell
    &&& pred_truth(db, row2, inner) is True
}

/// The truth value a predicate takes on one row of the database, in the
/// engine's three-valued logic.
///
/// An equality, inequality or ordering comparison over a null cell or a
/// null operand, and a pattern comparison over a null cell, are unknown; a
/// comparison over present but incomparable values (a width or tag
/// mismatch) is false. The null check itself is true or false of every
/// cell. Negation and conjunction follow three-valued logic, so a negated
/// comparison is unknown — and never keeps the row — where the comparison
/// itself is. A relation predicate is a correlated existence check: unknown
/// when the row's own cell is null (so a negated relation filter does not
/// match rows whose reference is absent either), true when some row of the
/// target table correlates and its nested predicate is true, and false
/// otherwise. A column beyond the row's width is treated as missing data:
/// unknown.
pub open spec fn pred_truth(db: Seq<Seq<Seq<ScalarAbs>>>, row: Seq<ScalarAbs>, p: PredAbs) -> Truth
    decreases p, 0int,
{
    match p {
        PredAbs::Equal(c, v) => if (c as int) >= row.len() || row[c as int] is Null || v is Null {
            Truth::Unknown
        } else if row[c as int] == v {
            Truth::True
        } else {
            Truth::False
        },
        PredAbs::NotEqual(c, v) => if (c as int) >= row.len() || row[c as int] is Null
            || v is Null {
            Truth::Unknown
        } else if row[c as int] != v {
            Truth::True
        } else {
            Truth::False
        },
        PredAbs::Like(c, pat) => if (c as int) >= row.len() || row[c as int] is Null {
            Truth::Unknown
        } else if row[c as int] matches ScalarAbs::Text(t) && like_match(pat, t) {
            Truth::True
        } else {
            Truth::False
        },
        PredAbs::IsNull(c, expects_null) => if (c as int) >= row.len() {
            Truth::Unknown
        } else if (row[c as int] is Null) == expects_null {
            Truth::True
        } else {
            Truth::False
        },
        PredAbs::Less(c, v) => if (c as int) >= row.len() || row[c as int] is Null || v is Null {
            Truth::Unknown
        } else if scalar_lt(row[c as int], v) {
            Truth::True
        } else {
            Truth::False
        },
        PredAbs::Greater(c, v) => if (c as int) >= row.len() || row[c as int] is Null
            || v is Null {
            Truth::Unknown
        } else if scalar_lt(v, row[c as int]) {
            Truth::True
        } else {
            Truth::False
        },
        PredAbs::Not(inner) => not3(pred_truth(db, row, *inner)),
        PredAbs::And(a, b) => and3(pred_truth(db, row, *a), pred_truth(db, row, *b)),
        PredAbs::Related(path, inner) => if (path.own_column as int) >= row.len()
            || row[path.own_column as int] is Null {
            Truth::Unknown
        } else if (path.target_table as int) < db.len() && exists|j: int|
            0 <= j < db[path.target_table as int].len() && related_row_matches(
                db,
                #[trigger] db[path.target_table as int][j],
                path.target_column,
                row[path.own_column as int],
                *inner,
            ) {
            Truth::True
        } else {
            Truth::False
        },
    }
}

/// Whether the row satisfies the predicate: only a true predicate keeps a
/// row, never an unknown one.
pub open spec fn eval_pred(db: Seq<Seq<Seq<ScalarAbs>>>, row: Seq<ScalarAbs>, p: PredAbs) -> bool {
    pred_truth(db, row, p) is True
}

/// Law: a relation predicate never matches a row whose relation reference
/// is null, and neither does its negation — absence of the reference does
/// not satisfy a nested filter, negated or not.
pub proof fn lemma_null_reference_never_related(
    db: Seq<Seq<Seq<ScalarAbs>>>,
    row: Seq<ScalarAbs>,
    path: RelationPath,
    inner: PredAbs,
)
    ensures
        (path.own_column as int) < row.len() && row[path.own_column as int] is Null ==> !eval_pred(
            db,
            row,
            PredAbs::Related(path, Box::new(inner)),
        ),
        (path.own_column as int) < row.len() && row[path.own_column as int] is Null ==> !eval_pred(
            db,
            row,
            PredAbs::Not(Box::new(PredAbs::Related(path, Box::new(inner)))),
        ),
{
    if (path.own_column as int) < row.len() && row[path.own_column as int] is Null {
        assert(pred_truth(db, row, PredAbs::Related(path, Box::new(inner))) == Truth::Unknown);
        assert(pred_truth(db, row, PredAbs::Not(Box::new(PredAbs::Related(path, Box::new(inner)))))
            == Truth::Unknown);
    }
}

/// Law: a comparison over a null cell is unknown, and negation keeps the
/// unknown — so neither a comparison nor its negation matches a row whose
/// compared cell is null: absence does not satisfy "not equal to X", "not
/// like X", or any other negated comparison.
pub proof fn lemma_negated_comparison_never_matches_null_cell(
    db: Seq<Seq<Seq<ScalarAbs>>>,
    row: Seq<ScalarAbs>,
    c: usize,
    v: ScalarAbs,
    pat: Seq<char>,
)
    requires
        (c as int) < row.len(),
        row[c as int] is Null,
    ensures
        !eval_pred(db, row, PredAbs::Equal(c, v)) && !eval_pred(
            db,
            row,
            PredAbs::Not(Box::new(PredAbs::Equal(c, v))),
        ),
        !eval_pred(db, row, PredAbs::NotEqual(c, v)) && !eval_pred(
            db,
            row,
            PredAbs::Not(Box::new(PredAbs::NotEqual(c, v))),
        ),
        !eval_pred(db, row, PredAbs::Like(c, pat)) && !eval_pred(
            db,
            row,
            PredAbs::Not(Box::new(PredAbs::Like(c, pat))),
        ),
        !eval_pred(db, row, PredAbs::Less(c, v)) && !eval_pred(
            db,
            row,
            PredAbs::Not(Box::new(PredAbs::Less(c, v))),
        ),
        !eval_pred(db, row, PredAbs::Greater(c, v)) && !eval_pred(
            db,
            row,
            PredAbs::Not(Box::new(PredAbs::Greater(c, v))),
        ),
{
}

/// Decides whether the strict scalar ordering holds.
pub fn scalar_value_lt(a: &ScalarValue, b: &ScalarValue) -> (r: bool)
    ensures
        r == scalar_lt(a@, b@),
{
    match (a, b) {
        (ScalarValue::SmallInt(x), ScalarValue::SmallInt(y)) => *x < *y,
        (ScalarValue::Int(x), ScalarValue::Int(y)) => *x < *y,
        (ScalarValue::BigInt(x), ScalarValue::BigInt(y)) => *x < *y,
        _ => false,
    }
}

/// Computes the three-valued truth of the predicate on the given row.
#[verifier::loop_isolation(false)]
pub fn eval_truth(db: &Database, row: &Row, p: &Predicate) -> (t: Truth)
    ensures
        t == pred_truth(db@, row@, p@),
    decreases *p,
{
    match p {
        Predicate::Equal(c, v) => {
            if *c >= row.values.len() {
                return Truth::Unknown;
            }
            let cell = &row.values[*c];
            if crate::scalar::scalar_is_null(cell) || crate::scalar::scalar_is_null(v) {
                Truth::Unknown
            } else if crate::scalar::scalar_value_eq(cell, v) {
                Truth::True
            } else {
                Truth::False
            }
        },
        Predicate::NotEqual(c, v) => {
            if *c >= row.values.len() {
                return Truth::Unknown;
            }
            let cell = &row.values[*c];
            if crate::scalar::scalar_is_null(cell) || crate::scalar::scalar_is_null(v) {
                Truth::Unknown
            } else if !crate::scalar::scalar_value_eq(cell, v) {
                Truth::True
            } else {
                Truth::False
            }
        },
        Predicate::Like(c, pat) => {
            if *c >= row.values.len() {
                return Truth::Unknown;
            }
            match &row.values[*c] {
                ScalarValue::Null => Truth::Unknown,
                ScalarValue::Text(t) => {
                    if like_matches(pat.as_str(), t.as_str()) {
                        Truth::True
                    } else {
                        Truth::False
                    }
                },
                _ => Truth::False,
            }
        },
        Predicate::IsNull(c, expects_null) => {
            if *c >= row.values.len() {
                return Truth::Unknown;
            }
            if crate::scalar::scalar_is_null(&row.values[*c]) == *expects_null {
                Truth::True
            } else {
                Truth::False
            }
        },
        Predicate::Less(c, v) => {
            if *c >= row.values.len() {
                return Truth::Unknown;
            }
            let cell = &row.values[*c];
            if crate::scalar::scalar_is_null(cell) || crate::scalar::scalar_is_null(v) {
                Truth::Unknown
            } else if scalar_value_lt(cell, v) {
                Truth::True
            } else {
                Truth::False
            }
        },
        Predicate::Greater(c, v) => {
            if *c >= row.values.len() {
                return Truth::Unknown;
            }
            let cell = &row.values[*c];
            if crate::scalar::scalar_is_null(cell) || crate::scalar::scalar_is_null(v) {
                Truth::Unknown
            } else if scalar_value_lt(v, cell) {
                Truth::True
            } else {
                Truth::False
            }
        },
        Predicate::Not(inner) => {
            match eval_truth(db, row, &*inner) {
                Truth::True => Truth::False,
                Truth::False => Truth::True,
                Truth::Unknown => Truth::Unknown,
            }
        },
        Predicate::And(a, b) => {
            let ta = eval_truth(db, row, &*a);
            let tb = eval_truth(db, row, &*b);
            if ta == Truth::False || tb == Truth::False {
                Truth::False
            } else if ta == Truth::True && tb == Truth::True {
                Truth::True
            } else {
                Truth::Unknown
            }
        },
        Predicate::Related(path, inner) => {
            if path.own_column >= row.values.len() {
                return Truth::Unknown;
            }
            let cell = &row.values[path.own_column];
            if crate::scalar::scalar_is_null(cell) {
                return Truth::Unknown;
            }
            if path.target_table >= db.tables.len() {
                return Truth::False;
            }
            let ghost target = db@[path.target_table as int];
            let table = &db.tables[path.target_table];
            let mut j: usize = 0;
            while j < table.rows.len()
                invariant
                    j <= table.rows@.len(),
                    forall|i: int|
                        0 <= i < j ==> !related_row_matches(
                            db@,
                            #[trigger] target[i],
                            path.target_column,
                            row@[path.own_column as int],
                            (**inner)@,
                        ),
                decreases table.rows@.len() - j,
            {
                let r2 = &table.rows[j];
                proof {
                    assert(target[j as int] == r2@);
                }
                if path.target_column < r2.values.len() {
                    let key = &r2.values[path.target_column];
                    if crate::scalar::scalar_value_eq(key, cell) {
                        proof {
                            assert(decreases_to!(*p => (*p)->Related_1));
                        }
                        if eval_truth(db, r2, &*inner) == Truth::True {
                            proof {
                                assert(related_row_matches(
                                    db@,
                                    target[j as int],
                                    path.target_column,
                                    row@[path.own_column as int],
                                    (**inner)@,
                                ));
                            }
                            return Truth::True;
                        }
                    }
                }
                j = j + 1;
            }
            Truth::False
        },
    }
}

/// Decides whether the given row of the database satisfies the predicate:
/// only a true predicate keeps the row.
pub fn eval(db: &Database, row: &Row, p: &Predicate) -> (r: bool)
    ensures
        r == eval_pred(db@, row@, p@),
{
    eval_truth(db, row, p) == Truth::True
}

} // verus!
