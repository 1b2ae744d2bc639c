use crate::predicate::{eval, eval_pred, opt_pred_abs, PredAbs, Predicate};
use crate::scalar::{list_abs, ScalarAbs, ScalarValue};
use vstd::prelude::*;

verus! {

/// One stored row of a table: the values of its persisted columns, in
/// column order. A missing value is the null marker.
#[derive(Debug)]
pub struct Row {
    pub values: Vec<ScalarValue>,
}

impl View for Row {
    type V = Seq<ScalarAbs>;

    open spec fn view(&self) -> Seq<ScalarAbs> {
        list_abs(self.values@)
    }
}

impl Clone for Row {
    /// A clone denotes the same model row as the original.
    fn clone(&self) -> (res: Self)
        ensures
            res@ == self@,
    {
        let mut values: Vec<ScalarValue> = Vec::new();
        let mut k: usize = 0;
        while k < self.values.len()
            invariant
                k <= self.values@.len(),
                values@.len() == k,
                forall|i: int| 0 <= i < k ==> values@[i]@ == self.values@[i]@,
            decreases self.values@.len() - k,
        {
            values.push(self.values[k].clone());
            k = k + 1;
        }
        proof {
            assert(list_abs(values@) =~= list_abs(self.values@));
        }
        Row { values }
    }
}

/// The stored rows of one table, in insertion order: the position of a row
/// doubles as its recency — a greater position is a more recent insert.
#[derive(Debug)]
pub struct TableData {
    pub rows: Vec<Row>,
}

impl View for TableData {
    type V = Seq<Seq<ScalarAbs>>;

    open spec fn view(&self) -> Seq<Seq<ScalarAbs>> {
        Seq::new(self.rows@.len(), |i: int| self.rows@[i]@)
    }
}

/// A database: its tables, addressed by position.
#[derive(Debug)]
pub struct Database {
    pub tables: Vec<TableData>,
}

impl View for Database {
    type V = Seq<Seq<Seq<ScalarAbs>>>;

    open spec fn view(&self) -> Seq<Seq<Seq<ScalarAbs>>> {
        Seq::new(self.tables@.len(), |i: int| self.tables@[i]@)
    }
}

/// Whether a row passes an optional predicate: an absent predicate matches
/// all rows.
pub open spec fn matches_filter(
    db: Seq<Seq<Seq<ScalarAbs>>>,
    row: Seq<ScalarAbs>,
    f: Option<PredAbs>,
) -> bool {
    match f {
        None => true,
        Some(p) => eval_pred(db, row, p),
    }
}

/// The rows of a table that pass an optional predicate, in stored order.
pub open spec fn selected_rows(
    db: Seq<Seq<Seq<ScalarAbs>>>,
    rows: Seq<Seq<ScalarAbs>>,
    f: Option<PredAbs>,
) -> Seq<Seq<ScalarAbs>>
    decreases rows.len(),
{
    if rows.len() == 0 {
        Seq::empty()
    } else {
        let init = selected_rows(db, rows.drop_last(), f);
        if matches_filter(db, rows.last(), f) {
            init.push(rows.last())
        } else {
            init
        }
    }
}

/// Law: an absent predicate matches all rows — selection under it returns
/// the whole table.
pub proof fn lemma_absent_filter_matches_all_rows(
    db: Seq<Seq<Seq<ScalarAbs>>>,
    rows: Seq<Seq<ScalarAbs>>,
)
    ensures
        selected_rows(db, rows, None) == rows,
    decreases rows.len(),
{
    if rows.len() > 0 {
        lemma_absent_filter_matches_all_rows(db, rows.drop_last());
        assert(selected_rows(db, rows, None) =~= rows);
    } else {
        assert(selected_rows(db, rows, None) =~= rows);
    }
}

/// Selects the rows of a table that pass the compiled predicate, in stored
/// order; an absent predicate selects every row.
#[verifier::loop_isolation(false)]
pub fn select_where(db: &Database, table: usize, filter: &Option<Predicate>) -> (r: Vec<Row>)
    requires
        (table as int) < db.tables@.len(),
    ensures
        r@.map_values(|row: Row| row@) == selected_rows(
            db@,
            db@[table as int],
            opt_pred_abs(*filter),
        ),
{
    let t = &db.tables[table];
    let ghost rows_abs = db@[table as int];
    let mut out: Vec<Row> = Vec::new();
    let mut i: usize = 0;
    while i < t.rows.len()
        invariant
            i <= t.rows@.len(),
            out@.map_values(|row: Row| row@) == selected_rows(
                db@,
                rows_abs.take(i as int),
                opt_pred_abs(*filter),
            ),
        decreases t.rows@.len() - i,
    {
        let row = &t.rows[i];
        let keep = match filter {
            Some(p) => eval(db, row, p),
            None => true,
        };
        proof {
            assert(rows_abs.take(i as int + 1).drop_last() =~= rows_abs.take(i as int));
            assert(rows_abs.take(i as int + 1).last() == row@);
        }
        if keep {
            out.push(row.clone());
        }
        proof {
            assert(out@.map_values(|row: Row| row@) =~= selected_rows(
                db@,
                rows_abs.take(i as int + 1),
                opt_pred_abs(*filter),
            ));
        }
        i = i + 1;
    }
    proof {
        assert(rows_abs.take(t.rows@.len() as int) =~= rows_abs);
    }
    out
}

} // verus!
