use crate::fields::{column_count, FieldList, FieldListExtractor};
use crate::scalar::{list_abs, ScalarValue};
use crate::table::{Row, TableData};
use vstd::prelude::*;

verus! {

/// Projects a stored row through the field list's column track: the value
/// of each projected field in track order, resolved through the indexer's
/// lookup — the same projection path ordinary reads use.
#[verifier::loop_isolation(false)]
pub fn project_row(fields: &FieldList, row: &Row) -> (r: Vec<ScalarValue>)
    requires
        column_count(fields@) <= row.values@.len(),
    ensures
        list_abs(r@) == row@.subrange(0, column_count(fields@) as int),
{
    let n = FieldListExtractor::field_count(fields);
    let mut out: Vec<ScalarValue> = Vec::new();
    let mut local: usize = 0;
    while local < n
        invariant
            local <= n,
            out@.len() == local,
            forall|i: int| 0 <= i < local ==> out@[i]@ == row@[i],
        decreases n - local,
    {
        let g = match FieldListExtractor::map(fields, local) {
            Some(g) => g,
            None => {
                proof {
                    assert(false);
                }
                return out;
            },
        };
        out.push(row.values[g].clone());
        local = local + 1;
    }
    proof {
        assert(list_abs(out@) =~= row@.subrange(0, column_count(fields@) as int));
    }
    out
}

/// Wraps an insert and a post-insert re-selection in one atomic step: the
/// row is stored, then the newest row — ordered by recency, limited to one
/// — is re-read and projected through the field list. The returned values
/// equal the inserted values of the projected columns: the round trip is
/// exact.
pub fn handle_insert(table: &mut TableData, fields: &FieldList, row: Row) -> (r: Vec<ScalarValue>)
    requires
        column_count(fields@) <= row.values@.len(),
    ensures
        final(table)@ == old(table)@.push(row@),
        list_abs(r@) == row@.subrange(0, column_count(fields@) as int),
{
    let ghost rv = row@;
    table.rows.push(row);
    proof {
        assert(table@ =~= old(table)@.push(rv));
    }
    let idx = table.rows.len() - 1;
    let newest = &table.rows[idx];
    proof {
        assert(newest@ == rv);
    }
    project_row(fields, newest)
}

/// Wraps a batch insert and its re-selection in one atomic step: every row
/// of the batch is stored in order, then the newest rows — ordered most
/// recent first and limited to the number of rows inserted — are re-read,
/// projected, and reversed, so the results come back in insertion order
/// with values equal to what was inserted.
#[verifier::loop_isolation(false)]
pub fn handle_batch_insert(table: &mut TableData, fields: &FieldList, batch: Vec<Row>) -> (r: Vec<
    Vec<ScalarValue>,
>)
    requires
        forall|i: int|
            0 <= i < batch@.len() ==> column_count(fields@) <= #[trigger] batch@[i].values@.len(),
    ensures
        final(table)@ == old(table)@ + batch@.map_values(|row: Row| row@),
        r@.len() == batch@.len(),
        forall|i: int|
            0 <= i < r@.len() ==> list_abs(#[trigger] r@[i]@) == batch@[i]@.subrange(
                0,
                column_count(fields@) as int,
            ),
{
    let ghost b = batch@;
    let ghost old_rows = table.rows@;
    let n = batch.len();
    let mut remaining = batch;
    let mut k: usize = 0;
    while remaining.len() > 0
        invariant
            k + remaining@.len() == n,
            remaining@ == b.skip(k as int),
            table.rows@ == old_rows + b.take(k as int),
        decreases remaining@.len(),
    {
        let row = remaining.remove(0);
        proof {
            assert(row == b[k as int]);
            assert(remaining@ =~= b.skip(k as int + 1));
        }
        table.rows.push(row);
        proof {
            assert(table.rows@ =~= old_rows + b.take(k as int + 1));
        }
        k = k + 1;
    }
    proof {
        assert(b.take(n as int) =~= b);
        assert(table@ =~= old(table)@ + b.map_values(|row: Row| row@));
    }
    // re-selection: most recent first, limited to the number of rows inserted
    let total = table.rows.len();
    let mut desc: Vec<Vec<ScalarValue>> = Vec::new();
    let mut j: usize = 0;
    while j < n
        invariant
            j <= n,
            total == old_rows.len() + n,
            table.rows@ == old_rows + b,
            desc@.len() == j,
            forall|i: int|
                0 <= i < j ==> list_abs(#[trigger] desc@[i]@) == b[n - 1 - i]@.subrange(
                    0,
                    column_count(fields@) as int,
                ),
        decreases n - j,
    {
        let idx = total - 1 - j;
        proof {
            assert(table.rows@[idx as int] == b[n - 1 - j as int]);
        }
        let projected = project_row(fields, &table.rows[idx]);
        desc.push(projected);
        j = j + 1;
    }
    // reverse the descending re-read to restore insertion order
    let ghost d = desc@;
    let mut out: Vec<Vec<ScalarValue>> = Vec::new();
    let mut taken: usize = 0;
    while taken < n
        invariant
            taken <= n,
            d.len() == n,
            desc@ == d.take((n - taken) as int),
            out@.len() == taken,
            forall|i: int| 0 <= i < taken ==> out@[i] == d[n - 1 - i],
        decreases n - taken,
    {
        let v = match desc.pop() {
            Some(v) => v,
            None => {
                proof {
                    assert(false);
                }
                return out;
            },
        };
        proof {
            assert(v == d.take((n - taken) as int)[n - taken - 1]);
            assert(v == d[n - taken - 1]);
        }
        out.push(v);
        taken = taken + 1;
    }
    proof {
        assert forall|i: int| 0 <= i < out@.len() implies list_abs(#[trigger] out@[i]@)
            == b[i]@.subrange(0, column_count(fields@) as int) by {
            assert(out@[i] == d[n - 1 - i]);
            assert(list_abs(d[n - 1 - i]@) == b[n - 1 - (n - 1 - i)]@.subrange(
                0,
                column_count(fields@) as int,
            ));
        }
    }
    out
}

} // verus!
