use crate::lookahead::FromLookAheadValue;
use crate::predicate::{opt_pred_abs, PredAbs, Predicate, RelationPath};
use crate::scalar::{scalar_abs, ScalarAbs, ScalarValue};
use vstd::prelude::*;

verus! {

broadcast use vstd::std_specs::vec::axiom_vec_decreases_to_view, vstd::seq::axiom_seq_index_decreases;

/// Compilation of one filter node into a backend predicate fragment.
///
/// A node whose operand is absent contributes no predicate: an omitted
/// filter key never restricts results.
pub trait BuildFilter: Sized {
    /// The predicate the node denotes against a target column; absent when
    /// the node's operand is absent.
    spec fn filter_for(self, column: usize) -> Option<PredAbs>;

    /// Compiles the node against its target column.
    fn into_filter(self, column: usize) -> (r: Option<Predicate>)
        ensures
            opt_pred_abs(r) == self.filter_for(column),
    ;
}

/// An equality filter node: matches rows whose column holds exactly the
/// operand.
#[derive(Debug)]
pub struct Equal(pub Option<ScalarValue>);

/// An inequality filter node: matches rows whose column holds a value, and
/// not the operand's.
#[derive(Debug)]
pub struct NotEqual(pub Option<ScalarValue>);

/// A filter node representing a pattern match; the pattern string is taken
/// verbatim.
#[derive(Debug)]
pub struct Like(pub Option<String>);

impl Like {
    pub fn new(v: Option<String>) -> (r: Self)
        ensures
            r.0 == v,
    {
        Self(v)
    }
}

impl Clone for Like {
    /// A clone holds the same pattern as the original.
    fn clone(&self) -> (res: Self)
        ensures
            res.0 == self.0,
    {
        match &self.0 {
            Some(p) => Like(Some(p.clone())),
            None => Like(None),
        }
    }
}

/// A null-check filter node: a true operand matches rows whose column is
/// null, a false operand rows whose column is not.
#[derive(Debug)]
pub struct IsNull(pub Option<bool>);

/// An ordering filter node: matches rows whose column holds a value below
/// the operand.
#[derive(Debug)]
pub struct LessThan(pub Option<ScalarValue>);

/// An ordering filter node: matches rows whose column holds a value above
/// the operand.
#[derive(Debug)]
pub struct GreaterThan(pub Option<ScalarValue>);

/// A filter node representing a negation operation.
///
/// The compiled negation is evaluated in the engine's three-valued logic:
/// where the inner comparison is unknown — its compared cell is null — the
/// negation is unknown too and keeps no row. Absence never satisfies a
/// negated comparison.
#[derive(Debug)]
pub struct Not<I>(pub I);

impl BuildFilter for Equal {
    open spec fn filter_for(self, column: usize) -> Option<PredAbs> {
        match self.0 {
            Some(v) => Some(PredAbs::Equal(column, scalar_abs(v))),
            None => None,
        }
    }

    fn into_filter(self, column: usize) -> Option<Predicate> {
        match self.0 {
            Some(v) => Some(Predicate::Equal(column, v)),
            None => None,
        }
    }
}

impl BuildFilter for NotEqual {
    open spec fn filter_for(self, column: usize) -> Option<PredAbs> {
        match self.0 {
            Some(v) => Some(PredAbs::NotEqual(column, scalar_abs(v))),
            None => None,
        }
    }

    fn into_filter(self, column: usize) -> Option<Predicate> {
        match self.0 {
            Some(v) => Some(Predicate::NotEqual(column, v)),
            None => None,
        }
    }
}

impl BuildFilter for Like {
    open spec fn filter_for(self, column: usize) -> Option<PredAbs> {
        match self.0 {
            Some(p) => Some(PredAbs::Like(column, p@)),
            None => None,
        }
    }

    fn into_filter(self, column: usize) -> Option<Predicate> {
        match self.0 {
            Some(p) => Some(Predicate::Like(column, p)),
            None => None,
        }
    }
}

impl BuildFilter for IsNull {
    open spec fn filter_for(self, column: usize) -> Option<PredAbs> {
        match self.0 {
            Some(b) => Some(PredAbs::IsNull(column, b)),
            None => None,
        }
    }

    fn into_filter(self, column: usize) -> Option<Predicate> {
        match self.0 {
            Some(b) => Some(Predicate::IsNull(column, b)),
            None => None,
        }
    }
}

impl BuildFilter for LessThan {
    open spec fn filter_for(self, column: usize) -> Option<PredAbs> {
        match self.0 {
            Some(v) => Some(PredAbs::Less(column, scalar_abs(v))),
            None => None,
        }
    }

    fn into_filter(self, column: usize) -> Option<Predicate> {
        match self.0 {
            Some(v) => Some(Predicate::Less(column, v)),
            None => None,
        }
    }
}

impl BuildFilter for GreaterThan {
    open spec fn filter_for(self, column: usize) -> Option<PredAbs> {
        match self.0 {
            Some(v) => Some(PredAbs::Greater(column, scalar_abs(v))),
            None => None,
        }
    }

    fn into_filter(self, column: usize) -> Option<Predicate> {
        match self.0 {
            Some(v) => Some(Predicate::Greater(column, v)),
            None => None,
        }
    }
}

impl<I: BuildFilter> BuildFilter for Not<I> {
    /// The negation of what the inner node compiles to; negating "no
    /// constraint" stays "no constraint".
    open spec fn filter_for(self, column: usize) -> Option<PredAbs> {
        match self.0.filter_for(column) {
            Some(p) => Some(PredAbs::Not(Box::new(p))),
            None => None,
        }
    }

    fn into_filter(self, column: usize) -> Option<Predicate> {
        match self.0.into_filter(column) {
            Some(p) => Some(Predicate::Not(Box::new(p))),
            None => None,
        }
    }
}

impl<I: FromLookAheadValue> FromLookAheadValue for Not<I> {
    open spec fn converts(v: ScalarAbs) -> bool {
        I::converts(v)
    }

    open spec fn converted(v: ScalarAbs, r: Not<I>) -> bool {
        I::converted(v, r.0)
    }

    fn from_look_ahead(v: &ScalarValue) -> Option<Not<I>> {
        match I::from_look_ahead(v) {
            Some(inner) => Some(Not(inner)),
            None => None,
        }
    }
}

/// Law: negating an absent predicate yields an absent predicate — the
/// negation node compiles to no predicate exactly when its inner node
/// compiles to none.
pub proof fn lemma_not_preserves_absence<I: BuildFilter>(node: Not<I>, column: usize)
    ensures
        (node.filter_for(column) is None) <==> (node.0.filter_for(column) is None),
{
}

/// One leaf of a filter object: an operator node aimed at one column.
#[derive(Debug)]
pub struct FilterField {
    pub column: usize,
    pub op: FilterOperator,
}

/// The operator a filter field applies to its column.
#[derive(Debug)]
pub enum FilterOperator {
    Equal(Equal),
    NotEqual(NotEqual),
    Like(Like),
    NotLike(Not<Like>),
    IsNull(IsNull),
    LessThan(LessThan),
    GreaterThan(GreaterThan),
}

/// A filter through a reference to a related row: an optional null check on
/// the foreign key itself, and a nested filter object over the related
/// table.
#[derive(Debug)]
pub struct ReferenceFilter {
    pub foreign_key_column: usize,
    pub target_table: usize,
    pub target_key_column: usize,
    pub reference_is_null: IsNull,
    pub inner: FilterObject,
}

/// A filter through a to-many relation: the row matches when some related
/// row — one whose foreign key holds this row's key — passes the nested
/// filter object. A nested object with no present leaves makes the whole
/// relation filter absent: it restricts nothing, whether or not related
/// rows exist.
#[derive(Debug)]
pub struct RelatedFilter {
    pub key_column: usize,
    pub target_table: usize,
    pub target_foreign_key_column: usize,
    pub inner: FilterObject,
}

/// One entry of a filter object.
#[derive(Debug)]
pub enum FilterExpr {
    Field(FilterField),
    BelongsTo(ReferenceFilter),
    HasMany(RelatedFilter),
}

/// A filter object: the conjunction of its entries, each of which may be
/// absent.
#[derive(Debug)]
pub struct FilterObject {
    pub entries: Vec<FilterExpr>,
}

/// What one filter field compiles to.
pub open spec fn spec_field_filter(f: FilterField) -> Option<PredAbs> {
    match f.op {
        FilterOperator::Equal(n) => n.filter_for(f.column),
        FilterOperator::NotEqual(n) => n.filter_for(f.column),
        FilterOperator::Like(n) => n.filter_for(f.column),
        FilterOperator::NotLike(n) => n.filter_for(f.column),
        FilterOperator::IsNull(n) => n.filter_for(f.column),
        FilterOperator::LessThan(n) => n.filter_for(f.column),
        FilterOperator::GreaterThan(n) => n.filter_for(f.column),
    }
}

/// The conjunction of two optional predicates: an absent side restricts
/// nothing, and two absent sides stay absent.
pub open spec fn and_filters_abs(a: Option<PredAbs>, b: Option<PredAbs>) -> Option<PredAbs> {
    match (a, b) {
        (Some(x), Some(y)) => Some(PredAbs::And(Box::new(x), Box::new(y))),
        (Some(x), None) => Some(x),
        (None, Some(y)) => Some(y),
        (None, None) => None,
    }
}

/// What a filter object compiles to: the conjunction of its entries'
/// predicates; a filter object with no present leaves compiles to no
/// predicate and matches all rows.
pub open spec fn spec_compile_object(o: FilterObject) -> Option<PredAbs>
    decreases o, 1int, 0int,
    via spec_compile_object_decreases
{
    spec_compile_suffix(o.entries@, 0)
}

/// The conjunction of the entries from the given position on.
pub open spec fn spec_compile_suffix(s: Seq<FilterExpr>, i: int) -> Option<PredAbs>
    decreases s, 0int, s.len() - i,
    via spec_compile_suffix_decreases
{
    if i < 0 || i >= s.len() {
        None
    } else {
        and_filters_abs(spec_compile_expr(s[i]), spec_compile_suffix(s, i + 1))
    }
}

/// What one filter entry compiles to. A reference filter conjoins the null
/// check on the foreign key with a relation predicate over the nested
/// object; either part may be absent. A to-many filter is a relation
/// predicate over the nested object, absent when the nested object is.
pub open spec fn spec_compile_expr(e: FilterExpr) -> Option<PredAbs>
    decreases e, 2int, 0int,
    via spec_compile_expr_decreases
{
    match e {
        FilterExpr::Field(f) => spec_field_filter(f),
        FilterExpr::BelongsTo(rf) => {
            let null_part = rf.reference_is_null.filter_for(rf.foreign_key_column);
            let nested = match spec_compile_object(rf.inner) {
                Some(p) => Some(
                    PredAbs::Related(
                        RelationPath {
                            own_column: rf.foreign_key_column,
                            target_table: rf.target_table,
                            target_column: rf.target_key_column,
                        },
                        Box::new(p),
                    ),
                ),
                None => None,
            };
            and_filters_abs(null_part, nested)
        },
        FilterExpr::HasMany(hf) => match spec_compile_object(hf.inner) {
            Some(p) => Some(
                PredAbs::Related(
                    RelationPath {
                        own_column: hf.key_column,
                        target_table: hf.target_table,
                        target_column: hf.target_foreign_key_column,
                    },
                    Box::new(p),
                ),
            ),
            None => None,
        },
    }
}

#[via_fn]
proof fn spec_compile_object_decreases(o: FilterObject) {
    assert(decreases_to!(o => o.entries));
    assert(decreases_to!(o.entries => o.entries@));
}

#[via_fn]
proof fn spec_compile_suffix_decreases(s: Seq<FilterExpr>, i: int) {
    if 0 <= i < s.len() {
        assert(decreases_to!(s => s[i]));
    }
}

#[via_fn]
proof fn spec_compile_expr_decreases(e: FilterExpr) {
    if e is BelongsTo {
        let rf = e->BelongsTo_0;
        assert(decreases_to!(e => rf));
        assert(decreases_to!(rf => rf.inner));
    }
    if e is HasMany {
        let hf = e->HasMany_0;
        assert(decreases_to!(e => hf));
        assert(decreases_to!(hf => hf.inner));
    }
}

/// Combines two compiled fragments by logical conjunction; an absent side
/// restricts nothing.
pub fn and_filters(a: Option<Predicate>, b: Option<Predicate>) -> (r: Option<Predicate>)
    ensures
        opt_pred_abs(r) == and_filters_abs(opt_pred_abs(a), opt_pred_abs(b)),
{
    match (a, b) {
        (Some(x), Some(y)) => Some(Predicate::And(Box::new(x), Box::new(y))),
        (Some(x), None) => Some(x),
        (None, Some(y)) => Some(y),
        (None, None) => None,
    }
}

/// Compiles one filter field against its column.
pub fn compile_field(f: FilterField) -> (r: Option<Predicate>)
    ensures
        opt_pred_abs(r) == spec_field_filter(f),
{
    let column = f.column;
    match f.op {
        FilterOperator::Equal(n) => n.into_filter(column),
        FilterOperator::NotEqual(n) => n.into_filter(column),
        FilterOperator::Like(n) => n.into_filter(column),
        FilterOperator::NotLike(n) => n.into_filter(column),
        FilterOperator::IsNull(n) => n.into_filter(column),
        FilterOperator::LessThan(n) => n.into_filter(column),
        FilterOperator::GreaterThan(n) => n.into_filter(column),
    }
}

/// Compiles a filter object into the conjunction of its present entries;
/// an all-absent object compiles to no predicate and matches all rows.
#[verifier::loop_isolation(false)]
pub fn compile_object(o: FilterObject) -> (r: Option<Predicate>)
    ensures
        opt_pred_abs(r) == spec_compile_object(o),
    decreases o, 1int, 0int,
{
    let ghost o0 = o;
    let mut entries = o.entries;
    let ghost s = entries@;
    let mut acc: Option<Predicate> = None;
    while entries.len() > 0
        invariant
            entries@.len() <= s.len(),
            entries@ == s.take(entries@.len() as int),
            opt_pred_abs(acc) == spec_compile_suffix(s, entries@.len() as int),
        decreases entries@.len(),
    {
        let ghost k = entries@.len() as int;
        let e = match entries.pop() {
            Some(e) => e,
            None => {
                proof {
                    assert(false);
                }
                return acc;
            },
        };
        proof {
            assert(e == s.take(k)[k - 1]);
            assert(e == s[k - 1]);
            assert(decreases_to!(o0 => o0.entries));
            assert(decreases_to!(o0.entries => s));
            assert(decreases_to!(s => s[k - 1]));
        }
        let p = compile_expr(e);
        acc = and_filters(p, acc);
        proof {
            assert(entries@ =~= s.take(entries@.len() as int));
        }
    }
    proof {
        assert(s.take(0) =~= entries@);
    }
    acc
}

/// Compiles one filter entry, recursively resolving nested relation
/// filters into correlated existence predicates against the related table.
pub fn compile_expr(e: FilterExpr) -> (r: Option<Predicate>)
    ensures
        opt_pred_abs(r) == spec_compile_expr(e),
    decreases e, 2int, 0int,
{
    let ghost e0 = e;
    match e {
        FilterExpr::Field(f) => compile_field(f),
        FilterExpr::BelongsTo(rf) => {
            proof {
                assert(rf == e0->BelongsTo_0);
                assert(decreases_to!(e0 => e0->BelongsTo_0));
                assert(decreases_to!(rf => rf.inner));
            }
            let ReferenceFilter {
                foreign_key_column,
                target_table,
                target_key_column,
                reference_is_null,
                inner,
            } = rf;
            let null_part = reference_is_null.into_filter(foreign_key_column);
            let nested = match compile_object(inner) {
                Some(p) => Some(
                    Predicate::Related(
                        RelationPath {
                            own_column: foreign_key_column,
                            target_table,
                            target_column: target_key_column,
                        },
                        Box::new(p),
                    ),
                ),
                None => None,
            };
            and_filters(null_part, nested)
        },
        FilterExpr::HasMany(hf) => {
            proof {
                assert(hf == e0->HasMany_0);
                assert(decreases_to!(e0 => e0->HasMany_0));
                assert(decreases_to!(hf => hf.inner));
            }
            let RelatedFilter { key_column, target_table, target_foreign_key_column, inner } = hf;
            match compile_object(inner) {
                Some(p) => Some(
                    Predicate::Related(
                        RelationPath {
                            own_column: key_column,
                            target_table,
                            target_column: target_foreign_key_column,
                        },
                        Box::new(p),
                    ),
                ),
                None => None,
            }
        },
    }
}

/// Law: an all-absent filter object compiles to no predicate — it matches
/// all rows.
pub proof fn lemma_all_absent_compiles_to_match_all(o: FilterObject)
    requires
        forall|i: int|
            0 <= i < o.entries@.len() ==> spec_compile_expr(#[trigger] o.entries@[i]) is None,
    ensures
        spec_compile_object(o) is None,
{
    lemma_all_absent_suffix(o.entries@, 0);
}

proof fn lemma_all_absent_suffix(s: Seq<FilterExpr>, i: int)
    requires
        i >= 0,
        forall|j: int| 0 <= j < s.len() ==> spec_compile_expr(#[trigger] s[j]) is None,
    ensures
        spec_compile_suffix(s, i) is None,
    decreases s.len() - i,
{
    if i < s.len() {
        lemma_all_absent_suffix(s, i + 1);
    }
}

} // verus!
