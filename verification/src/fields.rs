use vstd::prelude::*;

verus! {

/// The kind of one projected field of a table: either backed by a persisted
/// column, or a to-many relation resolved out of band by a secondary query.
#[derive(Debug, Clone, Copy, PartialEq, Eq, Structural)]
pub enum FieldKind {
    Column,
    ToManyRelation,
}

/// How many fields of the given kind the list holds.
pub open spec fn track_count(s: Seq<FieldKind>, kind: FieldKind) -> nat
    decreases s.len(),
{
    if s.len() == 0 {
        0
    } else {
        track_count(s.drop_last(), kind) + if s.last() == kind {
            1nat
        } else {
            0nat
        }
    }
}

/// How many column-backed fields the list holds.
pub open spec fn column_count(s: Seq<FieldKind>) -> nat {
    track_count(s, FieldKind::Column)
}

/// How many to-many relation fields the list holds.
pub open spec fn relation_count(s: Seq<FieldKind>) -> nat {
    track_count(s, FieldKind::ToManyRelation)
}

/// One append step changes the count of a track by one exactly when the
/// appended field belongs to that track.
pub proof fn lemma_track_count_step(s: Seq<FieldKind>, kind: FieldKind, k: int)
    requires
        0 <= k < s.len(),
    ensures
        track_count(s.take(k + 1), kind) == track_count(s.take(k), kind) + if s[k] == kind {
            1nat
        } else {
            0nat
        },
{
    assert(s.take(k + 1).drop_last() =~= s.take(k));
    assert(s.take(k + 1).last() == s[k]);
}

/// A track never holds more fields than the whole list.
pub proof fn lemma_track_count_bound(s: Seq<FieldKind>, kind: FieldKind)
    ensures
        track_count(s, kind) <= s.len(),
    decreases s.len(),
{
    if s.len() > 0 {
        lemma_track_count_bound(s.drop_last(), kind);
    }
}

/// Track counts of prefixes never shrink as the list grows.
pub proof fn lemma_track_count_monotone(s: Seq<FieldKind>, kind: FieldKind, k1: int, k2: int)
    requires
        0 <= k1 <= k2 <= s.len(),
    ensures
        track_count(s.take(k1), kind) <= track_count(s.take(k2), kind),
    decreases k2 - k1,
{
    if k1 < k2 {
        lemma_track_count_monotone(s, kind, k1, k2 - 1);
        lemma_track_count_step(s, kind, k2 - 1);
    }
}

/// Law: fields appended in sequence assign each track its indices in append
/// order. A field of a track gets the index one less than the track's new
/// count — so the column-backed fields get the global indices
/// 0, 1, 2, ... in append order — and a field of the other track never
/// consumes an index of this track.
pub proof fn lemma_track_indices_follow_append_order(s: Seq<FieldKind>, kind: FieldKind)
    ensures
        forall|k: int|
            0 <= k < s.len() && s[k] == kind ==> track_count(#[trigger] s.take(k + 1), kind)
                == track_count(s.take(k), kind) + 1,
        forall|k: int|
            0 <= k < s.len() && s[k] != kind ==> track_count(#[trigger] s.take(k + 1), kind)
                == track_count(s.take(k), kind),
        forall|k: int|
            0 <= k < s.len() && s[k] == kind ==> track_count(#[trigger] s.take(k), kind)
                < track_count(s, kind),
        forall|k1: int, k2: int|
            0 <= k1 <= k2 <= s.len() ==> track_count(#[trigger] s.take(k1), kind) <= track_count(
                #[trigger] s.take(k2),
                kind,
            ),
{
    assert forall|k: int| 0 <= k < s.len() implies track_count(#[trigger] s.take(k + 1), kind)
        == track_count(s.take(k), kind) + (if s[k] == kind {
        1nat
    } else {
        0nat
    }) by {
        lemma_track_count_step(s, kind, k);
    }
    assert forall|k1: int, k2: int| 0 <= k1 <= k2 <= s.len() implies track_count(
        #[trigger] s.take(k1),
        kind,
    ) <= track_count(#[trigger] s.take(k2), kind) by {
        lemma_track_count_monotone(s, kind, k1, k2);
    }
    assert forall|k: int| 0 <= k < s.len() && s[k] == kind implies track_count(
        #[trigger] s.take(k),
        kind,
    ) < track_count(s, kind) by {
        lemma_track_count_step(s, kind, k);
        lemma_track_count_monotone(s, kind, k + 1, s.len() as int);
        assert(s.take(s.len() as int) =~= s);
    }
}

/// An ordered, append-only list of the projected fields of one table.
///
/// Two derived tracks exist over the list: the column-backed fields, which
/// shape the row tuple read from the table, and the to-many relation
/// fields, which are resolved after the primary fetch. A field's index in
/// one track is independent of its index in the other.
#[derive(Debug)]
pub struct FieldList {
    entries: Vec<FieldKind>,
}

impl View for FieldList {
    type V = Seq<FieldKind>;

    closed spec fn view(&self) -> Seq<FieldKind> {
        self.entries@
    }
}

impl FieldList {
    /// An empty field list.
    pub fn new() -> (r: FieldList)
        ensures
            r@ == Seq::<FieldKind>::empty(),
    {
        let entries: Vec<FieldKind> = Vec::new();
        proof {
            assert(entries@ =~= Seq::<FieldKind>::empty());
        }
        FieldList { entries }
    }

    /// Appends one more field; composition is append-only and the fields
    /// already listed keep their positions.
    pub fn append(&mut self, kind: FieldKind)
        ensures
            final(self)@ == old(self)@.push(kind),
    {
        self.entries.push(kind);
    }

    /// How many fields the list holds in all, both tracks together.
    pub fn len(&self) -> (r: usize)
        ensures
            r == self@.len(),
    {
        self.entries.len()
    }

    fn count_of_track(&self, kind: FieldKind) -> (r: usize)
        ensures
            r == track_count(self@, kind),
            r <= self@.len(),
    {
        let mut cnt: usize = 0;
        let mut i: usize = 0;
        while i < self.entries.len()
            invariant
                i <= self@.len(),
                cnt == track_count(self@.take(i as int), kind),
                cnt <= i,
            decreases self@.len() - i,
        {
            proof {
                lemma_track_count_step(self@, kind, i as int);
            }
            if self.entries[i] == kind {
                cnt = cnt + 1;
            }
            i = i + 1;
        }
        proof {
            assert(self@.take(self@.len() as int) =~= self@);
        }
        cnt
    }

    /// Resolves an index local to one track into the global index the field
    /// was assigned when it was appended, walking the composition from the
    /// newest field down. The lookup is absent when the index is out of
    /// range for the track.
    fn map_track(&self, kind: FieldKind, local_index: usize) -> (r: Option<usize>)
        ensures
            (r is Some) <==> (local_index as nat) < track_count(self@, kind),
            r matches Some(g) ==> g == local_index,
    {
        let mut k: usize = self.entries.len();
        let mut count: usize = self.count_of_track(kind);
        proof {
            assert(self@.take(self@.len() as int) =~= self@);
        }
        while k > 0
            invariant
                k <= self@.len(),
                count == track_count(self@.take(k as int), kind),
                count <= k,
                ((local_index as nat) < track_count(self@, kind)) <==> ((local_index as nat)
                    < count),
            decreases k,
        {
            proof {
                lemma_track_count_step(self@, kind, k - 1);
                lemma_track_count_bound(self@.take(k - 1), kind);
            }
            if self.entries[k - 1] == kind {
                if local_index == count - 1 && count > 0 {
                    return Some(local_index);
                }
                count = count - 1;
            }
            k = k - 1;
        }
        None
    }
}

/// Collects the column-backed fields of a list extended by one more field:
/// the column track of the composition of an existing list with a field
/// appended to it.
pub trait TableFieldCollector {
    /// The fields of the list being extended.
    spec fn base_fields(&self) -> Seq<FieldKind>;

    /// Number of collected fields once the next field is appended. A
    /// column-backed field raises the count by one; a to-many relation
    /// field leaves it unchanged.
    fn field_count(&self, next: FieldKind) -> (r: usize)
        requires
            self.base_fields().len() < usize::MAX,
        ensures
            r == column_count(self.base_fields().push(next)),
    ;

    /// Executes the lookup of the global index (inside the complete field
    /// list) calculated from the passed local index (inside this track).
    fn map(&self, next: FieldKind, local_index: usize) -> (r: Option<usize>)
        requires
            self.base_fields().len() < usize::MAX,
        ensures
            (r is Some) <==> (local_index as nat) < column_count(self.base_fields().push(next)),
            r matches Some(g) ==> g == local_index,
    ;
}

/// Collects the fields of a list extended by one more field which do not
/// represent a database value: the to-many relation track of the
/// composition.
pub trait NonTableFieldCollector {
    /// The fields of the list being extended.
    spec fn base_fields(&self) -> Seq<FieldKind>;

    /// Number of collected fields once the next field is appended.
    fn field_count(&self, next: FieldKind) -> (r: usize)
        requires
            self.base_fields().len() < usize::MAX,
        ensures
            r == relation_count(self.base_fields().push(next)),
    ;

    /// Executes the lookup of the global index calculated from the passed
    /// local index of the relation track.
    fn map(&self, next: FieldKind, local_index: usize) -> (r: Option<usize>)
        requires
            self.base_fields().len() < usize::MAX,
        ensures
            (r is Some) <==> (local_index as nat) < relation_count(self.base_fields().push(next)),
            r matches Some(g) ==> g == local_index,
    ;
}

/// Extracts the column-backed fields from the global field list.
pub trait FieldListExtractor {
    /// The fields of the list.
    spec fn fields(&self) -> Seq<FieldKind>;

    /// Number of extracted fields.
    fn field_count(&self) -> (r: usize)
        ensures
            r == column_count(self.fields()),
    ;

    /// Executes the lookup of the global index (inside the complete field
    /// list) calculated from the passed local index (inside the column
    /// track).
    fn map(&self, local_index: usize) -> (r: Option<usize>)
        ensures
            (r is Some) <==> (local_index as nat) < column_count(self.fields()),
            r matches Some(g) ==> g == local_index,
    ;
}

/// Extracts the fields which do not represent a database value from the
/// global field list.
pub trait NonTableFieldExtractor {
    /// The fields of the list.
    spec fn fields(&self) -> Seq<FieldKind>;

    /// Number of extracted fields.
    fn field_count(&self) -> (r: usize)
        ensures
            r == relation_count(self.fields()),
    ;

    /// Executes the lookup of the global index calculated from the passed
    /// local index of the relation track.
    fn map(&self, local_index: usize) -> (r: Option<usize>)
        ensures
            (r is Some) <==> (local_index as nat) < relation_count(self.fields()),
            r matches Some(g) ==> g == local_index,
    ;
}

impl FieldListExtractor for FieldList {
    open spec fn fields(&self) -> Seq<FieldKind> {
        self@
    }

    fn field_count(&self) -> usize {
        self.count_of_track(FieldKind::Column)
    }

    fn map(&self, local_index: usize) -> Option<usize> {
        self.map_track(FieldKind::Column, local_index)
    }
}

impl NonTableFieldExtractor for FieldList {
    open spec fn fields(&self) -> Seq<FieldKind> {
        self@
    }

    fn field_count(&self) -> usize {
        self.count_of_track(FieldKind::ToManyRelation)
    }

    fn map(&self, local_index: usize) -> Option<usize> {
        self.map_track(FieldKind::ToManyRelation, local_index)
    }
}

impl TableFieldCollector for FieldList {
    open spec fn base_fields(&self) -> Seq<FieldKind> {
        self@
    }

    fn field_count(&self, next: FieldKind) -> (r: usize) {
        let base = self.count_of_track(FieldKind::Column);
        proof {
            assert(self@.push(next).drop_last() =~= self@);
        }
        if next == FieldKind::Column {
            base + 1
        } else {
            base
        }
    }

    fn map(&self, next: FieldKind, local_index: usize) -> (r: Option<usize>) {
        proof {
            assert(self@.push(next).drop_last() =~= self@);
        }
        let total = TableFieldCollector::field_count(self, next);
        if next == FieldKind::Column && local_index == total - 1 && total > 0 {
            Some(local_index)
        } else {
            self.map_track(FieldKind::Column, local_index)
        }
    }
}

impl NonTableFieldCollector for FieldList {
    open spec fn base_fields(&self) -> Seq<FieldKind> {
        self@
    }

    fn field_count(&self, next: FieldKind) -> (r: usize) {
        let base = self.count_of_track(FieldKind::ToManyRelation);
        proof {
            assert(self@.push(next).drop_last() =~= self@);
        }
        if next == FieldKind::ToManyRelation {
            base + 1
        } else {
            base
        }
    }

    fn map(&self, next: FieldKind, local_index: usize) -> (r: Option<usize>) {
        proof {
            assert(self@.push(next).drop_last() =~= self@);
        }
        let total = NonTableFieldCollector::field_count(self, next);
        if next == FieldKind::ToManyRelation && local_index == total - 1 && total > 0 {
            Some(local_index)
        } else {
            self.map_track(FieldKind::ToManyRelation, local_index)
        }
    }
}

} // verus!
