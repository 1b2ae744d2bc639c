use wundergraph::fields::{
    FieldKind, FieldList, FieldListExtractor, NonTableFieldCollector, NonTableFieldExtractor,
    TableFieldCollector,
};

fn sample_list() -> FieldList {
    // column, relation, column, relation, relation, column
    let mut l = FieldList::new();
    l.append(FieldKind::Column);
    l.append(FieldKind::ToManyRelation);
    l.append(FieldKind::Column);
    l.append(FieldKind::ToManyRelation);
    l.append(FieldKind::ToManyRelation);
    l.append(FieldKind::Column);
    l
}

#[test]
fn empty_list_has_no_fields() {
    let l = FieldList::new();
    assert_eq!(l.len(), 0);
    assert_eq!(FieldListExtractor::field_count(&l), 0);
    assert_eq!(NonTableFieldExtractor::field_count(&l), 0);
    assert_eq!(FieldListExtractor::map(&l, 0), None);
    assert_eq!(NonTableFieldExtractor::map(&l, 0), None);
}

#[test]
fn interleaved_relations_never_consume_a_column_index() {
    let l = sample_list();
    assert_eq!(l.len(), 6);
    assert_eq!(FieldListExtractor::field_count(&l), 3);
    assert_eq!(FieldListExtractor::map(&l, 0), Some(0));
    assert_eq!(FieldListExtractor::map(&l, 1), Some(1));
    assert_eq!(FieldListExtractor::map(&l, 2), Some(2));
    assert_eq!(FieldListExtractor::map(&l, 3), None);
}

#[test]
fn relation_track_is_independent_of_the_column_track() {
    let l = sample_list();
    assert_eq!(NonTableFieldExtractor::field_count(&l), 3);
    assert_eq!(NonTableFieldExtractor::map(&l, 0), Some(0));
    assert_eq!(NonTableFieldExtractor::map(&l, 2), Some(2));
    assert_eq!(NonTableFieldExtractor::map(&l, 3), None);
}

#[test]
fn collectors_count_the_appended_field() {
    let l = sample_list();
    assert_eq!(TableFieldCollector::field_count(&l, FieldKind::Column), 4);
    assert_eq!(TableFieldCollector::field_count(&l, FieldKind::ToManyRelation), 3);
    assert_eq!(TableFieldCollector::map(&l, FieldKind::Column, 3), Some(3));
    assert_eq!(TableFieldCollector::map(&l, FieldKind::Column, 4), None);
    assert_eq!(TableFieldCollector::map(&l, FieldKind::ToManyRelation, 3), None);
    assert_eq!(NonTableFieldCollector::field_count(&l, FieldKind::ToManyRelation), 4);
    assert_eq!(NonTableFieldCollector::field_count(&l, FieldKind::Column), 3);
    assert_eq!(NonTableFieldCollector::map(&l, FieldKind::ToManyRelation, 3), Some(3));
    assert_eq!(NonTableFieldCollector::map(&l, FieldKind::Column, 3), None);
}
