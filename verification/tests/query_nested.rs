use wundergraph::filter::{
    compile_object, Equal, FilterExpr, FilterField, FilterObject, FilterOperator, IsNull, Like,
    NotEqual, ReferenceFilter, RelatedFilter,
};
use wundergraph::scalar::ScalarValue;
use wundergraph::table::{select_where, Database, Row, TableData};

// Table positions.
const HEROS: usize = 0;
const SPECIES: usize = 1;
const WORLDS: usize = 2;

// Hero columns.
const HERO_ID: usize = 0;
const HERO_NAME: usize = 1;
const HERO_SPECIES: usize = 2;
const HERO_HOME_WORLD: usize = 3;

// Columns shared by the species and worlds tables.
const KEY: usize = 0;
const NAME: usize = 1;

fn text(s: &str) -> ScalarValue {
    ScalarValue::Text(String::from(s))
}

fn hero(id: i32, name: &str, species: i32, home_world: Option<i32>) -> Row {
    Row {
        values: vec![
            ScalarValue::Int(id),
            text(name),
            ScalarValue::Int(species),
            match home_world {
                Some(w) => ScalarValue::Int(w),
                None => ScalarValue::Null,
            },
        ],
    }
}

fn named_row(id: i32, name: &str) -> Row {
    Row { values: vec![ScalarValue::Int(id), text(name)] }
}

fn example_database() -> Database {
    Database {
        tables: vec![
            TableData {
                rows: vec![
                    hero(1, "Luke Skywalker", 1, Some(1)),
                    hero(2, "Darth Vader", 1, Some(1)),
                    hero(3, "Han Solo", 1, None),
                    hero(4, "Leia Organa", 1, Some(2)),
                    hero(5, "Wilhuff Tarkin", 1, None),
                ],
            },
            TableData { rows: vec![named_row(1, "Human")] },
            TableData { rows: vec![named_row(1, "Tatooine"), named_row(2, "Alderaan")] },
        ],
    }
}

fn hero_names(db: &Database, filter: FilterObject) -> Vec<String> {
    let compiled = compile_object(filter);
    let rows = select_where(db, HEROS, &compiled);
    let mut names = Vec::new();
    for row in rows {
        match &row.values[HERO_NAME] {
            ScalarValue::Text(s) => names.push(s.clone()),
            _ => panic!("a hero name is not text"),
        }
    }
    names
}

fn name_filter(op: FilterOperator) -> FilterObject {
    FilterObject { entries: vec![FilterExpr::Field(FilterField { column: NAME, op })] }
}

fn home_world_filter(is_null: Option<bool>, inner: FilterObject) -> FilterObject {
    FilterObject {
        entries: vec![
            FilterExpr::BelongsTo(ReferenceFilter {
                foreign_key_column: HERO_HOME_WORLD,
                target_table: WORLDS,
                target_key_column: KEY,
                reference_is_null: IsNull(is_null),
                inner,
            }),
        ],
    }
}

#[test]
fn relation_filter_without_present_leaves_restricts_nothing() {
    // A to-many relation filter whose nested object has no present leaves
    // compiles to no predicate: it matches every hero, whether or not the
    // hero has a home world with related rows.
    let db = example_database();
    let filter = home_world_filter(
        None,
        FilterObject {
            entries: vec![
                FilterExpr::HasMany(RelatedFilter {
                    key_column: KEY,
                    target_table: HEROS,
                    target_foreign_key_column: HERO_HOME_WORLD,
                    inner: FilterObject {
                        entries: vec![
                            FilterExpr::Field(FilterField {
                                column: HERO_NAME,
                                op: FilterOperator::Like(Like::new(None)),
                            }),
                        ],
                    },
                }),
            ],
        },
    );
    assert_eq!(
        hero_names(&db, filter),
        vec!["Luke Skywalker", "Darth Vader", "Han Solo", "Leia Organa", "Wilhuff Tarkin"]
    );
}

#[test]
fn query_filter_eq_not_nullable_child() {
    let db = example_database();
    let filter = FilterObject {
        entries: vec![
            FilterExpr::BelongsTo(ReferenceFilter {
                foreign_key_column: HERO_SPECIES,
                target_table: SPECIES,
                target_key_column: KEY,
                reference_is_null: IsNull(None),
                inner: name_filter(FilterOperator::Equal(Equal(Some(text("Human"))))),
            }),
        ],
    };
    assert_eq!(
        hero_names(&db, filter),
        vec!["Luke Skywalker", "Darth Vader", "Han Solo", "Leia Organa", "Wilhuff Tarkin"]
    );
}

#[test]
fn query_filter_eq_nullable_child() {
    let db = example_database();
    let filter = home_world_filter(
        None,
        name_filter(FilterOperator::Equal(Equal(Some(text("Alderaan"))))),
    );
    assert_eq!(hero_names(&db, filter), vec!["Leia Organa"]);
}

#[test]
fn query_filter_nullable_child_is_null() {
    let db = example_database();
    let filter = home_world_filter(Some(true), FilterObject { entries: vec![] });
    assert_eq!(hero_names(&db, filter), vec!["Han Solo", "Wilhuff Tarkin"]);
}

#[test]
fn query_filter_negative_expression() {
    let db = example_database();
    let filter = home_world_filter(
        None,
        name_filter(FilterOperator::NotEqual(NotEqual(Some(text("Tatooine"))))),
    );
    // Only Leia has a home world that is set and not "Tatooine"; heroes
    // without a home world never match the negated nested filter.
    assert_eq!(hero_names(&db, filter), vec!["Leia Organa"]);
}

#[test]
fn query_filter_double_nested() {
    let db = example_database();
    let filter = home_world_filter(
        None,
        FilterObject {
            entries: vec![
                FilterExpr::HasMany(RelatedFilter {
                    key_column: KEY,
                    target_table: HEROS,
                    target_foreign_key_column: HERO_HOME_WORLD,
                    inner: FilterObject {
                        entries: vec![
                            FilterExpr::Field(FilterField {
                                column: HERO_NAME,
                                op: FilterOperator::Like(Like::new(Some(String::from("Luke%")))),
                            }),
                        ],
                    },
                }),
            ],
        },
    );
    assert_eq!(hero_names(&db, filter), vec!["Luke Skywalker", "Darth Vader"]);
}

#[test]
fn query_filter_double_nested_negative() {
    let db = example_database();
    let filter = home_world_filter(
        None,
        FilterObject {
            entries: vec![
                FilterExpr::HasMany(RelatedFilter {
                    key_column: KEY,
                    target_table: HEROS,
                    target_foreign_key_column: HERO_HOME_WORLD,
                    inner: FilterObject {
                        entries: vec![
                            FilterExpr::Field(FilterField {
                                column: HERO_NAME,
                                op: FilterOperator::NotEqual(NotEqual(Some(text("Leia Organa")))),
                            }),
                        ],
                    },
                }),
            ],
        },
    );
    assert_eq!(hero_names(&db, filter), vec!["Luke Skywalker", "Darth Vader"]);
}
