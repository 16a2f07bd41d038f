use fuse_pipeline::block::DataSchemaRef;
use fuse_pipeline::plan_insert_into::InputSource;
use fuse_pipeline::plan_insert_into::InsertIntoPlan;
use fuse_pipeline::schema::DataField;
use fuse_pipeline::schema::DataSchema;
use fuse_pipeline::schema::DataType;
use std::sync::Arc;

/// A plan tree, as a planner might hand it over.
#[derive(Clone, Debug, PartialEq)]
enum Plan {
    Scan(String),
    Limit(u64, Box<Plan>),
}

/// An expression tree, as a planner might hand it over.
#[derive(Clone, Debug, PartialEq)]
enum Expr {
    Literal(i64),
    Add(Box<Expr>, Box<Expr>),
}

type Insert = InsertIntoPlan<Plan, Expr>;

fn schema() -> DataSchemaRef {
    Arc::new(DataSchema::new(vec![DataField::new("a".to_string(), DataType::Int64, false)]))
}

fn other_schema() -> DataSchemaRef {
    Arc::new(DataSchema::new(vec![DataField::new("a".to_string(), DataType::Utf8, false)]))
}

fn name(s: &str) -> String {
    s.to_string()
}

#[test]
fn insert_values_sets_expressions_and_keeps_the_rest() {
    let s = schema();
    let rows = vec![
        vec![Expr::Literal(1), Expr::Add(Box::new(Expr::Literal(1)), Box::new(Expr::Literal(2)))],
        vec![],
    ];
    let plan = Insert::insert_values(name("db"), name("t"), 7, s.clone(), true, rows.clone());
    assert_eq!(plan.database_name, "db");
    assert_eq!(plan.table_name, "t");
    assert_eq!(plan.table_id, 7);
    assert!(Arc::ptr_eq(&plan.schema, &s));
    assert!(plan.overwrite);
    match plan.source {
        InputSource::Expressions(values) => assert_eq!(values, rows),
        _ => panic!("insert_values makes an Expressions source"),
    }
}

#[test]
fn insert_select_sets_select_plan_and_keeps_the_rest() {
    let s = schema();
    let select = Plan::Limit(10, Box::new(Plan::Scan(name("numbers"))));
    let plan = Insert::insert_select(name("db"), name("t"), 0, s.clone(), false, select.clone());
    assert_eq!(plan.database_name, "db");
    assert_eq!(plan.table_name, "t");
    assert_eq!(plan.table_id, 0);
    assert!(Arc::ptr_eq(&plan.schema, &s));
    assert!(!plan.overwrite);
    match plan.source {
        InputSource::SelectPlan(inner) => assert_eq!(*inner, select),
        _ => panic!("insert_select makes a SelectPlan source"),
    }
}

#[test]
fn insert_without_source_sets_format_and_keeps_the_rest() {
    let s = schema();
    let plan =
        Insert::insert_without_source(name("db"), name("t"), u64::MAX, s.clone(), true, name("CSV"));
    assert_eq!(plan.database_name, "db");
    assert_eq!(plan.table_name, "t");
    assert_eq!(plan.table_id, u64::MAX);
    assert!(Arc::ptr_eq(&plan.schema, &s));
    assert!(plan.overwrite);
    match plan.source {
        InputSource::StreamingWithFormat(format) => assert_eq!(format, "CSV"),
        _ => panic!("insert_without_source makes a StreamingWithFormat source"),
    }
}

#[test]
fn equality_ignores_table_id_overwrite_and_source() {
    let values =
        Insert::insert_values(name("db"), name("t"), 1, schema(), false, vec![vec![Expr::Literal(1)]]);
    let streaming = Insert::insert_without_source(name("db"), name("t"), 2, schema(), true, name("CSV"));
    let select =
        Insert::insert_select(name("db"), name("t"), 3, schema(), true, Plan::Scan(name("x")));
    assert!(values == streaming);
    assert!(streaming == values);
    assert!(values == select);
    assert!(select == streaming);
    assert!(values == values.clone());
}

#[test]
fn equality_tells_destinations_apart() {
    let plan =
        Insert::insert_values(name("db"), name("t"), 1, schema(), false, vec![vec![Expr::Literal(1)]]);
    let other_table =
        Insert::insert_values(name("db"), name("t2"), 1, schema(), false, vec![vec![Expr::Literal(1)]]);
    let other_database =
        Insert::insert_values(name("db2"), name("t"), 1, schema(), false, vec![vec![Expr::Literal(1)]]);
    let other_shape = Insert::insert_values(
        name("db"),
        name("t"),
        1,
        other_schema(),
        false,
        vec![vec![Expr::Literal(1)]],
    );
    assert!(plan != other_table);
    assert!(plan != other_database);
    assert!(plan != other_shape);
}

#[test]
fn schema_hands_out_the_plans_own_schema() {
    let s = schema();
    let plan = Insert::insert_without_source(name("db"), name("t"), 1, s.clone(), false, name("JSON"));
    let before = Arc::strong_count(&s);
    let handle = plan.schema();
    assert!(Arc::ptr_eq(&handle, &s));
    assert_eq!(Arc::strong_count(&s), before + 1);
    assert_eq!(*handle, *schema());
}

#[test]
fn clone_keeps_every_field() {
    let plan = Insert::insert_select(name("db"), name("t"), 5, schema(), true, Plan::Scan(name("x")));
    let copy = plan.clone();
    assert_eq!(copy.database_name, "db");
    assert_eq!(copy.table_name, "t");
    assert_eq!(copy.table_id, 5);
    assert!(Arc::ptr_eq(&copy.schema, &plan.schema));
    assert!(copy.overwrite);
    match copy.source {
        InputSource::SelectPlan(inner) => assert_eq!(*inner, Plan::Scan(name("x"))),
        _ => panic!("a clone keeps the source"),
    }
}
