use fuse_pipeline::block::clone_values;
use fuse_pipeline::block::same_values;
use fuse_pipeline::block::DataBlock;
use fuse_pipeline::block::DataColumn;
use fuse_pipeline::block::DataSchemaRef;
use fuse_pipeline::block::DataValue;
use fuse_pipeline::error::ErrorCode;
use fuse_pipeline::error::ErrorKind;
use fuse_pipeline::schema::clone_fields;
use fuse_pipeline::schema::contains_name;
use fuse_pipeline::schema::DataField;
use fuse_pipeline::schema::DataSchema;
use fuse_pipeline::schema::DataType;
use std::sync::Arc;

fn text(s: &str) -> DataValue {
    DataValue::Utf8(s.to_string())
}

fn two_fields() -> Vec<DataField> {
    vec![
        DataField::new("id".to_string(), DataType::UInt64, false),
        DataField::new("name".to_string(), DataType::Utf8, true),
    ]
}

fn schema() -> DataSchemaRef {
    Arc::new(DataSchema::new(two_fields()))
}

#[test]
fn field_getters() {
    let field = DataField::new("name".to_string(), DataType::Utf8, true);
    assert_eq!(field.name(), "name");
    assert_eq!(field.data_type(), DataType::Utf8);
    assert!(field.is_nullable());
    assert_eq!(field.clone(), field);
}

#[test]
fn field_equality_is_by_name_type_and_nullability() {
    let field = DataField::new("a".to_string(), DataType::Int64, false);
    assert_eq!(field, DataField::new("a".to_string(), DataType::Int64, false));
    assert_ne!(field, DataField::new("b".to_string(), DataType::Int64, false));
    assert_ne!(field, DataField::new("a".to_string(), DataType::UInt64, false));
    assert_ne!(field, DataField::new("a".to_string(), DataType::Int64, true));
}

#[test]
fn schema_lookup_by_name() {
    let schema = DataSchema::new(two_fields());
    assert!(schema.has_field(&"id".to_string()));
    assert!(schema.has_field(&"name".to_string()));
    assert!(!schema.has_field(&"Name".to_string()));
    assert!(!schema.has_field(&"".to_string()));
    assert!(contains_name(schema.fields(), &"name".to_string()));
    assert!(!contains_name(&Vec::new(), &"name".to_string()));
}

#[test]
fn schema_equality_is_by_fields_in_order() {
    let schema = DataSchema::new(two_fields());
    assert_eq!(schema, DataSchema::new(two_fields()));
    assert_eq!(schema.clone(), schema);
    assert_eq!(clone_fields(schema.fields()), two_fields());
    let mut swapped = two_fields();
    swapped.reverse();
    assert_ne!(schema, DataSchema::new(swapped));
    let mut shorter = two_fields();
    shorter.pop();
    assert_ne!(schema, DataSchema::new(shorter));
    assert_eq!(DataSchema::new(Vec::new()), DataSchema::new(Vec::new()));
}

#[test]
fn clone_of_a_block_shares_its_schema() {
    let first = schema();
    let block = DataBlock::create(first.clone(), Vec::new()).unwrap();
    let before = Arc::strong_count(&first);
    let copy = block.clone();
    assert!(Arc::ptr_eq(copy.schema(), &first));
    assert_eq!(Arc::strong_count(&first), before + 1);
    drop(copy);
    assert_eq!(Arc::strong_count(&first), before);
}

#[test]
fn column_out_of_range_is_none() {
    let block = DataBlock::create(schema(), vec![vec![DataValue::UInt64(1)]]).unwrap();
    assert!(block.column(0).is_some());
    assert!(block.column(1).is_none());
    assert!(block.column(usize::MAX).is_none());
}

#[test]
fn value_equality_and_clone() {
    let values = vec![
        DataValue::Null,
        DataValue::Boolean(true),
        DataValue::Int64(-1),
        DataValue::UInt64(1),
        text("x"),
    ];
    for (i, a) in values.iter().enumerate() {
        for (j, b) in values.iter().enumerate() {
            assert_eq!(a == b, i == j);
        }
        assert_eq!(&a.clone(), a);
    }
    assert_ne!(DataValue::Int64(1), DataValue::Int64(2));
    assert_ne!(text("a"), text("b"));
    assert_ne!(DataValue::Boolean(true), DataValue::Boolean(false));
    assert_eq!(clone_values(&values), values);
    assert!(same_values(&values, &clone_values(&values)));
    assert!(!same_values(&values, &values[1..].to_vec()));
    assert!(!same_values(&vec![text("a")], &vec![text("b")]));
}

#[test]
fn to_array_repeats_a_constant() {
    let out = DataColumn::Constant(text("x")).to_array(3).unwrap();
    assert_eq!(out, vec![text("x"), text("x"), text("x")]);
    let out = DataColumn::Constant(DataValue::Null).to_array(0).unwrap();
    assert_eq!(out, Vec::new());
}

#[test]
fn to_array_keeps_an_array_of_the_right_length() {
    let values = vec![DataValue::Int64(1), DataValue::Int64(2)];
    let out = DataColumn::Array(values.clone()).to_array(2).unwrap();
    assert_eq!(out, values);
}

#[test]
fn to_array_rejects_an_array_of_another_length() {
    let values = vec![DataValue::Int64(1), DataValue::Int64(2)];
    for rows in [0usize, 1, 3] {
        let err = DataColumn::Array(values.clone()).to_array(rows).err().unwrap();
        assert_eq!(err.kind(), ErrorKind::BadDataArrayLength);
        assert_eq!(err.message(), "Column length differs from the row count of its block");
    }
}

#[test]
fn create_binds_columns_to_schema() {
    let block = DataBlock::create(
        schema(),
        vec![
            vec![DataValue::UInt64(1), DataValue::UInt64(2)],
            vec![text("a"), DataValue::Null],
        ],
    )
    .unwrap();
    assert_eq!(**block.schema(), DataSchema::new(two_fields()));
    assert_eq!(block.num_columns(), 2);
    assert_eq!(block.num_rows(), 2);
    assert_eq!(block.column(1).unwrap(), &vec![text("a"), DataValue::Null]);
    assert_eq!(block.clone(), block);
}

#[test]
fn create_without_columns_has_no_rows() {
    let block = DataBlock::create(schema(), Vec::new()).unwrap();
    assert_eq!(block.num_columns(), 0);
    assert_eq!(block.num_rows(), 0);
}

#[test]
fn create_rejects_columns_of_differing_lengths() {
    let made = DataBlock::create(
        schema(),
        vec![vec![DataValue::UInt64(1), DataValue::UInt64(2)], vec![text("a")]],
    );
    let err = made.err().unwrap();
    assert_eq!(err.kind(), ErrorKind::BadDataArrayLength);
    assert_eq!(err.message(), "Columns of one block differ in length");
    let made = DataBlock::create(schema(), vec![Vec::new(), vec![text("a")], Vec::new()]);
    assert_eq!(made.err().map(|e| e.kind()), Some(ErrorKind::BadDataArrayLength));
}

#[test]
fn block_equality_is_by_schema_and_values() {
    let block = DataBlock::create(schema(), vec![vec![DataValue::UInt64(1)]]).unwrap();
    let same = DataBlock::create(schema(), vec![vec![DataValue::UInt64(1)]]).unwrap();
    let other_value = DataBlock::create(schema(), vec![vec![DataValue::UInt64(2)]]).unwrap();
    let other_schema = DataBlock::create(
        Arc::new(DataSchema::new(Vec::new())),
        vec![vec![DataValue::UInt64(1)]],
    )
    .unwrap();
    let more = DataBlock::create(schema(), vec![vec![DataValue::UInt64(1)], vec![text("a")]])
        .unwrap();
    assert_eq!(block, same);
    assert_ne!(block, other_value);
    assert_ne!(block, other_schema);
    assert_ne!(block, more);
}

#[test]
fn error_code_getters_and_equality() {
    let e = ErrorCode::new(ErrorKind::BadPipeline, "no".to_string());
    assert_eq!(e.kind(), ErrorKind::BadPipeline);
    assert_eq!(e.message(), "no");
    assert_eq!(e.clone(), e);
    assert_ne!(e, ErrorCode::new(ErrorKind::BadPipeline, "yes".to_string()));
    assert_ne!(e, ErrorCode::new(ErrorKind::Evaluation, "no".to_string()));
}
