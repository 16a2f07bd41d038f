//! Values, columns and data blocks: immutable columnar batches of rows.

use crate::error::ErrorCode;
use crate::error::ErrorKind;
use crate::error::ErrorView;
use crate::schema::DataSchema;
use crate::schema::FieldView;
use std::sync::Arc;
use vstd::prelude::*;

verus! {

/// A shared, read-only handle to a schema.
pub type DataSchemaRef = Arc<DataSchema>;

/// Another handle to the same schema, by `Arc::clone`: the handle returned
/// points to the schema that the given one points to, and nothing is copied.
#[verifier::external_body]
pub(crate) fn share_schema(schema: &DataSchemaRef) -> (handle: DataSchemaRef)
    ensures
        handle == *schema,
{
    Arc::clone(schema)
}

/// One scalar value.
#[derive(Debug)]
pub enum DataValue {
    Null,
    Boolean(bool),
    Int64(i64),
    UInt64(u64),
    Utf8(String),
}

/// The mathematical value of a `DataValue`.
pub enum ValueView {
    Null,
    Boolean(bool),
    Int64(i64),
    UInt64(u64),
    Utf8(Seq<char>),
}

impl View for DataValue {
    type V = ValueView;

    open spec fn view(&self) -> ValueView {
        match self {
            DataValue::Null => ValueView::Null,
            DataValue::Boolean(b) => ValueView::Boolean(*b),
            DataValue::Int64(n) => ValueView::Int64(*n),
            DataValue::UInt64(n) => ValueView::UInt64(*n),
            DataValue::Utf8(s) => ValueView::Utf8(s@),
        }
    }
}

impl Clone for DataValue {
    fn clone(&self) -> (v: DataValue)
        ensures
            v@ == self@,
    {
        match self {
            DataValue::Null => DataValue::Null,
            DataValue::Boolean(b) => DataValue::Boolean(*b),
            DataValue::Int64(n) => DataValue::Int64(*n),
            DataValue::UInt64(n) => DataValue::UInt64(*n),
            DataValue::Utf8(s) => DataValue::Utf8(s.clone()),
        }
    }
}

impl PartialEq for DataValue {
    fn eq(&self, other: &DataValue) -> (same: bool) {
        match (self, other) {
            (DataValue::Null, DataValue::Null) => true,
            (DataValue::Boolean(a), DataValue::Boolean(b)) => *a == *b,
            (DataValue::Int64(a), DataValue::Int64(b)) => *a == *b,
            (DataValue::UInt64(a), DataValue::UInt64(b)) => *a == *b,
            (DataValue::Utf8(a), DataValue::Utf8(b)) => *a == *b,
            _ => false,
        }
    }
}

impl vstd::std_specs::cmp::PartialEqSpecImpl for DataValue {
    open spec fn obeys_eq_spec() -> bool {
        true
    }

    open spec fn eq_spec(&self, other: &DataValue) -> bool {
        self@ == other@
    }
}

/// The views of a column's values, in row order.
pub open spec fn value_views(values: Seq<DataValue>) -> Seq<ValueView> {
    Seq::new(values.len(), |i: int| values[i]@)
}

/// The views of a list of columns, in order.
pub open spec fn column_views(columns: Seq<Vec<DataValue>>) -> Seq<Seq<ValueView>> {
    Seq::new(columns.len(), |i: int| value_views(columns[i]@))
}

/// Whether every column of the list has the given number of rows.
pub open spec fn all_of_length(columns: Seq<Seq<ValueView>>, rows: nat) -> bool {
    forall|i: int| 0 <= i < columns.len() ==> (#[trigger] columns[i]).len() == rows
}

/// Whether all columns of the list have the same number of rows.
pub open spec fn uniform(columns: Seq<Seq<ValueView>>) -> bool {
    forall|i: int, j: int|
        0 <= i < columns.len() && 0 <= j < columns.len() ==> (#[trigger] columns[i]).len() == (
        #[trigger] columns[j]).len()
}

/// The row count of a list of columns: that of its first column, and 0 where
/// there is none.
pub open spec fn row_count(columns: Seq<Seq<ValueView>>) -> nat {
    if columns.len() == 0 {
        0
    } else {
        columns[0].len()
    }
}

/// A copy of a column.
pub fn clone_values(values: &Vec<DataValue>) -> (copy: Vec<DataValue>)
    ensures
        value_views(copy@) == value_views(values@),
{
    let mut copy: Vec<DataValue> = Vec::new();
    let mut i: usize = 0;
    while i < values.len()
        invariant
            i <= values.len(),
            copy.len() == i,
            forall|k: int| 0 <= k < i ==> (#[trigger] copy@[k])@ == values@[k]@,
        decreases values.len() - i,
    {
        copy.push(values[i].clone());
        i = i + 1;
    }
    assert(value_views(copy@) =~= value_views(values@));
    copy
}

/// Whether two columns hold the same values in the same order.
pub fn same_values(a: &Vec<DataValue>, b: &Vec<DataValue>) -> (same: bool)
    ensures
        same == (value_views(a@) == value_views(b@)),
{
    if a.len() != b.len() {
        assert(value_views(a@).len() != value_views(b@).len());
        return false;
    }
    let mut i: usize = 0;
    while i < a.len()
        invariant
            i <= a.len(),
            a.len() == b.len(),
            forall|k: int| 0 <= k < i ==> (#[trigger] a@[k])@ == b@[k]@,
        decreases a.len() - i,
    {
        if a[i] != b[i] {
            assert(value_views(a@)[i as int] != value_views(b@)[i as int]);
            return false;
        }
        i = i + 1;
    }
    assert(value_views(a@) =~= value_views(b@));
    true
}

/// What an evaluator hands back for one block: a column of values, or one
/// value that stands for every row.
#[derive(Debug)]
pub enum DataColumn {
    Array(Vec<DataValue>),
    Constant(DataValue),
}

/// The mathematical value of a `DataColumn`.
pub enum ColumnView {
    Array(Seq<ValueView>),
    Constant(ValueView),
}

impl View for DataColumn {
    type V = ColumnView;

    open spec fn view(&self) -> ColumnView {
        match self {
            DataColumn::Array(values) => ColumnView::Array(value_views(values@)),
            DataColumn::Constant(value) => ColumnView::Constant(value@),
        }
    }
}

impl ColumnView {
    /// Whether the column can stand for the given number of rows: a constant
    /// always can, an array only if that is its length.
    pub open spec fn fits(self, rows: nat) -> bool {
        match self {
            ColumnView::Array(values) => values.len() == rows,
            ColumnView::Constant(_) => true,
        }
    }

    /// The column written out for the given number of rows.
    pub open spec fn expanded(self, rows: nat) -> Seq<ValueView> {
        match self {
            ColumnView::Array(values) => values,
            ColumnView::Constant(value) => Seq::new(rows, |i: int| value),
        }
    }
}

/// The error that rejects a column whose length is not the row count of its
/// block.
pub open spec fn length_rejection() -> ErrorView {
    ErrorView {
        kind: ErrorKind::BadDataArrayLength,
        message: "Column length differs from the row count of its block"@,
    }
}

impl DataColumn {
    /// The column as an array of `rows` values. A constant is repeated `rows`
    /// times. An array of any other length than `rows` is rejected, with
    /// `BadDataArrayLength`: it is neither cut nor filled up.
    pub fn to_array(self, rows: usize) -> (r: Result<Vec<DataValue>, ErrorCode>)
        ensures
            r is Ok == self@.fits(rows as nat),
            r matches Ok(values) ==> value_views(values@) == self@.expanded(rows as nat)
                && values@.len() == rows,
            r matches Err(e) ==> e@ == length_rejection(),
    {
        match self {
            DataColumn::Array(values) => {
                if values.len() == rows {
                    Ok(values)
                } else {
                    Err(
                        ErrorCode::new(
                            ErrorKind::BadDataArrayLength,
                            "Column length differs from the row count of its block".to_string(),
                        ),
                    )
                }
            },
            DataColumn::Constant(value) => {
                let mut values: Vec<DataValue> = Vec::new();
                let mut i: usize = 0;
                while i < rows
                    invariant
                        i <= rows,
                        values.len() == i,
                        forall|k: int| 0 <= k < i ==> (#[trigger] values@[k])@ == value@,
                    decreases rows - i,
                {
                    values.push(value.clone());
                    i = i + 1;
                }
                assert(value_views(values@) =~= ColumnView::Constant(value@).expanded(
                    rows as nat,
                ));
                Ok(values)
            },
        }
    }
}

/// An immutable columnar batch of rows bound to a schema. All its columns
/// have the same number of rows.
#[derive(Debug)]
pub struct DataBlock {
    schema: DataSchemaRef,
    columns: Vec<Vec<DataValue>>,
}

/// The mathematical value of a `DataBlock`.
pub struct BlockView {
    pub schema: Seq<FieldView>,
    pub columns: Seq<Seq<ValueView>>,
}

impl View for DataBlock {
    type V = BlockView;

    closed spec fn view(&self) -> BlockView {
        BlockView { schema: self.schema@, columns: column_views(self.columns@) }
    }
}

impl DataBlock {
    #[verifier::type_invariant]
    spec fn columns_agree(&self) -> bool {
        uniform(column_views(self.columns@))
    }

    /// The block of the given columns, bound to the given schema. Columns of
    /// differing lengths are rejected, with `BadDataArrayLength`. How many
    /// columns there are is not held against the schema.
    pub fn create(schema: DataSchemaRef, columns: Vec<Vec<DataValue>>) -> (r: Result<
        DataBlock,
        ErrorCode,
    >)
        ensures
            uniform(column_views(columns@)) ==> r is Ok,
            r matches Ok(block) ==> uniform(column_views(columns@)) && block@ == (BlockView {
                schema: schema@,
                columns: column_views(columns@),
            }),
            r matches Err(e) ==> e@.kind == ErrorKind::BadDataArrayLength,
    {
        let mut i: usize = 1;
        while i < columns.len()
            invariant
                1 <= i,
                forall|k: int|
                    0 <= k < i && k < columns.len() ==> (#[trigger] columns@[k]).len()
                        == columns@[0].len(),
            decreases columns.len() - i,
        {
            if columns[i].len() != columns[0].len() {
                assert(column_views(columns@)[i as int].len() != column_views(
                    columns@,
                )[0].len());
                return Err(
                    ErrorCode::new(
                        ErrorKind::BadDataArrayLength,
                        "Columns of one block differ in length".to_string(),
                    ),
                );
            }
            i = i + 1;
        }
        assert forall|a: int, b: int| 0 <= a < columns.len() && 0 <= b < columns.len() implies (
        #[trigger] column_views(columns@)[a]).len() == (#[trigger] column_views(
            columns@,
        )[b]).len() by {
            assert(columns@[a].len() == columns@[0].len());
            assert(columns@[b].len() == columns@[0].len());
        }
        Ok(DataBlock { schema, columns })
    }

    /// The schema that the block is bound to.
    pub fn schema(&self) -> (s: &DataSchemaRef)
        ensures
            s@ == self@.schema,
    {
        &self.schema
    }

    /// The number of rows: the length of every column, and 0 where the block
    /// has no column.
    pub fn num_rows(&self) -> (rows: usize)
        ensures
            rows == row_count(self@.columns),
            all_of_length(self@.columns, rows as nat),
    {
        proof {
            use_type_invariant(self);
        }
        if self.columns.len() == 0 {
            0
        } else {
            let rows = self.columns[0].len();
            assert(column_views(self.columns@)[0].len() == rows);
            rows
        }
    }

    /// The number of columns.
    pub fn num_columns(&self) -> (n: usize)
        ensures
            n == self@.columns.len(),
    {
        self.columns.len()
    }

    /// The column at the given position, if there is one.
    pub fn column(&self, index: usize) -> (column: Option<&Vec<DataValue>>)
        ensures
            index >= self@.columns.len() ==> column is None,
            index < self@.columns.len() ==> (column matches Some(values) && value_views(values@)
                == self@.columns[index as int]),
    {
        if index < self.columns.len() {
            Some(&self.columns[index])
        } else {
            None
        }
    }
}

impl Clone for DataBlock {
    fn clone(&self) -> (b: DataBlock)
        ensures
            b@ == self@,
    {
        proof {
            use_type_invariant(self);
        }
        let mut columns: Vec<Vec<DataValue>> = Vec::new();
        let mut i: usize = 0;
        while i < self.columns.len()
            invariant
                i <= self.columns.len(),
                columns.len() == i,
                forall|k: int|
                    0 <= k < i ==> value_views((#[trigger] columns@[k])@) == value_views(
                        self.columns@[k]@,
                    ),
            decreases self.columns.len() - i,
        {
            columns.push(clone_values(&self.columns[i]));
            i = i + 1;
        }
        assert(column_views(columns@) =~= column_views(self.columns@));
        DataBlock { schema: share_schema(&self.schema), columns }
    }
}

impl PartialEq for DataBlock {
    fn eq(&self, other: &DataBlock) -> (same: bool) {
        if *self.schema != *other.schema {
            return false;
        }
        if self.columns.len() != other.columns.len() {
            assert(self@.columns.len() != other@.columns.len());
            return false;
        }
        let mut i: usize = 0;
        while i < self.columns.len()
            invariant
                i <= self.columns.len(),
                self.columns.len() == other.columns.len(),
                self@.schema == other@.schema,
                forall|k: int|
                    0 <= k < i ==> value_views((#[trigger] self.columns@[k])@) == value_views(
                        other.columns@[k]@,
                    ),
            decreases self.columns.len() - i,
        {
            if !same_values(&self.columns[i], &other.columns[i]) {
                assert(self@.columns[i as int] != other@.columns[i as int]);
                return false;
            }
            i = i + 1;
        }
        assert(self@.columns =~= other@.columns);
        true
    }
}

impl vstd::std_specs::cmp::PartialEqSpecImpl for DataBlock {
    open spec fn obeys_eq_spec() -> bool {
        true
    }

    open spec fn eq_spec(&self, other: &DataBlock) -> bool {
        self@ == other@
    }
}

} // verus!
