//! Schemas: ordered lists of named, typed fields.

use vstd::prelude::*;

verus! {

/// The type of the values of a column.
#[derive(Clone, Copy, PartialEq, Eq, Structural, Debug)]
pub enum DataType {
    Null,
    Boolean,
    Int64,
    UInt64,
    Utf8,
}

/// A named, typed field of a schema.
#[derive(Debug)]
pub struct DataField {
    name: String,
    data_type: DataType,
    nullable: bool,
}

/// The mathematical value of a `DataField`.
pub struct FieldView {
    pub name: Seq<char>,
    pub data_type: DataType,
    pub nullable: bool,
}

impl View for DataField {
    type V = FieldView;

    closed spec fn view(&self) -> FieldView {
        FieldView { name: self.name@, data_type: self.data_type, nullable: self.nullable }
    }
}

impl DataField {
    /// A field with the given name, type and nullability.
    pub fn new(name: String, data_type: DataType, nullable: bool) -> (f: DataField)
        ensures
            f@ == (FieldView { name: name@, data_type, nullable }),
    {
        DataField { name, data_type, nullable }
    }

    /// The name of the field, by which schemas address it.
    pub fn name(&self) -> (n: &String)
        ensures
            n@ == self@.name,
    {
        &self.name
    }

    /// The type of the field's values.
    pub fn data_type(&self) -> (t: DataType)
        ensures
            t == self@.data_type,
    {
        self.data_type
    }

    /// Whether the field's values may be null.
    pub fn is_nullable(&self) -> (n: bool)
        ensures
            n == self@.nullable,
    {
        self.nullable
    }
}

impl Clone for DataField {
    fn clone(&self) -> (f: DataField)
        ensures
            f@ == self@,
    {
        DataField { name: self.name.clone(), data_type: self.data_type, nullable: self.nullable }
    }
}

impl PartialEq for DataField {
    fn eq(&self, other: &DataField) -> (same: bool) {
        self.name == other.name && self.data_type == other.data_type && self.nullable
            == other.nullable
    }
}

impl vstd::std_specs::cmp::PartialEqSpecImpl for DataField {
    open spec fn obeys_eq_spec() -> bool {
        true
    }

    open spec fn eq_spec(&self, other: &DataField) -> bool {
        self@ == other@
    }
}

/// The views of a list of fields, in order.
pub open spec fn field_views(fields: Seq<DataField>) -> Seq<FieldView> {
    Seq::new(fields.len(), |i: int| fields[i]@)
}

/// Whether some field of the list has the given name.
pub open spec fn has_name(fields: Seq<FieldView>, name: Seq<char>) -> bool {
    exists|i: int| 0 <= i < fields.len() && (#[trigger] fields[i]).name == name
}

/// Whether no two fields of the list have the same name.
pub open spec fn names_distinct(fields: Seq<FieldView>) -> bool {
    forall|i: int, j: int|
        0 <= i < j < fields.len() ==> (#[trigger] fields[i]).name != (#[trigger] fields[j]).name
}

/// Whether a list of fields holds one with the given name.
pub fn contains_name(fields: &Vec<DataField>, name: &String) -> (found: bool)
    ensures
        found == has_name(field_views(fields@), name@),
{
    let mut i: usize = 0;
    while i < fields.len()
        invariant
            i <= fields.len(),
            forall|k: int| 0 <= k < i ==> (#[trigger] fields@[k])@.name != name@,
        decreases fields.len() - i,
    {
        if fields[i].name == *name {
            assert(field_views(fields@)[i as int].name == name@);
            return true;
        }
        i = i + 1;
    }
    assert forall|k: int| 0 <= k < field_views(fields@).len() implies (#[trigger] field_views(
        fields@,
    )[k]).name != name@ by {
        assert(fields@[k]@.name != name@);
    }
    false
}

/// A copy of a list of fields.
pub fn clone_fields(fields: &Vec<DataField>) -> (copy: Vec<DataField>)
    ensures
        field_views(copy@) == field_views(fields@),
{
    let mut copy: Vec<DataField> = Vec::new();
    let mut i: usize = 0;
    while i < fields.len()
        invariant
            i <= fields.len(),
            copy.len() == i,
            forall|k: int| 0 <= k < i ==> (#[trigger] copy@[k])@ == fields@[k]@,
        decreases fields.len() - i,
    {
        copy.push(fields[i].clone());
        i = i + 1;
    }
    assert(field_views(copy@) =~= field_views(fields@));
    copy
}

/// An ordered list of named, typed fields. Blocks and plans share one
/// read-only, through `DataSchemaRef`.
#[derive(Debug)]
pub struct DataSchema {
    fields: Vec<DataField>,
}

impl View for DataSchema {
    type V = Seq<FieldView>;

    closed spec fn view(&self) -> Seq<FieldView> {
        field_views(self.fields@)
    }
}

impl DataSchema {
    /// The schema of the given fields, in their order.
    pub fn new(fields: Vec<DataField>) -> (s: DataSchema)
        ensures
            s@ == field_views(fields@),
    {
        DataSchema { fields }
    }

    /// The fields of the schema, in order.
    pub fn fields(&self) -> (f: &Vec<DataField>)
        ensures
            field_views(f@) == self@,
    {
        &self.fields
    }

    /// Whether the schema holds a field with the given name.
    pub fn has_field(&self, name: &String) -> (found: bool)
        ensures
            found == has_name(self@, name@),
    {
        contains_name(&self.fields, name)
    }
}

impl Clone for DataSchema {
    fn clone(&self) -> (s: DataSchema)
        ensures
            s@ == self@,
    {
        DataSchema { fields: clone_fields(&self.fields) }
    }
}

impl PartialEq for DataSchema {
    fn eq(&self, other: &DataSchema) -> (same: bool) {
        if self.fields.len() != other.fields.len() {
            assert(self@.len() != other@.len());
            return false;
        }
        let mut i: usize = 0;
        while i < self.fields.len()
            invariant
                i <= self.fields.len(),
                self.fields.len() == other.fields.len(),
                forall|k: int| 0 <= k < i ==> (#[trigger] self.fields@[k])@ == other.fields@[k]@,
            decreases self.fields.len() - i,
        {
            if self.fields[i] != other.fields[i] {
                assert(self@[i as int] != other@[i as int]);
                return false;
            }
            i = i + 1;
        }
        assert(self@ =~= other@);
        true
    }
}

impl vstd::std_specs::cmp::PartialEqSpecImpl for DataSchema {
    open spec fn obeys_eq_spec() -> bool {
        true
    }

    open spec fn eq_spec(&self, other: &DataSchema) -> bool {
        self@ == other@
    }
}

} // verus!
