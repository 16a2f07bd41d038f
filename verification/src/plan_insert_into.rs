//! The logical plan of an `INSERT` statement and the three sources that its
//! rows can come from.

use crate::block::DataSchemaRef;
use crate::block::share_schema;
use vstd::prelude::*;

verus! {

/// A resolved identifier of the catalog.
pub type MetaId = u64;

/// Where the rows of an insert come from. `P` is the type of the logical plan
/// trees and `E` that of the scalar expression trees; both come from the
/// planner and are carried as they are.
#[derive(Clone, Debug)]
pub enum InputSource<P, E> {
    /// A sub-query, whose execution yields the rows.
    SelectPlan(Box<P>),
    /// Literal rows, each a list of expressions.
    Expressions(Vec<Vec<E>>),
    /// Rows that arrive as a raw stream in the named format.
    StreamingWithFormat(String),
}

/// The plan of an insert into one table.
#[derive(Clone, Debug)]
pub struct InsertIntoPlan<P, E> {
    pub database_name: String,
    pub table_name: String,
    pub table_id: MetaId,
    pub schema: DataSchemaRef,
    pub overwrite: bool,
    pub source: InputSource<P, E>,
}

impl<P, E> InsertIntoPlan<P, E> {
    /// Whether two plans insert into a destination of the same shape: the
    /// same database name, table name and schema. The table's identifier,
    /// the overwrite flag and the source are left out on purpose.
    pub open spec fn same_destination(&self, other: &InsertIntoPlan<P, E>) -> bool {
        &&& self.database_name@ == other.database_name@
        &&& self.table_name@ == other.table_name@
        &&& self.schema@ == other.schema@
    }

    /// A handle to the plan's output schema. Nothing is copied.
    pub fn schema(&self) -> (s: DataSchemaRef)
        ensures
            s == self.schema,
    {
        share_schema(&self.schema)
    }

    /// The plan that inserts the rows of a sub-query.
    pub fn insert_select(
        db: String,
        table: String,
        table_meta_id: MetaId,
        schema: DataSchemaRef,
        overwrite: bool,
        select_plan: P,
    ) -> (plan: InsertIntoPlan<P, E>)
        ensures
            plan == (InsertIntoPlan::<P, E> {
                database_name: db,
                table_name: table,
                table_id: table_meta_id,
                schema,
                overwrite,
                source: InputSource::SelectPlan(Box::new(select_plan)),
            }),
    {
        InsertIntoPlan {
            database_name: db,
            table_name: table,
            table_id: table_meta_id,
            schema,
            overwrite,
            source: InputSource::SelectPlan(Box::new(select_plan)),
        }
    }

    /// The plan that inserts literal rows.
    pub fn insert_values(
        db: String,
        table: String,
        table_meta_id: MetaId,
        schema: DataSchemaRef,
        overwrite: bool,
        values: Vec<Vec<E>>,
    ) -> (plan: InsertIntoPlan<P, E>)
        ensures
            plan == (InsertIntoPlan::<P, E> {
                database_name: db,
                table_name: table,
                table_id: table_meta_id,
                schema,
                overwrite,
                source: InputSource::Expressions(values),
            }),
    {
        InsertIntoPlan {
            database_name: db,
            table_name: table,
            table_id: table_meta_id,
            schema,
            overwrite,
            source: InputSource::Expressions(values),
        }
    }

    /// The plan that inserts rows which arrive as a stream in the named
    /// format.
    pub fn insert_without_source(
        db: String,
        table: String,
        table_meta_id: MetaId,
        schema: DataSchemaRef,
        overwrite: bool,
        format: String,
    ) -> (plan: InsertIntoPlan<P, E>)
        ensures
            plan == (InsertIntoPlan::<P, E> {
                database_name: db,
                table_name: table,
                table_id: table_meta_id,
                schema,
                overwrite,
                source: InputSource::StreamingWithFormat(format),
            }),
    {
        InsertIntoPlan {
            database_name: db,
            table_name: table,
            table_id: table_meta_id,
            schema,
            overwrite,
            source: InputSource::StreamingWithFormat(format),
        }
    }

    /// Whether two plans are equal does not depend on the table identifier,
    /// the overwrite flag or the source of either: with any others in their
    /// place the answer is the same.
    pub proof fn lemma_equality_ignores_source(
        a: InsertIntoPlan<P, E>,
        b: InsertIntoPlan<P, E>,
        table_id: MetaId,
        overwrite: bool,
        source: InputSource<P, E>,
    )
        ensures
            a.same_destination(&b) == a.same_destination(
                &(InsertIntoPlan { table_id, overwrite, source, ..b }),
            ),
            a.same_destination(&b) == (InsertIntoPlan {
                table_id,
                overwrite,
                source,
                ..a
            }).same_destination(&b),
    {
    }

    /// Equality of plans is reflexive, symmetric and transitive.
    pub proof fn lemma_equality_is_equivalence(
        a: InsertIntoPlan<P, E>,
        b: InsertIntoPlan<P, E>,
        c: InsertIntoPlan<P, E>,
    )
        ensures
            a.same_destination(&a),
            a.same_destination(&b) ==> b.same_destination(&a),
            a.same_destination(&b) && b.same_destination(&c) ==> a.same_destination(&c),
    {
    }
}

impl<P, E> PartialEq for InsertIntoPlan<P, E> {
    fn eq(&self, other: &InsertIntoPlan<P, E>) -> (same: bool) {
        self.database_name == other.database_name && self.table_name == other.table_name
            && *self.schema == *other.schema
    }
}

impl<P, E> vstd::std_specs::cmp::PartialEqSpecImpl for InsertIntoPlan<P, E> {
    open spec fn obeys_eq_spec() -> bool {
        true
    }

    open spec fn eq_spec(&self, other: &InsertIntoPlan<P, E>) -> bool {
        self.same_destination(other)
    }
}

} // verus!
