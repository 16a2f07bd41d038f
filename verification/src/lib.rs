//! The execution core of a columnar query engine: data blocks bound to
//! schemas, the expression transform that derives new columns block by block,
//! the pull-based pipeline that stages are wired into, and the logical plan of
//! an `INSERT` statement.

pub mod error;
pub mod function;
pub mod block;
pub mod pipeline;
pub mod plan_insert_into;
pub mod processor;
pub mod schema;
pub mod stream;
pub mod transform_expression;
