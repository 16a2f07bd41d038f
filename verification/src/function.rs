//! The interface to the function registry: evaluators, and what the registry
//! answers when an expression is resolved.

use crate::block::BlockView;
use crate::block::ColumnView;
use crate::block::DataBlock;
use crate::block::DataColumn;
use crate::block::DataValue;
use crate::block::clone_values;
use crate::error::ErrorCode;
use crate::error::ErrorKind;
use crate::error::ErrorView;
use crate::schema::DataField;
use crate::schema::FieldView;
use vstd::prelude::*;

verus! {

/// An evaluator: a function of the registry, resolved from one expression.
pub trait Function {
    /// Whether the function accumulates over a whole stream of blocks.
    spec fn aggregator(&self) -> bool;

    /// How the function is written in messages.
    spec fn label(&self) -> String;

    /// Whether the function is an aggregate. The answer is a property of the
    /// function alone.
    fn is_aggregator(&self) -> (flag: bool)
        ensures
            flag == self.aggregator(),
    ;

    /// How the function is written in messages. The answer is a property of
    /// the function alone.
    fn name(&self) -> (name: String)
        ensures
            name@ == self.label()@,
    ;

    /// Evaluates the function against one block. The column handed back is
    /// meant to stand for the block's row count; nothing is taken for granted
    /// of it, and the evaluation may fail.
    fn eval(&self, block: &DataBlock) -> (column: Result<DataColumn, ErrorCode>);
}

/// What the registry answered for one expression: the evaluator, or why
/// there is none, and the field that the expression produces against the
/// base schema, or why there is none.
pub struct BoundExpression<F> {
    pub function: Result<F, ErrorCode>,
    pub field: Result<DataField, ErrorCode>,
}

/// The message of the error that rejects an aggregate function.
pub open spec fn aggregate_message(label: Seq<char>) -> Seq<char> {
    "Aggregate function "@ + label
        + " is found in ExpressionTransform, should AggregatorTransform"@
}

/// The error that rejects an aggregate function of the given label.
pub open spec fn aggregate_rejection(label: Seq<char>) -> ErrorView {
    ErrorView { kind: ErrorKind::BadTransformType, message: aggregate_message(label) }
}

/// Why a per-block transform cannot take the expression, if it cannot: the
/// evaluator is missing, or it is an aggregate, or the field is missing, in
/// this order.
pub open spec fn rejection<F: Function>(expr: BoundExpression<F>) -> Option<ErrorView> {
    match expr.function {
        Err(e) => Some(e@),
        Ok(f) => if f.aggregator() {
            Some(aggregate_rejection(f.label()@))
        } else {
            match expr.field {
                Err(e) => Some(e@),
                Ok(_) => None,
            }
        },
    }
}

/// Whether the expression resolved to an aggregate function.
pub open spec fn is_aggregate<F: Function>(expr: BoundExpression<F>) -> bool {
    expr.function matches Ok(f) && f.aggregator()
}

/// The rejection of the first expression of the list that has one.
pub open spec fn first_rejection<F: Function>(exprs: Seq<BoundExpression<F>>) -> Option<
    ErrorView,
>
    decreases exprs.len(),
{
    if exprs.len() == 0 {
        None
    } else {
        match first_rejection(exprs.drop_last()) {
            Some(e) => Some(e),
            None => rejection(exprs.last()),
        }
    }
}

/// The field that an expression produces, where it has one.
pub open spec fn field_of<F>(expr: BoundExpression<F>) -> FieldView {
    match expr.field {
        Ok(f) => f@,
        Err(_) => arbitrary(),
    }
}

/// The evaluator of an expression, where it has one.
pub open spec fn function_of<F>(expr: BoundExpression<F>) -> F {
    match expr.function {
        Ok(f) => f,
        Err(_) => arbitrary(),
    }
}

/// The error that rejects an aggregate function of the given name.
pub fn bad_transform_type(name: &String) -> (e: ErrorCode)
    ensures
        e@ == aggregate_rejection(name@),
{
    let mut message = "Aggregate function ".to_string();
    message.append(name.as_str());
    message.append(" is found in ExpressionTransform, should AggregatorTransform");
    ErrorCode::new(ErrorKind::BadTransformType, message)
}

/// The evaluators that need no registry: a column of the block, taken as it
/// is, and a literal value.
pub enum BasicFunction {
    /// The column at `position`, under the name `name`.
    Column { name: String, position: usize },
    /// The same value for every row, under the name `name`.
    Literal { name: String, value: DataValue },
}

/// The error of asking a block for a column that it does not hold.
pub open spec fn missing_column(name: Seq<char>) -> ErrorView {
    ErrorView { kind: ErrorKind::UnknownColumn, message: "Unknown column "@ + name }
}

impl BasicFunction {
    /// What the evaluator hands back for a block.
    pub open spec fn evaluation(&self, block: BlockView) -> Result<ColumnView, ErrorView> {
        match self {
            BasicFunction::Column { name, position } => if *position < block.columns.len() {
                Ok(ColumnView::Array(block.columns[*position as int]))
            } else {
                Err(missing_column(name@))
            },
            BasicFunction::Literal { name, value } => Ok(ColumnView::Constant(value@)),
        }
    }
}

impl Function for BasicFunction {
    open spec fn aggregator(&self) -> bool {
        false
    }

    open spec fn label(&self) -> String {
        match self {
            BasicFunction::Column { name, position } => *name,
            BasicFunction::Literal { name, value } => *name,
        }
    }

    fn is_aggregator(&self) -> (flag: bool) {
        false
    }

    fn name(&self) -> (name: String) {
        match self {
            BasicFunction::Column { name, position } => name.clone(),
            BasicFunction::Literal { name, value } => name.clone(),
        }
    }

    fn eval(&self, block: &DataBlock) -> (column: Result<DataColumn, ErrorCode>)
        ensures
            match self.evaluation(block@) {
                Ok(expected) => column matches Ok(made) && made@ == expected,
                Err(expected) => column matches Err(e) && e@ == expected,
            },
    {
        match self {
            BasicFunction::Column { name, position } => {
                match block.column(*position) {
                    Some(values) => Ok(DataColumn::Array(clone_values(values))),
                    None => {
                        let mut message = "Unknown column ".to_string();
                        message.append(name.as_str());
                        Err(ErrorCode::new(ErrorKind::UnknownColumn, message))
                    },
                }
            },
            BasicFunction::Literal { name, value } => Ok(DataColumn::Constant(value.clone())),
        }
    }
}

} // verus!
