//! The expression transform: a stage that evaluates a fixed list of scalar
//! expressions against each block that comes in.

use crate::block::BlockView;
use crate::block::DataBlock;
use crate::block::DataColumn;
use crate::block::DataSchemaRef;
use crate::block::DataValue;
use crate::block::ValueView;
use crate::block::all_of_length;
use crate::block::column_views;
use crate::block::length_rejection;
use crate::block::row_count;
use crate::block::share_schema;
use crate::block::uniform;
use crate::error::ErrorCode;
use crate::error::ErrorView;
use crate::function::BoundExpression;
use crate::function::Function;
use crate::function::bad_transform_type;
use crate::function::field_of;
use crate::function::first_rejection;
use crate::function::function_of;
use crate::function::is_aggregate;
use crate::function::rejection;
use crate::processor::StageKind;
use crate::processor::Upstream;
use crate::schema::DataSchema;
use crate::schema::FieldView;
use crate::schema::clone_fields;
use crate::schema::contains_name;
use crate::schema::field_views;
use crate::schema::has_name;
use crate::schema::names_distinct;
use std::sync::Arc;
use vstd::prelude::*;

verus! {

/// The base fields followed by the fields of the expressions, in order, each
/// left out where a field of its name is already there.
pub open spec fn merged_fields<F>(base: Seq<FieldView>, exprs: Seq<BoundExpression<F>>) -> Seq<
    FieldView,
>
    decreases exprs.len(),
{
    if exprs.len() == 0 {
        base
    } else {
        let before = merged_fields(base, exprs.drop_last());
        let field = field_of(exprs.last());
        if has_name(before, field.name) {
            before
        } else {
            before.push(field)
        }
    }
}

/// The evaluators of the expressions whose fields `merged_fields` appends,
/// in the order of the expressions.
pub open spec fn retained_functions<F>(
    base: Seq<FieldView>,
    exprs: Seq<BoundExpression<F>>,
) -> Seq<F>
    decreases exprs.len(),
{
    if exprs.len() == 0 {
        Seq::empty()
    } else {
        let before = retained_functions(base, exprs.drop_last());
        if has_name(merged_fields(base, exprs.drop_last()), field_of(exprs.last()).name) {
            before
        } else {
            before.push(function_of(exprs.last()))
        }
    }
}

/// A stage that derives columns from each block by a fixed list of
/// evaluators. Its output schema is the base schema with the evaluators'
/// fields appended.
pub struct ExpressionTransform<F: Function> {
    funcs: Vec<F>,
    schema: DataSchemaRef,
    input: Upstream,
}

impl<F: Function> ExpressionTransform<F> {
    /// The evaluators that the stage runs, in order.
    pub closed spec fn evaluators(&self) -> Seq<F> {
        self.funcs@
    }

    /// The fields of the stage's output schema.
    pub closed spec fn output_fields(&self) -> Seq<FieldView> {
        self.schema@
    }

    /// The upstream that the stage pulls from.
    pub closed spec fn upstream(&self) -> Upstream {
        self.input
    }

    /// Whether `made` is what building a transform from `base` and `exprs`
    /// gives: the first rejection among the expressions, if there is one, and
    /// else the transform of the merged schema and the retained evaluators,
    /// wired to the empty source.
    pub open spec fn built_from(
        base: Seq<FieldView>,
        exprs: Seq<BoundExpression<F>>,
        made: Result<ExpressionTransform<F>, ErrorCode>,
    ) -> bool {
        match made {
            Err(e) => first_rejection(exprs) == Some(e@),
            Ok(t) => {
                &&& first_rejection(exprs) is None
                &&& t.output_fields() == merged_fields(base, exprs)
                &&& t.evaluators() == retained_functions(base, exprs)
                &&& t.upstream() == Upstream::Empty
            },
        }
    }

    /// Builds the transform of a base schema and a list of resolved
    /// expressions. The expressions are taken in order. The first that has no
    /// evaluator, or whose evaluator is an aggregate, or that has no field,
    /// fails the construction with that error. An expression whose field's
    /// name is already among the output fields is dropped; each other appends
    /// its field to the output schema and its evaluator to the list.
    pub fn try_create(schema: DataSchemaRef, exprs: Vec<BoundExpression<F>>) -> (made: Result<
        ExpressionTransform<F>,
        ErrorCode,
    >)
        ensures
            Self::built_from(schema@, exprs@, made),
            (exists|i: int| 0 <= i < exprs.len() && is_aggregate(#[trigger] exprs[i]))
                ==> made is Err,
            made matches Ok(t) ==> (names_distinct(schema@) ==> names_distinct(
                t.output_fields(),
            )),
    {
        let ghost all = exprs@;
        let mut fields = clone_fields(schema.fields());
        let mut funcs: Vec<F> = Vec::new();
        for expr in it: exprs
            invariant
                it.seq() == all,
                first_rejection(all.take(it.index() as int)) is None,
                field_views(fields@) == merged_fields(schema@, all.take(it.index() as int)),
                funcs@ == retained_functions(schema@, all.take(it.index() as int)),
        {
            let ghost i = it.index() as int;
            proof {
                assert(all.take(i + 1).drop_last() == all.take(i));
                assert(all.take(i + 1).last() == expr);
                lemma_rejection_stays(all, i + 1);
            }
            let BoundExpression { function, field } = expr;
            let func = match function {
                Ok(func) => func,
                Err(e) => {
                    return Err(e);
                },
            };
            if func.is_aggregator() {
                let name = func.name();
                return Err(bad_transform_type(&name));
            }
            let field = match field {
                Ok(field) => field,
                Err(e) => {
                    return Err(e);
                },
            };
            if !contains_name(&fields, field.name()) {
                fields.push(field);
                funcs.push(func);
                assert(field_views(fields@) == merged_fields(schema@, all.take(i)).push(
                    field@,
                ));
            }
        }
        proof {
            assert(all.take(all.len() as int) == all);
            lemma_aggregate_rejected(all);
            if names_distinct(schema@) {
                lemma_merged_names_distinct(schema@, all);
            }
        }
        let merged = Arc::new(DataSchema::new(fields));
        Ok(ExpressionTransform { funcs, schema: merged, input: Upstream::Empty })
    }
}

/// What one evaluation fails with, if it fails: the evaluator's own error, or
/// the rejection of a column that does not stand for `rows` rows.
pub open spec fn failure_of(outcome: Result<DataColumn, ErrorCode>, rows: nat) -> Option<
    ErrorView,
> {
    match outcome {
        Err(e) => Some(e@),
        Ok(column) => if column@.fits(rows) {
            None
        } else {
            Some(length_rejection())
        },
    }
}

/// The columns that a list of evaluations gives, each written out for `rows`
/// rows.
pub open spec fn columns_of(outcomes: Seq<Result<DataColumn, ErrorCode>>, rows: nat) -> Seq<
    Seq<ValueView>,
> {
    Seq::new(
        outcomes.len(),
        |i: int|
            match outcomes[i] {
                Ok(column) => column@.expanded(rows),
                Err(_) => Seq::empty(),
            },
    )
}

/// Whether `out` is what a stage with `count` evaluators and the output
/// fields `fields` makes of a block of `rows` rows, given what the
/// evaluators that were asked handed back. The evaluators are asked in
/// order, up to the first failure, which is the result; where none fails,
/// the result is the block of the columns handed back.
pub open spec fn assembled(
    fields: Seq<FieldView>,
    count: nat,
    rows: nat,
    outcomes: Seq<Result<DataColumn, ErrorCode>>,
    out: Result<DataBlock, ErrorCode>,
) -> bool {
    &&& outcomes.len() <= count
    &&& forall|i: int| 0 <= i < outcomes.len() - 1 ==> failure_of(#[trigger] outcomes[i], rows) is None
    &&& match out {
        Ok(block) => {
            &&& outcomes.len() == count
            &&& forall|i: int|
                0 <= i < outcomes.len() ==> failure_of(#[trigger] outcomes[i], rows) is None
            &&& block@ == (BlockView { schema: fields, columns: columns_of(outcomes, rows) })
        },
        Err(e) => outcomes.len() > 0 && failure_of(outcomes.last(), rows) == Some(e@),
    }
}

/// Whether `outcome` is something that evaluating `f` against `block` may
/// hand back.
pub open spec fn evaluates_to<F: Function>(
    f: &F,
    block: &DataBlock,
    outcome: Result<DataColumn, ErrorCode>,
) -> bool {
    F::eval.ensures((f, block), outcome)
}

impl<F: Function> ExpressionTransform<F> {
    /// Whether `out` is what the stage makes of `block`, given that its
    /// evaluators, asked in order, handed back `outcomes`.
    pub open spec fn explains(
        &self,
        block: DataBlock,
        outcomes: Seq<Result<DataColumn, ErrorCode>>,
        out: Result<DataBlock, ErrorCode>,
    ) -> bool {
        &&& assembled(
            self.output_fields(),
            self.evaluators().len(),
            row_count(block@.columns),
            outcomes,
            out,
        )
        &&& forall|i: int|
            0 <= i < outcomes.len() ==> evaluates_to(
                &self.evaluators()[i],
                &block,
                #[trigger] outcomes[i],
            )
    }

    /// Whether `out` is what the stage makes of one item of its upstream: a
    /// failed item as it is, and of a block what its evaluators' outcomes
    /// explain.
    pub open spec fn executes(
        &self,
        item: Result<DataBlock, ErrorCode>,
        out: Result<DataBlock, ErrorCode>,
    ) -> bool {
        &&& item matches Err(e) ==> out == Err::<DataBlock, ErrorCode>(e)
        &&& item matches Ok(block) ==> (exists|answers: Seq<Result<DataColumn, ErrorCode>>|
            #[trigger] self.explains(block, answers, out))
    }

    /// The output schema of the stage: the base schema with the fields of the
    /// retained expressions appended.
    pub fn schema(&self) -> (s: DataSchemaRef)
        ensures
            s@ == self.output_fields(),
    {
        share_schema(&self.schema)
    }

    /// The number of evaluators that the stage runs on each block.
    pub fn num_evaluators(&self) -> (n: usize)
        ensures
            n == self.evaluators().len(),
    {
        self.funcs.len()
    }

    /// The block of the columns that evaluators handed back for a block of
    /// `rows` rows, bound to the output schema. The outcomes are taken in
    /// order; the first failure among them is the result. The block holds the
    /// derived columns only: one for each outcome, none for a base field.
    pub fn assemble(&self, rows: usize, outcomes: Vec<Result<DataColumn, ErrorCode>>) -> (out:
        Result<DataBlock, ErrorCode>)
        ensures
            exists|n: int|
                0 <= n <= outcomes.len() && assembled(
                    self.output_fields(),
                    outcomes.len() as nat,
                    rows as nat,
                    #[trigger] outcomes@.take(n),
                    out,
                ),
            out is Ok == (forall|i: int|
                0 <= i < outcomes.len() ==> failure_of(#[trigger] outcomes[i], rows as nat)
                    is None),
            out matches Ok(block) ==> block@ == (BlockView {
                schema: self.output_fields(),
                columns: columns_of(outcomes@, rows as nat),
            }),
    {
        let ghost all = outcomes@;
        let mut columns: Vec<Vec<DataValue>> = Vec::new();
        for outcome in it: outcomes
            invariant
                it.seq() == all,
                columns.len() == it.index(),
                forall|k: int|
                    0 <= k < it.index() ==> failure_of(#[trigger] all[k], rows as nat) is None,
                column_views(columns@) == columns_of(all.take(it.index() as int), rows as nat),
        {
            let ghost i = it.index() as int;
            let column = match outcome {
                Ok(column) => column,
                Err(e) => {
                    proof {
                        assert(all.take(i + 1).last() == all[i]);
                        assert(assembled(
                            self.output_fields(),
                            all.len(),
                            rows as nat,
                            all.take(i + 1),
                            Err(e),
                        ));
                    }
                    return Err(e);
                },
            };
            let values = match column.to_array(rows) {
                Ok(values) => values,
                Err(e) => {
                    proof {
                        assert(all.take(i + 1).last() == all[i]);
                        assert(assembled(
                            self.output_fields(),
                            all.len(),
                            rows as nat,
                            all.take(i + 1),
                            Err(e),
                        ));
                    }
                    return Err(e);
                },
            };
            let ghost before = columns@;
            columns.push(values);
            proof {
                assert(all.take(i + 1)[i] == all[i]);
                assert forall|k: int| 0 <= k < i + 1 implies column_views(columns@)[k]
                    == columns_of(all.take(i + 1), rows as nat)[k] by {
                    if k < i {
                        assert(column_views(before)[k] == columns_of(
                            all.take(i),
                            rows as nat,
                        )[k]);
                        assert(all.take(i)[k] == all.take(i + 1)[k]);
                    }
                }
                assert(column_views(columns@) =~= columns_of(all.take(i + 1), rows as nat));
            }
        }
        proof {
            assert(all.take(all.len() as int) == all);
            lemma_columns_of_lengths(all, rows as nat);
        }
        let made = DataBlock::create(share_schema(&self.schema), columns);
        proof {
            if made is Ok {
                assert(assembled(
                    self.output_fields(),
                    all.len(),
                    rows as nat,
                    all.take(all.len() as int),
                    made,
                ));
            }
        }
        made
    }
}

impl<F: Function> ExpressionTransform<F> {
    /// What the stage makes of one item of its upstream. A failed item is
    /// handed on as it is. For a block, the evaluators are asked in order and
    /// each column is written out for the block's row count; the first
    /// evaluator that fails, or whose column does not stand for that many
    /// rows, fails the item. Else the item is the block of the derived
    /// columns, bound to the output schema: it holds one column for each
    /// evaluator and none for a base field.
    pub fn execute_block(&self, item: Result<DataBlock, ErrorCode>) -> (out: Result<
        DataBlock,
        ErrorCode,
    >)
        ensures
            self.executes(item, out),
            item matches Ok(block) ==> (out matches Ok(derived) ==> {
                &&& derived@.schema == self.output_fields()
                &&& derived@.columns.len() == self.evaluators().len()
                &&& all_of_length(derived@.columns, row_count(block@.columns))
            }),
            item is Ok && self.evaluators().len() == 0 ==> out is Ok,
    {
        let block = match item {
            Ok(block) => block,
            Err(e) => {
                return Err(e);
            },
        };
        let rows = block.num_rows();
        let ghost mut outcomes: Seq<Result<DataColumn, ErrorCode>> = Seq::empty();
        let mut columns: Vec<Vec<DataValue>> = Vec::new();
        let mut i: usize = 0;
        while i < self.funcs.len()
            invariant
                i <= self.funcs.len(),
                item == Ok::<DataBlock, ErrorCode>(block),
                rows == row_count(block@.columns),
                outcomes.len() == i,
                columns.len() == i,
                forall|k: int|
                    0 <= k < i ==> evaluates_to(
                        &self.evaluators()[k],
                        &block,
                        #[trigger] outcomes[k],
                    ),
                forall|k: int|
                    0 <= k < i ==> failure_of(#[trigger] outcomes[k], rows as nat) is None,
                column_views(columns@) == columns_of(outcomes, rows as nat),
            decreases self.funcs.len() - i,
        {
            let outcome = self.funcs[i].eval(&block);
            let ghost earlier = outcomes;
            proof {
                outcomes = outcomes.push(outcome);
            }
            let column = match outcome {
                Ok(column) => column,
                Err(e) => {
                    proof {
                        self.lemma_explained(block, outcomes, Err(e));
                    }
                    return Err(e);
                },
            };
            let values = match column.to_array(rows) {
                Ok(values) => values,
                Err(e) => {
                    proof {
                        self.lemma_explained(block, outcomes, Err(e));
                    }
                    return Err(e);
                },
            };
            let ghost before = columns@;
            columns.push(values);
            proof {
                assert forall|k: int| 0 <= k < i + 1 implies column_views(columns@)[k]
                    == columns_of(outcomes, rows as nat)[k] by {
                    if k < i {
                        assert(column_views(before)[k] == columns_of(earlier, rows as nat)[k]);
                        assert(earlier[k] == outcomes[k]);
                    }
                }
                assert(column_views(columns@) =~= columns_of(outcomes, rows as nat));
            }
            i = i + 1;
        }
        proof {
            lemma_columns_of_lengths(outcomes, rows as nat);
        }
        let made = DataBlock::create(share_schema(&self.schema), columns);
        proof {
            self.lemma_explained(block, outcomes, made);
        }
        made
    }

    /// A block that the stage makes of a block is bound to the output schema
    /// and holds one column for each evaluator, each of as many values as
    /// the block that came in has rows.
    pub proof fn lemma_executed_shape(&self, block: DataBlock, out: Result<DataBlock, ErrorCode>)
        requires
            self.executes(Ok(block), out),
        ensures
            out matches Ok(derived) ==> {
                &&& derived@.schema == self.output_fields()
                &&& derived@.columns.len() == self.evaluators().len()
                &&& all_of_length(derived@.columns, row_count(block@.columns))
                &&& uniform(derived@.columns)
            },
    {
        if out is Ok {
            let item: Result<DataBlock, ErrorCode> = Ok(block);
            assert(item->Ok_0 == block);
            let outcomes = choose|answers: Seq<Result<DataColumn, ErrorCode>>| #[trigger]
                self.explains(block, answers, out);
            lemma_columns_of_lengths(outcomes, row_count(block@.columns));
        }
    }

    /// A result that some outcomes explain is a result of the block.
    pub proof fn lemma_explained(
        &self,
        block: DataBlock,
        outcomes: Seq<Result<DataColumn, ErrorCode>>,
        out: Result<DataBlock, ErrorCode>,
    )
        requires
            self.explains(block, outcomes, out),
        ensures
            self.executes(Ok(block), out),
    {
        let item: Result<DataBlock, ErrorCode> = Ok(block);
        assert(item->Ok_0 == block);
    }

    /// The stable name of the stage, for messages and introspection.
    pub fn name(&self) -> (name: &'static str)
        ensures
            name@ == "ExpressionTransform"@,
    {
        "ExpressionTransform"
    }

    /// The kind of the stage.
    pub fn kind(&self) -> (kind: StageKind)
        ensures
            kind == StageKind::Expression,
    {
        StageKind::Expression
    }

    /// Wires the stage to an upstream, in place of the one it had. The stage
    /// accepts any upstream, so this does not fail; its evaluators and its
    /// output schema stay as they are.
    pub fn connect_to(&mut self, input: Upstream) -> (done: Result<(), ErrorCode>)
        ensures
            done is Ok,
            final(self).upstream() == input,
            final(self).evaluators() == old(self).evaluators(),
            final(self).output_fields() == old(self).output_fields(),
    {
        self.input = input;
        Ok(())
    }

    /// The upstream that the stage is wired to.
    pub fn input(&self) -> (input: Upstream)
        ensures
            input == self.upstream(),
    {
        self.input
    }

    /// The upstreams of the stage: the one it is wired to.
    pub fn inputs(&self) -> (inputs: Vec<Upstream>)
        ensures
            inputs@ == seq![self.upstream()],
    {
        let mut inputs: Vec<Upstream> = Vec::new();
        inputs.push(self.input);
        inputs
    }
}

/// Columns that all stand for `rows` rows have `rows` values each.
pub proof fn lemma_columns_of_lengths(outcomes: Seq<Result<DataColumn, ErrorCode>>, rows: nat)
    requires
        forall|i: int| 0 <= i < outcomes.len() ==> failure_of(#[trigger] outcomes[i], rows) is None,
    ensures
        all_of_length(columns_of(outcomes, rows), rows),
        uniform(columns_of(outcomes, rows)),
{
    assert forall|i: int| 0 <= i < outcomes.len() implies (#[trigger] columns_of(
        outcomes,
        rows,
    )[i]).len() == rows by {
        assert(failure_of(outcomes[i], rows) is None);
    }
}

/// A rejection within a prefix of the expressions is the rejection of the
/// whole list.
pub proof fn lemma_rejection_stays<F: Function>(exprs: Seq<BoundExpression<F>>, n: int)
    requires
        0 <= n <= exprs.len(),
    ensures
        first_rejection(exprs.take(n)) is Some ==> first_rejection(exprs) == first_rejection(
            exprs.take(n),
        ),
    decreases exprs.len() - n,
{
    if first_rejection(exprs.take(n)) is None {
    } else if n < exprs.len() {
        assert(exprs.take(n + 1).drop_last() == exprs.take(n));
        lemma_rejection_stays(exprs, n + 1);
    } else {
        assert(exprs.take(n) == exprs);
    }
}

/// A list that holds an aggregate has a rejection: no transform is built of
/// it.
pub proof fn lemma_aggregate_rejected<F: Function>(exprs: Seq<BoundExpression<F>>)
    ensures
        (exists|i: int| 0 <= i < exprs.len() && is_aggregate(#[trigger] exprs[i]))
            ==> first_rejection(exprs) is Some,
    decreases exprs.len(),
{
    if exprs.len() > 0 {
        lemma_aggregate_rejected(exprs.drop_last());
        if exists|i: int| 0 <= i < exprs.len() && is_aggregate(#[trigger] exprs[i]) {
            let i = choose|i: int| 0 <= i < exprs.len() && is_aggregate(#[trigger] exprs[i]);
            if i < exprs.len() - 1 {
                assert(is_aggregate(exprs.drop_last()[i]));
            } else {
                assert(rejection(exprs.last()) is Some);
            }
        }
    }
}

/// Building a transform is a function of the base schema and the
/// expressions: two results for the same inputs are both failures with the
/// same error, or both transforms with the same output fields, the same
/// evaluators in the same order, and the same upstream.
pub proof fn lemma_built_deterministic<F: Function>(
    base: Seq<FieldView>,
    exprs: Seq<BoundExpression<F>>,
    first: Result<ExpressionTransform<F>, ErrorCode>,
    second: Result<ExpressionTransform<F>, ErrorCode>,
)
    requires
        ExpressionTransform::built_from(base, exprs, first),
        ExpressionTransform::built_from(base, exprs, second),
    ensures
        first is Ok <==> second is Ok,
        first matches Err(a) ==> (second matches Err(b) ==> a@ == b@),
        first matches Ok(a) ==> (second matches Ok(b) ==> {
            &&& a.output_fields() == b.output_fields()
            &&& a.evaluators() == b.evaluators()
            &&& a.upstream() == b.upstream()
        }),
{
}

/// The merged fields are the base fields, in place, followed by one field
/// for each retained evaluator.
pub proof fn lemma_merged_extends_base<F>(base: Seq<FieldView>, exprs: Seq<BoundExpression<F>>)
    ensures
        merged_fields(base, exprs).len() == base.len() + retained_functions(base, exprs).len(),
        merged_fields(base, exprs).take(base.len() as int) == base,
    decreases exprs.len(),
{
    if exprs.len() > 0 {
        lemma_merged_extends_base(base, exprs.drop_last());
        let before = merged_fields(base, exprs.drop_last());
        assert(before.push(field_of(exprs.last())).take(base.len() as int) =~= before.take(
            base.len() as int,
        ));
    } else {
        assert(base.take(base.len() as int) =~= base);
    }
}

/// A name is among the merged fields exactly if it is among the base fields
/// or is the name of the field of one of the expressions.
pub proof fn lemma_merged_names<F>(
    base: Seq<FieldView>,
    exprs: Seq<BoundExpression<F>>,
    name: Seq<char>,
)
    ensures
        has_name(merged_fields(base, exprs), name) <==> (has_name(base, name) || exists|i: int|
            0 <= i < exprs.len() && field_of(#[trigger] exprs[i]).name == name),
    decreases exprs.len(),
{
    if exprs.len() > 0 {
        let front = exprs.drop_last();
        let before = merged_fields(base, front);
        let field = field_of(exprs.last());
        lemma_merged_names(base, front, name);
        lemma_merged_names(base, front, field.name);
        let merged = merged_fields(base, exprs);
        if has_name(merged, name) {
            let k = choose|k: int| 0 <= k < merged.len() && (#[trigger] merged[k]).name == name;
            if k < before.len() {
                assert(before[k].name == name);
                if !has_name(base, name) {
                    let i = choose|i: int|
                        0 <= i < front.len() && field_of(#[trigger] front[i]).name == name;
                    assert(field_of(exprs[i]).name == name);
                }
            } else {
                assert(field_of(exprs[exprs.len() - 1]).name == name);
            }
        }
        if has_name(base, name) || (exists|i: int|
            0 <= i < front.len() && field_of(#[trigger] front[i]).name == name) {
            let k = choose|k: int| 0 <= k < before.len() && (#[trigger] before[k]).name == name;
            assert(merged[k].name == name);
        } else if exists|i: int| 0 <= i < exprs.len() && field_of(#[trigger] exprs[i]).name == name {
            let i = choose|i: int| 0 <= i < exprs.len() && field_of(#[trigger] exprs[i]).name == name;
            if i < front.len() {
                assert(field_of(front[i]).name == name);
            } else if has_name(before, name) {
                let k = choose|k: int|
                    0 <= k < before.len() && (#[trigger] before[k]).name == name;
                assert(merged[k].name == name);
            } else {
                assert(merged[before.len() as int].name == name);
            }
        }
    }
}

/// An expression whose field is named like a base field, or like the field
/// of an expression before it, adds no field and no evaluator.
pub proof fn lemma_collision_adds_nothing<F>(
    base: Seq<FieldView>,
    exprs: Seq<BoundExpression<F>>,
    next: BoundExpression<F>,
)
    requires
        has_name(base, field_of(next).name) || exists|i: int|
            0 <= i < exprs.len() && field_of(#[trigger] exprs[i]).name == field_of(next).name,
    ensures
        merged_fields(base, exprs.push(next)) == merged_fields(base, exprs),
        retained_functions(base, exprs.push(next)) == retained_functions(base, exprs),
{
    lemma_merged_names(base, exprs, field_of(next).name);
    assert(exprs.push(next).drop_last() == exprs);
}

/// Merging into a base whose names are distinct gives fields whose names are
/// distinct.
pub proof fn lemma_merged_names_distinct<F>(
    base: Seq<FieldView>,
    exprs: Seq<BoundExpression<F>>,
)
    requires
        names_distinct(base),
    ensures
        names_distinct(merged_fields(base, exprs)),
    decreases exprs.len(),
{
    if exprs.len() > 0 {
        lemma_merged_names_distinct(base, exprs.drop_last());
    }
}

} // verus!
