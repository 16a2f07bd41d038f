//! What every pipeline stage has in common: its kind, its name and its
//! upstream.

use crate::block::BlockView;
use crate::block::DataBlock;
use crate::error::ErrorCode;
use crate::error::ErrorKind;
use crate::error::ErrorView;
use crate::function::Function;
use crate::transform_expression::ExpressionTransform;
use vstd::prelude::*;

verus! {

/// The upstream that a stage is wired to: the empty source that every stage
/// starts with, or a stage of the pipeline, by its index.
#[derive(Clone, Copy, PartialEq, Eq, Structural, Debug)]
pub enum Upstream {
    Empty,
    Stage(usize),
}

/// The known kinds of stage.
#[derive(Clone, Copy, PartialEq, Eq, Structural, Debug)]
pub enum StageKind {
    Source,
    Expression,
}

/// One item of a stream: a block, or the failure that stands in its place.
pub type Item = Result<DataBlock, ErrorCode>;

/// The mathematical value of an item.
pub open spec fn item_view(item: Item) -> Result<BlockView, ErrorView> {
    match item {
        Ok(block) => Ok(block@),
        Err(e) => Err(e@),
    }
}

/// The mathematical values of a list of items, in order.
pub open spec fn item_views(items: Seq<Item>) -> Seq<Result<BlockView, ErrorView>> {
    Seq::new(items.len(), |i: int| item_view(items[i]))
}

/// A copy of an item.
pub fn clone_item(item: &Item) -> (copy: Item)
    ensures
        item_view(copy) == item_view(*item),
{
    match item {
        Ok(block) => Ok(block.clone()),
        Err(e) => Err(e.clone()),
    }
}

/// A stage of a pipeline: one of the known kinds.
pub enum Stage<F: Function> {
    /// A leaf that yields the items it holds, in order.
    Source(Vec<Item>),
    /// A stage that derives columns from each block of its upstream.
    Expression(ExpressionTransform<F>),
}

/// What wiring a stage that takes no upstream fails with.
pub open spec fn no_upstream_rejection() -> ErrorView {
    ErrorView { kind: ErrorKind::BadPipeline, message: "Cannot call SourceTransform connect_to"@ }
}

/// The error of wiring a stage that takes no upstream.
pub fn no_upstream_error() -> (e: ErrorCode)
    ensures
        e@ == no_upstream_rejection(),
{
    ErrorCode::new(ErrorKind::BadPipeline, "Cannot call SourceTransform connect_to".to_string())
}

impl<F: Function> Stage<F> {
    /// The upstreams of the stage: none for a source, one for a transform.
    pub open spec fn upstreams(&self) -> Seq<Upstream> {
        match self {
            Stage::Source(_) => Seq::empty(),
            Stage::Expression(t) => seq![t.upstream()],
        }
    }

    /// The kind of the stage.
    pub fn kind(&self) -> (kind: StageKind)
        ensures
            kind == (match self {
                Stage::Source(_) => StageKind::Source,
                Stage::Expression(_) => StageKind::Expression,
            }),
    {
        match self {
            Stage::Source(_) => StageKind::Source,
            Stage::Expression(_) => StageKind::Expression,
        }
    }

    /// The stable name of the stage, for messages and introspection.
    pub fn name(&self) -> (name: &'static str)
        ensures
            name@ == (match self {
                Stage::Source(_) => "SourceTransform"@,
                Stage::Expression(_) => "ExpressionTransform"@,
            }),
    {
        match self {
            Stage::Source(_) => "SourceTransform",
            Stage::Expression(t) => t.name(),
        }
    }

    /// The stage as an expression transform, if it is one.
    pub fn as_expression(&self) -> (view: Option<&ExpressionTransform<F>>)
        ensures
            match self {
                Stage::Source(_) => view is None,
                Stage::Expression(t) => view == Some(t),
            },
    {
        match self {
            Stage::Source(_) => None,
            Stage::Expression(t) => Some(t),
        }
    }

    /// The upstreams of the stage.
    pub fn inputs(&self) -> (inputs: Vec<Upstream>)
        ensures
            inputs@ == self.upstreams(),
    {
        match self {
            Stage::Source(_) => Vec::new(),
            Stage::Expression(t) => t.inputs(),
        }
    }

    /// Wires the stage to an upstream. A transform takes it in place of the
    /// one it had. A source takes none: the call fails and the stage stays as
    /// it is.
    pub fn connect_to(&mut self, input: Upstream) -> (done: Result<(), ErrorCode>)
        ensures
            match *old(self) {
                Stage::Source(_) => {
                    &&& done matches Err(e) && e@ == no_upstream_rejection()
                    &&& *final(self) == *old(self)
                },
                Stage::Expression(before) => {
                    &&& done is Ok
                    &&& *final(self) matches Stage::Expression(after)
                    &&& after.upstream() == input
                    &&& after.evaluators() == before.evaluators()
                    &&& after.output_fields() == before.output_fields()
                },
            },
    {
        match self {
            Stage::Source(_) => Err(no_upstream_error()),
            Stage::Expression(t) => t.connect_to(input),
        }
    }
}

} // verus!
