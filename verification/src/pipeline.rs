//! The pipeline: stages held in one list and wired by index, each to a stage
//! before it.

use crate::error::ErrorCode;
use crate::error::ErrorKind;
use crate::error::ErrorView;
use crate::function::Function;
use crate::processor::Item;
use crate::processor::Stage;
use crate::processor::Upstream;
use crate::processor::no_upstream_error;
use crate::processor::no_upstream_rejection;
use crate::stream::BlockStream;
use crate::stream::feed;
use crate::transform_expression::ExpressionTransform;
use vstd::prelude::*;

verus! {

/// Whether an upstream can feed the stage at position `at`: the empty source
/// can, and so can each stage before `at`.
pub open spec fn precedes(input: Upstream, at: int) -> bool {
    input matches Upstream::Stage(u) ==> u < at
}

/// Whether the stage at position `at` is wired to nothing at or after its own
/// position.
pub open spec fn wired_at<F: Function>(stage: Stage<F>, at: int) -> bool {
    stage matches Stage::Expression(t) ==> precedes(t.upstream(), at)
}

/// Whether every stage is wired to nothing at or after its own position, so
/// that the stages form no cycle.
pub open spec fn wired<F: Function>(stages: Seq<Stage<F>>) -> bool {
    forall|i: int| 0 <= i < stages.len() ==> wired_at(#[trigger] stages[i], i)
}

/// The error of wiring a stage to one that does not come before it.
pub open spec fn order_rejection() -> ErrorView {
    ErrorView {
        kind: ErrorKind::BadPipeline,
        message: "Cannot connect a stage to one that is not upstream of it"@,
    }
}

/// The error of naming a stage that the pipeline does not hold.
pub open spec fn missing_rejection() -> ErrorView {
    ErrorView { kind: ErrorKind::BadPipeline, message: "No such stage in the pipeline"@ }
}

fn order_error() -> (e: ErrorCode)
    ensures
        e@ == order_rejection(),
{
    ErrorCode::new(
        ErrorKind::BadPipeline,
        "Cannot connect a stage to one that is not upstream of it".to_string(),
    )
}

fn missing_error() -> (e: ErrorCode)
    ensures
        e@ == missing_rejection(),
{
    ErrorCode::new(ErrorKind::BadPipeline, "No such stage in the pipeline".to_string())
}

/// Whether an upstream comes before position `at`.
fn upstream_precedes(input: Upstream, at: usize) -> (ok: bool)
    ensures
        ok == precedes(input, at as int),
{
    match input {
        Upstream::Empty => true,
        Upstream::Stage(u) => u < at,
    }
}

/// A graph of stages. Each stage is known by its index, and a transform is
/// wired only to a stage with a smaller index.
pub struct Pipeline<F: Function> {
    stages: Vec<Stage<F>>,
}

impl<F: Function> Pipeline<F> {
    #[verifier::type_invariant]
    spec fn acyclic(&self) -> bool {
        wired(self.stages@)
    }

    /// The stages of the pipeline, by index.
    pub closed spec fn stages(&self) -> Seq<Stage<F>> {
        self.stages@
    }

    /// A pipeline without stages.
    pub fn new() -> (pipeline: Pipeline<F>)
        ensures
            pipeline.stages() == Seq::<Stage<F>>::empty(),
    {
        Pipeline { stages: Vec::new() }
    }

    /// The number of stages. The stages of a pipeline form no cycle.
    pub fn len(&self) -> (n: usize)
        ensures
            n == self.stages().len(),
            wired(self.stages()),
    {
        proof {
            use_type_invariant(self);
        }
        self.stages.len()
    }

    /// The stage at the given index, if there is one.
    pub fn stage(&self, index: usize) -> (stage: Option<&Stage<F>>)
        ensures
            index < self.stages().len() ==> stage == Some(&self.stages()[index as int]),
            index >= self.stages().len() ==> stage is None,
    {
        if index < self.stages.len() {
            Some(&self.stages[index])
        } else {
            None
        }
    }

    /// Adds a source that yields the given items, and returns its index.
    pub fn add_source(&mut self, items: Vec<Item>) -> (index: usize)
        ensures
            index == old(self).stages().len(),
            final(self).stages() == old(self).stages().push(Stage::Source(items)),
    {
        proof {
            use_type_invariant(&*self);
        }
        let mut stages: Vec<Stage<F>> = Vec::new();
        std::mem::swap(&mut stages, &mut self.stages);
        let index = stages.len();
        stages.push(Stage::Source(items));
        self.stages = stages;
        index
    }

    /// Adds a transform and returns its index. A transform that is wired to
    /// a stage which the pipeline does not hold yet is rejected, and the
    /// pipeline stays as it is.
    pub fn add_transform(&mut self, transform: ExpressionTransform<F>) -> (index: Result<
        usize,
        ErrorCode,
    >)
        ensures
            match index {
                Ok(i) => {
                    &&& precedes(transform.upstream(), old(self).stages().len() as int)
                    &&& i == old(self).stages().len()
                    &&& final(self).stages() == old(self).stages().push(
                        Stage::Expression(transform),
                    )
                },
                Err(e) => {
                    &&& !precedes(transform.upstream(), old(self).stages().len() as int)
                    &&& e@ == order_rejection()
                    &&& final(self).stages() == old(self).stages()
                },
            },
    {
        proof {
            use_type_invariant(&*self);
        }
        let index = self.stages.len();
        if !upstream_precedes(transform.input(), index) {
            return Err(order_error());
        }
        let mut stages: Vec<Stage<F>> = Vec::new();
        std::mem::swap(&mut stages, &mut self.stages);
        stages.push(Stage::Expression(transform));
        self.stages = stages;
        Ok(index)
    }

    /// Starts the production of the items of the stage `terminal`: the
    /// stream that is returned computes each item when it is asked for it.
    /// Setting it up takes nothing from the source and asks no evaluator, so
    /// every item of the source is still pending. Each call gives a stream
    /// of its own, which starts from the first item.
    pub fn execute(&self, terminal: Upstream) -> (stream: BlockStream<'_, F>)
        ensures
            stream.stages() == self.stages(),
            stream.terminal() == terminal,
            stream.yielded() == 0,
            stream.pending() == feed(self.stages(), terminal),
    {
        proof {
            use_type_invariant(self);
        }
        BlockStream::start(self, terminal)
    }

    /// Whether `after` is `before` with the transform at `stage` wired to
    /// `input` and everything else as it was.
    pub open spec fn rewired(
        before: Seq<Stage<F>>,
        after: Seq<Stage<F>>,
        stage: int,
        input: Upstream,
    ) -> bool {
        &&& 0 <= stage < before.len()
        &&& after.len() == before.len()
        &&& forall|j: int| 0 <= j < before.len() && j != stage ==> #[trigger] after[j] == before[j]
        &&& before[stage] matches Stage::Expression(old_transform)
        &&& after[stage] matches Stage::Expression(new_transform)
        &&& new_transform.upstream() == input
        &&& new_transform.evaluators() == old_transform.evaluators()
        &&& new_transform.output_fields() == old_transform.output_fields()
    }

    /// Why the stage at `stage` cannot be wired to `input`, if it cannot:
    /// there is no such stage, or it is a source, which takes no upstream, or
    /// the upstream does not come before it.
    pub open spec fn wiring_rejection(stages: Seq<Stage<F>>, stage: int, input: Upstream) -> Option<
        ErrorView,
    > {
        if !(0 <= stage < stages.len()) {
            Some(missing_rejection())
        } else if stages[stage] is Source {
            Some(no_upstream_rejection())
        } else if !precedes(input, stage) {
            Some(order_rejection())
        } else {
            None
        }
    }

    /// Wires the stage at `stage` to `input`, in place of the upstream it
    /// had. The wiring is checked here and now; where it is rejected the
    /// pipeline stays as it is.
    pub fn connect_to(&mut self, stage: usize, input: Upstream) -> (done: Result<(), ErrorCode>)
        ensures
            match done {
                Ok(_) => {
                    &&& Self::wiring_rejection(old(self).stages(), stage as int, input) is None
                    &&& Self::rewired(old(self).stages(), final(self).stages(), stage as int, input)
                },
                Err(e) => {
                    &&& Self::wiring_rejection(old(self).stages(), stage as int, input) == Some(
                        e@,
                    )
                    &&& final(self).stages() == old(self).stages()
                },
            },
    {
        proof {
            use_type_invariant(&*self);
        }
        if stage >= self.stages.len() {
            return Err(missing_error());
        }
        match &self.stages[stage] {
            Stage::Source(_) => {
                return Err(no_upstream_error());
            },
            Stage::Expression(_) => {},
        }
        if !upstream_precedes(input, stage) {
            return Err(order_error());
        }
        let mut stages: Vec<Stage<F>> = Vec::new();
        std::mem::swap(&mut stages, &mut self.stages);
        let ghost before = stages@;
        let mut moved = stages.remove(stage);
        let done = moved.connect_to(input);
        stages.insert(stage, moved);
        proof {
            assert forall|j: int| 0 <= j < before.len() && j != stage implies #[trigger] stages@[j]
                == before[j] by {}
            assert forall|j: int| 0 <= j < stages@.len() implies wired_at(
                #[trigger] stages@[j],
                j,
            ) by {
                if j != stage {
                    assert(wired_at(before[j], j));
                }
            }
        }
        self.stages = stages;
        done
    }
}

} // verus!
