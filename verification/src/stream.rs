//! Pull-based execution: a stream yields the items of a pipeline's stage one
//! at a time, and computes each only when it is asked for.

use crate::block::uniform;
use crate::function::Function;
use crate::pipeline::Pipeline;
use crate::pipeline::wired;
use crate::pipeline::wired_at;
use crate::processor::Item;
use crate::processor::Stage;
use crate::processor::Upstream;
use crate::processor::clone_item;
use crate::processor::item_view;
use vstd::prelude::*;

verus! {

/// The source that feeds `from`, through any number of transforms: the index
/// of a source stage, or nothing where the chain ends in the empty source.
pub open spec fn leaf<F: Function>(stages: Seq<Stage<F>>, from: Upstream) -> Option<int>
    decreases
            (match from {
                Upstream::Empty => 0int,
                Upstream::Stage(i) => i + 1,
            }),
{
    match from {
        Upstream::Empty => None,
        Upstream::Stage(i) => if i < stages.len() {
            match stages[i as int] {
                Stage::Source(_) => Some(i as int),
                Stage::Expression(t) => match t.upstream() {
                    Upstream::Empty => None,
                    Upstream::Stage(u) => if u < i {
                        leaf(stages, Upstream::Stage(u))
                    } else {
                        None
                    },
                },
            }
        } else {
            None
        },
    }
}

/// The items that the source at `index` holds.
pub open spec fn items_of<F: Function>(stages: Seq<Stage<F>>, index: int) -> Seq<Item> {
    match stages[index] {
        Stage::Source(items) => items@,
        Stage::Expression(_) => Seq::empty(),
    }
}

/// Whether `out` is what the stage `at` makes of `item`, an item of the
/// source that feeds it: a source hands the item on as it is, and a
/// transform makes of it what its evaluators make of what its upstream made
/// of it.
pub open spec fn flows<F: Function>(
    stages: Seq<Stage<F>>,
    at: Upstream,
    item: Item,
    out: Item,
) -> bool
    decreases
            (match at {
                Upstream::Empty => 0int,
                Upstream::Stage(i) => i + 1,
            }),
{
    match at {
        Upstream::Empty => false,
        Upstream::Stage(i) => i < stages.len() && match stages[i as int] {
            Stage::Source(_) => item_view(out) == item_view(item),
            Stage::Expression(t) => match t.upstream() {
                Upstream::Empty => false,
                Upstream::Stage(u) => u < i && exists|mid: Item|
                    flows(stages, Upstream::Stage(u), item, mid) && #[trigger] t.executes(
                        mid,
                        out,
                    ),
            },
        },
    }
}

/// The items of the source that feeds `from`; none where that is the empty
/// source.
pub open spec fn feed<F: Function>(stages: Seq<Stage<F>>, from: Upstream) -> Seq<Item> {
    match leaf(stages, from) {
        None => Seq::empty(),
        Some(k) => items_of(stages, k),
    }
}

/// A stream over the items of one stage of a pipeline. It borrows the
/// pipeline and keeps how many items it has taken from the source that
/// feeds the stage.
pub struct BlockStream<'a, F: Function> {
    pipeline: &'a Pipeline<F>,
    terminal: Upstream,
    position: usize,
}

impl<'a, F: Function> BlockStream<'a, F> {
    #[verifier::type_invariant]
    spec fn position_within(&self) -> bool {
        &&& wired(self.pipeline.stages())
        &&& self.position <= feed(self.pipeline.stages(), self.terminal).len()
    }

    /// The stages of the pipeline that the stream runs over.
    pub closed spec fn stages(&self) -> Seq<Stage<F>> {
        self.pipeline.stages()
    }

    /// The stage whose items the stream yields.
    pub closed spec fn terminal(&self) -> Upstream {
        self.terminal
    }

    /// How many items the stream has yielded so far.
    pub closed spec fn yielded(&self) -> nat {
        self.position as nat
    }

    /// The items of the source that the stream has still to work on, in
    /// order.
    pub open spec fn pending(&self) -> Seq<Item> {
        feed(self.stages(), self.terminal()).skip(self.yielded() as int)
    }

    /// The stream over the items of the stage `terminal`, with every item of
    /// the source still pending.
    pub(crate) fn start(pipeline: &'a Pipeline<F>, terminal: Upstream) -> (stream: BlockStream<
        'a,
        F,
    >)
        requires
            wired(pipeline.stages()),
        ensures
            stream.stages() == pipeline.stages(),
            stream.terminal() == terminal,
            stream.yielded() == 0,
            stream.pending() == feed(pipeline.stages(), terminal),
    {
        BlockStream { pipeline, terminal, position: 0 }
    }

    /// How many items the stream has yielded so far.
    pub fn position(&self) -> (n: usize)
        ensures
            n == self.yielded(),
            n <= feed(self.stages(), self.terminal()).len(),
    {
        proof {
            use_type_invariant(self);
        }
        self.position
    }

    /// The next item of the stage `at`, a stage on the way from the source
    /// to the stream's own stage, if the source has one left.
    fn pull(&mut self, at: Upstream) -> (out: Option<Item>)
        requires
            leaf(old(self).stages(), at) == leaf(old(self).stages(), old(self).terminal()),
        ensures
            final(self).stages() == old(self).stages(),
            final(self).terminal() == old(self).terminal(),
            match out {
                Some(made) => {
                    &&& old(self).pending().len() > 0
                    &&& flows(old(self).stages(), at, old(self).pending()[0], made)
                    &&& final(self).yielded() == old(self).yielded() + 1
                },
                None => old(self).pending().len() == 0 && final(self).yielded() == old(
                    self,
                ).yielded(),
            },
        decreases
                (match at {
                    Upstream::Empty => 0int,
                    Upstream::Stage(i) => i + 1,
                }),
    {
        proof {
            use_type_invariant(&*self);
        }
        let pipeline: &'a Pipeline<F> = self.pipeline;
        let index = match at {
            Upstream::Empty => {
                return None;
            },
            Upstream::Stage(index) => index,
        };
        let stage = match pipeline.stage(index) {
            None => {
                return None;
            },
            Some(stage) => stage,
        };
        match stage {
            Stage::Source(items) => {
                let taken = self.position;
                if taken < items.len() {
                    let made = clone_item(&items[taken]);
                    self.position = taken + 1;
                    Some(made)
                } else {
                    None
                }
            },
            Stage::Expression(transform) => {
                let input = transform.input();
                assert(wired_at(pipeline.stages()[index as int], index as int));
                match self.pull(input) {
                    None => None,
                    Some(mid) => {
                        let made = transform.execute_block(mid);
                        assert(flows(old(self).stages(), input, old(self).pending()[0], mid)
                            && transform.executes(mid, made));
                        Some(made)
                    },
                }
            },
        }
    }

    /// The next item of the stream, computed now: what the stream's stage
    /// makes of the first pending item of the source. Nothing is returned
    /// once the source is exhausted.
    pub fn next(&mut self) -> (out: Option<Item>)
        ensures
            final(self).stages() == old(self).stages(),
            final(self).terminal() == old(self).terminal(),
            match out {
                Some(made) => {
                    &&& old(self).pending().len() > 0
                    &&& flows(old(self).stages(), old(self).terminal(), old(self).pending()[0], made)
                    &&& final(self).yielded() == old(self).yielded() + 1
                    &&& final(self).pending() == old(self).pending().skip(1)
                },
                None => {
                    &&& old(self).pending().len() == 0
                    &&& final(self).yielded() == old(self).yielded()
                    &&& final(self).pending() == old(self).pending()
                },
            },
    {
        let terminal = self.terminal;
        let out = self.pull(terminal);
        proof {
            use_type_invariant(&*self);
            if out is Some {
                assert(final(self).pending() =~= old(self).pending().skip(1));
            }
        }
        out
    }

    /// All the items that the stream has still to yield, in order: one for
    /// each pending item of the source, whether it succeeds or fails.
    pub fn collect(&mut self) -> (out: Vec<Item>)
        ensures
            final(self).stages() == old(self).stages(),
            final(self).terminal() == old(self).terminal(),
            out.len() == old(self).pending().len(),
            forall|j: int|
                0 <= j < out.len() ==> flows(
                    old(self).stages(),
                    old(self).terminal(),
                    old(self).pending()[j],
                    #[trigger] out[j],
                ),
            final(self).pending().len() == 0,
    {
        let mut out: Vec<Item> = Vec::new();
        loop
            invariant
                self.stages() == old(self).stages(),
                self.terminal() == old(self).terminal(),
                out.len() <= old(self).pending().len(),
                self.pending() == old(self).pending().skip(out.len() as int),
                forall|j: int|
                    0 <= j < out.len() ==> flows(
                        old(self).stages(),
                        old(self).terminal(),
                        old(self).pending()[j],
                        #[trigger] out[j],
                    ),
            ensures
                out.len() == old(self).pending().len(),
                self.pending().len() == 0,
            decreases old(self).pending().len() - out.len(),
        {
            match self.next() {
                None => {
                    break ;
                },
                Some(made) => {
                    out.push(made);
                },
            }
        }
        out
    }
}

/// A failed item of the source comes out of every stage as the same
/// failure: no stage swallows it or puts another in its place.
pub proof fn lemma_failure_flows<F: Function>(
    stages: Seq<Stage<F>>,
    at: Upstream,
    item: Item,
    out: Item,
)
    requires
        flows(stages, at, item, out),
        item is Err,
    ensures
        item_view(out) == item_view(item),
    decreases
            (match at {
                Upstream::Empty => 0int,
                Upstream::Stage(i) => i + 1,
            }),
{
    if let Upstream::Stage(i) = at {
        if let Stage::Expression(t) = stages[i as int] {
            if let Upstream::Stage(u) = t.upstream() {
                let mid = choose|mid: Item|
                    flows(stages, Upstream::Stage(u), item, mid) && #[trigger] t.executes(
                        mid,
                        out,
                    );
                lemma_failure_flows(stages, Upstream::Stage(u), item, mid);
            }
        }
    }
}

/// A block that comes out of a transform is bound to the transform's output
/// schema and holds one column for each of its evaluators; and it comes of a
/// block, never of a failure.
pub proof fn lemma_block_flows<F: Function>(
    stages: Seq<Stage<F>>,
    at: Upstream,
    item: Item,
    out: Item,
)
    requires
        flows(stages, at, item, out),
        out is Ok,
    ensures
        item is Ok,
        at matches Upstream::Stage(i) && i < stages.len(),
        at matches Upstream::Stage(i) ==> (stages[i as int] matches Stage::Expression(t) ==> {
            &&& out->Ok_0@.schema == t.output_fields()
            &&& out->Ok_0@.columns.len() == t.evaluators().len()
            &&& uniform(out->Ok_0@.columns)
        }),
    decreases
            (match at {
                Upstream::Empty => 0int,
                Upstream::Stage(i) => i + 1,
            }),
{
    if let Upstream::Stage(i) = at {
        if let Stage::Expression(t) = stages[i as int] {
            if let Upstream::Stage(u) = t.upstream() {
                let mid = choose|mid: Item|
                    flows(stages, Upstream::Stage(u), item, mid) && #[trigger] t.executes(
                        mid,
                        out,
                    );
                if mid is Err {
                    lemma_failure_flows(stages, Upstream::Stage(u), item, mid);
                } else {
                    lemma_block_flows(stages, Upstream::Stage(u), item, mid);
                    t.lemma_executed_shape(mid->Ok_0, out);
                }
            }
        }
    }
}

} // verus!
