use vstd::prelude::*;

use std::collections::VecDeque;

use crate::error::{PiperError, PiperResult};
use crate::generator::{GroupStep, Phase, PiperSpeechGenerator, Work};

verus! {

/// How a stream does its work: group by group as it is pulled, or all groups
/// up front (in parallel) with the results kept in group order.
#[derive(Debug, Clone, Copy, PartialEq, Eq)]
pub enum SpeechStreamMode {
    Lazy,
    Eager,
}

/// The abstract state of a stream: a live generator, or the items still to
/// be handed out.
pub enum StreamView {
    Lazy(Phase),
    Eager(Seq<PiperResult<Vec<i16>>>),
}

impl StreamView {
    /// One pull: the next state and what the pull yields.
    pub open spec fn step(self) -> (StreamView, Work) {
        match self {
            StreamView::Lazy(p) => (StreamView::Lazy(p.step().0), p.step().1),
            StreamView::Eager(items) => if items.len() > 0 {
                (StreamView::Eager(items.drop_first()), Work::Item(items[0]))
            } else {
                (StreamView::Eager(items), Work::End)
            },
        }
    }

    /// The items that pulling to the end yields, where the caller turns each
    /// phoneme group handed out into `outcome` of it. A stream that has not
    /// phonemized yet yields nothing this way.
    pub open spec fn drained(self, outcome: spec_fn(String) -> PiperResult<Vec<i16>>) -> Seq<
        PiperResult<Vec<i16>>,
    >
        decreases
                match self {
                    StreamView::Lazy(Phase::Ready(g)) => g.len(),
                    StreamView::Eager(items) => items.len(),
                    _ => 0,
                },
    {
        match self {
            StreamView::Lazy(Phase::Ready(g)) => if g.len() > 0 {
                seq![outcome(g[0])] + StreamView::Lazy(Phase::Ready(g.drop_first())).drained(
                    outcome,
                )
            } else {
                seq![]
            },
            StreamView::Eager(items) => if items.len() > 0 {
                seq![items[0]] + StreamView::Eager(items.drop_first()).drained(outcome)
            } else {
                seq![]
            },
            _ => seq![],
        }
    }
}

/// What one pull contributes to the items of a stream that has phonemized:
/// the first of the items it yields to the end.
pub open spec fn pulled(w: Work, outcome: spec_fn(String) -> PiperResult<Vec<i16>>) -> Seq<
    PiperResult<Vec<i16>>,
> {
    match w {
        Work::Group(g) => seq![outcome(g)],
        Work::Item(it) => seq![it],
        _ => seq![],
    }
}

/// Pulling to the end is pulling once and then pulling the rest: for a stream
/// that is not waiting for phonemization, the items it yields to the end are
/// what one pull yields followed by the items the next state yields.
pub proof fn lemma_pull_then_rest(v: StreamView, outcome: spec_fn(String) -> PiperResult<Vec<i16>>)
    requires
        v != StreamView::Lazy(Phase::Uninitialized),
    ensures
        v.drained(outcome) == pulled(v.step().1, outcome) + v.step().0.drained(outcome),
{
    match v {
        StreamView::Lazy(Phase::Ready(g)) => {
            if g.len() == 0 {
                assert(v.step().0.drained(outcome) =~= Seq::empty());
            }
        },
        _ => {},
    }
    assert(v.drained(outcome) =~= pulled(v.step().1, outcome) + v.step().0.drained(outcome));
}

/// Pulled to the end, a lazy stream over phonemized `groups` and an eager
/// stream over each group's outcome, in group order, yield the same items:
/// the outcomes of the groups, in group order.
pub proof fn lemma_lazy_and_eager_agree(
    groups: Seq<String>,
    outcome: spec_fn(String) -> PiperResult<Vec<i16>>,
)
    ensures
        StreamView::Lazy(Phase::Ready(groups)).drained(outcome) == groups.map_values(outcome),
        StreamView::Eager(groups.map_values(outcome)).drained(outcome) == groups.map_values(
            outcome,
        ),
    decreases groups.len(),
{
    if groups.len() > 0 {
        lemma_lazy_and_eager_agree(groups.drop_first(), outcome);
        assert(groups.map_values(outcome).drop_first() =~= groups.drop_first().map_values(
            outcome,
        ));
        assert(groups.map_values(outcome) =~= seq![outcome(groups[0])]
            + groups.drop_first().map_values(outcome));
    } else {
        assert(groups.map_values(outcome) =~= Seq::empty());
    }
}

/// Where the group at `k` fails and every other group succeeds, either mode
/// yields one item per group, the `k`-th an error and all others waveforms.
pub proof fn lemma_group_failure_isolated(
    groups: Seq<String>,
    outcome: spec_fn(String) -> PiperResult<Vec<i16>>,
    k: int,
)
    requires
        0 <= k < groups.len(),
        outcome(groups[k]) is Err,
        forall|i: int| 0 <= i < groups.len() && i != k ==> (#[trigger] outcome(groups[i])) is Ok,
    ensures
        ({
            let lazy_items = StreamView::Lazy(Phase::Ready(groups)).drained(outcome);
            let eager_items = StreamView::Eager(groups.map_values(outcome)).drained(outcome);
            &&& lazy_items.len() == groups.len()
            &&& eager_items.len() == groups.len()
            &&& lazy_items[k] is Err
            &&& eager_items[k] is Err
            &&& forall|i: int|
                0 <= i < groups.len() && i != k ==> lazy_items[i] is Ok && eager_items[i] is Ok
        }),
{
    lemma_lazy_and_eager_agree(groups, outcome);
    assert forall|i: int| 0 <= i < groups.len() && i != k implies groups.map_values(
        outcome,
    )[i] is Ok by {
        assert(outcome(groups[i]) is Ok);
    }
}

/// Once phonemization has failed, and its error has been handed out, a lazy
/// stream yields nothing more.
pub proof fn lemma_failed_stream_yields_nothing(outcome: spec_fn(String) -> PiperResult<Vec<i16>>)
    ensures
        StreamView::Lazy(Phase::Exhausted).drained(outcome).len() == 0,
        StreamView::Lazy(Phase::Exhausted).step() == (
        StreamView::Lazy(Phase::Exhausted),
        Work::End,
        ),
{
}

enum Source {
    Lazy(PiperSpeechGenerator),
    Eager(VecDeque<PiperResult<Vec<i16>>>),
}

/// An ordered sequence of waveforms (or errors), one per phoneme group, with
/// the sample rate of the utterance.
pub struct PiperSpeechStream {
    source: Source,
    sample_rate: u32,
}

impl PiperSpeechStream {
    pub closed spec fn view(&self) -> StreamView {
        match self.source {
            Source::Lazy(g) => StreamView::Lazy(g.phase()),
            Source::Eager(q) => StreamView::Eager(q@),
        }
    }

    /// The generator behind a lazy stream.
    pub closed spec fn spec_generator(&self) -> Option<PiperSpeechGenerator> {
        match self.source {
            Source::Lazy(g) => Some(g),
            Source::Eager(_) => None,
        }
    }

    pub closed spec fn spec_sample_rate(&self) -> u32 {
        self.sample_rate
    }

    /// Whether `other` has the same sample rate and, if lazy, a generator with
    /// the same text and settings.
    pub open spec fn same_settings(&self, other: &Self) -> bool {
        &&& self.spec_sample_rate() == other.spec_sample_rate()
        &&& match (self.spec_generator(), other.spec_generator()) {
            (Some(a), Some(b)) => {
                &&& a.spec_text() == b.spec_text()
                &&& a.spec_output_config() == b.spec_output_config()
                &&& a.spec_sample_rate() == b.spec_sample_rate()
            },
            (None, None) => true,
            _ => false,
        }
    }

    /// A stream that does its work as it is pulled.
    pub fn lazy(gen: PiperSpeechGenerator) -> (r: Self)
        ensures
            r.view() == StreamView::Lazy(gen.phase()),
            r.spec_generator() == Some(gen),
            r.spec_sample_rate() == gen.spec_sample_rate(),
    {
        let sample_rate = gen.sample_rate();
        PiperSpeechStream { source: Source::Lazy(gen), sample_rate }
    }

    /// A stream over items already computed, one per group in group order.
    pub fn eager(items: Vec<PiperResult<Vec<i16>>>, sample_rate: u32) -> (r: Self)
        ensures
            r.view() == StreamView::Eager(items@),
            r.spec_generator() is None,
            r.spec_sample_rate() == sample_rate,
    {
        let mut q: VecDeque<PiperResult<Vec<i16>>> = VecDeque::new();
        let mut items = items;
        let ghost all = items@;
        while items.len() > 0
            invariant
                items@.len() <= all.len(),
                items@ == all.subrange(0, items@.len() as int),
                q@ == all.subrange(items@.len() as int, all.len() as int),
            decreases items@.len(),
        {
            let it = items.pop().unwrap();
            q.push_front(it);
            proof {
                assert(q@ =~= all.subrange(items@.len() as int, all.len() as int));
                assert(items@ =~= all.subrange(0, items@.len() as int));
            }
        }
        proof {
            assert(q@ =~= all);
        }
        PiperSpeechStream { source: Source::Eager(q), sample_rate }
    }

    /// The text of a lazy stream, for phonemization.
    pub fn text(&self) -> (r: Option<&String>)
        ensures
            match self.spec_generator() {
                Some(g) => r is Some && r.unwrap()@ == g.spec_text(),
                None => r is None,
            },
    {
        match self.source {
            Source::Lazy(ref gen) => Some(gen.text()),
            Source::Eager(_) => None,
        }
    }

    /// The sample rate of every waveform of the stream; fixed at construction.
    pub fn get_sample_rate(&self) -> (r: u32)
        ensures
            r == self.spec_sample_rate(),
    {
        self.sample_rate
    }

    /// One pull. A lazy stream asks for phonemization first, then hands out the
    /// phoneme groups in order; an eager one hands out its items in order.
    /// Both then end, for good.
    pub fn next_work(&mut self) -> (r: Work)
        ensures
            (final(self).view(), r) == old(self).view().step(),
            final(self).same_settings(old(self)),
    {
        match self.source {
            Source::Lazy(ref mut gen) => gen.next_work(),
            Source::Eager(ref mut q) => match q.pop_front() {
                Some(it) => Work::Item(it),
                None => Work::End,
            },
        }
    }

    /// Takes the outcome of phonemizing the text of a lazy stream (see
    /// `PiperSpeechGenerator::phonemized`).
    pub fn phonemized(&mut self, groups: PiperResult<Vec<String>>) -> (r: Option<
        PiperResult<Vec<i16>>,
    >)
        requires
            old(self).view() == StreamView::Lazy(Phase::Uninitialized),
        ensures
            final(self).same_settings(old(self)),
            match groups {
                Ok(g) => r is None && final(self).view() == StreamView::Lazy(Phase::Ready(g@)),
                Err(e) => r == Some(Err::<Vec<i16>, PiperError>(e)) && final(self).view()
                    == StreamView::Lazy(Phase::Exhausted),
            },
    {
        match self.source {
            Source::Lazy(ref mut gen) => gen.phonemized(groups),
            Source::Eager(_) => None,
        }
    }

    /// Decides what becomes of the outcome of speaking one group of a lazy
    /// stream (see `PiperSpeechGenerator::process_group`).
    pub fn process_group(&self, spoken: PiperResult<Vec<i16>>) -> (r: GroupStep)
        requires
            self.spec_generator() is Some,
        ensures
            r == self.spec_generator().unwrap().group_step(spoken),
    {
        match self.source {
            Source::Lazy(ref gen) => gen.process_group(spoken),
            Source::Eager(_) => GroupStep::Done(spoken),
        }
    }
}

} // verus!
