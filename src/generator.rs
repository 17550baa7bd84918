use vstd::prelude::*;

use std::collections::VecDeque;

use crate::effects::{ApplyPlan, AudioOutputConfig, EngineJob};
use crate::error::{PiperError, PiperResult};

verus! {

/// What a pull asks of the caller, or hands to it.
#[derive(Debug)]
pub enum Work {
    /// The text has to be phonemized; hand the outcome to `phonemized`.
    Phonemize,
    /// This phoneme group has to be spoken; hand the outcome to `process_group`.
    Group(String),
    /// A finished item of the sequence.
    Item(PiperResult<Vec<i16>>),
    /// The sequence has ended, for good.
    End,
}

/// The abstract state of a generator: not yet phonemized, the phoneme groups
/// still to be spoken, or done.
pub enum Phase {
    Uninitialized,
    Ready(Seq<String>),
    Exhausted,
}

impl Phase {
    /// One pull: the next phase and what the pull yields.
    pub open spec fn step(self) -> (Phase, Work) {
        match self {
            Phase::Uninitialized => (Phase::Uninitialized, Work::Phonemize),
            Phase::Ready(groups) => if groups.len() > 0 {
                (Phase::Ready(groups.drop_first()), Work::Group(groups[0]))
            } else {
                (Phase::Exhausted, Work::End)
            },
            Phase::Exhausted => (Phase::Exhausted, Work::End),
        }
    }
}

/// What becomes of one spoken group: a finished item, or samples that still
/// have to go through the post-processing engine (finish with `finish_apply`).
#[derive(Debug)]
pub enum GroupStep {
    Done(PiperResult<Vec<i16>>),
    Effects(EngineJob),
}

enum GenState {
    Uninitialized,
    Ready(VecDeque<String>),
    Exhausted,
}

/// Produces one waveform (or error) per phoneme group of a text, in group
/// order. The text is phonemized once, on the first pull.
pub struct PiperSpeechGenerator {
    text: String,
    output_config: Option<AudioOutputConfig>,
    sample_rate: u32,
    state: GenState,
}

impl PiperSpeechGenerator {
    pub closed spec fn phase(&self) -> Phase {
        match self.state {
            GenState::Uninitialized => Phase::Uninitialized,
            GenState::Ready(q) => Phase::Ready(q@),
            GenState::Exhausted => Phase::Exhausted,
        }
    }

    pub closed spec fn spec_text(&self) -> Seq<char> {
        self.text@
    }

    pub closed spec fn spec_output_config(&self) -> Option<AudioOutputConfig> {
        self.output_config
    }

    pub closed spec fn spec_sample_rate(&self) -> u32 {
        self.sample_rate
    }

    /// Whether a spoken group goes through the post-processing engine.
    pub open spec fn effects_wanted(&self) -> bool {
        match self.spec_output_config() {
            Some(c) => c.any_set(),
            None => false,
        }
    }

    pub fn new(text: String, output_config: Option<AudioOutputConfig>, sample_rate: u32) -> (r:
        Self)
        ensures
            r.phase() == Phase::Uninitialized,
            r.spec_text() == text@,
            r.spec_output_config() == output_config,
            r.spec_sample_rate() == sample_rate,
    {
        PiperSpeechGenerator { text, output_config, sample_rate, state: GenState::Uninitialized }
    }

    /// The text to phonemize.
    pub fn text(&self) -> (r: &String)
        ensures
            r@ == self.spec_text(),
    {
        &self.text
    }

    pub fn sample_rate(&self) -> (r: u32)
        ensures
            r == self.spec_sample_rate(),
    {
        self.sample_rate
    }

    /// One pull: asks for phonemization before anything else, then hands out
    /// the phoneme groups in order, then ends.
    pub fn next_work(&mut self) -> (r: Work)
        ensures
            (final(self).phase(), r) == old(self).phase().step(),
            final(self).spec_text() == old(self).spec_text(),
            final(self).spec_output_config() == old(self).spec_output_config(),
            final(self).spec_sample_rate() == old(self).spec_sample_rate(),
    {
        match self.state {
            GenState::Uninitialized => Work::Phonemize,
            GenState::Ready(ref mut groups) => match groups.pop_front() {
                Some(g) => Work::Group(g),
                None => {
                    self.state = GenState::Exhausted;
                    Work::End
                },
            },
            GenState::Exhausted => Work::End,
        }
    }

    /// Takes the outcome of phonemizing the text. The groups are kept for the
    /// pulls to come; a failure is the one item that the sequence yields.
    pub fn phonemized(&mut self, groups: PiperResult<Vec<String>>) -> (r: Option<
        PiperResult<Vec<i16>>,
    >)
        requires
            old(self).phase() == Phase::Uninitialized,
        ensures
            final(self).spec_text() == old(self).spec_text(),
            final(self).spec_output_config() == old(self).spec_output_config(),
            final(self).spec_sample_rate() == old(self).spec_sample_rate(),
            match groups {
                Ok(g) => r is None && final(self).phase() == Phase::Ready(g@),
                Err(e) => r == Some(Err::<Vec<i16>, PiperError>(e)) && final(self).phase()
                    == Phase::Exhausted,
            },
    {
        match groups {
            Ok(g) => {
                let mut q: VecDeque<String> = VecDeque::new();
                let mut i: usize = 0;
                while i < g.len()
                    invariant
                        i <= g@.len(),
                        q@ == g@.subrange(0, i as int),
                    decreases g@.len() - i,
                {
                    q.push_back(g[i].clone());
                    i = i + 1;
                }
                proof {
                    assert(q@ =~= g@);
                }
                self.state = GenState::Ready(q);
                None
            },
            Err(e) => {
                self.state = GenState::Exhausted;
                Some(Err(e))
            },
        }
    }

    /// What becomes of the outcome of speaking one group.
    pub open spec fn group_step(&self, spoken: PiperResult<Vec<i16>>) -> GroupStep {
        match spoken {
            Err(e) => GroupStep::Done(Err(e)),
            Ok(a) => if !self.effects_wanted() || a@.len() == 0 {
                GroupStep::Done(Ok(a))
            } else {
                GroupStep::Effects(
                    EngineJob {
                        settings: self.spec_output_config().unwrap().settings_for(
                            self.spec_sample_rate(),
                        ),
                        samples: a,
                    },
                )
            },
        }
    }

    /// Decides what becomes of the outcome of speaking one group. A failure is
    /// the group's item. Without effects configured the samples are the item
    /// and the engine is not involved; with effects, an empty buffer is the
    /// item as it is, and any other goes to the engine.
    pub fn process_group(&self, spoken: PiperResult<Vec<i16>>) -> (r: GroupStep)
        ensures
            r == self.group_step(spoken),
    {
        let audio = match spoken {
            Err(e) => return GroupStep::Done(Err(e)),
            Ok(a) => a,
        };
        match self.output_config {
            Some(ref config) => {
                if !config.has_any_option_set() {
                    return GroupStep::Done(Ok(audio));
                }
                match config.apply(audio, self.sample_rate) {
                    ApplyPlan::Unchanged(a) => GroupStep::Done(Ok(a)),
                    ApplyPlan::Run(job) => GroupStep::Effects(job),
                }
            },
            None => GroupStep::Done(Ok(audio)),
        }
    }
}

} // verus!
