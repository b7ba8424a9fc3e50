use vstd::prelude::*;

verus! {

/// Phase of one generation call: feeding prompt tokens, sampling new ones,
/// or finished.
#[derive(Clone, Copy, PartialEq, Eq, Structural, Debug)]
pub enum Phase {
    Prefill,
    Decode,
    Done,
}

/// What the driver must do next: run the forward pass on a token at a
/// position, sample from the current logits, or stop.
#[derive(Clone, Copy, PartialEq, Eq, Structural, Debug)]
pub enum GenAction {
    Feed(u32, usize),
    Sample,
    Stop,
}

/// The decision core of one generation call. The numeric forward pass and
/// the random draw live outside; this machine dictates, step by step, which
/// token is fed at which position, when a sample is due, and when the call
/// stops — on an end-of-sequence token or on reaching the new-token budget.
pub struct GenSession {
    prompt: Vec<u32>,
    max_new: usize,
    eos: u32,
    base_pos: usize,
    fed: usize,
    pos_next: usize,
    to_feed: Option<u32>,
    out: Vec<u32>,
    phase: Phase,
}

impl GenSession {
    /// The prompt tokens of this call.
    pub closed spec fn spec_prompt(&self) -> Seq<u32> {
        self.prompt@
    }

    /// The new-token budget.
    pub closed spec fn spec_max_new(&self) -> usize {
        self.max_new
    }

    /// The end-of-sequence token id.
    pub closed spec fn spec_eos(&self) -> u32 {
        self.eos
    }

    /// The cache position the first prompt token is fed at.
    pub closed spec fn spec_base_pos(&self) -> usize {
        self.base_pos
    }

    /// How many prompt tokens have been fed.
    pub closed spec fn spec_fed(&self) -> usize {
        self.fed
    }

    /// The position the next fed token will occupy.
    pub closed spec fn spec_pos_next(&self) -> usize {
        self.pos_next
    }

    /// The sampled token that still has to be fed back, if any.
    pub closed spec fn spec_to_feed(&self) -> Option<u32> {
        self.to_feed
    }

    /// The tokens emitted so far.
    pub closed spec fn spec_out(&self) -> Seq<u32> {
        self.out@
    }

    /// The current phase.
    pub closed spec fn spec_phase(&self) -> Phase {
        self.phase
    }

    /// State invariant: positions are assigned contiguously from the base
    /// position, the output never passes the budget, and a finished call
    /// finished for a stated reason.
    pub open spec fn wf(&self) -> bool {
        &&& self.spec_base_pos() + self.spec_prompt().len() + self.spec_max_new() <= usize::MAX
        &&& self.spec_out().len() <= self.spec_max_new()
        &&& match self.spec_phase() {
            Phase::Prefill => {
                &&& self.spec_fed() < self.spec_prompt().len()
                &&& self.spec_out().len() == 0
                &&& self.spec_to_feed() is None
                &&& self.spec_pos_next() == self.spec_base_pos() + self.spec_fed()
            },
            Phase::Decode => {
                &&& self.spec_fed() == self.spec_prompt().len()
                &&& self.spec_prompt().len() >= 1
                &&& self.spec_out().len() < self.spec_max_new()
                &&& match self.spec_to_feed() {
                    Some(t) => {
                        &&& self.spec_out().len() >= 1
                        &&& t == self.spec_out().last()
                        &&& self.spec_pos_next() == self.spec_base_pos() + self.spec_fed() + (
                        self.spec_out().len() - 1)
                    },
                    None => self.spec_pos_next() == self.spec_base_pos() + self.spec_fed()
                        + self.spec_out().len(),
                }
            },
            Phase::Done => {
                &&& self.spec_to_feed() is None
                &&& (self.spec_out().len() == self.spec_max_new() || (self.spec_out().len() >= 1
                    && self.spec_out().last() == self.spec_eos()) || (self.spec_prompt().len() == 0
                    && self.spec_out().len() == 0))
            },
        }
    }

    /// Starts a story-mode call: a fresh conversation, so the first prompt
    /// token is fed at position zero.
    pub fn generate(prompt: Vec<u32>, max_new: usize, eos: u32) -> (r: GenSession)
        requires
            prompt@.len() + max_new <= usize::MAX,
        ensures
            r.wf(),
            r.spec_prompt() == prompt@,
            r.spec_max_new() == max_new,
            r.spec_eos() == eos,
            r.spec_base_pos() == 0,
            r.spec_out().len() == 0,
            r.spec_fed() == 0,
            r.spec_phase() == (if prompt@.len() == 0 {
                Phase::Done
            } else {
                Phase::Prefill
            }),
    {
        Self::chat_generate(prompt, max_new, eos, 0)
    }

    /// Starts a chat-mode call on a retained conversation: the new turn's
    /// prompt tokens are fed starting at the caller's cache cursor, so the
    /// transcript already in the cache is not recomputed.
    pub fn chat_generate(prompt: Vec<u32>, max_new: usize, eos: u32, cache_cursor: usize) -> (r:
        GenSession)
        requires
            cache_cursor + prompt@.len() + max_new <= usize::MAX,
        ensures
            r.wf(),
            r.spec_prompt() == prompt@,
            r.spec_max_new() == max_new,
            r.spec_eos() == eos,
            r.spec_base_pos() == cache_cursor,
            r.spec_out().len() == 0,
            r.spec_fed() == 0,
            r.spec_phase() == (if prompt@.len() == 0 {
                Phase::Done
            } else {
                Phase::Prefill
            }),
    {
        let phase = if prompt.len() == 0 {
            // no logits ever become available, so nothing can be sampled
            Phase::Done
        } else {
            Phase::Prefill
        };
        GenSession {
            prompt,
            max_new,
            eos,
            base_pos: cache_cursor,
            fed: 0,
            pos_next: cache_cursor,
            to_feed: None,
            out: Vec::new(),
            phase,
        }
    }

    /// What the driver must do next, as a pure function of the state.
    pub fn next_action(&self) -> (a: GenAction)
        requires
            self.wf(),
        ensures
            a == match self.spec_phase() {
                Phase::Prefill => GenAction::Feed(
                    self.spec_prompt()[self.spec_fed() as int],
                    self.spec_pos_next(),
                ),
                Phase::Decode => match self.spec_to_feed() {
                    Some(t) => GenAction::Feed(t, self.spec_pos_next()),
                    None => GenAction::Sample,
                },
                Phase::Done => GenAction::Stop,
            },
    {
        match self.phase {
            Phase::Prefill => GenAction::Feed(self.prompt[self.fed], self.pos_next),
            Phase::Decode => match self.to_feed {
                Some(t) => GenAction::Feed(t, self.pos_next),
                None => GenAction::Sample,
            },
            Phase::Done => GenAction::Stop,
        }
    }

    /// Whether the next action is a feed.
    pub fn expects_feed(&self) -> (r: bool)
        ensures
            r == (self.spec_phase() == Phase::Prefill || (self.spec_phase() == Phase::Decode
                && self.spec_to_feed() is Some)),
    {
        match self.phase {
            Phase::Prefill => true,
            Phase::Decode => match self.to_feed {
                Some(_) => true,
                None => false,
            },
            Phase::Done => false,
        }
    }

    /// Whether the next action is a sample.
    pub fn expects_sample(&self) -> (r: bool)
        ensures
            r == (self.spec_phase() == Phase::Decode && self.spec_to_feed() is None),
    {
        match self.phase {
            Phase::Decode => match self.to_feed {
                Some(_) => false,
                None => true,
            },
            _ => false,
        }
    }

    /// Whether the call is finished.
    pub fn is_done(&self) -> (r: bool)
        ensures
            r == (self.spec_phase() == Phase::Done),
    {
        match self.phase {
            Phase::Done => true,
            _ => false,
        }
    }

    /// The driver reports that the pending feed went through the forward
    /// pass (and so through the cache). During prefill this steps to the
    /// next prompt token; once the prompt is exhausted the call moves to
    /// decoding — or straight to done on a zero budget. After a fed-back
    /// sample it simply frees the machine to ask for the next sample.
    pub fn note_fed(&mut self)
        requires
            old(self).wf(),
            old(self).spec_phase() == Phase::Prefill || (old(self).spec_phase() == Phase::Decode
                && old(self).spec_to_feed() is Some),
        ensures
            final(self).wf(),
            final(self).spec_prompt() == old(self).spec_prompt(),
            final(self).spec_max_new() == old(self).spec_max_new(),
            final(self).spec_eos() == old(self).spec_eos(),
            final(self).spec_base_pos() == old(self).spec_base_pos(),
            final(self).spec_out() == old(self).spec_out(),
            final(self).spec_pos_next() == old(self).spec_pos_next() + 1,
            final(self).spec_to_feed() is None,
            match old(self).spec_phase() {
                Phase::Prefill => {
                    &&& final(self).spec_fed() == old(self).spec_fed() + 1
                    &&& final(self).spec_phase() == (if old(self).spec_fed() + 1 < old(
                        self,
                    ).spec_prompt().len() {
                        Phase::Prefill
                    } else if old(self).spec_max_new() == 0 {
                        Phase::Done
                    } else {
                        Phase::Decode
                    })
                },
                _ => {
                    &&& final(self).spec_fed() == old(self).spec_fed()
                    &&& final(self).spec_phase() == Phase::Decode
                },
            },
    {
        self.pos_next = self.pos_next + 1;
        match self.phase {
            Phase::Prefill => {
                self.fed = self.fed + 1;
                if self.fed == self.prompt.len() {
                    if self.max_new == 0 {
                        self.phase = Phase::Done;
                    } else {
                        self.phase = Phase::Decode;
                    }
                }
            },
            _ => {
                self.to_feed = None;
            },
        }
    }

    /// The driver reports the token drawn from the current logits. The token
    /// is emitted; the call stops on the end-of-sequence token or on a full
    /// budget, and otherwise schedules the token to be fed back.
    pub fn note_sampled(&mut self, token: u32)
        requires
            old(self).wf(),
            old(self).spec_phase() == Phase::Decode,
            old(self).spec_to_feed() is None,
        ensures
            final(self).wf(),
            final(self).spec_prompt() == old(self).spec_prompt(),
            final(self).spec_max_new() == old(self).spec_max_new(),
            final(self).spec_eos() == old(self).spec_eos(),
            final(self).spec_base_pos() == old(self).spec_base_pos(),
            final(self).spec_fed() == old(self).spec_fed(),
            final(self).spec_pos_next() == old(self).spec_pos_next(),
            final(self).spec_out() == old(self).spec_out().push(token),
            final(self).spec_phase() == (if token == old(self).spec_eos() || old(
                self,
            ).spec_out().len() + 1 == old(self).spec_max_new() {
                Phase::Done
            } else {
                Phase::Decode
            }),
            final(self).spec_to_feed() == (if token == old(self).spec_eos() || old(
                self,
            ).spec_out().len() + 1 == old(self).spec_max_new() {
                Option::<u32>::None
            } else {
                Option::Some(token)
            }),
    {
        self.out.push(token);
        if token == self.eos || self.out.len() == self.max_new {
            self.phase = Phase::Done;
            self.to_feed = None;
        } else {
            self.to_feed = Some(token);
            proof {
                // a fed-back token occupies the slot right after the prompt
                // and the previously fed-back samples
                assert(self.out@.last() == token);
            }
        }
    }

    /// The tokens emitted so far, in order.
    pub fn output(&self) -> (r: &Vec<u32>)
        ensures
            r@ == self.spec_out(),
    {
        &self.out
    }
}

/// A generation call never emits more tokens than its budget; in particular
/// a zero-budget call emits nothing.
pub proof fn lemma_output_within_budget(s: &GenSession)
    requires
        s.wf(),
    ensures
        s.spec_out().len() <= s.spec_max_new(),
        s.spec_max_new() == 0 ==> s.spec_out().len() == 0,
{
}

/// A finished call stopped for one of exactly three reasons: the budget was
/// reached, the last emitted token was the end-of-sequence token, or there
/// was no prompt to take logits from.
pub proof fn lemma_stop_reason(s: &GenSession)
    requires
        s.wf(),
        s.spec_phase() == Phase::Done,
    ensures
        s.spec_out().len() == s.spec_max_new() || (s.spec_out().len() >= 1 && s.spec_out().last()
            == s.spec_eos()) || (s.spec_prompt().len() == 0 && s.spec_out().len() == 0),
{
}

/// A finished call with a prompt that never produced the end-of-sequence
/// token emitted exactly its budget of new tokens.
pub proof fn lemma_exact_length_without_eos(s: &GenSession)
    requires
        s.wf(),
        s.spec_phase() == Phase::Done,
        s.spec_prompt().len() >= 1,
        forall|t: int| 0 <= t < s.spec_out().len() ==> s.spec_out()[t] != s.spec_eos(),
    ensures
        s.spec_out().len() == s.spec_max_new(),
{
    if s.spec_out().len() >= 1 {
        assert(s.spec_out().last() == s.spec_out()[s.spec_out().len() - 1]);
    }
}

/// Every position this call feeds lies at or after the base position, and
/// the positions of a call are assigned contiguously: the next one is always
/// the base position plus the number of tokens already fed. A chat call
/// started at a cache's cursor therefore extends the cache strictly beyond
/// everything earlier turns wrote, without touching it.
pub proof fn lemma_positions_extend_base(s: &GenSession)
    requires
        s.wf(),
        s.spec_phase() != Phase::Done,
    ensures
        s.spec_pos_next() >= s.spec_base_pos(),
        s.spec_pos_next() <= s.spec_base_pos() + s.spec_prompt().len() + s.spec_max_new(),
{
}

} // verus!
