//! The protocol of a receive stream: when samples flow and when the stream
//! idles.
//!
//! A stream starts out idle. A start command makes it stream, without end
//! or for a number of samples; a stop command makes it idle again. A stream
//! that was started for a number of samples "and done" falls idle by itself
//! once they are delivered.

use crate::stream::command::{StreamCommand, StreamMode};
use vstd::prelude::*;

verus! {

/// Where a receive stream stands between two calls.
#[derive(Clone, Copy, Debug, PartialEq, Eq, Structural)]
pub enum StreamState {
    /// No samples flow. A receive call gets nothing and times out.
    Idle,
    /// Samples flow until a stop command.
    Continuous,
    /// Samples flow until `remaining` more were delivered on each channel.
    /// Then the stream falls idle if `and_done` is set, and waits for the
    /// next command if not.
    Bounded { remaining: usize, and_done: bool },
}

/// The sum of the entries of `counts`.
pub open spec fn total(counts: Seq<usize>) -> nat
    decreases counts.len(),
{
    if counts.len() == 0 {
        0
    } else {
        total(counts.drop_last()) + counts.last() as nat
    }
}

/// The counts of the calls that each take as much as the stream gives:
/// `max_samples` per call, and what is left in the last.
pub open spec fn full_reads(remaining: usize, max_samples: usize) -> Seq<usize>
    decreases remaining,
{
    if remaining == 0 || max_samples == 0 {
        Seq::empty()
    } else if remaining <= max_samples {
        seq![remaining]
    } else {
        seq![max_samples] + full_reads((remaining - max_samples) as usize, max_samples)
    }
}

impl StreamState {
    /// A stream that counts down to the end of its run has samples left.
    pub open spec fn wf(self) -> bool {
        match self {
            StreamState::Bounded { remaining, and_done } => !(and_done && remaining == 0),
            _ => true,
        }
    }

    /// The state after `cmd` was issued. The state before plays no part: a
    /// new command replaces what the stream was doing.
    pub open spec fn spec_on_command(self, cmd: StreamCommand) -> StreamState {
        match cmd.mode {
            StreamMode::StartContinuous => StreamState::Continuous,
            StreamMode::StopContinuous => StreamState::Idle,
            StreamMode::NumSampsAndDone => if cmd.num_samps == 0 {
                StreamState::Idle
            } else {
                StreamState::Bounded { remaining: cmd.num_samps, and_done: true }
            },
            StreamMode::NumSampsAndMore => StreamState::Bounded {
                remaining: cmd.num_samps,
                and_done: false,
            },
        }
    }

    /// The largest number of samples per channel that the next receive call
    /// can deliver, on a stream whose calls take `max_samples` at most.
    pub open spec fn spec_pending(self, max_samples: usize) -> usize {
        match self {
            StreamState::Idle => 0,
            StreamState::Continuous => max_samples,
            StreamState::Bounded { remaining, and_done } => if remaining <= max_samples {
                remaining
            } else {
                max_samples
            },
        }
    }

    /// The state after a receive call delivered `received` samples per
    /// channel.
    pub open spec fn spec_on_received(self, received: usize) -> StreamState {
        match self {
            StreamState::Idle => StreamState::Idle,
            StreamState::Continuous => StreamState::Continuous,
            StreamState::Bounded { remaining, and_done } => {
                if received >= remaining {
                    if and_done {
                        StreamState::Idle
                    } else {
                        StreamState::Bounded { remaining: 0, and_done }
                    }
                } else {
                    StreamState::Bounded { remaining: (remaining - received) as usize, and_done }
                }
            },
        }
    }

    /// The state after a run of receive calls that delivered `counts`.
    pub open spec fn spec_on_all_received(self, counts: Seq<usize>) -> StreamState
        decreases counts.len(),
    {
        if counts.len() == 0 {
            self
        } else {
            self.spec_on_all_received(counts.drop_last()).spec_on_received(counts.last())
        }
    }

    /// Each call of the run delivered no more than the stream had to give at
    /// that point.
    pub open spec fn admits(self, counts: Seq<usize>, max_samples: usize) -> bool
        decreases counts.len(),
    {
        if counts.len() == 0 {
            true
        } else {
            &&& self.admits(counts.drop_last(), max_samples)
            &&& counts.last() <= self.spec_on_all_received(counts.drop_last()).spec_pending(
                max_samples,
            )
        }
    }

    /// A stream that was just opened.
    pub fn idle() -> (state: Self)
        ensures
            state == StreamState::Idle,
    {
        StreamState::Idle
    }

    /// Whether samples flow.
    pub fn is_streaming(&self) -> (streaming: bool)
        ensures
            streaming == (*self != StreamState::Idle),
    {
        match self {
            StreamState::Idle => false,
            _ => true,
        }
    }

    /// The state after `cmd` was issued.
    pub fn on_command(self, cmd: &StreamCommand) -> (next: Self)
        ensures
            next == self.spec_on_command(*cmd),
            next.wf(),
    {
        match cmd.mode {
            StreamMode::StartContinuous => StreamState::Continuous,
            StreamMode::StopContinuous => StreamState::Idle,
            StreamMode::NumSampsAndDone => if cmd.num_samps == 0 {
                StreamState::Idle
            } else {
                StreamState::Bounded { remaining: cmd.num_samps, and_done: true }
            },
            StreamMode::NumSampsAndMore => StreamState::Bounded {
                remaining: cmd.num_samps,
                and_done: false,
            },
        }
    }

    /// The largest number of samples per channel that the next receive call
    /// can deliver.
    pub fn pending(&self, max_samples: usize) -> (n: usize)
        ensures
            n == self.spec_pending(max_samples),
    {
        match self {
            StreamState::Idle => 0,
            StreamState::Continuous => max_samples,
            StreamState::Bounded { remaining, and_done } => if *remaining <= max_samples {
                *remaining
            } else {
                max_samples
            },
        }
    }

    /// The state after a receive call delivered `received` samples per
    /// channel.
    pub fn on_received(self, received: usize) -> (next: Self)
        ensures
            next == self.spec_on_received(received),
            self.wf() ==> next.wf(),
    {
        match self {
            StreamState::Idle => StreamState::Idle,
            StreamState::Continuous => StreamState::Continuous,
            StreamState::Bounded { remaining, and_done } => {
                if received >= remaining {
                    if and_done {
                        StreamState::Idle
                    } else {
                        StreamState::Bounded { remaining: 0, and_done }
                    }
                } else {
                    StreamState::Bounded { remaining: remaining - received, and_done }
                }
            },
        }
    }

    /// What to do when the stream is given up: the command to send, and the
    /// state after it. The command is the stop command whatever the state,
    /// so that a stream that was left running by a failure is stopped too.
    pub fn on_teardown(self) -> (res: (StreamCommand, StreamState))
        ensures
            res.0 == StreamCommand::spec_stop(),
            res.1 == self.spec_on_command(res.0),
            res.1 == StreamState::Idle,
    {
        let cmd = StreamCommand::stop();
        let next = self.on_command(&cmd);
        (cmd, next)
    }

    /// A stop command leaves any stream idle, so a second stop changes
    /// nothing.
    pub proof fn lemma_stop_is_idempotent(self)
        ensures
            self.spec_on_command(StreamCommand::spec_stop()) == StreamState::Idle,
            self.spec_on_command(StreamCommand::spec_stop()).spec_on_command(
                StreamCommand::spec_stop(),
            ) == self.spec_on_command(StreamCommand::spec_stop()),
    {
    }

    /// An idle stream delivers nothing and stays idle, whatever the calls.
    pub proof fn lemma_idle_delivers_nothing(counts: Seq<usize>, max_samples: usize)
        requires
            StreamState::Idle.admits(counts, max_samples),
        ensures
            total(counts) == 0,
            StreamState::Idle.spec_on_all_received(counts) == StreamState::Idle,
        decreases counts.len(),
    {
        if counts.len() > 0 {
            Self::lemma_idle_delivers_nothing(counts.drop_last(), max_samples);
        }
    }

    /// A stream that was started for `n` samples and done never delivers
    /// more than `n` in all. While fewer were delivered it counts down what
    /// is left; once all `n` were delivered it is idle, without a stop
    /// command.
    pub proof fn lemma_and_done_counts_down(n: usize, counts: Seq<usize>, max_samples: usize)
        requires
            n > 0,
            (StreamState::Bounded { remaining: n, and_done: true }).admits(counts, max_samples),
        ensures
            total(counts) <= n,
            (StreamState::Bounded { remaining: n, and_done: true }).spec_on_all_received(counts)
                == if total(counts) == n {
                StreamState::Idle
            } else {
                StreamState::Bounded { remaining: (n - total(counts)) as usize, and_done: true }
            },
        decreases counts.len(),
    {
        if counts.len() > 0 {
            Self::lemma_and_done_counts_down(n, counts.drop_last(), max_samples);
        }
    }

    /// Calls that each take as much as the stream gives deliver exactly the
    /// `n` samples of a stream that was started for `n` samples and done,
    /// and leave it idle.
    pub proof fn lemma_full_reads_reach_the_limit(n: usize, max_samples: usize)
        requires
            n > 0,
            max_samples > 0,
        ensures
            (StreamState::Bounded { remaining: n, and_done: true }).admits(
                full_reads(n, max_samples),
                max_samples,
            ),
            total(full_reads(n, max_samples)) == n,
            (StreamState::Bounded { remaining: n, and_done: true }).spec_on_all_received(
                full_reads(n, max_samples),
            ) == StreamState::Idle,
    {
        Self::lemma_full_reads_from(n, n, max_samples, Seq::empty());
        assert(Seq::<usize>::empty() + full_reads(n, max_samples) =~= full_reads(n, max_samples));
    }

    /// Induction behind `lemma_full_reads_reach_the_limit`: after the calls
    /// `done`, which left `left` samples, the full reads of what is left
    /// complete the run.
    proof fn lemma_full_reads_from(n: usize, left: usize, max_samples: usize, done: Seq<usize>)
        requires
            0 < left <= n,
            max_samples > 0,
            (StreamState::Bounded { remaining: n, and_done: true }).admits(done, max_samples),
            total(done) == n - left,
        ensures
            (StreamState::Bounded { remaining: n, and_done: true }).admits(
                done + full_reads(left, max_samples),
                max_samples,
            ),
            total(done + full_reads(left, max_samples)) == n,
            (StreamState::Bounded { remaining: n, and_done: true }).spec_on_all_received(
                done + full_reads(left, max_samples),
            ) == StreamState::Idle,
        decreases left,
    {
        let start = StreamState::Bounded { remaining: n, and_done: true };
        Self::lemma_and_done_counts_down(n, done, max_samples);
        let step: usize = if left <= max_samples {
            left
        } else {
            max_samples
        };
        let next = done.push(step);
        assert(next.drop_last() =~= done);
        assert(next.last() == step);
        assert(start.admits(next, max_samples));
        assert(total(next) == n - left + step);
        if left <= max_samples {
            assert(full_reads(left, max_samples) =~= seq![left]);
            assert(done + full_reads(left, max_samples) =~= next);
            Self::lemma_and_done_counts_down(n, next, max_samples);
        } else {
            let rest = (left - max_samples) as usize;
            Self::lemma_full_reads_from(n, rest, max_samples, next);
            assert(done + full_reads(left, max_samples) =~= next + full_reads(rest, max_samples));
        }
    }
}

} // verus!
