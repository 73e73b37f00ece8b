//! Commands that start and stop the flow of samples on a receive stream.

use crate::time::TimeSpec;
use vstd::prelude::*;

verus! {

pub const UHD_STREAM_MODE_START_CONTINUOUS: u32 = 97;
pub const UHD_STREAM_MODE_STOP_CONTINUOUS: u32 = 111;
pub const UHD_STREAM_MODE_NUM_SAMPS_AND_DONE: u32 = 100;
pub const UHD_STREAM_MODE_NUM_SAMPS_AND_MORE: u32 = 109;

/// What a stream command asks of the streaming engine.
#[derive(Clone, Copy, Debug, PartialEq, Eq, Structural)]
pub enum StreamMode {
    /// Stream until told to stop.
    StartContinuous,
    /// Stop streaming.
    StopContinuous,
    /// Stream a number of samples, then stop.
    NumSampsAndDone,
    /// Stream a number of samples, then wait for the next command.
    NumSampsAndMore,
}

impl StreamMode {
    /// The number that the driver uses for this mode.
    pub open spec fn spec_code(self) -> u32 {
        match self {
            StreamMode::StartContinuous => UHD_STREAM_MODE_START_CONTINUOUS,
            StreamMode::StopContinuous => UHD_STREAM_MODE_STOP_CONTINUOUS,
            StreamMode::NumSampsAndDone => UHD_STREAM_MODE_NUM_SAMPS_AND_DONE,
            StreamMode::NumSampsAndMore => UHD_STREAM_MODE_NUM_SAMPS_AND_MORE,
        }
    }

    /// The number that the driver uses for this mode.
    pub fn code(&self) -> (code: u32)
        ensures
            code == self.spec_code(),
    {
        match self {
            StreamMode::StartContinuous => UHD_STREAM_MODE_START_CONTINUOUS,
            StreamMode::StopContinuous => UHD_STREAM_MODE_STOP_CONTINUOUS,
            StreamMode::NumSampsAndDone => UHD_STREAM_MODE_NUM_SAMPS_AND_DONE,
            StreamMode::NumSampsAndMore => UHD_STREAM_MODE_NUM_SAMPS_AND_MORE,
        }
    }

    /// Whether the mode carries a sample count.
    pub open spec fn is_bounded(self) -> bool {
        self == StreamMode::NumSampsAndDone || self == StreamMode::NumSampsAndMore
    }
}

/// One message to the streaming engine. It is consumed at once and never
/// read back.
#[derive(Clone, Copy, Debug, PartialEq, Eq, Structural)]
pub struct StreamCommand {
    /// What the command asks for.
    pub mode: StreamMode,
    /// The number of samples per channel, for the modes that carry one.
    pub num_samps: usize,
    /// When the command takes effect; at once if no time is given.
    pub time: Option<TimeSpec>,
}

/// A [`StreamCommand`] in the shape in which the driver takes it.
#[derive(Clone, Copy, Debug, PartialEq, Eq, Structural)]
pub struct RawStreamCommand {
    pub stream_mode: u32,
    pub num_samps: usize,
    pub stream_now: bool,
    pub time_spec_full_secs: i64,
    pub time_spec_frac_bits: u64,
}

impl StreamCommand {
    /// The command that stops the stream. It carries the time zero, which
    /// lies in the past.
    pub open spec fn spec_stop() -> StreamCommand {
        StreamCommand {
            mode: StreamMode::StopContinuous,
            num_samps: 0,
            time: Some(TimeSpec::spec_zero()),
        }
    }

    /// The command that stops the stream.
    pub fn stop() -> (cmd: StreamCommand)
        ensures
            cmd == Self::spec_stop(),
    {
        StreamCommand { mode: StreamMode::StopContinuous, num_samps: 0, time: Some(TimeSpec::zero()) }
    }

    /// Whether the command takes effect as soon as the engine sees it.
    pub fn stream_now(&self) -> (now: bool)
        ensures
            now == self.time is None,
    {
        self.time.is_none()
    }

    /// The command in the shape in which the driver takes it: without a
    /// time the two time fields are zero and `stream_now` is set.
    pub fn to_raw(&self) -> (raw: RawStreamCommand)
        ensures
            raw.stream_mode == self.mode.spec_code(),
            raw.num_samps == self.num_samps,
            raw.stream_now == self.time is None,
            self.time matches Some(t) ==> raw.time_spec_full_secs == t.spec_full_secs()
                && raw.time_spec_frac_bits == t.spec_frac_bits(),
            self.time is None ==> raw.time_spec_full_secs == 0 && raw.time_spec_frac_bits == 0,
    {
        match self.time {
            Some(t) => RawStreamCommand {
                stream_mode: self.mode.code(),
                num_samps: self.num_samps,
                stream_now: false,
                time_spec_full_secs: t.full_secs(),
                time_spec_frac_bits: t.frac_bits(),
            },
            None => RawStreamCommand {
                stream_mode: self.mode.code(),
                num_samps: self.num_samps,
                stream_now: true,
                time_spec_full_secs: 0,
                time_spec_frac_bits: 0,
            },
        }
    }
}

/// Builds the command that starts a receive stream.
///
/// Without a limit the stream runs until it is stopped; without a time it
/// starts at once.
#[derive(Clone, Copy, Debug, PartialEq, Eq)]
pub struct RxStartCommand {
    at_time: Option<TimeSpec>,
    limit: Option<(usize, bool)>,
}

impl RxStartCommand {
    /// The time at which the stream starts, if one was given.
    pub closed spec fn spec_at_time(self) -> Option<TimeSpec> {
        self.at_time
    }

    /// The sample count, and whether the stream is done after it, if a
    /// limit was given.
    pub closed spec fn spec_limit(self) -> Option<(usize, bool)> {
        self.limit
    }

    /// The mode of the command that will be sent.
    pub open spec fn spec_stream_mode(self) -> StreamMode {
        match self.spec_limit() {
            Some((_, true)) => StreamMode::NumSampsAndDone,
            Some((_, false)) => StreamMode::NumSampsAndMore,
            None => StreamMode::StartContinuous,
        }
    }

    /// The sample count of the command that will be sent: the limit, or the
    /// largest count where there is none.
    pub open spec fn spec_n_samples(self) -> usize {
        match self.spec_limit() {
            Some((n_samples, _)) => n_samples,
            None => usize::MAX,
        }
    }

    /// The command that will be sent.
    pub open spec fn spec_command(self) -> StreamCommand {
        StreamCommand {
            mode: self.spec_stream_mode(),
            num_samps: self.spec_n_samples(),
            time: self.spec_at_time(),
        }
    }

    /// A command that starts a continuous stream at once.
    pub fn new() -> (cmd: Self)
        ensures
            cmd.spec_at_time() is None,
            cmd.spec_limit() is None,
    {
        RxStartCommand { at_time: None, limit: None }
    }

    /// Schedules the start of the stream.
    pub fn with_time(&mut self, at_time: TimeSpec) -> (cmd: &mut Self)
        ensures
            cmd.spec_at_time() == Some(at_time),
            cmd.spec_limit() == old(self).spec_limit(),
            *final(self) == *final(cmd),
    {
        self.at_time = Some(at_time);
        self
    }

    /// Limits the stream to `limit` samples per channel. With `and_done` the
    /// stream stops by itself after them; without, it waits for the next
    /// command.
    pub fn with_limit(&mut self, limit: usize, and_done: bool) -> (cmd: &mut Self)
        ensures
            cmd.spec_at_time() == old(self).spec_at_time(),
            cmd.spec_limit() == Some((limit, and_done)),
            *final(self) == *final(cmd),
    {
        self.limit = Some((limit, and_done));
        self
    }

    /// The sample count of the command.
    pub fn n_samples(&self) -> (n: usize)
        ensures
            n == self.spec_n_samples(),
    {
        match self.limit {
            Some((n_samples, _)) => n_samples,
            None => usize::MAX,
        }
    }

    /// The mode of the command.
    pub fn stream_mode(&self) -> (mode: StreamMode)
        ensures
            mode == self.spec_stream_mode(),
    {
        match self.limit {
            Some((_, true)) => StreamMode::NumSampsAndDone,
            Some((_, false)) => StreamMode::NumSampsAndMore,
            None => StreamMode::StartContinuous,
        }
    }

    /// The command to send.
    pub fn command(&self) -> (cmd: StreamCommand)
        ensures
            cmd == self.spec_command(),
    {
        StreamCommand { mode: self.stream_mode(), num_samps: self.n_samples(), time: self.at_time }
    }
}

} // verus!
