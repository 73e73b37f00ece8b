//! Side-channel records that go with each transfer.

use crate::error::UhdError;
use crate::time::TimeSpec;
use vstd::prelude::*;

verus! {

pub const UHD_RX_METADATA_ERROR_CODE_NONE: u32 = 0x0;
pub const UHD_RX_METADATA_ERROR_CODE_TIMEOUT: u32 = 0x1;
pub const UHD_RX_METADATA_ERROR_CODE_LATE_COMMAND: u32 = 0x2;
pub const UHD_RX_METADATA_ERROR_CODE_BROKEN_CHAIN: u32 = 0x4;
pub const UHD_RX_METADATA_ERROR_CODE_OVERFLOW: u32 = 0x8;
pub const UHD_RX_METADATA_ERROR_CODE_ALIGNMENT: u32 = 0xc;
pub const UHD_RX_METADATA_ERROR_CODE_BAD_PACKET: u32 = 0xf;

/// What the caller says of the samples of one transmit call.
#[derive(Clone, Copy, Debug, PartialEq, Eq, Structural)]
pub struct TxMetadata {
    time_spec: Option<TimeSpec>,
    start_of_burst: bool,
    end_of_burst: bool,
}

/// The fields of a [`TxMetadata`] in the shape in which the driver takes
/// them. Without a time, the two time fields are zero.
#[derive(Clone, Copy, Debug, PartialEq, Eq, Structural)]
pub struct RawTxMetadata {
    pub has_time_spec: bool,
    pub full_secs: i64,
    pub frac_bits: u64,
    pub start_of_burst: bool,
    pub end_of_burst: bool,
}

impl TxMetadata {
    /// The time at which the first sample is to be sent, if any.
    pub closed spec fn spec_time_spec(self) -> Option<TimeSpec> {
        self.time_spec
    }

    /// Whether the samples start a burst.
    pub closed spec fn spec_start_of_burst(self) -> bool {
        self.start_of_burst
    }

    /// Whether the samples end a burst.
    pub closed spec fn spec_end_of_burst(self) -> bool {
        self.end_of_burst
    }

    /// Metadata without a time, for samples in the middle of a burst.
    pub fn new() -> (md: Self)
        ensures
            md.spec_time_spec() is None,
            !md.spec_start_of_burst(),
            !md.spec_end_of_burst(),
    {
        TxMetadata { time_spec: None, start_of_burst: false, end_of_burst: false }
    }

    pub fn time_spec(&self) -> (t: Option<TimeSpec>)
        ensures
            t == self.spec_time_spec(),
    {
        self.time_spec
    }

    pub fn start_of_burst(&self) -> (sob: bool)
        ensures
            sob == self.spec_start_of_burst(),
    {
        self.start_of_burst
    }

    pub fn end_of_burst(&self) -> (eob: bool)
        ensures
            eob == self.spec_end_of_burst(),
    {
        self.end_of_burst
    }

    pub fn set_time_spec(&mut self, time_spec: Option<TimeSpec>)
        ensures
            final(self).spec_time_spec() == time_spec,
            final(self).spec_start_of_burst() == old(self).spec_start_of_burst(),
            final(self).spec_end_of_burst() == old(self).spec_end_of_burst(),
    {
        self.time_spec = time_spec;
    }

    pub fn set_end_of_burst(&mut self, eob: bool)
        ensures
            final(self).spec_time_spec() == old(self).spec_time_spec(),
            final(self).spec_start_of_burst() == old(self).spec_start_of_burst(),
            final(self).spec_end_of_burst() == eob,
    {
        self.end_of_burst = eob;
    }

    /// The fields in the shape in which the driver takes them.
    pub fn to_raw(&self) -> (raw: RawTxMetadata)
        ensures
            raw.has_time_spec == self.spec_time_spec() is Some,
            raw.start_of_burst == self.spec_start_of_burst(),
            raw.end_of_burst == self.spec_end_of_burst(),
            self.spec_time_spec() matches Some(t) ==> raw.full_secs == t.spec_full_secs()
                && raw.frac_bits == t.spec_frac_bits(),
            self.spec_time_spec() is None ==> raw.full_secs == 0 && raw.frac_bits == 0,
    {
        match self.time_spec {
            Some(t) => RawTxMetadata {
                has_time_spec: true,
                full_secs: t.full_secs(),
                frac_bits: t.frac_bits(),
                start_of_burst: self.start_of_burst,
                end_of_burst: self.end_of_burst,
            },
            None => RawTxMetadata {
                has_time_spec: false,
                full_secs: 0,
                frac_bits: 0,
                start_of_burst: self.start_of_burst,
                end_of_burst: self.end_of_burst,
            },
        }
    }

    pub fn set_start_of_burst(&mut self, sob: bool)
        ensures
            final(self).spec_time_spec() == old(self).spec_time_spec(),
            final(self).spec_start_of_burst() == sob,
            final(self).spec_end_of_burst() == old(self).spec_end_of_burst(),
    {
        self.start_of_burst = sob;
    }
}

/// Builds a [`TxMetadata`] step by step.
pub struct TxMetadataBuilder {
    inner: TxMetadata,
}

impl TxMetadataBuilder {
    /// What `build` returns.
    pub closed spec fn spec_inner(self) -> TxMetadata {
        self.inner
    }

    pub fn new() -> (builder: Self)
        ensures
            builder.spec_inner().spec_time_spec() is None,
            !builder.spec_inner().spec_start_of_burst(),
            !builder.spec_inner().spec_end_of_burst(),
    {
        TxMetadataBuilder { inner: TxMetadata::new() }
    }

    pub fn with_time_spec(&mut self, time_spec: TimeSpec) -> (builder: &mut Self)
        ensures
            builder.spec_inner().spec_time_spec() == Some(time_spec),
            builder.spec_inner().spec_start_of_burst() == old(self).spec_inner().spec_start_of_burst(),
            builder.spec_inner().spec_end_of_burst() == old(self).spec_inner().spec_end_of_burst(),
            *final(self) == *final(builder),
    {
        self.inner.set_time_spec(Some(time_spec));
        self
    }

    pub fn with_start_of_burst(&mut self, sob: bool) -> (builder: &mut Self)
        ensures
            builder.spec_inner().spec_time_spec() == old(self).spec_inner().spec_time_spec(),
            builder.spec_inner().spec_start_of_burst() == sob,
            builder.spec_inner().spec_end_of_burst() == old(self).spec_inner().spec_end_of_burst(),
            *final(self) == *final(builder),
    {
        self.inner.set_start_of_burst(sob);
        self
    }

    pub fn with_end_of_burst(&mut self, eob: bool) -> (builder: &mut Self)
        ensures
            builder.spec_inner().spec_time_spec() == old(self).spec_inner().spec_time_spec(),
            builder.spec_inner().spec_start_of_burst() == old(self).spec_inner().spec_start_of_burst(),
            builder.spec_inner().spec_end_of_burst() == eob,
            *final(self) == *final(builder),
    {
        self.inner.set_end_of_burst(eob);
        self
    }

    pub fn build(&self) -> (md: TxMetadata)
        ensures
            md == self.spec_inner(),
    {
        self.inner
    }
}

/// The condition that a receive call reports beside its samples.
#[derive(Clone, Copy, Debug, PartialEq, Eq, Structural)]
pub enum RxErrorCode {
    /// No error.
    NoError,
    /// No packet arrived within the timeout.
    Timeout,
    /// A stream command was issued in the past.
    LateCommand,
    /// An expected follow-up command did not arrive in time.
    BrokenChain,
    /// An internal receive buffer filled up, or a sequence error occurred.
    Overflow,
    /// The timestamps of several channels could not be aligned.
    Alignment,
    /// A packet could not be parsed.
    BadPacket,
}

impl RxErrorCode {
    /// The number that the driver uses for this condition.
    pub open spec fn spec_code(self) -> u32 {
        match self {
            RxErrorCode::NoError => UHD_RX_METADATA_ERROR_CODE_NONE,
            RxErrorCode::Timeout => UHD_RX_METADATA_ERROR_CODE_TIMEOUT,
            RxErrorCode::LateCommand => UHD_RX_METADATA_ERROR_CODE_LATE_COMMAND,
            RxErrorCode::BrokenChain => UHD_RX_METADATA_ERROR_CODE_BROKEN_CHAIN,
            RxErrorCode::Overflow => UHD_RX_METADATA_ERROR_CODE_OVERFLOW,
            RxErrorCode::Alignment => UHD_RX_METADATA_ERROR_CODE_ALIGNMENT,
            RxErrorCode::BadPacket => UHD_RX_METADATA_ERROR_CODE_BAD_PACKET,
        }
    }

    /// The number that the driver uses for this condition.
    pub fn code(&self) -> (code: u32)
        ensures
            code == self.spec_code(),
    {
        match self {
            RxErrorCode::NoError => UHD_RX_METADATA_ERROR_CODE_NONE,
            RxErrorCode::Timeout => UHD_RX_METADATA_ERROR_CODE_TIMEOUT,
            RxErrorCode::LateCommand => UHD_RX_METADATA_ERROR_CODE_LATE_COMMAND,
            RxErrorCode::BrokenChain => UHD_RX_METADATA_ERROR_CODE_BROKEN_CHAIN,
            RxErrorCode::Overflow => UHD_RX_METADATA_ERROR_CODE_OVERFLOW,
            RxErrorCode::Alignment => UHD_RX_METADATA_ERROR_CODE_ALIGNMENT,
            RxErrorCode::BadPacket => UHD_RX_METADATA_ERROR_CODE_BAD_PACKET,
        }
    }

    /// The condition with the given number, if there is one.
    pub fn try_from_primitive(code: u32) -> (res: Option<RxErrorCode>)
        ensures
            res matches Some(kind) ==> kind.spec_code() == code,
            res is None ==> forall|kind: RxErrorCode| kind.spec_code() != code,
    {
        match code {
            UHD_RX_METADATA_ERROR_CODE_NONE => Some(RxErrorCode::NoError),
            UHD_RX_METADATA_ERROR_CODE_TIMEOUT => Some(RxErrorCode::Timeout),
            UHD_RX_METADATA_ERROR_CODE_LATE_COMMAND => Some(RxErrorCode::LateCommand),
            UHD_RX_METADATA_ERROR_CODE_BROKEN_CHAIN => Some(RxErrorCode::BrokenChain),
            UHD_RX_METADATA_ERROR_CODE_OVERFLOW => Some(RxErrorCode::Overflow),
            UHD_RX_METADATA_ERROR_CODE_ALIGNMENT => Some(RxErrorCode::Alignment),
            UHD_RX_METADATA_ERROR_CODE_BAD_PACKET => Some(RxErrorCode::BadPacket),
            _ => None,
        }
    }
}

/// What the driver says of the samples of one receive call.
#[derive(Clone, Copy, Debug, PartialEq, Eq, Structural)]
pub struct RxMetadata {
    /// The time of the first sample, if the driver gave one.
    pub time_spec: Option<TimeSpec>,
    /// Whether the samples start a burst.
    pub start_of_burst: bool,
    /// Whether the samples end a burst.
    pub end_of_burst: bool,
    /// Whether the packet was cut and more of it follows.
    pub more_fragments: bool,
    /// The position of the first sample within the whole packet.
    pub fragment_offset: usize,
    /// Whether a packet arrived out of sequence.
    pub out_of_sequence: bool,
    /// The number of the condition that the call reports.
    pub raw_error_code: u32,
}

impl RxMetadata {
    /// The record of a call that has not happened yet: no time, no flags,
    /// no error.
    pub fn new() -> (md: Self)
        ensures
            md == (RxMetadata {
                time_spec: None,
                start_of_burst: false,
                end_of_burst: false,
                more_fragments: false,
                fragment_offset: 0,
                out_of_sequence: false,
                raw_error_code: UHD_RX_METADATA_ERROR_CODE_NONE,
            }),
    {
        RxMetadata {
            time_spec: None,
            start_of_burst: false,
            end_of_burst: false,
            more_fragments: false,
            fragment_offset: 0,
            out_of_sequence: false,
            raw_error_code: UHD_RX_METADATA_ERROR_CODE_NONE,
        }
    }

    pub fn time_spec(&self) -> (t: Option<TimeSpec>)
        ensures
            t == self.time_spec,
    {
        self.time_spec
    }

    pub fn start_of_burst(&self) -> (sob: bool)
        ensures
            sob == self.start_of_burst,
    {
        self.start_of_burst
    }

    pub fn end_of_burst(&self) -> (eob: bool)
        ensures
            eob == self.end_of_burst,
    {
        self.end_of_burst
    }

    pub fn more_fragments(&self) -> (more: bool)
        ensures
            more == self.more_fragments,
    {
        self.more_fragments
    }

    pub fn fragment_offset(&self) -> (offset: usize)
        ensures
            offset == self.fragment_offset,
    {
        self.fragment_offset
    }

    pub fn out_of_sequence(&self) -> (oos: bool)
        ensures
            oos == self.out_of_sequence,
    {
        self.out_of_sequence
    }

    /// The condition that the call reports, or the error `Unknown` if the
    /// driver gave a number that stands for none.
    pub fn error_code(&self) -> (res: Result<RxErrorCode, UhdError>)
        ensures
            res matches Ok(kind) ==> kind.spec_code() == self.raw_error_code,
            res is Err ==> res->Err_0 == UhdError::Unknown && forall|kind: RxErrorCode|
                kind.spec_code() != self.raw_error_code,
    {
        match RxErrorCode::try_from_primitive(self.raw_error_code) {
            Some(kind) => Ok(kind),
            None => Err(UhdError::Unknown),
        }
    }

    /// Whether the call ended because no packet arrived in time. With no
    /// samples received this is the ordinary end of a wait, not a failure.
    pub fn is_timeout(&self) -> (timeout: bool)
        ensures
            timeout == (self.raw_error_code == UHD_RX_METADATA_ERROR_CODE_TIMEOUT),
    {
        self.raw_error_code == UHD_RX_METADATA_ERROR_CODE_TIMEOUT
    }
}

} // verus!
