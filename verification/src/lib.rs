//! Verified core of a driver layer for USRP software-defined radios.
//!
//! The crate holds what can be decided without touching the device: the
//! error taxonomy of the native driver, the multi-channel sample buffer, and
//! the messages exchanged with the streaming engine.

pub mod buffer;
pub mod channel;
pub mod device_args;
pub mod error;
pub mod ffi;
pub mod handle;
pub mod hw_info;
pub mod logging;
pub mod metadata;
pub mod sample;
pub mod sensor;
pub mod stream;
pub mod subdev_spec;
pub mod text;
pub mod time;

pub use buffer::{ArrayBuffer, EmptyBuf, SampleBuffer};
pub use channel::Channel;
pub use device_args::DeviceArgs;
pub use error::{Result, UhdError};
pub use hw_info::HardwareInfo;
pub use logging::LogLevel;
pub use metadata::{RxErrorCode, RxMetadata, TxMetadata, TxMetadataBuilder};
pub use sample::Sample;
pub use sample::Sample as SampleType;
pub use subdev_spec::{SubdevPair, SubdevSpec, SubdevSpecParseError};
pub use stream::{CpuFormat, OtwFormat, RxStream, StreamArgs, TxStream, UnderflowPolicy};
pub use time::TimeSpec;
