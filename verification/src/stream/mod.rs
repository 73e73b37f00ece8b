//! Streams of samples: how one is opened, started and stopped, and what is
//! checked before samples move.

pub mod args;
pub mod command;
pub mod protocol;
pub mod rx;
pub mod tx;

pub use args::{CpuFormat, OtwFormat, StreamArgs, StreamRequest, UnderflowPolicy};
pub use command::{RxStartCommand, StreamCommand, StreamMode};
pub use protocol::StreamState;
pub use rx::{transfer_result, RxStream};
pub use tx::TxStream;
