//! One signal path of the device, with its direction.

use crate::error::{Result, UhdError};
use crate::text::{decimal, format_decimal};
use vstd::prelude::*;
use vstd::string::StringExecFns;

verus! {

/// A receive or a transmit channel, by its index within that direction.
#[derive(Clone, Copy, Debug, PartialEq, Eq, Hash, Structural)]
pub enum Channel {
    Rx(usize),
    Tx(usize),
}

impl Channel {
    /// The index of the channel within its direction.
    pub open spec fn spec_index(self) -> usize {
        match self {
            Channel::Rx(i) => i,
            Channel::Tx(i) => i,
        }
    }

    /// How the channel is written: the direction, a space and the index.
    pub open spec fn spec_text(self) -> Seq<char> {
        match self {
            Channel::Rx(i) => "RX "@ + decimal(i as nat),
            Channel::Tx(i) => "TX "@ + decimal(i as nat),
        }
    }

    /// The index of the channel within its direction.
    pub fn index(&self) -> (i: usize)
        ensures
            i == self.spec_index(),
    {
        match self {
            Channel::Rx(i) => *i,
            Channel::Tx(i) => *i,
        }
    }

    /// Whether this is a receive channel.
    pub fn is_rx(&self) -> (rx: bool)
        ensures
            rx == (*self is Rx),
    {
        match self {
            Channel::Rx(_) => true,
            Channel::Tx(_) => false,
        }
    }

    /// Whether this is a transmit channel.
    pub fn is_tx(&self) -> (tx: bool)
        ensures
            tx == (*self is Tx),
    {
        match self {
            Channel::Rx(_) => false,
            Channel::Tx(_) => true,
        }
    }

    /// The index of a receive channel, for what only a receive channel can
    /// do. A transmit channel gets the error `NotImplemented`.
    pub fn rx_index(&self) -> (res: Result<usize>)
        ensures
            *self is Rx ==> res == Ok::<usize, UhdError>(self.spec_index()),
            *self is Tx ==> res == Err::<usize, UhdError>(UhdError::NotImplemented),
    {
        match self {
            Channel::Rx(i) => Ok(*i),
            Channel::Tx(_) => Err(UhdError::NotImplemented),
        }
    }

    /// The index of a transmit channel, for what only a transmit channel
    /// can do. A receive channel gets the error `NotImplemented`.
    pub fn tx_index(&self) -> (res: Result<usize>)
        ensures
            *self is Tx ==> res == Ok::<usize, UhdError>(self.spec_index()),
            *self is Rx ==> res == Err::<usize, UhdError>(UhdError::NotImplemented),
    {
        match self {
            Channel::Tx(i) => Ok(*i),
            Channel::Rx(_) => Err(UhdError::NotImplemented),
        }
    }

    /// The channel as text, such as `RX 0`.
    pub fn to_string(&self) -> (text: String)
        ensures
            text@ == self.spec_text(),
    {
        match self {
            Channel::Rx(i) => {
                let mut text = String::from_str("RX ");
                let digits = format_decimal(*i);
                text.append(digits.as_str());
                text
            },
            Channel::Tx(i) => {
                let mut text = String::from_str("TX ");
                let digits = format_decimal(*i);
                text.append(digits.as_str());
                text
            },
        }
    }
}

} // verus!
