//! Names and serial numbers of the hardware behind a channel.

use crate::error::{Result, UhdError};
use crate::ffi::{c_text, is_c_string, string_from_buffer};
use vstd::prelude::*;
use vstd::utf8::decode_utf8;

verus! {

/// What the driver reports of the hardware behind a channel, each field as
/// the bytes of a text with its closing NUL byte.
pub struct RawHardwareInfo {
    pub mboard_id: Vec<u8>,
    pub mboard_name: Vec<u8>,
    pub mboard_serial: Vec<u8>,
    pub dboard_id: Vec<u8>,
    pub dboard_subdev_name: Vec<u8>,
    pub dboard_subdev_spec: Vec<u8>,
    pub dboard_serial: Vec<u8>,
    pub dboard_antenna: Vec<u8>,
}

impl RawHardwareInfo {
    /// Every field holds a text that the library accepts.
    pub open spec fn is_text(&self) -> bool {
        &&& is_c_string(self.mboard_id@)
        &&& is_c_string(self.mboard_name@)
        &&& is_c_string(self.mboard_serial@)
        &&& is_c_string(self.dboard_id@)
        &&& is_c_string(self.dboard_subdev_name@)
        &&& is_c_string(self.dboard_subdev_spec@)
        &&& is_c_string(self.dboard_serial@)
        &&& is_c_string(self.dboard_antenna@)
    }

    /// The fields as text.
    pub open spec fn text(&self) -> HardwareInfoView {
        HardwareInfoView {
            mboard_id: decode_utf8(c_text(self.mboard_id@)),
            mboard_name: decode_utf8(c_text(self.mboard_name@)),
            mboard_serial: decode_utf8(c_text(self.mboard_serial@)),
            dboard_id: decode_utf8(c_text(self.dboard_id@)),
            dboard_subdev_name: decode_utf8(c_text(self.dboard_subdev_name@)),
            dboard_subdev_spec: decode_utf8(c_text(self.dboard_subdev_spec@)),
            dboard_serial: decode_utf8(c_text(self.dboard_serial@)),
            dboard_antenna: decode_utf8(c_text(self.dboard_antenna@)),
        }
    }
}

/// What a [`HardwareInfo`] holds.
pub struct HardwareInfoView {
    pub mboard_id: Seq<char>,
    pub mboard_name: Seq<char>,
    pub mboard_serial: Seq<char>,
    pub dboard_id: Seq<char>,
    pub dboard_subdev_name: Seq<char>,
    pub dboard_subdev_spec: Seq<char>,
    pub dboard_serial: Seq<char>,
    pub dboard_antenna: Seq<char>,
}

/// Names and serial numbers of the motherboard and the daughterboard behind
/// a channel.
pub struct HardwareInfo {
    mboard_id: String,
    mboard_name: String,
    mboard_serial: String,
    dboard_id: String,
    dboard_subdev_name: String,
    dboard_subdev_spec: String,
    dboard_serial: String,
    dboard_antenna: String,
}

impl View for HardwareInfo {
    type V = HardwareInfoView;

    closed spec fn view(&self) -> HardwareInfoView {
        HardwareInfoView {
            mboard_id: self.mboard_id@,
            mboard_name: self.mboard_name@,
            mboard_serial: self.mboard_serial@,
            dboard_id: self.dboard_id@,
            dboard_subdev_name: self.dboard_subdev_name@,
            dboard_subdev_spec: self.dboard_subdev_spec@,
            dboard_serial: self.dboard_serial@,
            dboard_antenna: self.dboard_antenna@,
        }
    }
}

impl HardwareInfo {
    /// Reads the fields that the driver reported.
    ///
    /// Returns the error `Unknown` if a field is not closed by a NUL byte or
    /// is not valid UTF-8.
    pub fn from_raw(raw: &RawHardwareInfo) -> (res: Result<Self>)
        ensures
            res is Ok <==> raw.is_text(),
            res is Ok ==> res->Ok_0@ == raw.text(),
            res is Err ==> res->Err_0 == UhdError::Unknown,
    {
        let mboard_id = match string_from_buffer(raw.mboard_id.as_slice()) {
            Ok(text) => text,
            Err(e) => {
                return Err(e);
            },
        };
        let mboard_name = match string_from_buffer(raw.mboard_name.as_slice()) {
            Ok(text) => text,
            Err(e) => {
                return Err(e);
            },
        };
        let mboard_serial = match string_from_buffer(raw.mboard_serial.as_slice()) {
            Ok(text) => text,
            Err(e) => {
                return Err(e);
            },
        };
        let dboard_id = match string_from_buffer(raw.dboard_id.as_slice()) {
            Ok(text) => text,
            Err(e) => {
                return Err(e);
            },
        };
        let dboard_subdev_name = match string_from_buffer(raw.dboard_subdev_name.as_slice()) {
            Ok(text) => text,
            Err(e) => {
                return Err(e);
            },
        };
        let dboard_subdev_spec = match string_from_buffer(raw.dboard_subdev_spec.as_slice()) {
            Ok(text) => text,
            Err(e) => {
                return Err(e);
            },
        };
        let dboard_serial = match string_from_buffer(raw.dboard_serial.as_slice()) {
            Ok(text) => text,
            Err(e) => {
                return Err(e);
            },
        };
        let dboard_antenna = match string_from_buffer(raw.dboard_antenna.as_slice()) {
            Ok(text) => text,
            Err(e) => {
                return Err(e);
            },
        };
        Ok(
            HardwareInfo {
                mboard_id,
                mboard_name,
                mboard_serial,
                dboard_id,
                dboard_subdev_name,
                dboard_subdev_spec,
                dboard_serial,
                dboard_antenna,
            },
        )
    }

    pub fn mboard_id(&self) -> (text: &str)
        ensures
            text@ == self@.mboard_id,
    {
        self.mboard_id.as_str()
    }

    pub fn mboard_name(&self) -> (text: &str)
        ensures
            text@ == self@.mboard_name,
    {
        self.mboard_name.as_str()
    }

    pub fn mboard_serial(&self) -> (text: &str)
        ensures
            text@ == self@.mboard_serial,
    {
        self.mboard_serial.as_str()
    }

    pub fn dboard_antenna(&self) -> (text: &str)
        ensures
            text@ == self@.dboard_antenna,
    {
        self.dboard_antenna.as_str()
    }

    pub fn dboard_id(&self) -> (text: &str)
        ensures
            text@ == self@.dboard_id,
    {
        self.dboard_id.as_str()
    }

    pub fn dboard_serial(&self) -> (text: &str)
        ensures
            text@ == self@.dboard_serial,
    {
        self.dboard_serial.as_str()
    }

    pub fn dboard_subdev_name(&self) -> (text: &str)
        ensures
            text@ == self@.dboard_subdev_name,
    {
        self.dboard_subdev_name.as_str()
    }

    pub fn dboard_subdev_spec(&self) -> (text: &str)
        ensures
            text@ == self@.dboard_subdev_spec,
    {
        self.dboard_subdev_spec.as_str()
    }
}

} // verus!
