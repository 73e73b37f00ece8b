//! The kinds of value that a sensor reports.

use crate::error::{Result, UhdError};
use vstd::prelude::*;

verus! {

pub const UHD_SENSOR_VALUE_BOOLEAN: u32 = 98;
pub const UHD_SENSOR_VALUE_INTEGER: u32 = 105;
pub const UHD_SENSOR_VALUE_REALNUM: u32 = 114;
pub const UHD_SENSOR_VALUE_STRING: u32 = 115;

/// The type of the value of a sensor reading.
#[derive(Clone, Copy, Debug, PartialEq, Eq, Structural)]
pub enum SensorDataType {
    Boolean,
    Integer,
    Real,
    Text,
}

impl SensorDataType {
    /// The number that the driver uses for this type.
    pub open spec fn spec_code(self) -> u32 {
        match self {
            SensorDataType::Boolean => UHD_SENSOR_VALUE_BOOLEAN,
            SensorDataType::Integer => UHD_SENSOR_VALUE_INTEGER,
            SensorDataType::Real => UHD_SENSOR_VALUE_REALNUM,
            SensorDataType::Text => UHD_SENSOR_VALUE_STRING,
        }
    }

    /// The type with the given number, or the error `NotImplemented` if the
    /// number stands for none.
    pub fn from_code(code: u32) -> (res: Result<SensorDataType>)
        ensures
            res matches Ok(kind) ==> kind.spec_code() == code,
            res is Err ==> res->Err_0 == UhdError::NotImplemented && forall|kind: SensorDataType|
                kind.spec_code() != code,
    {
        match code {
            UHD_SENSOR_VALUE_BOOLEAN => Ok(SensorDataType::Boolean),
            UHD_SENSOR_VALUE_INTEGER => Ok(SensorDataType::Integer),
            UHD_SENSOR_VALUE_REALNUM => Ok(SensorDataType::Real),
            UHD_SENSOR_VALUE_STRING => Ok(SensorDataType::Text),
            _ => Err(UhdError::NotImplemented),
        }
    }
}

} // verus!
