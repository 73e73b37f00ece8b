use uhd_usrp::ffi::{string_from_buffer, FfiString};
use uhd_usrp::hw_info::RawHardwareInfo;
use uhd_usrp::logging::{fastpath_disable_value, fastpath_logging_enabled};
use uhd_usrp::sensor::SensorDataType;
use uhd_usrp::{Channel, HardwareInfo, LogLevel, SubdevPair, SubdevSpecParseError, UhdError};

#[test]
fn text_ends_at_the_first_nul() {
    assert_eq!(string_from_buffer(b"RX2\0\0\0\0\0"), Ok("RX2".to_string()));
    assert_eq!(string_from_buffer(b"\0"), Ok(String::new()));
    assert_eq!(string_from_buffer(b"a\0b\0"), Ok("a".to_string()));
    assert_eq!(
        string_from_buffer("gr\u{fc}n \u{1f600}\0".as_bytes()),
        Ok("gr\u{fc}n \u{1f600}".to_string())
    );
}

#[test]
fn text_without_nul_is_unknown() {
    assert_eq!(string_from_buffer(b"RX2"), Err(UhdError::Unknown));
    assert_eq!(string_from_buffer(b""), Err(UhdError::Unknown));
}

#[test]
fn text_that_is_not_utf8_is_unknown() {
    assert_eq!(string_from_buffer(&[0xff, 0xfe, 0]), Err(UhdError::Unknown));
    assert_eq!(string_from_buffer(&[b'a', 0xc3, 0]), Err(UhdError::Unknown));
    assert_eq!(string_from_buffer(&[0xed, 0xa0, 0x80, 0]), Err(UhdError::Unknown));
    assert_eq!(string_from_buffer(&[b'o', b'k', 0, 0xff]), Ok("ok".to_string()));
}

#[test]
fn ffi_string_buffer() {
    let buf = FfiString::with_capacity(16);
    assert_eq!(buf.max_chars(), 16);
    let mut bytes = buf.into_bytes();
    assert_eq!(bytes, vec![0u8; 16]);
    bytes[..4].copy_from_slice(b"B210");
    assert_eq!(FfiString::from_bytes(bytes).into_string(), Ok("B210".to_string()));
    assert_eq!(FfiString::with_capacity(1).into_string(), Ok(String::new()));
    assert_eq!(
        FfiString::from_bytes(b"full".to_vec()).into_string(),
        Err(UhdError::Unknown)
    );
}

fn raw_info() -> RawHardwareInfo {
    RawHardwareInfo {
        mboard_id: b"B210\0".to_vec(),
        mboard_name: b"MyB210\0".to_vec(),
        mboard_serial: b"30C51B1\0".to_vec(),
        dboard_id: b"FE-RX2\0".to_vec(),
        dboard_subdev_name: b"FE-RX2\0".to_vec(),
        dboard_subdev_spec: b"A:A\0".to_vec(),
        dboard_serial: b"\0".to_vec(),
        dboard_antenna: b"RX2\0".to_vec(),
    }
}

#[test]
fn hardware_info_fields() {
    let info = HardwareInfo::from_raw(&raw_info()).ok().unwrap();
    assert_eq!(info.mboard_id(), "B210");
    assert_eq!(info.mboard_name(), "MyB210");
    assert_eq!(info.mboard_serial(), "30C51B1");
    assert_eq!(info.dboard_id(), "FE-RX2");
    assert_eq!(info.dboard_subdev_name(), "FE-RX2");
    assert_eq!(info.dboard_subdev_spec(), "A:A");
    assert_eq!(info.dboard_serial(), "");
    assert_eq!(info.dboard_antenna(), "RX2");
}

#[test]
fn hardware_info_with_a_bad_field_is_unknown() {
    let mut raw = raw_info();
    raw.dboard_antenna = b"RX2".to_vec();
    assert_eq!(HardwareInfo::from_raw(&raw).err(), Some(UhdError::Unknown));
    let mut raw = raw_info();
    raw.mboard_id = vec![0xff, 0];
    assert_eq!(HardwareInfo::from_raw(&raw).err(), Some(UhdError::Unknown));
}

#[test]
fn channels() {
    assert_eq!(Channel::Rx(3).index(), 3);
    assert_eq!(Channel::Tx(0).index(), 0);
    assert!(Channel::Rx(1).is_rx());
    assert!(!Channel::Rx(1).is_tx());
    assert!(Channel::Tx(1).is_tx());
    assert!(!Channel::Tx(1).is_rx());
    assert_eq!(Channel::Rx(4).rx_index(), Ok(4));
    assert_eq!(Channel::Tx(4).rx_index(), Err(UhdError::NotImplemented));
    assert_eq!(Channel::Tx(5).tx_index(), Ok(5));
    assert_eq!(Channel::Rx(5).tx_index(), Err(UhdError::NotImplemented));
    assert_eq!(Channel::Rx(12).to_string(), "RX 12");
    assert_eq!(Channel::Tx(0).to_string(), "TX 0");
}

#[test]
fn log_levels() {
    let all = [
        (LogLevel::Trace, "trace"),
        (LogLevel::Debug, "debug"),
        (LogLevel::Info, "info"),
        (LogLevel::Warning, "warning"),
        (LogLevel::Error, "error"),
        (LogLevel::Fatal, "fatal"),
        (LogLevel::Off, "off"),
    ];
    for (i, (level, name)) in all.iter().enumerate() {
        assert_eq!(level.to_string(), *name);
        assert_eq!(level.number() as usize, i);
    }
    assert!(LogLevel::Trace < LogLevel::Debug);
    assert!(LogLevel::Fatal < LogLevel::Off);
}

#[test]
fn fastpath_logging_setting() {
    assert_eq!(fastpath_disable_value(true), "OFF");
    assert_eq!(fastpath_disable_value(false), "ON");
    assert!(fastpath_logging_enabled("OFF"));
    assert!(!fastpath_logging_enabled("ON"));
    assert!(fastpath_logging_enabled(""));
    assert!(fastpath_logging_enabled("on"));
}

#[test]
fn sensor_data_types() {
    assert_eq!(SensorDataType::from_code('b' as u32), Ok(SensorDataType::Boolean));
    assert_eq!(SensorDataType::from_code('i' as u32), Ok(SensorDataType::Integer));
    assert_eq!(SensorDataType::from_code('r' as u32), Ok(SensorDataType::Real));
    assert_eq!(SensorDataType::from_code('s' as u32), Ok(SensorDataType::Text));
    assert_eq!(SensorDataType::from_code(0), Err(UhdError::NotImplemented));
    assert_eq!(SensorDataType::from_code(99), Err(UhdError::NotImplemented));
}

#[test]
fn subdev_pairs() {
    let pair = SubdevPair::new("A", "0");
    assert_eq!(pair.db_name(), "A");
    assert_eq!(pair.sd_name(), "0");
    assert_eq!(pair.to_string(), "A:0");
    assert_eq!(SubdevPair::new("", "RX").to_string(), ":RX");
    let err = SubdevSpecParseError::InvalidFormat("A:B:C".to_string());
    assert_eq!(err.message(), "Invalid format: A:B:C");
}
