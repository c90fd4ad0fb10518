use gb26875::error::ParseError;
use gb26875::frame::Timestamp;
use gb26875::info_object::{
    AnalogType, AnalogValue, ComponentConfig, ComponentStatus, DeviceConfig, DeviceOperation,
    DeviceVersion, FireSystemConfig, FireSystemOperation, FireSystemVersion, InfoObject,
    SystemStatus,
};
use gb26875::protocol::{ComponentType, SystemType};

#[test]
fn test_system_status_encode_decode() {
    let timestamp = Timestamp::now();
    let status = SystemStatus::new(SystemType::FireAlarm, 1, 0x0002, timestamp);
    let encoded = status.encode().expect("Failed to encode");
    assert_eq!(encoded.len(), 10);
    let decoded = SystemStatus::parse(&encoded).expect("Failed to decode");
    assert_eq!(decoded, status);
}

#[test]
fn test_system_status_fields() {
    let timestamp = Timestamp::now();
    let status = SystemStatus::new(SystemType::FireAlarm, 5, 0x0004, timestamp);
    assert_eq!(status.object_type(), 1);
    assert_eq!(status.system_type, SystemType::FireAlarm);
    assert_eq!(status.system_address, 5);
    assert_eq!(status.system_state, 0x0004);
    assert_eq!(status.description(), Some("建筑消防设施系统状态"));
    assert!(status.timestamp().is_some());
}

#[test]
fn system_status_layout() {
    let ts = Timestamp::new(1, 2, 3, 4, 5, 6).unwrap();
    let status = SystemStatus::new(SystemType::FireAlarm, 7, 0x1234, ts);
    assert_eq!(status.encode().unwrap(), vec![1, 7, 0x34, 0x12, 1, 2, 3, 4, 5, 6]);
    assert!(matches!(
        SystemStatus::parse(&[1, 2, 3]),
        Err(ParseError::TooShort { actual: 3, expected: 10 })
    ));
}

#[test]
fn test_component_status_encode_decode() {
    let timestamp = Timestamp::now();
    let status = ComponentStatus::new(
        SystemType::FireAlarm,
        1,
        ComponentType::SmokeFireDetector,
        0x12345678,
        0x0002,
        [0u8; 31],
        timestamp,
    );
    let encoded = status.encode().expect("Failed to encode");
    assert_eq!(encoded.len(), 46);
    let decoded = ComponentStatus::parse(&encoded).expect("Failed to decode");
    assert_eq!(decoded, status);
}

#[test]
fn test_component_status_with_description() {
    let timestamp = Timestamp::now();
    let status = ComponentStatus::new(
        SystemType::FireAlarm,
        1,
        ComponentType::SmokeFireDetector,
        0x12345678,
        0x0002,
        [0u8; 31],
        timestamp,
    )
    .with_description_text("烟雾探测器");
    let desc_text = status.description_text().unwrap();
    assert_eq!(desc_text, "烟雾探测器");
}

#[test]
fn test_component_status_fields() {
    let timestamp = Timestamp::now();
    let status = ComponentStatus::new(
        SystemType::FireAlarm,
        2,
        ComponentType::TemperatureFireDetector,
        0xABCDEF12,
        0x0008,
        [0u8; 31],
        timestamp,
    );
    assert_eq!(status.object_type(), 2);
    assert_eq!(status.system_type, SystemType::FireAlarm);
    assert_eq!(status.system_address, 2);
    assert_eq!(status.component_type, ComponentType::TemperatureFireDetector);
    assert_eq!(status.component_address, 0xABCDEF12);
    assert_eq!(status.component_state, 0x0008);
    assert_eq!(status.description(), Some("建筑消防设施部件状态"));
    assert!(status.timestamp().is_some());
}

#[test]
fn component_description_is_cut_to_31_bytes() {
    let ts = Timestamp::new(0, 0, 0, 1, 1, 0).unwrap();
    let status = ComponentStatus::new(
        SystemType::FireAlarm,
        1,
        ComponentType::SmokeFireDetector,
        1,
        0,
        [0u8; 31],
        ts,
    )
    .with_description_text("abcdefghijklmnopqrstuvwxyz0123456789");
    assert_eq!(&status.component_description[..], b"abcdefghijklmnopqrstuvwxyz01234");
    assert_eq!(status.description_text().unwrap(), "abcdefghijklmnopqrstuvwxyz01234");
    let broken = status.with_description_text("烟烟烟烟烟烟烟烟烟烟烟");
    assert!(broken.description_text().is_err());
}

#[test]
fn test_analog_value_encode_decode() {
    let timestamp = Timestamp::now();
    let analog_value = AnalogValue::new(
        SystemType::FireAlarm,
        1,
        ComponentType::TemperatureFireDetector,
        0x12345678,
        AnalogType::Temperature,
        250,
        timestamp,
    );
    let encoded = analog_value.encode().expect("Failed to encode");
    assert_eq!(encoded.len(), 16);
    let decoded = AnalogValue::parse(&encoded).expect("Failed to decode");
    assert_eq!(decoded, analog_value);
}

#[test]
fn test_analog_type_conversion() {
    assert_eq!(AnalogType::from_u8(3), Some(AnalogType::Temperature));
    assert_eq!(AnalogType::from_u8(8), Some(AnalogType::Voltage));
    assert_eq!(AnalogType::from_u8(255), None);
    assert_eq!(AnalogType::Temperature as u8, 3);
    assert_eq!(AnalogType::Voltage as u8, 8);
}

#[test]
fn test_analog_value_fields() {
    let timestamp = Timestamp::now();
    let analog_value = AnalogValue::new(
        SystemType::FireAlarm,
        2,
        ComponentType::TemperatureFireDetector,
        0xABCDEF12,
        AnalogType::PressureKPa,
        1500,
        timestamp,
    );
    assert_eq!(analog_value.object_type(), 3);
    assert_eq!(analog_value.system_type, SystemType::FireAlarm);
    assert_eq!(analog_value.system_address, 2);
    assert_eq!(analog_value.component_type, ComponentType::TemperatureFireDetector);
    assert_eq!(analog_value.component_address, 0xABCDEF12);
    assert_eq!(analog_value.analog_type, AnalogType::PressureKPa);
    assert_eq!(analog_value.analog_value, 1500);
    assert_eq!(analog_value.description(), Some("建筑消防设施部件模拟量值"));
    assert!(analog_value.timestamp().is_some());
}

#[test]
fn analog_value_negative_and_bad_type() {
    let ts = Timestamp::new(0, 0, 0, 1, 1, 0).unwrap();
    let a = AnalogValue::new(
        SystemType::FireAlarm,
        1,
        ComponentType::TemperatureFireDetector,
        1,
        AnalogType::Temperature,
        -2,
        ts,
    );
    let mut b = a.encode().unwrap();
    assert_eq!(&b[8..10], &[0xFE, 0xFF]);
    assert_eq!(AnalogValue::parse(&b).unwrap().analog_value, -2);
    b[7] = 13;
    assert!(matches!(AnalogValue::parse(&b), Err(ParseError::InvalidAnalogType(13))));
    assert_eq!(AnalogType::WindSpeed.to_u8(), 12);
}

#[test]
fn test_fire_system_operation_encode_decode() {
    let timestamp = Timestamp::now();
    let operation = FireSystemOperation::new(SystemType::FireAlarm, 1, 0x05, 100, timestamp);
    let encoded = operation.encode().expect("Failed to encode");
    assert_eq!(encoded.len(), 10);
    let decoded = FireSystemOperation::parse(&encoded).expect("Failed to decode");
    assert_eq!(decoded, operation);
}

#[test]
fn test_device_operation_encode_decode() {
    let timestamp = Timestamp::now();
    let operation = DeviceOperation::new(0x22, 50, timestamp);
    let encoded = operation.encode().expect("Failed to encode");
    assert_eq!(encoded.len(), 8);
    let decoded = DeviceOperation::parse(&encoded).expect("Failed to decode");
    assert_eq!(decoded, operation);
}

#[test]
fn test_fire_system_operation_builder() {
    let timestamp = Timestamp::now();
    let operation = FireSystemOperation::new(SystemType::FireAlarm, 1, 0x00, 100, timestamp)
        .with_reset()
        .with_silence()
        .with_manual_alarm();
    assert_eq!(operation.operation_flags, 0x07);
}

#[test]
fn test_device_operation_builder() {
    let timestamp = Timestamp::now();
    let operation =
        DeviceOperation::new(0x00, 50, timestamp).with_reset().with_self_test().with_patrol_response();
    assert_eq!(operation.operation_flags, 0x31);
}

#[test]
fn operation_flags_each_bit() {
    let ts = Timestamp::new(0, 0, 0, 1, 1, 0).unwrap();
    let o = FireSystemOperation::new(SystemType::FireAlarm, 1, 0, 1, ts);
    assert_eq!(o.with_alarm_clear().operation_flags, 0x08);
    assert_eq!(o.with_confirm().operation_flags, 0x20);
    assert_eq!(o.with_test().operation_flags, 0x40);
    assert_eq!(o.with_self_test().with_self_test().operation_flags, 0x10);
    let d = DeviceOperation::new(0, 1, ts);
    assert_eq!(d.with_silence().with_manual_alarm().operation_flags, 0x06);
    assert_eq!(d.with_alarm_elimination().with_test().operation_flags, 0x48);
    assert_eq!(o.object_type(), 4);
    assert_eq!(d.object_type(), 24);
}

#[test]
fn test_fire_system_version_encode_decode() {
    let timestamp = Timestamp::now();
    let version = FireSystemVersion::new(SystemType::FireAlarm, 1, 2, 15, timestamp);
    let encoded = version.encode().expect("Failed to encode");
    assert_eq!(encoded.len(), 10);
    let decoded = FireSystemVersion::parse(&encoded).expect("Failed to decode");
    assert_eq!(decoded, version);
}

#[test]
fn test_device_version_encode_decode() {
    let timestamp = Timestamp::now();
    let version = DeviceVersion::new(1, 3, timestamp);
    let encoded = version.encode().expect("Failed to encode");
    assert_eq!(encoded.len(), 8);
    let decoded = DeviceVersion::parse(&encoded).expect("Failed to decode");
    assert_eq!(decoded, version);
}

#[test]
fn test_version_string() {
    let timestamp = Timestamp::now();
    let fire_version = FireSystemVersion::new(SystemType::FireAlarm, 1, 2, 15, timestamp);
    assert_eq!(fire_version.version_string(), "2.15");
    let device_version = DeviceVersion::new(1, 3, timestamp);
    assert_eq!(device_version.version_string(), "1.3");
}

#[test]
fn test_version_fields() {
    let timestamp = Timestamp::now();
    let fire_version = FireSystemVersion::new(SystemType::FireAlarm, 2, 3, 7, timestamp);
    assert_eq!(fire_version.object_type(), 5);
    assert_eq!(fire_version.system_type, SystemType::FireAlarm);
    assert_eq!(fire_version.system_address, 2);
    assert_eq!(fire_version.major_version, 3);
    assert_eq!(fire_version.minor_version, 7);
    assert_eq!(fire_version.description(), Some("建筑消防设施软件版本"));
    assert!(fire_version.timestamp().is_some());
    let device_version = DeviceVersion::new(4, 2, timestamp);
    assert_eq!(device_version.object_type(), 25);
    assert_eq!(device_version.major_version, 4);
    assert_eq!(device_version.minor_version, 2);
    assert_eq!(device_version.description(), Some("用户信息传输装置软件版本"));
    assert!(device_version.timestamp().is_some());
}

#[test]
fn version_string_of_large_numbers() {
    let ts = Timestamp::new(0, 0, 0, 1, 1, 0).unwrap();
    assert_eq!(DeviceVersion::new(255, 0, ts).version_string(), "255.0");
}

#[test]
fn test_fire_system_config_encode_decode() {
    let timestamp = Timestamp::now();
    let config =
        FireSystemConfig::with_description_text(SystemType::FireAlarm, 1, "火灾报警系统配置", timestamp)
            .expect("Failed to create config");
    let encoded = config.encode().expect("Failed to encode");
    assert!(encoded.len() >= 9);
    let decoded = FireSystemConfig::parse(&encoded).expect("Failed to decode");
    assert_eq!(decoded, config);
}

#[test]
fn test_component_config_encode_decode() {
    let timestamp = Timestamp::now();
    let config = ComponentConfig::new(
        SystemType::FireAlarm,
        1,
        ComponentType::SmokeFireDetector,
        0x12345678,
        [0u8; 31],
        timestamp,
    )
    .with_description_text("烟雾探测器配置");
    let encoded = config.encode().expect("Failed to encode");
    assert_eq!(encoded.len(), 44);
    let decoded = ComponentConfig::parse(&encoded).expect("Failed to decode");
    assert_eq!(decoded, config);
}

#[test]
fn test_device_config_encode_decode() {
    let timestamp = Timestamp::now();
    let config = DeviceConfig::with_description_text("GB26875用户信息传输装置", timestamp)
        .expect("Failed to create config");
    let encoded = config.encode().expect("Failed to encode");
    assert!(encoded.len() >= 7);
    let decoded = DeviceConfig::parse(&encoded).expect("Failed to decode");
    assert_eq!(decoded, config);
}

#[test]
fn test_config_description_text() {
    let timestamp = Timestamp::now();
    let fire_config =
        FireSystemConfig::with_description_text(SystemType::FireAlarm, 1, "火灾报警系统配置", timestamp)
            .expect("Failed to create config");
    assert_eq!(fire_config.description_text().unwrap(), "火灾报警系统配置");
    let component_config = ComponentConfig::new(
        SystemType::FireAlarm,
        1,
        ComponentType::SmokeFireDetector,
        0x12345678,
        [0u8; 31],
        timestamp,
    )
    .with_description_text("烟雾探测器配置");
    assert_eq!(component_config.description_text().unwrap(), "烟雾探测器配置");
    let device_config = DeviceConfig::with_description_text("GB26875用户信息传输装置", timestamp)
        .expect("Failed to create config");
    assert_eq!(device_config.description_text().unwrap(), "GB26875用户信息传输装置");
}

#[test]
fn config_limits_and_errors() {
    let ts = Timestamp::new(0, 0, 0, 1, 1, 0).unwrap();
    match FireSystemConfig::new(SystemType::FireAlarm, 1, vec![0; 256], ts) {
        Err(ParseError::InvalidValue { field, value, .. }) => {
            assert_eq!(field, "config_description_length");
            assert_eq!(value, "256");
        }
        other => panic!("unexpected {:?}", other),
    }
    assert!(matches!(
        DeviceConfig::new(vec![0; 300], ts),
        Err(ParseError::InvalidDataLength { actual: 300, expected: 255 })
    ));
    assert!(matches!(
        DeviceConfig::parse(&[5, 1, 2, 3]),
        Err(ParseError::TooShort { actual: 4, expected: 7 })
    ));
    assert!(matches!(
        DeviceConfig::parse(&[5, 1, 2, 3, 4, 5, 6, 7]),
        Err(ParseError::TooShort { actual: 8, expected: 12 })
    ));
    let c = DeviceConfig::new(vec![7, 8], ts).unwrap();
    assert_eq!(c.encode().unwrap(), vec![2, 7, 8, 0, 0, 0, 1, 1, 0]);
}
