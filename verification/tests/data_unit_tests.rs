use gb26875::data_unit::custom::{registry_error_of, RawCustomDataUnit, RegistryError};
use gb26875::extension::registry::TypeRegistryError;
use gb26875::data_unit::downstream::{
    InitializeDevice, PatrolCommand, ReadAnalogValue, ReadComponentConfig, ReadComponentStatus,
    ReadDeviceOperation, ReadDeviceStatus, ReadOperationInfo, ReadSoftwareVersion,
    ReadSystemConfig, ReadSystemStatus, ReadSystemTime, SyncDeviceClock,
};
use gb26875::data_unit::upstream::{
    UploadAnalogValue, UploadComponentStatus, UploadDeviceOperation, UploadDeviceStatus,
    UploadDeviceTime, UploadDeviceVersion, UploadOperationInfo, UploadSoftwareVersion,
    UploadSystemConfig, UploadSystemStatus, UploadSystemTime,
};
use gb26875::data_unit::{DataUnit, DataUnitIdentifier, DataUnitIdentifierParser, GenericDataUnit};
use gb26875::error::ParseError;
use gb26875::frame::Timestamp;
use gb26875::info_object::{
    AnalogType, AnalogValue, ComponentStatus, DeviceOperation, DeviceVersion, FireSystemConfig,
    FireSystemOperation, FireSystemVersion, SystemStatus,
};
use gb26875::protocol::{ComponentType, DataUnitType, SystemType};

#[test]
fn test_identifier_creation() {
    let id1 = DataUnitIdentifier::from_u8(1).unwrap();
    assert_eq!(id1.to_u8(), 1);
    assert!(id1.is_standard());
    assert!(id1.is_upstream());
    assert!(!id1.is_downstream());
    assert!(!id1.is_custom);
    let id61 = DataUnitIdentifier::from_u8(61).unwrap();
    assert_eq!(id61.to_u8(), 61);
    assert!(id61.is_standard());
    assert!(!id61.is_upstream());
    assert!(id61.is_downstream());
    assert!(!id61.is_custom);
    let id128 = DataUnitIdentifier::from_u8(128).unwrap();
    assert_eq!(id128.to_u8(), 128);
    assert!(!id128.is_standard());
    assert!(id128.is_custom);
}

#[test]
fn test_invalid_identifiers() {
    assert!(DataUnitIdentifier::from_u8(0).is_err());
    assert!(DataUnitIdentifier::from_u8(255).is_err());
}

#[test]
fn test_parser() {
    let data = [1, 2, 3];
    let (id, consumed) = DataUnitIdentifierParser::parse(&data).unwrap();
    assert_eq!(id.to_u8(), 1);
    assert_eq!(consumed, 1);
    let encoded = DataUnitIdentifierParser::encode(&id);
    assert_eq!(encoded, vec![1]);
}

#[test]
fn test_descriptions() {
    let id1 = DataUnitIdentifier::from_u8(1).unwrap();
    assert_eq!(id1.description(), "上传建筑消防设施系统状态");
    assert_eq!(id1.category(), "上行数据单元");
    let id61 = DataUnitIdentifier::from_u8(61).unwrap();
    assert_eq!(id61.description(), "读建筑消防设施系统状态");
    assert_eq!(id61.category(), "下行数据单元");
    let id128 = DataUnitIdentifier::from_u8(128).unwrap();
    assert_eq!(id128.category(), "用户自定义");
}

#[test]
fn identifier_errors_and_other_category() {
    match DataUnitIdentifier::from_u8(255) {
        Err(ParseError::InvalidValue { field, value, .. }) => {
            assert_eq!(field, "data_unit_type");
            assert_eq!(value, "255");
        }
        other => panic!("unexpected {:?}", other),
    }
    assert!(matches!(
        DataUnitIdentifierParser::parse(&[]),
        Err(ParseError::InsufficientData { expected: 1, actual: 0 })
    ));
    assert_eq!(DataUnitIdentifier::from_u8(40).unwrap().category(), "其他标准类型");
}

#[test]
fn test_data_unit_identifier() {
    let id = DataUnitIdentifier::from_u8(1).unwrap();
    assert!(id.is_upstream());
    assert!(!id.is_downstream());
    assert!(!id.is_custom);
    assert_eq!(id.category(), "上行数据单元");
    let id61 = DataUnitIdentifier::from_u8(61).unwrap();
    assert!(!id61.is_upstream());
    assert!(id61.is_downstream());
    assert!(!id61.is_custom);
    let id128 = DataUnitIdentifier::from_u8(128).unwrap();
    assert!(!id128.is_upstream());
    assert!(!id128.is_downstream());
    assert!(id128.is_custom);
}

#[test]
fn test_generic_data_unit_creation() {
    let data = vec![1, 2, 3, 4];
    let raw_unit = GenericDataUnit::Raw { data_type: DataUnitType::UploadSystemStatus, data: data.clone() };
    assert_eq!(raw_unit.data_unit_type(), DataUnitType::UploadSystemStatus);
    assert!(raw_unit.is_upstream());
    assert!(!raw_unit.is_downstream());
    assert!(!raw_unit.is_custom());
}

fn t(s: u8, mi: u8, h: u8, d: u8, mo: u8, y: u8) -> Timestamp {
    Timestamp::new(s, mi, h, d, mo, y).unwrap()
}

#[test]
fn upstream_test_upload_system_status_basic() {
    let system_status = SystemStatus::new(SystemType::FireAlarm, 0x12, 0x1234, t(30, 15, 4, 26, 11, 24));
    let timestamp = t(45, 30, 15, 4, 11, 24);
    let upload = UploadSystemStatus::new(system_status, timestamp);
    assert_eq!(upload.data_unit_type(), DataUnitType::UploadSystemStatus);
    assert_eq!(upload.object_count, 1);
    assert_eq!(upload.system_status.system_type, SystemType::FireAlarm);
    assert_eq!(upload.system_status.system_address, 0x12);
    assert_eq!(upload.system_status.system_state, 0x1234);
}

#[test]
fn test_upload_component_status_basic() {
    let component_status = ComponentStatus::new(
        SystemType::FireAlarm,
        0x12,
        ComponentType::SmokeFireDetector,
        0x12345678,
        0x0002,
        [0u8; 31],
        t(30, 15, 4, 26, 11, 24),
    );
    let timestamp = t(45, 30, 15, 4, 11, 24);
    let upload = UploadComponentStatus::new(component_status, timestamp);
    assert_eq!(upload.data_unit_type(), DataUnitType::UploadComponentStatus);
    assert_eq!(upload.object_count, 1);
}

#[test]
fn test_upload_analog_value_basic() {
    let analog_value = AnalogValue::new(
        SystemType::FireAlarm,
        0x12,
        ComponentType::TemperatureFireDetector,
        0x123456,
        AnalogType::Temperature,
        0x1234,
        t(30, 15, 4, 26, 11, 24),
    );
    let timestamp = t(45, 30, 15, 4, 11, 24);
    let upload = UploadAnalogValue::new(analog_value, timestamp);
    assert_eq!(upload.data_unit_type(), DataUnitType::UploadAnalogValue);
    assert_eq!(upload.object_count, 1);
}

#[test]
fn test_upload_device_status_encode_decode() {
    let upload = UploadDeviceStatus::new(0x0001, t(45, 30, 15, 4, 11, 24));
    let encoded = upload.encode().unwrap();
    assert_eq!(encoded.len(), 9);
    let decoded = UploadDeviceStatus::parse(&encoded).unwrap();
    assert_eq!(upload, decoded);
    assert_eq!(decoded.device_status, 0x0001);
}

#[test]
fn test_upload_system_time_encode_decode() {
    let system_time = t(30, 15, 4, 26, 11, 24);
    let timestamp = t(45, 30, 15, 4, 11, 24);
    let upload = UploadSystemTime::new(system_time, timestamp);
    let encoded = upload.encode().unwrap();
    assert_eq!(encoded.len(), 13);
    let decoded = UploadSystemTime::parse(&encoded).unwrap();
    assert_eq!(upload, decoded);
    assert_eq!(decoded.system_time, system_time);
    assert_eq!(decoded.timestamp, timestamp);
}

#[test]
fn test_upload_device_time_encode_decode() {
    let device_time = t(30, 15, 4, 26, 11, 24);
    let timestamp = t(45, 30, 15, 4, 11, 24);
    let upload = UploadDeviceTime::new(device_time, timestamp);
    let encoded = upload.encode().unwrap();
    assert_eq!(encoded.len(), 13);
    let decoded = UploadDeviceTime::parse(&encoded).unwrap();
    assert_eq!(upload, decoded);
    assert_eq!(decoded.device_time, device_time);
    assert_eq!(decoded.timestamp, timestamp);
}

#[test]
fn upload_system_status_roundtrip_and_errors() {
    let s = SystemStatus::new(SystemType::FireAlarm, 3, 0x0102, t(1, 2, 3, 4, 5, 6));
    let u = UploadSystemStatus::new(s, t(7, 8, 9, 10, 11, 12));
    let b = u.encode().unwrap();
    assert_eq!(b.len(), 17);
    assert_eq!(u.byte_length(), 17);
    assert_eq!(UploadSystemStatus::parse(&b).unwrap(), u);
    let mut bad = b.clone();
    bad[0] = 2;
    match UploadSystemStatus::parse(&bad) {
        Err(ParseError::InvalidValue { field, value, .. }) => {
            assert_eq!(field, "object_count");
            assert_eq!(value, "2");
        }
        other => panic!("unexpected {:?}", other),
    }
    assert!(matches!(
        UploadSystemStatus::parse(&b[..10]),
        Err(ParseError::InsufficientData { expected: 17, actual: 10 })
    ));
    let mut v = u.clone();
    v.object_count = 0;
    assert!(v.validate().is_err());
    assert!(u.validate().is_ok());
}

#[test]
fn upload_component_status_roundtrip() {
    let c = ComponentStatus::new(
        SystemType::FireAlarm,
        1,
        ComponentType::SmokeFireDetector,
        1,
        0,
        [0u8; 31],
        t(1, 2, 3, 4, 5, 6),
    );
    let u = UploadComponentStatus::new(c, t(1, 2, 3, 4, 5, 6));
    let b = u.encode().unwrap();
    assert_eq!(b.len(), 53);
    assert_eq!(UploadComponentStatus::parse(&b).unwrap(), u);
    assert!(matches!(
        UploadComponentStatus::parse(&b[..52]),
        Err(ParseError::InsufficientData { expected: 53, actual: 52 })
    ));
}

#[test]
fn upload_records_and_versions_roundtrip() {
    let op = FireSystemOperation::new(SystemType::FireAlarm, 3, 0x04, 7, t(1, 2, 3, 4, 5, 6));
    let u = UploadOperationInfo::new(op, t(9, 8, 7, 6, 5, 24));
    let b = u.encode().unwrap();
    assert_eq!(b.len(), 17);
    assert_eq!(UploadOperationInfo::parse(&b).unwrap(), u);
    let v = FireSystemVersion::new(SystemType::FireAlarm, 3, 2, 1, t(1, 2, 3, 4, 5, 6));
    let u = UploadSoftwareVersion::new(v, t(9, 8, 7, 6, 5, 24));
    let b = u.encode().unwrap();
    assert_eq!(b.len(), 17);
    assert_eq!(UploadSoftwareVersion::parse(&b).unwrap(), u);
    let d = DeviceOperation::new(0x02, 9, t(1, 2, 3, 4, 5, 6));
    let u = UploadDeviceOperation::new(d, t(9, 8, 7, 6, 5, 24));
    let b = u.encode().unwrap();
    assert_eq!(b.len(), 15);
    assert_eq!(UploadDeviceOperation::parse(&b).unwrap(), u);
    let dv = DeviceVersion::new(1, 2, t(1, 2, 3, 4, 5, 6));
    let u = UploadDeviceVersion::new(dv, t(9, 8, 7, 6, 5, 24));
    let b = u.encode().unwrap();
    assert_eq!(b.len(), 15);
    assert_eq!(UploadDeviceVersion::parse(&b).unwrap(), u);
}

#[test]
fn upload_system_config_roundtrip() {
    let c = FireSystemConfig::new(SystemType::FireAlarm, 2, vec![65, 66, 67], t(1, 2, 3, 4, 5, 6)).unwrap();
    let u = UploadSystemConfig::new(c, t(9, 9, 9, 9, 9, 9));
    let b = u.encode().unwrap();
    assert_eq!(UploadSystemConfig::parse(&b).unwrap(), u);
}

#[test]
fn downstream_test_read_system_status_encode_decode() {
    let read_cmd = ReadSystemStatus::new(vec![(SystemType::FireAlarm, 0x12)]).unwrap();
    let encoded = read_cmd.encode().unwrap();
    assert_eq!(encoded.len(), 3);
    let decoded = ReadSystemStatus::parse(&encoded).unwrap();
    assert_eq!(read_cmd, decoded);
    assert_eq!(decoded.systems.len(), 1);
    assert_eq!(decoded.systems[0].0, SystemType::FireAlarm);
    assert_eq!(decoded.systems[0].1, 0x12);
}

#[test]
fn downstream_test_read_component_status_encode_decode() {
    let read_cmd = ReadComponentStatus::new(vec![(SystemType::FireAlarm, 0x12, 0x789ABC)]).unwrap();
    let encoded = read_cmd.encode().unwrap();
    assert_eq!(encoded.len(), 7);
    let decoded = ReadComponentStatus::parse(&encoded).unwrap();
    assert_eq!(read_cmd, decoded);
    assert_eq!(decoded.components.len(), 1);
    assert_eq!(decoded.components[0].0, SystemType::FireAlarm);
    assert_eq!(decoded.components[0].1, 0x12);
    assert_eq!(decoded.components[0].2, 0x789ABC);
}

#[test]
fn downstream_test_sync_device_clock_encode_decode() {
    let timestamp = t(45, 30, 15, 4, 11, 24);
    let sync_cmd = SyncDeviceClock::new(timestamp);
    let encoded = sync_cmd.encode().unwrap();
    assert_eq!(encoded.len(), 8);
    assert_eq!(encoded[0], 1);
    assert_eq!(encoded[1], 0);
    let decoded = SyncDeviceClock::parse(&encoded).unwrap();
    assert_eq!(sync_cmd, decoded);
    assert_eq!(decoded.target_time, timestamp);
}

#[test]
fn downstream_test_patrol_command_encode_decode() {
    let patrol_cmd = PatrolCommand::new();
    let encoded = patrol_cmd.encode().unwrap();
    assert_eq!(encoded.len(), 2);
    assert_eq!(encoded[0], 1);
    assert_eq!(encoded[1], 0);
    let decoded = PatrolCommand::parse(&encoded).unwrap();
    assert_eq!(patrol_cmd, decoded);
}

#[test]
fn downstream_test_initialize_device_encode_decode() {
    let init_cmd = InitializeDevice::new();
    let encoded = init_cmd.encode().unwrap();
    assert_eq!(encoded.len(), 2);
    assert_eq!(encoded[0], 1);
    assert_eq!(encoded[1], 0);
    let decoded = InitializeDevice::parse(&encoded).unwrap();
    assert_eq!(init_cmd, decoded);
}

#[test]
fn downstream_test_address_validation() {
    let mut systems = Vec::new();
    for i in 0..103 {
        systems.push((SystemType::FireAlarm, i as u8));
    }
    assert!(ReadSystemStatus::new(systems).is_err());
    let mut components = Vec::new();
    for i in 0..23 {
        components.push((SystemType::FireAlarm, i as u8, 0x123456));
    }
    assert!(ReadComponentStatus::new(components).is_err());
}

#[test]
fn downstream_lists_roundtrip_and_limits() {
    let comps = vec![(SystemType::FireAlarm, 1, 0x01020304), (SystemType::Hydrant, 2, 5)];
    let r = ReadAnalogValue::new(comps.clone()).unwrap();
    let b = r.encode().unwrap();
    assert_eq!(b, vec![2, 1, 1, 4, 3, 2, 1, 11, 2, 5, 0, 0, 0]);
    assert_eq!(ReadAnalogValue::parse(&b).unwrap(), r);
    assert!(ReadComponentConfig::new(vec![(SystemType::FireAlarm, 1, 1); 27]).is_err());
    assert!(ReadSystemConfig::new(vec![(SystemType::FireAlarm, 1); 4]).is_err());
    assert!(ReadSystemConfig::new(vec![]).is_err());
    assert!(matches!(
        ReadSystemStatus::parse(&[3, 1, 1]),
        Err(ParseError::InsufficientData { expected: 7, actual: 3 })
    ));
    let empty = ReadSystemStatus { systems: vec![] };
    assert!(empty.validate().is_err());
}

#[test]
fn downstream_commands_and_errors() {
    assert!(matches!(ReadDeviceStatus::parse(&[1]), Err(ParseError::InsufficientData { expected: 2, actual: 1 })));
    match ReadDeviceStatus::parse(&[1, 5]) {
        Err(ParseError::InvalidValue { field, value, .. }) => {
            assert_eq!(field, "reserved");
            assert_eq!(value, "5");
        }
        other => panic!("unexpected {:?}", other),
    }
    assert!(ReadDeviceStatus::default().validate().is_ok());
    let rs = ReadSoftwareVersion::new(SystemType::FireAlarm, 4);
    assert_eq!(rs.encode().unwrap(), vec![1, 1, 4]);
    let rt = ReadSystemTime::new(SystemType::FireAlarm, 4);
    assert_eq!(rt.encode().unwrap(), vec![1, 1, 4]);
    assert_eq!(ReadSystemTime::parse(&[1, 1, 4]).unwrap(), rt);
    assert!(matches!(
        ReadSystemTime::parse(&[1, 4]),
        Err(ParseError::InsufficientData { expected: 3, actual: 2 })
    ));
    assert!(matches!(ReadSystemTime::parse(&[2, 1, 4]), Err(ParseError::InvalidValue { .. })));
    let ro = ReadOperationInfo::new(SystemType::FireAlarm, 1, 10, t(0, 0, 0, 1, 1, 0)).unwrap();
    let b = ro.encode().unwrap();
    assert_eq!(ReadOperationInfo::parse(&b).unwrap(), ro);
    assert!(matches!(
        ReadOperationInfo::parse(&b[..9]),
        Err(ParseError::TooShort { actual: 5, expected: 6 })
    ));
    assert!(ReadOperationInfo::new(SystemType::FireAlarm, 1, 103, t(0, 0, 0, 1, 1, 0)).is_err());
    assert_eq!(
        ReadDeviceOperation::new(0, t(0, 0, 0, 1, 1, 0)).unwrap_err(),
        "Record count must be greater than 0"
    );
    let mut bytes = vec![1, 0];
    bytes.extend_from_slice(&t(0, 0, 0, 1, 1, 0).to_bytes());
    match ReadDeviceOperation::parse(&bytes) {
        Err(ParseError::InvalidValue { field, value, reason }) => {
            assert_eq!(field, "record_count");
            assert_eq!(value, "0");
            assert_eq!(reason, "Record count must be greater than 0");
        }
        other => panic!("unexpected {:?}", other),
    }
    let bad_clock = SyncDeviceClock::new(Timestamp { second: 61, minute: 0, hour: 0, day: 1, month: 1, year: 0 });
    match bad_clock.validate() {
        Err(ParseError::InvalidValue { field, value, .. }) => {
            assert_eq!(field, "target_time");
            assert_eq!(value, "Timestamp { second: 61, minute: 0, hour: 0, day: 1, month: 1, year: 0 }");
        }
        other => panic!("unexpected {:?}", other),
    }
}

#[test]
fn generic_from_raw_dispatches() {
    let u = UploadDeviceStatus::new(7, t(1, 2, 3, 4, 5, 6));
    let b = u.encode().unwrap();
    let g = GenericDataUnit::from_raw(DataUnitType::UploadDeviceStatus, &b).unwrap();
    assert!(matches!(g, GenericDataUnit::UploadDeviceStatus(ref x) if *x == u));
    assert_eq!(g.encode().unwrap(), b);
    assert_eq!(g.description(), "上传用户信息传输装置运行状态");
    assert!(g.validate().is_ok());
    let raw = GenericDataUnit::from_raw(DataUnitType::from_u8(200), &[1, 2]).unwrap();
    assert!(raw.is_custom());
    assert_eq!(raw.encode().unwrap(), vec![1, 2]);
    // a payload the type's decoder refuses falls back to the raw bytes
    match GenericDataUnit::parse_from_type_and_content(DataUnitType::PatrolCommand, &[1, 1]).unwrap() {
        GenericDataUnit::Raw { data_type, data } => {
            assert_eq!(data_type, DataUnitType::PatrolCommand);
            assert_eq!(data, vec![1, 1]);
        }
        other => panic!("unexpected {:?}", other),
    }
    match GenericDataUnit::from_raw(DataUnitType::UploadSystemStatus, &[1, 2, 3]).unwrap() {
        GenericDataUnit::Raw { data_type, data } => {
            assert_eq!(data_type, DataUnitType::UploadSystemStatus);
            assert_eq!(data, vec![1, 2, 3]);
        }
        other => panic!("unexpected {:?}", other),
    }
}

#[test]
fn test_raw_custom_data_unit() {
    let data = vec![1, 2, 3, 4];
    let raw = RawCustomDataUnit::new(DataUnitType::UserDefined(200), data.clone());

    assert_eq!(raw.data_unit_type(), DataUnitType::UserDefined(200));
    assert_eq!(raw.encode().unwrap(), data);
    assert_eq!(raw.len(), 4);
    assert!(!raw.is_empty());
    assert_eq!(raw.name(), "RawCustomDataUnit");

    let raw_with_name = raw.with_name("MyCustomUnit".to_string());
    assert_eq!(raw_with_name.name(), "MyCustomUnit");
}

#[test]
fn raw_custom_data_unit_checks_range() {
    assert!(RawCustomDataUnit::new(DataUnitType::UserDefined(128), vec![]).validate().is_ok());
    match RawCustomDataUnit::new(DataUnitType::UploadSystemStatus, vec![]).validate() {
        Err(ParseError::InvalidValue { field, value, .. }) => {
            assert_eq!(field, "data_type");
            assert_eq!(value, "1");
        }
        other => panic!("unexpected {:?}", other),
    }
    assert!(matches!(RawCustomDataUnit::parse(&[1]), Err(ParseError::Custom(_))));
    assert_eq!(
        RawCustomDataUnit::new(DataUnitType::UserDefined(130), vec![]).description(),
        Some("未注册的自定义数据单元原始数据")
    );
}

#[test]
fn registry_errors_from_type_registry() {
    assert_eq!(
        registry_error_of(TypeRegistryError::OutOfRange { type_id: 1 }, "New".to_string()),
        RegistryError::InvalidTypeRange { type_value: 1, expected_range: "128-254".to_string() }
    );
    assert_eq!(
        registry_error_of(
            TypeRegistryError::AlreadyRegistered { type_id: 200, existing_name: "Old".to_string() },
            "New".to_string()
        ),
        RegistryError::TypeAlreadyRegistered {
            type_value: 200,
            existing_name: "Old".to_string(),
            new_name: "New".to_string()
        }
    );
    assert_eq!(
        registry_error_of(TypeRegistryError::NotFound { type_id: 9 }, String::new()),
        RegistryError::TypeNotFound { type_value: 9 }
    );
}

#[test]
fn display_texts_of_identifier_and_generic_unit() {
    let id = DataUnitIdentifier::new(DataUnitType::UploadSystemStatus);
    assert_eq!(id.to_string(), "DataUnit(type=1, category=上行数据单元, description=上传建筑消防设施系统状态)");
    let raw = GenericDataUnit::Raw { data_type: DataUnitType::UserDefined(200), data: vec![] };
    assert_eq!(raw.to_string(), format!("{} (200)", raw.description()));
}
