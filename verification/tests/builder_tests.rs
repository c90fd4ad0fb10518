use gb26875::builder::{Builder, DataUnitBuilder, PacketBuilder, ResettableBuilder};
use gb26875::data_unit::upstream::UploadSystemStatus;
use gb26875::data_unit::{DataUnit, GenericDataUnit};
use gb26875::error::{EncodeError, EncodeResult, ParseError};
use gb26875::frame::Timestamp;
use gb26875::info_object::{AnalogType, SystemStatus};
use gb26875::protocol::{Command, ComponentType, DataUnitType, SystemType};

#[derive(Clone)]
struct TestBuilder {
    value: Option<u32>,
}

impl TestBuilder {
    fn new() -> Self {
        TestBuilder { value: None }
    }

    fn with_value(mut self, value: u32) -> Self {
        self.value = Some(value);
        self
    }
}

impl Builder<u32> for TestBuilder {
    fn build(self) -> EncodeResult<u32> {
        self.value.ok_or_else(|| EncodeError::InvalidValue {
            field: "value".to_string(),
            value: "None".to_string(),
            reason: "值不能为空".to_string(),
        })
    }

    fn validate(&self) -> EncodeResult<()> {
        if self.value.is_none() {
            return Err(EncodeError::InvalidValue {
                field: "value".to_string(),
                value: "None".to_string(),
                reason: "值不能为空".to_string(),
            });
        }
        Ok(())
    }
}

impl ResettableBuilder<u32> for TestBuilder {
    fn reset(&mut self) {
        self.value = None;
    }
}

#[test]
fn test_builder() {
    let builder = TestBuilder::new().with_value(42);
    assert!(builder.validate().is_ok());
    assert_eq!(builder.build().unwrap(), 42);
}

#[test]
fn test_builder_validation_failure() {
    let builder = TestBuilder::new();
    assert!(builder.validate().is_err());
    assert!(builder.build().is_err());
}

#[test]
fn test_resettable_builder() {
    let mut builder = TestBuilder::new().with_value(42);
    assert_eq!(builder.build_and_reset().unwrap(), 42);
    assert!(builder.validate().is_err());
}

#[test]
fn test_packet_builder_basic() {
    let packet = PacketBuilder::new()
        .sequence(1)
        .default_version()
        .current_timestamp()
        .source_address(0x123456)
        .unwrap()
        .destination_address(0x654321)
        .unwrap()
        .command(Command::Control)
        .build()
        .unwrap();
    assert_eq!(packet.control_unit.sequence, 1);
    assert_eq!(packet.control_unit.source_addr, 0x123456);
    assert_eq!(packet.control_unit.dest_addr, 0x654321);
    assert_eq!(packet.control_unit.command, Command::Control);
    assert!(packet.data_unit().is_none());
}

#[test]
fn test_packet_builder_with_data_unit() {
    let status = SystemStatus::new(SystemType::FireAlarm, 1, 0x0002, Timestamp::now());
    let data_unit = GenericDataUnit::UploadSystemStatus(UploadSystemStatus::new(status, Timestamp::now()));
    let packet = PacketBuilder::new()
        .sequence(2)
        .default_version()
        .current_timestamp()
        .source_address(0x123456)
        .unwrap()
        .destination_address(0x654321)
        .unwrap()
        .command(Command::SendData)
        .data_unit(data_unit)
        .unwrap()
        .build()
        .unwrap();
    assert_eq!(packet.control_unit.sequence, 2);
    assert_eq!(packet.control_unit.command, Command::SendData);
    assert!(packet.data_unit.is_some());
    assert_eq!(packet.control_unit.data_unit_len, 17);
}

#[test]
fn test_packet_builder_heartbeat() {
    let packet = PacketBuilder::heartbeat(1, 0x123456, 0x654321).unwrap().build().unwrap();
    assert_eq!(packet.control_unit.sequence, 1);
    assert_eq!(packet.control_unit.source_addr, 0x123456);
    assert_eq!(packet.control_unit.dest_addr, 0x654321);
    assert_eq!(packet.control_unit.command, Command::SendData);
    assert!(packet.data_unit.is_none());
}

#[test]
fn test_packet_builder_validation() {
    let builder = PacketBuilder::new().sequence(1);
    assert!(builder.validate().is_err());
    let result = builder.build();
    assert!(result.is_err());
}

#[test]
fn test_packet_builder_invalid_address() {
    let result = PacketBuilder::new().source_address(0x1000000000000);
    assert!(result.is_err());
}

#[test]
fn test_resettable_packet_builder() {
    let mut builder = PacketBuilder::new()
        .sequence(1)
        .default_version()
        .current_timestamp()
        .source_address(0x123456)
        .unwrap()
        .destination_address(0x654321)
        .unwrap()
        .command(Command::SendData);
    let packet = builder.build_and_reset().unwrap();
    assert_eq!(packet.control_unit.sequence, 1);
    assert!(builder.get_sequence().is_none());
    assert!(builder.validate().is_err());
}

#[test]
fn test_packet_builder_getters() {
    let builder = PacketBuilder::new()
        .sequence(42)
        .source_address(0x111111)
        .unwrap()
        .destination_address(0x222222)
        .unwrap()
        .command(Command::Request);
    assert_eq!(builder.get_sequence(), Some(42));
    assert_eq!(builder.get_source_address(), Some(0x111111));
    assert_eq!(builder.get_destination_address(), Some(0x222222));
    assert_eq!(builder.get_command(), Some(Command::Request));
    assert!(!builder.has_data_unit());
    assert_eq!(builder.data_unit_length(), 0);
}

#[test]
fn packet_builder_errors_name_fields() {
    match PacketBuilder::new().destination_address(0x1_0000_0000_00AB) {
        Err(EncodeError::InvalidValue { field, value, .. }) => {
            assert_eq!(field, "destination_address");
            assert_eq!(value, "0x10000000000AB");
        }
        other => panic!("unexpected {:?}", other.map(|_| ())),
    }
    match PacketBuilder::new().sequence(1).default_version().validate() {
        Err(EncodeError::InvalidValue { field, value, .. }) => {
            assert_eq!(field, "timestamp");
            assert_eq!(value, "None");
        }
        other => panic!("unexpected {:?}", other),
    }
    assert!(matches!(
        PacketBuilder::new().data_unit_bytes(vec![0; 1025]),
        Err(EncodeError::DataTooLarge { size: 1025, max_size: 1024 })
    ));
    let mut failing = PacketBuilder::new().sequence(9);
    assert!(failing.build_and_reset().is_err());
    assert_eq!(failing.get_sequence(), Some(9));
    let q = PacketBuilder::status_query(3, 1, 2).unwrap();
    assert_eq!(q.get_command(), Some(Command::Request));
    let a = PacketBuilder::acknowledgment(3, 1, 2).unwrap();
    assert_eq!(a.get_command(), Some(Command::Acknowledge));
    let cloned = a.clone();
    assert_eq!(cloned.get_sequence(), Some(3));
}

#[test]
fn status_upload_carries_encoded_unit() {
    let ts = Timestamp::new(1, 2, 3, 4, 5, 6).unwrap();
    let u = UploadSystemStatus::new(SystemStatus::new(SystemType::FireAlarm, 1, 2, ts), ts);
    let bytes = u.encode().unwrap();
    let b = PacketBuilder::status_upload(7, 1, 2, GenericDataUnit::UploadSystemStatus(u)).unwrap();
    assert_eq!(b.data_unit_length(), 17);
    let p = b.build().unwrap();
    assert_eq!(p.data_unit.unwrap(), bytes);
}

#[test]
fn data_unit_builders() {
    let ts = Timestamp::new(1, 2, 3, 4, 5, 6).unwrap();
    let g = DataUnitBuilder::new(DataUnitType::UploadSystemStatus)
        .system_status()
        .system_type(SystemType::FireAlarm)
        .system_address(3)
        .system_state(0x10)
        .timestamp(ts)
        .build()
        .unwrap();
    match g {
        GenericDataUnit::UploadSystemStatus(u) => {
            assert_eq!(u.system_status.system_address, 3);
            assert_eq!(u.timestamp, ts);
        }
        _ => panic!("wrong variant"),
    }
    match DataUnitBuilder::new(DataUnitType::UploadSystemStatus).system_status().system_type(SystemType::FireAlarm).build() {
        Err(ParseError::InvalidValue { field, value, .. }) => {
            assert_eq!(field, "system_address");
            assert_eq!(value, "None");
        }
        other => panic!("unexpected {:?}", other.map(|_| ())),
    }
    let wrong = DataUnitBuilder::new(DataUnitType::ReadSystemStatus)
        .analog_value()
        .system_type(SystemType::FireAlarm)
        .system_address(1)
        .component_type(ComponentType::SmokeFireDetector)
        .component_address(5)
        .analog_type(AnalogType::Height)
        .analog_value(-3)
        .timestamp(ts)
        .build();
    match wrong {
        Err(ParseError::InvalidValue { field, value, .. }) => {
            assert_eq!(field, "data_unit_type");
            assert_eq!(value, "ReadSystemStatus");
        }
        other => panic!("unexpected {:?}", other.map(|_| ())),
    }
    let c = DataUnitBuilder::new(DataUnitType::UploadComponentStatus)
        .component_status()
        .description_bytes([b'x'; 31])
        .description("ab")
        .system_type(SystemType::FireAlarm)
        .system_address(1)
        .component_type(ComponentType::SmokeFireDetector)
        .component_address(5)
        .component_state(2)
        .timestamp(ts)
        .build()
        .unwrap();
    match c {
        GenericDataUnit::UploadComponentStatus(u) => {
            let mut expected = [0u8; 31];
            expected[0] = b'a';
            expected[1] = b'b';
            assert_eq!(u.component_status.component_description, expected);
        }
        _ => panic!("wrong variant"),
    }
    assert!(DataUnitBuilder::new(DataUnitType::UploadOperationInfo).operation_info().build().is_err());
    assert!(DataUnitBuilder::new(DataUnitType::UploadSystemTime).time_info().build().is_err());
}
