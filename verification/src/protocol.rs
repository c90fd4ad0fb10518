//! GB26875 protocol vocabulary: wire constants, command bytes, protocol
//! versions, system/component type codes and data unit type codes.
use crate::text::{decimal_text, push_decimal};
use vstd::prelude::*;
use vstd::string::StringExecFns;

verus! {

/// Frame start marker `@@`.
pub const FRAME_START_BYTE: u8 = 0x40;

/// Frame end marker `##`.
pub const FRAME_END_BYTE: u8 = 0x23;

/// Length of the control unit in bytes.
pub const CONTROL_UNIT_LENGTH: usize = 25;

/// Largest application data unit the protocol allows.
pub const MAX_DATA_UNIT_SIZE: usize = 1024;

/// Smallest complete packet: start(2) + control unit(25) + checksum(1) + end(2).
pub const MIN_PACKET_SIZE: usize = 30;

/// Largest complete packet.
pub const MAX_PACKET_SIZE: usize = 1054;

/// The two start marker bytes.
pub fn frame_start() -> (r: [u8; 2])
    ensures
        r@ == seq![FRAME_START_BYTE, FRAME_START_BYTE],
{
    [FRAME_START_BYTE, FRAME_START_BYTE]
}

/// The two end marker bytes.
pub fn frame_end() -> (r: [u8; 2])
    ensures
        r@ == seq![FRAME_END_BYTE, FRAME_END_BYTE],
{
    [FRAME_END_BYTE, FRAME_END_BYTE]
}

/// Command byte of the control unit.
#[derive(Debug, Clone, Copy, PartialEq, Eq, Hash, Structural)]
pub enum Command {
    /// 1: control command (clock synchronisation)
    Control,
    /// 2: send data
    SendData,
    /// 3: acknowledge
    Acknowledge,
    /// 4: request
    Request,
    /// 5: response
    Response,
    /// 6: reject
    Reject,
    /// any other byte (reserved or user defined)
    Other(u8),
}

impl Command {
    pub open spec fn spec_from_u8(v: u8) -> Command {
        if v == 1 {
            Command::Control
        } else if v == 2 {
            Command::SendData
        } else if v == 3 {
            Command::Acknowledge
        } else if v == 4 {
            Command::Request
        } else if v == 5 {
            Command::Response
        } else if v == 6 {
            Command::Reject
        } else {
            Command::Other(v)
        }
    }

    pub open spec fn spec_to_u8(self) -> u8 {
        match self {
            Command::Control => 1,
            Command::SendData => 2,
            Command::Acknowledge => 3,
            Command::Request => 4,
            Command::Response => 5,
            Command::Reject => 6,
            Command::Other(v) => v,
        }
    }

    /// A command value that is what its own byte decodes to.
    pub open spec fn well_formed(self) -> bool {
        Command::spec_from_u8(self.spec_to_u8()) == self
    }

    /// Decodes a command byte.
    pub fn from_u8(v: u8) -> (r: Command)
        ensures
            r == Command::spec_from_u8(v),
            r.well_formed(),
    {
        match v {
            1 => Command::Control,
            2 => Command::SendData,
            3 => Command::Acknowledge,
            4 => Command::Request,
            5 => Command::Response,
            6 => Command::Reject,
            _ => Command::Other(v),
        }
    }

    /// Encodes a command as its byte.
    pub fn to_u8(&self) -> (r: u8)
        ensures
            r == self.spec_to_u8(),
    {
        match self {
            Command::Control => 1,
            Command::SendData => 2,
            Command::Acknowledge => 3,
            Command::Request => 4,
            Command::Response => 5,
            Command::Reject => 6,
            Command::Other(v) => *v,
        }
    }
}

/// Decoding a byte and encoding the command gives the byte back.
pub proof fn law_command_byte_roundtrip(v: u8)
    ensures
        Command::spec_from_u8(v).spec_to_u8() == v,
{
}

/// Protocol version: major version byte and user version byte.
#[derive(Debug, Clone, Copy, PartialEq, Eq, Hash, Structural)]
pub struct ProtocolVersion {
    /// major version
    pub major: u8,
    /// user (minor) version
    pub minor: u8,
}

impl ProtocolVersion {
    /// Creates a version from its two bytes.
    pub fn new(major: u8, minor: u8) -> (r: ProtocolVersion)
        ensures
            r.major == major,
            r.minor == minor,
    {
        ProtocolVersion { major, minor }
    }

    /// Version 1.0.
    pub fn v1_0() -> (r: ProtocolVersion)
        ensures
            r.major == 1,
            r.minor == 0,
    {
        ProtocolVersion { major: 1, minor: 0 }
    }

    /// The standard version of the protocol, 1.1.
    pub fn standard() -> (r: ProtocolVersion)
        ensures
            r.major == 1,
            r.minor == 1,
    {
        ProtocolVersion { major: 1, minor: 1 }
    }

    /// Reads the version from its two wire bytes.
    pub fn from_bytes(b: [u8; 2]) -> (r: ProtocolVersion)
        ensures
            r.major == b@[0],
            r.minor == b@[1],
    {
        ProtocolVersion { major: b[0], minor: b[1] }
    }

    /// Writes the version as its two wire bytes.
    pub fn to_bytes(&self) -> (r: [u8; 2])
        ensures
            r@ == seq![self.major, self.minor],
    {
        [self.major, self.minor]
    }

    pub open spec fn spec_is_valid_major(self) -> bool {
        self.major >= 1
    }

    /// Whether the major version names a released protocol revision.
    pub fn is_valid_major(&self) -> (r: bool)
        ensures
            r == self.spec_is_valid_major(),
    {
        self.major >= 1
    }
}

impl Default for ProtocolVersion {
    /// The standard version, 1.1.
    fn default() -> (r: ProtocolVersion)
        ensures
            r.major == 1,
            r.minor == 1,
    {
        ProtocolVersion::standard()
    }
}

/// Building fire protection system type (one byte).
#[derive(Debug, Clone, Copy, PartialEq, Eq, Hash, Structural)]
pub enum SystemType {
    /// 0 general
    General,
    /// 1 fire alarm system
    FireAlarm,
    /// 10 linkage controller
    LinkageController,
    /// 11 fire hydrant system
    Hydrant,
    /// 12 automatic sprinkler system
    AutoSprinkler,
    /// 13 gas extinguishing system
    GasExtinguishing,
    /// 14 water spray system, pump started
    WaterSprayPump,
    /// 15 water spray system, pressure vessel started
    WaterSprayPressure,
    /// 16 foam extinguishing system
    Foam,
    /// 17 dry powder extinguishing system
    DryPowder,
    /// 18 smoke control system
    SmokeControl,
    /// 19 fire door and shutter system
    FireDoorShutter,
    /// 20 fire elevator
    FireElevator,
    /// 21 emergency broadcast
    EmergencyBroadcast,
    /// 22 emergency lighting and evacuation signs
    EmergencyLighting,
    /// 23 fire power supply
    FirePower,
    /// 24 fire telephone
    FireTelephone,
    /// any other code
    Other(u8),
}

impl SystemType {
    pub open spec fn spec_from_u8(v: u8) -> SystemType {
        if v == 0 {
            SystemType::General
        } else if v == 1 {
            SystemType::FireAlarm
        } else if v == 10 {
            SystemType::LinkageController
        } else if v == 11 {
            SystemType::Hydrant
        } else if v == 12 {
            SystemType::AutoSprinkler
        } else if v == 13 {
            SystemType::GasExtinguishing
        } else if v == 14 {
            SystemType::WaterSprayPump
        } else if v == 15 {
            SystemType::WaterSprayPressure
        } else if v == 16 {
            SystemType::Foam
        } else if v == 17 {
            SystemType::DryPowder
        } else if v == 18 {
            SystemType::SmokeControl
        } else if v == 19 {
            SystemType::FireDoorShutter
        } else if v == 20 {
            SystemType::FireElevator
        } else if v == 21 {
            SystemType::EmergencyBroadcast
        } else if v == 22 {
            SystemType::EmergencyLighting
        } else if v == 23 {
            SystemType::FirePower
        } else if v == 24 {
            SystemType::FireTelephone
        } else {
            SystemType::Other(v)
        }
    }

    pub open spec fn spec_to_u8(self) -> u8 {
        match self {
            SystemType::General => 0,
            SystemType::FireAlarm => 1,
            SystemType::LinkageController => 10,
            SystemType::Hydrant => 11,
            SystemType::AutoSprinkler => 12,
            SystemType::GasExtinguishing => 13,
            SystemType::WaterSprayPump => 14,
            SystemType::WaterSprayPressure => 15,
            SystemType::Foam => 16,
            SystemType::DryPowder => 17,
            SystemType::SmokeControl => 18,
            SystemType::FireDoorShutter => 19,
            SystemType::FireElevator => 20,
            SystemType::EmergencyBroadcast => 21,
            SystemType::EmergencyLighting => 22,
            SystemType::FirePower => 23,
            SystemType::FireTelephone => 24,
            SystemType::Other(v) => v,
        }
    }

    /// A system type that is what its own byte decodes to.
    pub open spec fn well_formed(self) -> bool {
        SystemType::spec_from_u8(self.spec_to_u8()) == self
    }

    /// Decodes a system type byte.
    pub fn from_u8(v: u8) -> (r: SystemType)
        ensures
            r == SystemType::spec_from_u8(v),
            r.well_formed(),
    {
        match v {
            0 => SystemType::General,
            1 => SystemType::FireAlarm,
            10 => SystemType::LinkageController,
            11 => SystemType::Hydrant,
            12 => SystemType::AutoSprinkler,
            13 => SystemType::GasExtinguishing,
            14 => SystemType::WaterSprayPump,
            15 => SystemType::WaterSprayPressure,
            16 => SystemType::Foam,
            17 => SystemType::DryPowder,
            18 => SystemType::SmokeControl,
            19 => SystemType::FireDoorShutter,
            20 => SystemType::FireElevator,
            21 => SystemType::EmergencyBroadcast,
            22 => SystemType::EmergencyLighting,
            23 => SystemType::FirePower,
            24 => SystemType::FireTelephone,
            _ => SystemType::Other(v),
        }
    }

    /// Encodes a system type as its byte.
    pub fn to_u8(&self) -> (r: u8)
        ensures
            r == self.spec_to_u8(),
    {
        match self {
            SystemType::General => 0,
            SystemType::FireAlarm => 1,
            SystemType::LinkageController => 10,
            SystemType::Hydrant => 11,
            SystemType::AutoSprinkler => 12,
            SystemType::GasExtinguishing => 13,
            SystemType::WaterSprayPump => 14,
            SystemType::WaterSprayPressure => 15,
            SystemType::Foam => 16,
            SystemType::DryPowder => 17,
            SystemType::SmokeControl => 18,
            SystemType::FireDoorShutter => 19,
            SystemType::FireElevator => 20,
            SystemType::EmergencyBroadcast => 21,
            SystemType::EmergencyLighting => 22,
            SystemType::FirePower => 23,
            SystemType::FireTelephone => 24,
            SystemType::Other(v) => *v,
        }
    }
}

/// Decoding a system type byte and encoding it again gives the byte back.
pub proof fn law_system_type_byte_roundtrip(v: u8)
    ensures
        SystemType::spec_from_u8(v).spec_to_u8() == v,
{
}

/// Building fire protection component type (one byte).
#[derive(Debug, Clone, Copy, PartialEq, Eq, Hash, Structural)]
pub enum ComponentType {
    /// 0 general
    General,
    /// 1 fire alarm controller
    FireAlarmController,
    /// 10 combustible gas detector
    CombustibleGasDetector,
    /// 11 point combustible gas detector
    PointCombustibleGasDetector,
    /// 12 stand-alone combustible gas detector
    IndependentCombustibleGasDetector,
    /// 13 line combustible gas detector
    LineCombustibleGasDetector,
    /// 16 electrical fire monitoring alarm
    ElectricalFireAlarm,
    /// 17 residual current electrical fire detector
    ResidualCurrentDetector,
    /// 18 temperature sensing electrical fire detector
    TemperatureElectricalDetector,
    /// 21 detection loop
    DetectionLoop,
    /// 22 fire display panel
    FireDisplayPanel,
    /// 23 manual fire alarm button
    ManualAlarmButton,
    /// 24 hydrant button
    HydrantButton,
    /// 25 fire detector
    FireDetector,
    /// 30 heat fire detector
    TemperatureFireDetector,
    /// 31 point heat fire detector
    PointTemperatureFireDetector,
    /// 40 smoke fire detector
    SmokeFireDetector,
    /// 41 point ionisation smoke fire detector
    PointIonSmokeFireDetector,
    /// 42 point photoelectric smoke fire detector
    PointPhotoelectricSmokeFireDetector,
    /// any other code
    Other(u8),
}

impl ComponentType {
    pub open spec fn spec_from_u8(v: u8) -> ComponentType {
        if v == 0 {
            ComponentType::General
        } else if v == 1 {
            ComponentType::FireAlarmController
        } else if v == 10 {
            ComponentType::CombustibleGasDetector
        } else if v == 11 {
            ComponentType::PointCombustibleGasDetector
        } else if v == 12 {
            ComponentType::IndependentCombustibleGasDetector
        } else if v == 13 {
            ComponentType::LineCombustibleGasDetector
        } else if v == 16 {
            ComponentType::ElectricalFireAlarm
        } else if v == 17 {
            ComponentType::ResidualCurrentDetector
        } else if v == 18 {
            ComponentType::TemperatureElectricalDetector
        } else if v == 21 {
            ComponentType::DetectionLoop
        } else if v == 22 {
            ComponentType::FireDisplayPanel
        } else if v == 23 {
            ComponentType::ManualAlarmButton
        } else if v == 24 {
            ComponentType::HydrantButton
        } else if v == 25 {
            ComponentType::FireDetector
        } else if v == 30 {
            ComponentType::TemperatureFireDetector
        } else if v == 31 {
            ComponentType::PointTemperatureFireDetector
        } else if v == 40 {
            ComponentType::SmokeFireDetector
        } else if v == 41 {
            ComponentType::PointIonSmokeFireDetector
        } else if v == 42 {
            ComponentType::PointPhotoelectricSmokeFireDetector
        } else {
            ComponentType::Other(v)
        }
    }

    pub open spec fn spec_to_u8(self) -> u8 {
        match self {
            ComponentType::General => 0,
            ComponentType::FireAlarmController => 1,
            ComponentType::CombustibleGasDetector => 10,
            ComponentType::PointCombustibleGasDetector => 11,
            ComponentType::IndependentCombustibleGasDetector => 12,
            ComponentType::LineCombustibleGasDetector => 13,
            ComponentType::ElectricalFireAlarm => 16,
            ComponentType::ResidualCurrentDetector => 17,
            ComponentType::TemperatureElectricalDetector => 18,
            ComponentType::DetectionLoop => 21,
            ComponentType::FireDisplayPanel => 22,
            ComponentType::ManualAlarmButton => 23,
            ComponentType::HydrantButton => 24,
            ComponentType::FireDetector => 25,
            ComponentType::TemperatureFireDetector => 30,
            ComponentType::PointTemperatureFireDetector => 31,
            ComponentType::SmokeFireDetector => 40,
            ComponentType::PointIonSmokeFireDetector => 41,
            ComponentType::PointPhotoelectricSmokeFireDetector => 42,
            ComponentType::Other(v) => v,
        }
    }

    /// A component type that is what its own byte decodes to.
    pub open spec fn well_formed(self) -> bool {
        ComponentType::spec_from_u8(self.spec_to_u8()) == self
    }

    /// Decodes a component type byte.
    pub fn from_u8(v: u8) -> (r: ComponentType)
        ensures
            r == ComponentType::spec_from_u8(v),
            r.well_formed(),
    {
        match v {
            0 => ComponentType::General,
            1 => ComponentType::FireAlarmController,
            10 => ComponentType::CombustibleGasDetector,
            11 => ComponentType::PointCombustibleGasDetector,
            12 => ComponentType::IndependentCombustibleGasDetector,
            13 => ComponentType::LineCombustibleGasDetector,
            16 => ComponentType::ElectricalFireAlarm,
            17 => ComponentType::ResidualCurrentDetector,
            18 => ComponentType::TemperatureElectricalDetector,
            21 => ComponentType::DetectionLoop,
            22 => ComponentType::FireDisplayPanel,
            23 => ComponentType::ManualAlarmButton,
            24 => ComponentType::HydrantButton,
            25 => ComponentType::FireDetector,
            30 => ComponentType::TemperatureFireDetector,
            31 => ComponentType::PointTemperatureFireDetector,
            40 => ComponentType::SmokeFireDetector,
            41 => ComponentType::PointIonSmokeFireDetector,
            42 => ComponentType::PointPhotoelectricSmokeFireDetector,
            _ => ComponentType::Other(v),
        }
    }

    /// Encodes a component type as its byte.
    pub fn to_u8(&self) -> (r: u8)
        ensures
            r == self.spec_to_u8(),
    {
        match self {
            ComponentType::General => 0,
            ComponentType::FireAlarmController => 1,
            ComponentType::CombustibleGasDetector => 10,
            ComponentType::PointCombustibleGasDetector => 11,
            ComponentType::IndependentCombustibleGasDetector => 12,
            ComponentType::LineCombustibleGasDetector => 13,
            ComponentType::ElectricalFireAlarm => 16,
            ComponentType::ResidualCurrentDetector => 17,
            ComponentType::TemperatureElectricalDetector => 18,
            ComponentType::DetectionLoop => 21,
            ComponentType::FireDisplayPanel => 22,
            ComponentType::ManualAlarmButton => 23,
            ComponentType::HydrantButton => 24,
            ComponentType::FireDetector => 25,
            ComponentType::TemperatureFireDetector => 30,
            ComponentType::PointTemperatureFireDetector => 31,
            ComponentType::SmokeFireDetector => 40,
            ComponentType::PointIonSmokeFireDetector => 41,
            ComponentType::PointPhotoelectricSmokeFireDetector => 42,
            ComponentType::Other(v) => *v,
        }
    }
}

/// Decoding a component type byte and encoding it again gives the byte back.
pub proof fn law_component_type_byte_roundtrip(v: u8)
    ensures
        ComponentType::spec_from_u8(v).spec_to_u8() == v,
{
}

/// Application data unit type code (the type flag byte).
#[derive(Debug, Clone, Copy, PartialEq, Eq, Hash, Structural)]
pub enum DataUnitType {
    /// 1: 上传建筑消防设施系统状态
    UploadSystemStatus,
    /// 2: 上传建筑消防设施部件运行状态
    UploadComponentStatus,
    /// 3: 上传建筑消防设施部件模拟量值
    UploadAnalogValue,
    /// 4: 上传建筑消防设施操作信息
    UploadOperationInfo,
    /// 5: 上传建筑消防设施软件版本
    UploadSoftwareVersion,
    /// 6: 上传建筑消防设施系统配置情况
    UploadSystemConfig,
    /// 7: 上传建筑消防设施部件配置情况
    UploadComponentConfig,
    /// 8: 上传建筑消防设施系统时间
    UploadSystemTime,
    /// 21: 上传用户信息传输装置运行状态
    UploadDeviceStatus,
    /// 24: 上传用户信息传输装置操作信息
    UploadDeviceOperation,
    /// 25: 上传用户信息传输装置软件版本
    UploadDeviceVersion,
    /// 26: 上传用户信息传输装置配置情况
    UploadDeviceConfig,
    /// 28: 上传用户信息传输装置系统时间
    UploadDeviceTime,
    /// 61: 读建筑消防设施系统状态
    ReadSystemStatus,
    /// 62: 读建筑消防设施部件运行状态
    ReadComponentStatus,
    /// 63: 读建筑消防设施部件模拟量值
    ReadAnalogValue,
    /// 64: 读建筑消防设施操作信息
    ReadOperationInfo,
    /// 65: 读建筑消防设施软件版本
    ReadSoftwareVersion,
    /// 66: 读建筑消防设施系统配置情况
    ReadSystemConfig,
    /// 67: 读建筑消防设施部件配置情况
    ReadComponentConfig,
    /// 68: 读建筑消防设施系统时间
    ReadSystemTime,
    /// 81: 读用户信息传输装置运行状态
    ReadDeviceStatus,
    /// 84: 读用户信息传输装置操作信息记录
    ReadDeviceOperation,
    /// 85: 读用户信息传输装置软件版本
    ReadDeviceVersion,
    /// 86: 读用户信息传输装置配置情况
    ReadDeviceConfig,
    /// 88: 读用户信息传输装置系统时间
    ReadDeviceTime,
    /// 89: 初始化用户信息传输装置
    InitializeDevice,
    /// 90: 同步用户信息传输装置时钟
    SyncDeviceClock,
    /// 91: 查岗命令
    PatrolCommand,
    /// an unassigned standard code (0-127) or 255
    Reserved(u8),
    /// 128-254: user defined
    UserDefined(u8),
}

impl DataUnitType {
    pub open spec fn spec_from_u8(v: u8) -> DataUnitType {
        if v == 1 {
            DataUnitType::UploadSystemStatus
        } else if v == 2 {
            DataUnitType::UploadComponentStatus
        } else if v == 3 {
            DataUnitType::UploadAnalogValue
        } else if v == 4 {
            DataUnitType::UploadOperationInfo
        } else if v == 5 {
            DataUnitType::UploadSoftwareVersion
        } else if v == 6 {
            DataUnitType::UploadSystemConfig
        } else if v == 7 {
            DataUnitType::UploadComponentConfig
        } else if v == 8 {
            DataUnitType::UploadSystemTime
        } else if v == 21 {
            DataUnitType::UploadDeviceStatus
        } else if v == 24 {
            DataUnitType::UploadDeviceOperation
        } else if v == 25 {
            DataUnitType::UploadDeviceVersion
        } else if v == 26 {
            DataUnitType::UploadDeviceConfig
        } else if v == 28 {
            DataUnitType::UploadDeviceTime
        } else if v == 61 {
            DataUnitType::ReadSystemStatus
        } else if v == 62 {
            DataUnitType::ReadComponentStatus
        } else if v == 63 {
            DataUnitType::ReadAnalogValue
        } else if v == 64 {
            DataUnitType::ReadOperationInfo
        } else if v == 65 {
            DataUnitType::ReadSoftwareVersion
        } else if v == 66 {
            DataUnitType::ReadSystemConfig
        } else if v == 67 {
            DataUnitType::ReadComponentConfig
        } else if v == 68 {
            DataUnitType::ReadSystemTime
        } else if v == 81 {
            DataUnitType::ReadDeviceStatus
        } else if v == 84 {
            DataUnitType::ReadDeviceOperation
        } else if v == 85 {
            DataUnitType::ReadDeviceVersion
        } else if v == 86 {
            DataUnitType::ReadDeviceConfig
        } else if v == 88 {
            DataUnitType::ReadDeviceTime
        } else if v == 89 {
            DataUnitType::InitializeDevice
        } else if v == 90 {
            DataUnitType::SyncDeviceClock
        } else if v == 91 {
            DataUnitType::PatrolCommand
        } else if 128 <= v && v <= 254 {
            DataUnitType::UserDefined(v)
        } else {
            DataUnitType::Reserved(v)
        }
    }

    pub open spec fn spec_to_u8(self) -> u8 {
        match self {
            DataUnitType::UploadSystemStatus => 1,
            DataUnitType::UploadComponentStatus => 2,
            DataUnitType::UploadAnalogValue => 3,
            DataUnitType::UploadOperationInfo => 4,
            DataUnitType::UploadSoftwareVersion => 5,
            DataUnitType::UploadSystemConfig => 6,
            DataUnitType::UploadComponentConfig => 7,
            DataUnitType::UploadSystemTime => 8,
            DataUnitType::UploadDeviceStatus => 21,
            DataUnitType::UploadDeviceOperation => 24,
            DataUnitType::UploadDeviceVersion => 25,
            DataUnitType::UploadDeviceConfig => 26,
            DataUnitType::UploadDeviceTime => 28,
            DataUnitType::ReadSystemStatus => 61,
            DataUnitType::ReadComponentStatus => 62,
            DataUnitType::ReadAnalogValue => 63,
            DataUnitType::ReadOperationInfo => 64,
            DataUnitType::ReadSoftwareVersion => 65,
            DataUnitType::ReadSystemConfig => 66,
            DataUnitType::ReadComponentConfig => 67,
            DataUnitType::ReadSystemTime => 68,
            DataUnitType::ReadDeviceStatus => 81,
            DataUnitType::ReadDeviceOperation => 84,
            DataUnitType::ReadDeviceVersion => 85,
            DataUnitType::ReadDeviceConfig => 86,
            DataUnitType::ReadDeviceTime => 88,
            DataUnitType::InitializeDevice => 89,
            DataUnitType::SyncDeviceClock => 90,
            DataUnitType::PatrolCommand => 91,
            DataUnitType::Reserved(v) => v,
            DataUnitType::UserDefined(v) => v,
        }
    }

    /// A type value that is what its own byte decodes to.
    pub open spec fn well_formed(self) -> bool {
        DataUnitType::spec_from_u8(self.spec_to_u8()) == self
    }

    /// Decodes a type flag byte.
    pub fn from_u8(v: u8) -> (r: DataUnitType)
        ensures
            r == DataUnitType::spec_from_u8(v),
            r.well_formed(),
    {
        match v {
            1 => DataUnitType::UploadSystemStatus,
            2 => DataUnitType::UploadComponentStatus,
            3 => DataUnitType::UploadAnalogValue,
            4 => DataUnitType::UploadOperationInfo,
            5 => DataUnitType::UploadSoftwareVersion,
            6 => DataUnitType::UploadSystemConfig,
            7 => DataUnitType::UploadComponentConfig,
            8 => DataUnitType::UploadSystemTime,
            21 => DataUnitType::UploadDeviceStatus,
            24 => DataUnitType::UploadDeviceOperation,
            25 => DataUnitType::UploadDeviceVersion,
            26 => DataUnitType::UploadDeviceConfig,
            28 => DataUnitType::UploadDeviceTime,
            61 => DataUnitType::ReadSystemStatus,
            62 => DataUnitType::ReadComponentStatus,
            63 => DataUnitType::ReadAnalogValue,
            64 => DataUnitType::ReadOperationInfo,
            65 => DataUnitType::ReadSoftwareVersion,
            66 => DataUnitType::ReadSystemConfig,
            67 => DataUnitType::ReadComponentConfig,
            68 => DataUnitType::ReadSystemTime,
            81 => DataUnitType::ReadDeviceStatus,
            84 => DataUnitType::ReadDeviceOperation,
            85 => DataUnitType::ReadDeviceVersion,
            86 => DataUnitType::ReadDeviceConfig,
            88 => DataUnitType::ReadDeviceTime,
            89 => DataUnitType::InitializeDevice,
            90 => DataUnitType::SyncDeviceClock,
            91 => DataUnitType::PatrolCommand,
            128..=254 => DataUnitType::UserDefined(v),
            _ => DataUnitType::Reserved(v),
        }
    }

    /// Encodes the type as its flag byte.
    pub fn to_u8(&self) -> (r: u8)
        ensures
            r == self.spec_to_u8(),
    {
        match self {
            DataUnitType::UploadSystemStatus => 1,
            DataUnitType::UploadComponentStatus => 2,
            DataUnitType::UploadAnalogValue => 3,
            DataUnitType::UploadOperationInfo => 4,
            DataUnitType::UploadSoftwareVersion => 5,
            DataUnitType::UploadSystemConfig => 6,
            DataUnitType::UploadComponentConfig => 7,
            DataUnitType::UploadSystemTime => 8,
            DataUnitType::UploadDeviceStatus => 21,
            DataUnitType::UploadDeviceOperation => 24,
            DataUnitType::UploadDeviceVersion => 25,
            DataUnitType::UploadDeviceConfig => 26,
            DataUnitType::UploadDeviceTime => 28,
            DataUnitType::ReadSystemStatus => 61,
            DataUnitType::ReadComponentStatus => 62,
            DataUnitType::ReadAnalogValue => 63,
            DataUnitType::ReadOperationInfo => 64,
            DataUnitType::ReadSoftwareVersion => 65,
            DataUnitType::ReadSystemConfig => 66,
            DataUnitType::ReadComponentConfig => 67,
            DataUnitType::ReadSystemTime => 68,
            DataUnitType::ReadDeviceStatus => 81,
            DataUnitType::ReadDeviceOperation => 84,
            DataUnitType::ReadDeviceVersion => 85,
            DataUnitType::ReadDeviceConfig => 86,
            DataUnitType::ReadDeviceTime => 88,
            DataUnitType::InitializeDevice => 89,
            DataUnitType::SyncDeviceClock => 90,
            DataUnitType::PatrolCommand => 91,
            DataUnitType::Reserved(v) => *v,
            DataUnitType::UserDefined(v) => *v,
        }
    }

    pub open spec fn spec_is_standard(self) -> bool {
        1 <= self.spec_to_u8() && self.spec_to_u8() <= 127
    }

    pub open spec fn spec_is_custom(self) -> bool {
        128 <= self.spec_to_u8() && self.spec_to_u8() <= 254
    }

    /// Whether the type code lies in the standard range 1-127.
    pub fn is_standard(&self) -> (r: bool)
        ensures
            r == self.spec_is_standard(),
    {
        let v = self.to_u8();
        1 <= v && v <= 127
    }

    /// Whether the type code lies in the user defined range 128-254.
    pub fn is_custom(&self) -> (r: bool)
        ensures
            r == self.spec_is_custom(),
    {
        let v = self.to_u8();
        128 <= v && v <= 254
    }

    /// Debug rendering: the variant name, with the code of a reserved or
    /// user defined type in brackets.
    pub open spec fn spec_debug_text(self) -> Seq<char> {
        match self {
            DataUnitType::UploadSystemStatus => "UploadSystemStatus"@,
            DataUnitType::UploadComponentStatus => "UploadComponentStatus"@,
            DataUnitType::UploadAnalogValue => "UploadAnalogValue"@,
            DataUnitType::UploadOperationInfo => "UploadOperationInfo"@,
            DataUnitType::UploadSoftwareVersion => "UploadSoftwareVersion"@,
            DataUnitType::UploadSystemConfig => "UploadSystemConfig"@,
            DataUnitType::UploadComponentConfig => "UploadComponentConfig"@,
            DataUnitType::UploadSystemTime => "UploadSystemTime"@,
            DataUnitType::UploadDeviceStatus => "UploadDeviceStatus"@,
            DataUnitType::UploadDeviceOperation => "UploadDeviceOperation"@,
            DataUnitType::UploadDeviceVersion => "UploadDeviceVersion"@,
            DataUnitType::UploadDeviceConfig => "UploadDeviceConfig"@,
            DataUnitType::UploadDeviceTime => "UploadDeviceTime"@,
            DataUnitType::ReadSystemStatus => "ReadSystemStatus"@,
            DataUnitType::ReadComponentStatus => "ReadComponentStatus"@,
            DataUnitType::ReadAnalogValue => "ReadAnalogValue"@,
            DataUnitType::ReadOperationInfo => "ReadOperationInfo"@,
            DataUnitType::ReadSoftwareVersion => "ReadSoftwareVersion"@,
            DataUnitType::ReadSystemConfig => "ReadSystemConfig"@,
            DataUnitType::ReadComponentConfig => "ReadComponentConfig"@,
            DataUnitType::ReadSystemTime => "ReadSystemTime"@,
            DataUnitType::ReadDeviceStatus => "ReadDeviceStatus"@,
            DataUnitType::ReadDeviceOperation => "ReadDeviceOperation"@,
            DataUnitType::ReadDeviceVersion => "ReadDeviceVersion"@,
            DataUnitType::ReadDeviceConfig => "ReadDeviceConfig"@,
            DataUnitType::ReadDeviceTime => "ReadDeviceTime"@,
            DataUnitType::InitializeDevice => "InitializeDevice"@,
            DataUnitType::SyncDeviceClock => "SyncDeviceClock"@,
            DataUnitType::PatrolCommand => "PatrolCommand"@,
            DataUnitType::Reserved(x) => "Reserved("@ + decimal_text(x as nat) + ")"@,
            DataUnitType::UserDefined(x) => "UserDefined("@ + decimal_text(x as nat) + ")"@,
        }
    }

    /// Debug rendering: the variant name, with the code of a reserved or
    /// user defined type in brackets.
    pub fn debug_text(&self) -> (r: String)
        ensures
            r@ == self.spec_debug_text(),
    {
        match self {
            DataUnitType::UploadSystemStatus => "UploadSystemStatus".to_owned(),
            DataUnitType::UploadComponentStatus => "UploadComponentStatus".to_owned(),
            DataUnitType::UploadAnalogValue => "UploadAnalogValue".to_owned(),
            DataUnitType::UploadOperationInfo => "UploadOperationInfo".to_owned(),
            DataUnitType::UploadSoftwareVersion => "UploadSoftwareVersion".to_owned(),
            DataUnitType::UploadSystemConfig => "UploadSystemConfig".to_owned(),
            DataUnitType::UploadComponentConfig => "UploadComponentConfig".to_owned(),
            DataUnitType::UploadSystemTime => "UploadSystemTime".to_owned(),
            DataUnitType::UploadDeviceStatus => "UploadDeviceStatus".to_owned(),
            DataUnitType::UploadDeviceOperation => "UploadDeviceOperation".to_owned(),
            DataUnitType::UploadDeviceVersion => "UploadDeviceVersion".to_owned(),
            DataUnitType::UploadDeviceConfig => "UploadDeviceConfig".to_owned(),
            DataUnitType::UploadDeviceTime => "UploadDeviceTime".to_owned(),
            DataUnitType::ReadSystemStatus => "ReadSystemStatus".to_owned(),
            DataUnitType::ReadComponentStatus => "ReadComponentStatus".to_owned(),
            DataUnitType::ReadAnalogValue => "ReadAnalogValue".to_owned(),
            DataUnitType::ReadOperationInfo => "ReadOperationInfo".to_owned(),
            DataUnitType::ReadSoftwareVersion => "ReadSoftwareVersion".to_owned(),
            DataUnitType::ReadSystemConfig => "ReadSystemConfig".to_owned(),
            DataUnitType::ReadComponentConfig => "ReadComponentConfig".to_owned(),
            DataUnitType::ReadSystemTime => "ReadSystemTime".to_owned(),
            DataUnitType::ReadDeviceStatus => "ReadDeviceStatus".to_owned(),
            DataUnitType::ReadDeviceOperation => "ReadDeviceOperation".to_owned(),
            DataUnitType::ReadDeviceVersion => "ReadDeviceVersion".to_owned(),
            DataUnitType::ReadDeviceConfig => "ReadDeviceConfig".to_owned(),
            DataUnitType::ReadDeviceTime => "ReadDeviceTime".to_owned(),
            DataUnitType::InitializeDevice => "InitializeDevice".to_owned(),
            DataUnitType::SyncDeviceClock => "SyncDeviceClock".to_owned(),
            DataUnitType::PatrolCommand => "PatrolCommand".to_owned(),
            DataUnitType::Reserved(x) => {
                let mut s = String::new();
                s.append("Reserved(");
                push_decimal(&mut s, *x as u64);
                s.append(")");
                s
            },
            DataUnitType::UserDefined(x) => {
                let mut s = String::new();
                s.append("UserDefined(");
                push_decimal(&mut s, *x as u64);
                s.append(")");
                s
            },
        }
    }

    pub open spec fn spec_description(self) -> Seq<char> {
        match self {
            DataUnitType::UploadSystemStatus => "上传建筑消防设施系统状态"@,
            DataUnitType::UploadComponentStatus => "上传建筑消防设施部件运行状态"@,
            DataUnitType::UploadAnalogValue => "上传建筑消防设施部件模拟量值"@,
            DataUnitType::UploadOperationInfo => "上传建筑消防设施操作信息"@,
            DataUnitType::UploadSoftwareVersion => "上传建筑消防设施软件版本"@,
            DataUnitType::UploadSystemConfig => "上传建筑消防设施系统配置情况"@,
            DataUnitType::UploadComponentConfig => "上传建筑消防设施部件配置情况"@,
            DataUnitType::UploadSystemTime => "上传建筑消防设施系统时间"@,
            DataUnitType::UploadDeviceStatus => "上传用户信息传输装置运行状态"@,
            DataUnitType::UploadDeviceOperation => "上传用户信息传输装置操作信息"@,
            DataUnitType::UploadDeviceVersion => "上传用户信息传输装置软件版本"@,
            DataUnitType::UploadDeviceConfig => "上传用户信息传输装置配置情况"@,
            DataUnitType::UploadDeviceTime => "上传用户信息传输装置系统时间"@,
            DataUnitType::ReadSystemStatus => "读建筑消防设施系统状态"@,
            DataUnitType::ReadComponentStatus => "读建筑消防设施部件运行状态"@,
            DataUnitType::ReadAnalogValue => "读建筑消防设施部件模拟量值"@,
            DataUnitType::ReadOperationInfo => "读建筑消防设施操作信息"@,
            DataUnitType::ReadSoftwareVersion => "读建筑消防设施软件版本"@,
            DataUnitType::ReadSystemConfig => "读建筑消防设施系统配置情况"@,
            DataUnitType::ReadComponentConfig => "读建筑消防设施部件配置情况"@,
            DataUnitType::ReadSystemTime => "读建筑消防设施系统时间"@,
            DataUnitType::ReadDeviceStatus => "读用户信息传输装置运行状态"@,
            DataUnitType::ReadDeviceOperation => "读用户信息传输装置操作信息记录"@,
            DataUnitType::ReadDeviceVersion => "读用户信息传输装置软件版本"@,
            DataUnitType::ReadDeviceConfig => "读用户信息传输装置配置情况"@,
            DataUnitType::ReadDeviceTime => "读用户信息传输装置系统时间"@,
            DataUnitType::InitializeDevice => "初始化用户信息传输装置"@,
            DataUnitType::SyncDeviceClock => "同步用户信息传输装置时钟"@,
            DataUnitType::PatrolCommand => "查岗命令"@,
            DataUnitType::Reserved(_) => "预留"@,
            DataUnitType::UserDefined(_) => "用户自定义"@,
        }
    }

    /// Human readable description of the type.
    pub fn description(&self) -> (r: &'static str)
        ensures
            r@ == self.spec_description(),
    {
        match self {
            DataUnitType::UploadSystemStatus => "上传建筑消防设施系统状态",
            DataUnitType::UploadComponentStatus => "上传建筑消防设施部件运行状态",
            DataUnitType::UploadAnalogValue => "上传建筑消防设施部件模拟量值",
            DataUnitType::UploadOperationInfo => "上传建筑消防设施操作信息",
            DataUnitType::UploadSoftwareVersion => "上传建筑消防设施软件版本",
            DataUnitType::UploadSystemConfig => "上传建筑消防设施系统配置情况",
            DataUnitType::UploadComponentConfig => "上传建筑消防设施部件配置情况",
            DataUnitType::UploadSystemTime => "上传建筑消防设施系统时间",
            DataUnitType::UploadDeviceStatus => "上传用户信息传输装置运行状态",
            DataUnitType::UploadDeviceOperation => "上传用户信息传输装置操作信息",
            DataUnitType::UploadDeviceVersion => "上传用户信息传输装置软件版本",
            DataUnitType::UploadDeviceConfig => "上传用户信息传输装置配置情况",
            DataUnitType::UploadDeviceTime => "上传用户信息传输装置系统时间",
            DataUnitType::ReadSystemStatus => "读建筑消防设施系统状态",
            DataUnitType::ReadComponentStatus => "读建筑消防设施部件运行状态",
            DataUnitType::ReadAnalogValue => "读建筑消防设施部件模拟量值",
            DataUnitType::ReadOperationInfo => "读建筑消防设施操作信息",
            DataUnitType::ReadSoftwareVersion => "读建筑消防设施软件版本",
            DataUnitType::ReadSystemConfig => "读建筑消防设施系统配置情况",
            DataUnitType::ReadComponentConfig => "读建筑消防设施部件配置情况",
            DataUnitType::ReadSystemTime => "读建筑消防设施系统时间",
            DataUnitType::ReadDeviceStatus => "读用户信息传输装置运行状态",
            DataUnitType::ReadDeviceOperation => "读用户信息传输装置操作信息记录",
            DataUnitType::ReadDeviceVersion => "读用户信息传输装置软件版本",
            DataUnitType::ReadDeviceConfig => "读用户信息传输装置配置情况",
            DataUnitType::ReadDeviceTime => "读用户信息传输装置系统时间",
            DataUnitType::InitializeDevice => "初始化用户信息传输装置",
            DataUnitType::SyncDeviceClock => "同步用户信息传输装置时钟",
            DataUnitType::PatrolCommand => "查岗命令",
            DataUnitType::Reserved(_) => "预留",
            DataUnitType::UserDefined(_) => "用户自定义",
        }
    }
}

/// Decoding a type flag byte and encoding it again gives the byte back.
pub proof fn law_data_unit_type_byte_roundtrip(v: u8)
    ensures
        DataUnitType::spec_from_u8(v).spec_to_u8() == v,
{
}

/// The command byte table of the protocol: 1 control, 2 send data,
/// 3 acknowledge, 4 request, 5 response and 6 reject, each named command
/// written with that byte; any other byte is kept as it is.
pub proof fn law_command_byte_table(v: u8)
    ensures
        Command::spec_from_u8(1) == Command::Control,
        Command::spec_from_u8(2) == Command::SendData,
        Command::spec_from_u8(3) == Command::Acknowledge,
        Command::spec_from_u8(4) == Command::Request,
        Command::spec_from_u8(5) == Command::Response,
        Command::spec_from_u8(6) == Command::Reject,
        Command::Control.spec_to_u8() == 1,
        Command::SendData.spec_to_u8() == 2,
        Command::Acknowledge.spec_to_u8() == 3,
        Command::Request.spec_to_u8() == 4,
        Command::Response.spec_to_u8() == 5,
        Command::Reject.spec_to_u8() == 6,
        (v == 0 || v > 6) ==> Command::spec_from_u8(v) == Command::Other(v),
{
}

/// Whether `v` is the type flag of one of the standard data units.
pub open spec fn is_standard_type_code(v: u8) -> bool {
    v == 1 || v == 2 || v == 3 || v == 4 || v == 5 || v == 6 || v == 7 || v == 8 || v == 21 || v == 24 || v == 25 || v == 26 || v == 28 || v == 61 || v == 62 || v == 63 || v == 64 || v == 65 || v == 66 || v == 67 || v == 68 || v == 81 || v == 84 || v == 85 || v == 86 || v == 88 || v == 89 || v == 90 || v == 91
}

/// The type flag table of the standard data units: uploads 1-8, 21, 24-26
/// and 28, downstream commands 61-68, 81, 84-86 and 88-91, each named type
/// written with its flag; flags 128-254 are user defined and every other
/// flag is reserved, both kept as they are.
pub proof fn law_data_unit_type_table(v: u8)
    ensures
        DataUnitType::spec_from_u8(1) == DataUnitType::UploadSystemStatus,
        DataUnitType::spec_from_u8(2) == DataUnitType::UploadComponentStatus,
        DataUnitType::spec_from_u8(3) == DataUnitType::UploadAnalogValue,
        DataUnitType::spec_from_u8(4) == DataUnitType::UploadOperationInfo,
        DataUnitType::spec_from_u8(5) == DataUnitType::UploadSoftwareVersion,
        DataUnitType::spec_from_u8(6) == DataUnitType::UploadSystemConfig,
        DataUnitType::spec_from_u8(7) == DataUnitType::UploadComponentConfig,
        DataUnitType::spec_from_u8(8) == DataUnitType::UploadSystemTime,
        DataUnitType::spec_from_u8(21) == DataUnitType::UploadDeviceStatus,
        DataUnitType::spec_from_u8(24) == DataUnitType::UploadDeviceOperation,
        DataUnitType::spec_from_u8(25) == DataUnitType::UploadDeviceVersion,
        DataUnitType::spec_from_u8(26) == DataUnitType::UploadDeviceConfig,
        DataUnitType::spec_from_u8(28) == DataUnitType::UploadDeviceTime,
        DataUnitType::spec_from_u8(61) == DataUnitType::ReadSystemStatus,
        DataUnitType::spec_from_u8(62) == DataUnitType::ReadComponentStatus,
        DataUnitType::spec_from_u8(63) == DataUnitType::ReadAnalogValue,
        DataUnitType::spec_from_u8(64) == DataUnitType::ReadOperationInfo,
        DataUnitType::spec_from_u8(65) == DataUnitType::ReadSoftwareVersion,
        DataUnitType::spec_from_u8(66) == DataUnitType::ReadSystemConfig,
        DataUnitType::spec_from_u8(67) == DataUnitType::ReadComponentConfig,
        DataUnitType::spec_from_u8(68) == DataUnitType::ReadSystemTime,
        DataUnitType::spec_from_u8(81) == DataUnitType::ReadDeviceStatus,
        DataUnitType::spec_from_u8(84) == DataUnitType::ReadDeviceOperation,
        DataUnitType::spec_from_u8(85) == DataUnitType::ReadDeviceVersion,
        DataUnitType::spec_from_u8(86) == DataUnitType::ReadDeviceConfig,
        DataUnitType::spec_from_u8(88) == DataUnitType::ReadDeviceTime,
        DataUnitType::spec_from_u8(89) == DataUnitType::InitializeDevice,
        DataUnitType::spec_from_u8(90) == DataUnitType::SyncDeviceClock,
        DataUnitType::spec_from_u8(91) == DataUnitType::PatrolCommand,
        DataUnitType::UploadSystemStatus.spec_to_u8() == 1,
        DataUnitType::UploadComponentStatus.spec_to_u8() == 2,
        DataUnitType::UploadAnalogValue.spec_to_u8() == 3,
        DataUnitType::UploadOperationInfo.spec_to_u8() == 4,
        DataUnitType::UploadSoftwareVersion.spec_to_u8() == 5,
        DataUnitType::UploadSystemConfig.spec_to_u8() == 6,
        DataUnitType::UploadComponentConfig.spec_to_u8() == 7,
        DataUnitType::UploadSystemTime.spec_to_u8() == 8,
        DataUnitType::UploadDeviceStatus.spec_to_u8() == 21,
        DataUnitType::UploadDeviceOperation.spec_to_u8() == 24,
        DataUnitType::UploadDeviceVersion.spec_to_u8() == 25,
        DataUnitType::UploadDeviceConfig.spec_to_u8() == 26,
        DataUnitType::UploadDeviceTime.spec_to_u8() == 28,
        DataUnitType::ReadSystemStatus.spec_to_u8() == 61,
        DataUnitType::ReadComponentStatus.spec_to_u8() == 62,
        DataUnitType::ReadAnalogValue.spec_to_u8() == 63,
        DataUnitType::ReadOperationInfo.spec_to_u8() == 64,
        DataUnitType::ReadSoftwareVersion.spec_to_u8() == 65,
        DataUnitType::ReadSystemConfig.spec_to_u8() == 66,
        DataUnitType::ReadComponentConfig.spec_to_u8() == 67,
        DataUnitType::ReadSystemTime.spec_to_u8() == 68,
        DataUnitType::ReadDeviceStatus.spec_to_u8() == 81,
        DataUnitType::ReadDeviceOperation.spec_to_u8() == 84,
        DataUnitType::ReadDeviceVersion.spec_to_u8() == 85,
        DataUnitType::ReadDeviceConfig.spec_to_u8() == 86,
        DataUnitType::ReadDeviceTime.spec_to_u8() == 88,
        DataUnitType::InitializeDevice.spec_to_u8() == 89,
        DataUnitType::SyncDeviceClock.spec_to_u8() == 90,
        DataUnitType::PatrolCommand.spec_to_u8() == 91,
        !is_standard_type_code(v) && 128 <= v <= 254 ==> DataUnitType::spec_from_u8(v)
            == DataUnitType::UserDefined(v),
        !is_standard_type_code(v) && !(128 <= v <= 254) ==> DataUnitType::spec_from_u8(v)
            == DataUnitType::Reserved(v),
{
}

} // verus!
