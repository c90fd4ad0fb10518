//! User defined data units (type flags 128-254) kept as raw bytes, and the
//! errors of the registry of user defined data unit types.
use crate::data_unit::DataUnit;
use crate::error::{EncodeResult, ParseError, ParseResult};
use crate::extension::registry::TypeRegistryError;
use crate::protocol::DataUnitType;
use crate::text::{decimal_string, decimal_text};
use vstd::prelude::*;

verus! {

/// Why the registry of user defined data unit types refused a request.
#[derive(Debug, Clone, PartialEq, Eq)]
pub enum RegistryError {
    /// the type flag is outside the user defined range
    InvalidTypeRange {
        /// the type flag
        type_value: u8,
        /// the range accepted
        expected_range: String,
    },
    /// the type flag is taken
    TypeAlreadyRegistered {
        /// the type flag
        type_value: u8,
        /// name of the registered type
        existing_name: String,
        /// name of the refused type
        new_name: String,
    },
    /// the type flag is not registered
    TypeNotFound {
        /// the type flag
        type_value: u8,
    },
    /// the registry could not be locked
    LockError,
}

/// The registry error for a refusal of the type registry; `new_name` is the
/// name of the type that was to be registered.
pub fn registry_error_of(e: TypeRegistryError, new_name: String) -> (r: RegistryError)
    ensures
        match e {
            TypeRegistryError::OutOfRange { type_id } => r matches RegistryError::InvalidTypeRange {
                type_value,
                expected_range,
            } && type_value == type_id && expected_range@ == "128-254"@,
            TypeRegistryError::AlreadyRegistered { type_id, existing_name } => r
                == RegistryError::TypeAlreadyRegistered {
                type_value: type_id,
                existing_name,
                new_name,
            },
            TypeRegistryError::NotFound { type_id } => r == RegistryError::TypeNotFound {
                type_value: type_id,
            },
        },
{
    match e {
        TypeRegistryError::OutOfRange { type_id } => RegistryError::InvalidTypeRange {
            type_value: type_id,
            expected_range: "128-254".to_owned(),
        },
        TypeRegistryError::AlreadyRegistered { type_id, existing_name } => {
            RegistryError::TypeAlreadyRegistered { type_value: type_id, existing_name, new_name }
        },
        TypeRegistryError::NotFound { type_id } => RegistryError::TypeNotFound { type_value: type_id },
    }
}

/// The bytes of a user defined data unit that no registered type decodes.
#[derive(Debug, Clone, PartialEq, Eq)]
pub struct RawCustomDataUnit {
    /// the type flag
    pub data_type: DataUnitType,
    /// the bytes
    pub data: Vec<u8>,
    /// an optional name
    pub name: Option<String>,
}

impl RawCustomDataUnit {
    /// Raw bytes of a type, without a name.
    pub fn new(data_type: DataUnitType, data: Vec<u8>) -> (r: Self)
        ensures
            r.data_type == data_type,
            r.data@ == data@,
            r.name is None,
    {
        RawCustomDataUnit { data_type, data, name: None }
    }

    /// The same with a name.
    pub fn with_name(self, name: String) -> (r: Self)
        ensures
            r.data_type == self.data_type,
            r.data@ == self.data@,
            r.name == Some(name),
    {
        RawCustomDataUnit { data_type: self.data_type, data: self.data, name: Some(name) }
    }

    /// Number of bytes.
    pub fn len(&self) -> (r: usize)
        ensures
            r == self.data@.len(),
    {
        self.data.len()
    }

    /// Whether there are no bytes.
    pub fn is_empty(&self) -> (r: bool)
        ensures
            r == (self.data@.len() == 0),
    {
        self.data.len() == 0
    }

    /// The name, `RawCustomDataUnit` when none was given.
    pub fn name(&self) -> (r: &str)
        ensures
            match self.name {
                Some(n) => r@ == n@,
                None => r@ == "RawCustomDataUnit"@,
            },
    {
        match &self.name {
            Some(n) => n.as_str(),
            None => "RawCustomDataUnit",
        }
    }

    /// The fixed description of raw user defined data.
    pub fn description(&self) -> (r: Option<&'static str>)
        ensures
            r matches Some(t) && t@ == "未注册的自定义数据单元原始数据"@,
    {
        Some("未注册的自定义数据单元原始数据")
    }
}

impl DataUnit for RawCustomDataUnit {
    open spec fn spec_encoding(&self) -> Seq<u8> {
        self.data@
    }

    open spec fn spec_encodable(&self) -> bool {
        true
    }

    fn data_unit_type(&self) -> (r: DataUnitType)
        ensures
            r == self.data_type,
    {
        self.data_type
    }

    fn encode(&self) -> (r: EncodeResult<Vec<u8>>) {
        Ok(self.data.clone())
    }

    /// Always refused: raw bytes need their type to be known.
    fn parse(data: &[u8]) -> (r: ParseResult<Self>)
        ensures
            r matches Err(ParseError::Custom(m)) && m@
                == "RawCustomDataUnit::parse requires data type information"@,
    {
        Err(ParseError::Custom("RawCustomDataUnit::parse requires data type information".to_owned()))
    }

    /// The type flag must be user defined (128-254).
    fn validate(&self) -> (r: ParseResult<()>)
        ensures
            r is Ok <==> 128 <= self.data_type.spec_to_u8() <= 254,
            r matches Err(e) ==> e matches ParseError::InvalidValue { field, value, .. } && field@
                == "data_type"@ && value@ == decimal_text(self.data_type.spec_to_u8() as nat),
    {
        let type_value = self.data_type.to_u8();
        if !(128 <= type_value && type_value <= 254) {
            return Err(
                ParseError::InvalidValue {
                    field: "data_type".to_owned(),
                    value: decimal_string(type_value as u64),
                    reason: "Custom data unit type must be in range 128-254".to_owned(),
                },
            );
        }
        Ok(())
    }
}

} // verus!
