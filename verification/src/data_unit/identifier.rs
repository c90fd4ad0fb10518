//! The data unit type flag, with its range classification: standard
//! upstream (1-28), standard downstream (61-91), user defined (128-254);
//! 0 and 255 are reserved.
use crate::error::{ParseError, ParseResult};
use crate::protocol::DataUnitType;
use crate::text::{decimal_string, decimal_text};
use crate::text::push_decimal;
use vstd::prelude::*;
use vstd::string::StringExecFns;

verus! {

/// A data unit type flag and whether it is user defined.
#[derive(Debug, Clone, Copy, PartialEq, Eq, Hash, Structural)]
pub struct DataUnitIdentifier {
    /// the type
    pub data_unit_type: DataUnitType,
    /// whether the code lies in 128-254
    pub is_custom: bool,
}

/// Whether a type code is user defined.
pub open spec fn is_custom_code(v: u8) -> bool {
    128 <= v && v <= 254
}

/// The identifier of a type.
pub open spec fn identifier_of(t: DataUnitType) -> DataUnitIdentifier {
    DataUnitIdentifier { data_unit_type: t, is_custom: is_custom_code(t.spec_to_u8()) }
}

/// The outcome of reading a type code: codes 0 and 255 are refused.
pub open spec fn identifier_from_u8_ok(v: u8, r: ParseResult<DataUnitIdentifier>) -> bool {
    &&& r is Ok <==> (v != 0 && v != 255)
    &&& r matches Ok(id) ==> id == identifier_of(DataUnitType::spec_from_u8(v))
    &&& r matches Err(e) ==> e matches ParseError::InvalidValue { field, value, .. } && field@
        == "data_unit_type"@ && value@ == decimal_text(v as nat)
}

impl DataUnitIdentifier {
    pub open spec fn spec_code(self) -> u8 {
        self.data_unit_type.spec_to_u8()
    }

    /// An identifier whose flag agrees with its type code.
    pub open spec fn well_formed(self) -> bool {
        &&& self.data_unit_type.well_formed()
        &&& self.is_custom == is_custom_code(self.spec_code())
    }

    /// The identifier of a type.
    pub fn new(data_unit_type: DataUnitType) -> (r: Self)
        ensures
            r == identifier_of(data_unit_type),
    {
        let v = data_unit_type.to_u8();
        let is_custom = v >= 128 && v <= 254;
        Self { data_unit_type, is_custom }
    }

    /// The identifier of a type code; refuses the reserved codes 0 and 255.
    pub fn from_u8(value: u8) -> (r: ParseResult<Self>)
        ensures
            identifier_from_u8_ok(value, r),
    {
        if value == 0 || value == 255 {
            return Err(
                ParseError::InvalidValue {
                    field: "data_unit_type".to_owned(),
                    value: decimal_string(value as u64),
                    reason: "Data unit type 0 and 255 are reserved".to_owned(),
                },
            );
        }
        Ok(Self::new(DataUnitType::from_u8(value)))
    }

    /// The type code.
    pub fn to_u8(&self) -> (r: u8)
        ensures
            r == self.spec_code(),
    {
        self.data_unit_type.to_u8()
    }

    /// Whether the identifier is not user defined.
    pub fn is_standard(&self) -> (r: bool)
        ensures
            r == !self.is_custom,
    {
        !self.is_custom
    }

    /// Whether the code is an upstream code (1-28).
    pub fn is_upstream(&self) -> (r: bool)
        ensures
            r == (1 <= self.spec_code() && self.spec_code() <= 28),
    {
        let v = self.to_u8();
        v >= 1 && v <= 28
    }

    /// Whether the code is a downstream code (61-91).
    pub fn is_downstream(&self) -> (r: bool)
        ensures
            r == (61 <= self.spec_code() && self.spec_code() <= 91),
    {
        let v = self.to_u8();
        v >= 61 && v <= 91
    }

    /// The category name: user defined, upstream, downstream or other.
    pub open spec fn spec_category(self) -> Seq<char> {
        if self.is_custom {
            "用户自定义"@
        } else if 1 <= self.spec_code() && self.spec_code() <= 28 {
            "上行数据单元"@
        } else if 61 <= self.spec_code() && self.spec_code() <= 91 {
            "下行数据单元"@
        } else {
            "其他标准类型"@
        }
    }

    /// The category name: user defined, upstream, downstream or other.
    pub fn category(&self) -> (r: &'static str)
        ensures
            r@ == self.spec_category(),
    {
        if self.is_custom {
            "用户自定义"
        } else if self.is_upstream() {
            "上行数据单元"
        } else if self.is_downstream() {
            "下行数据单元"
        } else {
            "其他标准类型"
        }
    }

    /// The type's description.
    pub fn description(&self) -> (r: String)
        ensures
            r@ == self.data_unit_type.spec_description(),
    {
        self.data_unit_type.description().to_owned()
    }

    /// Display text: `DataUnit(type=<code>, category=<category>,
    /// description=<description>)`.
    pub fn to_string(&self) -> (r: String)
        ensures
            r@ == "DataUnit(type="@ + decimal_text(self.spec_code() as nat) + ", category="@
                + self.spec_category() + ", description="@ + self.data_unit_type.spec_description()
                + ")"@,
    {
        let mut s = "DataUnit(type=".to_owned();
        push_decimal(&mut s, self.to_u8() as u64);
        s.append(", category=");
        s.append(self.category());
        s.append(", description=");
        s.append(self.data_unit_type.description());
        s.append(")");
        s
    }
}

/// Reads and writes the one-byte type flag.
pub struct DataUnitIdentifierParser;

impl DataUnitIdentifierParser {
    /// Reads the type flag at the front of `data`; says it took one byte.
    pub fn parse(data: &[u8]) -> (r: ParseResult<(DataUnitIdentifier, usize)>)
        ensures
            data@.len() == 0 ==> (r matches Err(ParseError::InsufficientData { expected, actual })
                && expected == 1 && actual == 0),
            data@.len() > 0 ==> identifier_from_u8_ok(
                data@[0],
                match r {
                    Ok((id, _)) => Ok(id),
                    Err(e) => Err(e),
                },
            ),
            r matches Ok((_, used)) ==> used == 1,
    {
        if data.len() == 0 {
            return Err(ParseError::InsufficientData { expected: 1, actual: 0 });
        }
        match DataUnitIdentifier::from_u8(data[0]) {
            Ok(id) => Ok((id, 1)),
            Err(e) => Err(e),
        }
    }

    /// The type flag byte.
    pub fn encode(identifier: &DataUnitIdentifier) -> (r: Vec<u8>)
        ensures
            r@ == seq![identifier.spec_code()],
    {
        let mut v: Vec<u8> = Vec::new();
        v.push(identifier.to_u8());
        v
    }
}

/// Reading back the written flag of a well-formed identifier with a code
/// other than 0 and 255 gives the identifier.
pub proof fn law_identifier_roundtrip(id: DataUnitIdentifier)
    requires
        id.well_formed(),
        id.spec_code() != 0,
        id.spec_code() != 255,
    ensures
        identifier_from_u8_ok(id.spec_code(), Ok(id)),
{
}

} // verus!
