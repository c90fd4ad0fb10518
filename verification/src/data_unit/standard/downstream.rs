//! Downstream data units (types 61-91): read requests naming systems or
//! components, time and record queries, and device commands.
use crate::data_unit::DataUnit;
use crate::data_unit::standard::upstream::{object_count_error, object_count_error_of};
use crate::error::{EncodeError, EncodeResult, ParseError, ParseResult};
use crate::frame::timestamp::{
    bytes_are_valid_timestamp, timestamp_debug_text, timestamp_error_of, timestamp_of_bytes,
    timestamp_parse_ok, Timestamp,
};
use crate::protocol::{DataUnitType, SystemType};
use crate::text::{decimal_string, decimal_text};
use crate::wire::{append_bytes, le32, le32_bytes, lemma_le32_roundtrip, u32_from_le, u32_to_le};
use vstd::prelude::*;

verus! {

/// The two bytes naming a system: type code and address.
pub open spec fn system_entry_bytes(e: (SystemType, u8)) -> Seq<u8> {
    seq![e.0.spec_to_u8(), e.1]
}

/// The bytes naming each system in turn.
pub open spec fn systems_bytes(s: Seq<(SystemType, u8)>) -> Seq<u8>
    decreases s.len(),
{
    if s.len() == 0 {
        Seq::empty()
    } else {
        systems_bytes(s.drop_last()) + system_entry_bytes(s.last())
    }
}

/// The `i`-th system named after the count byte of `b`.
pub open spec fn system_entry_at(b: Seq<u8>, i: int) -> (SystemType, u8) {
    (SystemType::spec_from_u8(b[1 + 2 * i]), b[2 + 2 * i])
}

/// The six bytes naming a component: system type code, system address and
/// the four-byte component address.
pub open spec fn component_entry_bytes(e: (SystemType, u8, u32)) -> Seq<u8> {
    seq![e.0.spec_to_u8(), e.1] + le32_bytes(e.2)
}

/// The bytes naming each component in turn.
pub open spec fn components_bytes(s: Seq<(SystemType, u8, u32)>) -> Seq<u8>
    decreases s.len(),
{
    if s.len() == 0 {
        Seq::empty()
    } else {
        components_bytes(s.drop_last()) + component_entry_bytes(s.last())
    }
}

/// The `i`-th component named after the count byte of `b`.
pub open spec fn component_entry_at(b: Seq<u8>, i: int) -> (SystemType, u8, u32) {
    (
        SystemType::spec_from_u8(b[1 + 6 * i]),
        b[2 + 6 * i],
        le32(b[3 + 6 * i], b[4 + 6 * i], b[5 + 6 * i], b[6 + 6 * i]),
    )
}

/// Length and content of the system bytes.
pub proof fn lemma_systems_bytes(s: Seq<(SystemType, u8)>)
    ensures
        systems_bytes(s).len() == 2 * s.len(),
        forall|i: int|
            0 <= i < s.len() ==> #[trigger] systems_bytes(s)[2 * i] == s[i].0.spec_to_u8()
                && systems_bytes(s)[2 * i + 1] == s[i].1,
    decreases s.len(),
{
    if s.len() > 0 {
        lemma_systems_bytes(s.drop_last());
        assert forall|i: int| 0 <= i < s.len() implies #[trigger] systems_bytes(s)[2 * i]
            == s[i].0.spec_to_u8() && systems_bytes(s)[2 * i + 1] == s[i].1 by {
            if i < s.len() - 1 {
                assert(s.drop_last()[i] == s[i]);
            }
        }
    }
}

/// Length and content of the component bytes.
pub proof fn lemma_components_bytes(s: Seq<(SystemType, u8, u32)>)
    ensures
        components_bytes(s).len() == 6 * s.len(),
        forall|i: int|
            0 <= i < s.len() ==> #[trigger] components_bytes(s).subrange(6 * i, 6 * i + 6)
                == component_entry_bytes(s[i]),
    decreases s.len(),
{
    if s.len() > 0 {
        lemma_components_bytes(s.drop_last());
        let p = components_bytes(s.drop_last());
        assert forall|i: int| 0 <= i < s.len() implies #[trigger] components_bytes(s).subrange(
            6 * i,
            6 * i + 6,
        ) == component_entry_bytes(s[i]) by {
            if i < s.len() - 1 {
                assert(s.drop_last()[i] == s[i]);
                assert(components_bytes(s).subrange(6 * i, 6 * i + 6) =~= p.subrange(6 * i, 6 * i + 6));
            } else {
                assert(components_bytes(s).subrange(6 * i, 6 * i + 6) =~= component_entry_bytes(s.last()));
            }
        }
    }
}

/// The `i`-th system read back from a count byte followed by the system
/// bytes is the `i`-th system written.
proof fn lemma_system_entry_read(b: Seq<u8>, s: Seq<(SystemType, u8)>, i: int)
    requires
        b.len() >= 1,
        b.subrange(1, b.len() as int) == systems_bytes(s),
        0 <= i < s.len(),
        s[i].0.well_formed(),
    ensures
        system_entry_at(b, i) == s[i],
{
    lemma_systems_bytes(s);
    assert(systems_bytes(s)[2 * i] == s[i].0.spec_to_u8());
    assert(b[1 + 2 * i] == b.subrange(1, b.len() as int)[2 * i]);
    assert(b[2 + 2 * i] == b.subrange(1, b.len() as int)[2 * i + 1]);
}

/// The `i`-th component read back from a count byte followed by the
/// component bytes is the `i`-th component written.
proof fn lemma_component_entry_read(b: Seq<u8>, s: Seq<(SystemType, u8, u32)>, i: int)
    requires
        b.len() >= 1,
        b.subrange(1, b.len() as int) == components_bytes(s),
        0 <= i < s.len(),
        s[i].0.well_formed(),
    ensures
        component_entry_at(b, i) == s[i],
{
    lemma_components_bytes(s);
    let eb = components_bytes(s).subrange(6 * i, 6 * i + 6);
    assert(eb == component_entry_bytes(s[i]));
    let t = b.subrange(1, b.len() as int);
    assert(b[1 + 6 * i] == t[6 * i] && t[6 * i] == eb[0]);
    assert(b[2 + 6 * i] == t[6 * i + 1] && t[6 * i + 1] == eb[1]);
    assert(b[3 + 6 * i] == t[6 * i + 2] && t[6 * i + 2] == eb[2]);
    assert(b[4 + 6 * i] == t[6 * i + 3] && t[6 * i + 3] == eb[3]);
    assert(b[5 + 6 * i] == t[6 * i + 4] && t[6 * i + 4] == eb[4]);
    assert(b[6 + 6 * i] == t[6 * i + 5] && t[6 * i + 5] == eb[5]);
    lemma_le32_roundtrip(s[i].2);
}

/// The error for a list that names nothing: `InvalidValue` naming `field`,
/// with value `empty`.
pub open spec fn empty_list_error_of(field: Seq<char>, e: ParseError) -> bool {
    e matches ParseError::InvalidValue { field: f, value, .. } && f@ == field && value@ == "empty"@
}

/// The error for a list longer than allowed: `InvalidValue` naming `field`,
/// with the length in decimal.
pub open spec fn long_list_error_of(field: Seq<char>, len: nat, e: ParseError) -> bool {
    e matches ParseError::InvalidValue { field: f, value, .. } && f@ == field && value@
        == decimal_text(len)
}

/// The encode-side error for a list that names nothing.
pub open spec fn empty_list_encode_error_of(field: Seq<char>, e: EncodeError) -> bool {
    e matches EncodeError::InvalidValue { field: f, value, .. } && f@ == field && value@ == "empty"@
}

/// The encode-side error for a list longer than allowed.
pub open spec fn long_list_encode_error_of(field: Seq<char>, len: nat, e: EncodeError) -> bool {
    e matches EncodeError::InvalidValue { field: f, value, .. } && f@ == field && value@
        == decimal_text(len)
}

/// The error for a reserved byte other than 0: `InvalidValue` naming
/// `reserved`, with the byte in decimal.
pub open spec fn reserved_error_of(v: u8, e: ParseError) -> bool {
    e matches ParseError::InvalidValue { field, value, .. } && field@ == "reserved"@ && value@
        == decimal_text(v as nat)
}

fn reserved_error(v: u8) -> (e: ParseError)
    ensures
        reserved_error_of(v, e),
{
    ParseError::InvalidValue {
        field: "reserved".to_owned(),
        value: decimal_string(v as u64),
        reason: "Reserved field must be 0".to_owned(),
    }
}

/// The outcome of reading a one-object command with a zero reserved byte.
pub open spec fn command_bytes_parse_ok(b: Seq<u8>, r_is_ok: bool, r_err: Option<ParseError>) -> bool {
    &&& r_is_ok <==> (b.len() >= 2 && b[0] == 1 && b[1] == 0)
    &&& b.len() < 2 ==> (r_err matches Some(ParseError::InsufficientData { expected, actual })
        && expected == 2 && actual == b.len())
    &&& b.len() >= 2 && b[0] != 1 ==> (r_err matches Some(e) && object_count_error_of(b[0], e))
    &&& b.len() >= 2 && b[0] == 1 && b[1] != 0 ==> (r_err matches Some(e) && reserved_error_of(
        b[1],
        e,
    ))
}

/// Checks the count and reserved bytes of a one-object command.
fn parse_command_bytes(data: &[u8], reason: &str) -> (r: ParseResult<()>)
    ensures
        command_bytes_parse_ok(
            data@,
            r is Ok,
            match r {
                Ok(_) => None,
                Err(e) => Some(e),
            },
        ),
{
    if data.len() < 2 {
        return Err(ParseError::InsufficientData { expected: 2, actual: data.len() });
    }
    if data[0] != 1 {
        return Err(object_count_error(data[0], reason));
    }
    if data[1] != 0 {
        return Err(reserved_error(data[1]));
    }
    Ok(())
}

/// The two bytes of a one-object command: count 1, reserved 0.
fn command_bytes() -> (r: Vec<u8>)
    ensures
        r@ == seq![1u8, 0u8],
{
    let mut buf: Vec<u8> = Vec::new();
    buf.push(1);
    buf.push(0);
    proof {
        assert(buf@ =~= seq![1u8, 0u8]);
    }
    buf
}

/// Request to read the systems it names (at most 102).
#[derive(Debug, Clone, PartialEq, Eq)]
pub struct ReadSystemStatus {
    /// the systems to read
    pub systems: Vec<(SystemType, u8)>,
}

/// The outcome of reading a `ReadSystemStatus` from `b`: the count byte and that many
/// 2-byte entries.
pub open spec fn read_system_status_parse_ok(b: Seq<u8>, r: ParseResult<ReadSystemStatus>) -> bool {
    let n = b[0] as int;
    &&& r is Ok <==> (b.len() >= 1 && b.len() >= 1 + 2 * n)
    &&& r matches Ok(u) ==> u.systems@.len() == n && forall|i: int|
        0 <= i < n ==> #[trigger] u.systems@[i] == system_entry_at(b, i)
    &&& b.len() == 0 ==> (r matches Err(ParseError::InsufficientData { expected, actual })
        && expected == 1 && actual == 0)
    &&& b.len() >= 1 && b.len() < 1 + 2 * n ==> (r matches Err(
        ParseError::InsufficientData { expected, actual },
    ) && expected == 1 + 2 * n && actual == b.len())
}

impl ReadSystemStatus {
    /// Creates the request; refuses an empty list and more than 102
    /// systems.
    pub fn new(systems: Vec<(SystemType, u8)>) -> (r: EncodeResult<Self>)
        ensures
            r is Ok <==> (1 <= systems@.len() <= 102),
            r matches Ok(u) ==> u.systems == systems,
            systems@.len() == 0 ==> (r matches Err(e) && empty_list_encode_error_of("systems"@, e)),
            systems@.len() > 102 ==> (r matches Err(e) && long_list_encode_error_of(
                "systems"@,
                systems@.len(),
                e,
            )),
    {
        if systems.len() == 0 {
            return Err(
                EncodeError::InvalidValue {
                    field: "systems".to_owned(),
                    value: "empty".to_owned(),
                    reason: "At least one system must be specified".to_owned(),
                },
            );
        }
        if systems.len() > 102 {
            return Err(
                EncodeError::InvalidValue {
                    field: "systems".to_owned(),
                    value: decimal_string(systems.len() as u64),
                    reason: "Maximum 102 systems allowed per protocol".to_owned(),
                },
            );
        }
        Ok(Self { systems })
    }

    /// The named systems.
    pub fn systems(&self) -> (r: &[(SystemType, u8)])
        ensures
            r@ == self.systems@,
    {
        self.systems.as_slice()
    }
}

impl DataUnit for ReadSystemStatus {
    open spec fn spec_encoding(&self) -> Seq<u8> {
        seq![(self.systems@.len() % 256) as u8] + systems_bytes(self.systems@)
    }

    open spec fn spec_encodable(&self) -> bool {
        true
    }

    fn data_unit_type(&self) -> (r: DataUnitType)
        ensures
            r == DataUnitType::ReadSystemStatus,
    {
        DataUnitType::ReadSystemStatus
    }

    fn encode(&self) -> (r: EncodeResult<Vec<u8>>) {
        let mut buf: Vec<u8> = Vec::new();
        buf.push((self.systems.len() % 256) as u8);
        let mut i: usize = 0;
        while i < self.systems.len()
            invariant
                i <= self.systems@.len(),
                buf@ == seq![(self.systems@.len() % 256) as u8] + systems_bytes(self.systems@.take(i as int)),
            decreases self.systems@.len() - i,
        {
            let e = self.systems[i];
            buf.push(e.0.to_u8());
            buf.push(e.1);
            proof {
                assert(self.systems@.take(i + 1).drop_last() =~= self.systems@.take(i as int));
            }
            i = i + 1;
            proof {
                assert(buf@ =~= seq![(self.systems@.len() % 256) as u8] + systems_bytes(
                    self.systems@.take(i as int),
                ));
            }
        }
        proof {
            assert(self.systems@.take(i as int) =~= self.systems@);
        }
        Ok(buf)
    }

    fn parse(data: &[u8]) -> (r: ParseResult<Self>)
        ensures
            read_system_status_parse_ok(data@, r),
    {
        if data.len() == 0 {
            return Err(ParseError::InsufficientData { expected: 1, actual: 0 });
        }
        let n = data[0] as usize;
        let expected_len = 1 + n * 2;
        if data.len() < expected_len {
            return Err(ParseError::InsufficientData { expected: expected_len, actual: data.len() });
        }
        let mut systems: Vec<(SystemType, u8)> = Vec::with_capacity(n);
        let mut i: usize = 0;
        while i < n
            invariant
                i <= n,
                n == data@[0],
                data@.len() >= 1 + 2 * n,
                systems@.len() == i,
                forall|k: int| 0 <= k < i ==> #[trigger] systems@[k] == system_entry_at(data@, k),
            decreases n - i,
        {
            let st = SystemType::from_u8(data[1 + 2 * i]);
            let addr = data[2 + 2 * i];
            systems.push((st, addr));
            i = i + 1;
        }
        Ok(Self { systems })
    }

    /// `Ok` when 1 to 102 systems are named.
    fn validate(&self) -> (r: ParseResult<()>)
        ensures
            r is Ok <==> (1 <= self.systems@.len() <= 102),
            self.systems@.len() == 0 ==> (r matches Err(e) && empty_list_error_of("systems"@, e)),
            self.systems@.len() > 102 ==> (r matches Err(e) && long_list_error_of(
                "systems"@,
                self.systems@.len(),
                e,
            )),
    {
        if self.systems.len() == 0 {
            return Err(
                ParseError::InvalidValue {
                    field: "systems".to_owned(),
                    value: "empty".to_owned(),
                    reason: "At least one system must be specified".to_owned(),
                },
            );
        }
        if self.systems.len() > 102 {
            return Err(
                ParseError::InvalidValue {
                    field: "systems".to_owned(),
                    value: decimal_string(self.systems.len() as u64),
                    reason: "Maximum 102 systems allowed per protocol".to_owned(),
                },
            );
        }
        Ok(())
    }
}

/// Reading back the bytes of a request naming at most 255 systems of
/// well-formed system types gives the request.
pub proof fn law_read_system_status_roundtrip(u: ReadSystemStatus)
    requires
        u.systems@.len() <= 255,
        forall|i: int| 0 <= i < u.systems@.len() ==> #[trigger] u.systems@[i].0.well_formed(),
    ensures
        read_system_status_parse_ok(u.spec_encoding(), Ok(u)),
{
    let b = u.spec_encoding();
    let n = u.systems@.len() as int;
    lemma_systems_bytes(u.systems@);
    assert(b[0] == n);
    assert(b.subrange(1, b.len() as int) =~= systems_bytes(u.systems@));
    assert forall|i: int| 0 <= i < n implies u.systems@[i] == system_entry_at(b, i) by {
        lemma_system_entry_read(b, u.systems@, i);
    }
}

/// Request to read the components it names (at most 22).
#[derive(Debug, Clone, PartialEq, Eq)]
pub struct ReadComponentStatus {
    /// the components to read
    pub components: Vec<(SystemType, u8, u32)>,
}

/// The outcome of reading a `ReadComponentStatus` from `b`: the count byte and that many
/// 6-byte entries.
pub open spec fn read_component_status_parse_ok(b: Seq<u8>, r: ParseResult<ReadComponentStatus>) -> bool {
    let n = b[0] as int;
    &&& r is Ok <==> (b.len() >= 1 && b.len() >= 1 + 6 * n)
    &&& r matches Ok(u) ==> u.components@.len() == n && forall|i: int|
        0 <= i < n ==> #[trigger] u.components@[i] == component_entry_at(b, i)
    &&& b.len() == 0 ==> (r matches Err(ParseError::InsufficientData { expected, actual })
        && expected == 1 && actual == 0)
    &&& b.len() >= 1 && b.len() < 1 + 6 * n ==> (r matches Err(
        ParseError::InsufficientData { expected, actual },
    ) && expected == 1 + 6 * n && actual == b.len())
}

impl ReadComponentStatus {
    /// Creates the request; refuses an empty list and more than 22
    /// components.
    pub fn new(components: Vec<(SystemType, u8, u32)>) -> (r: EncodeResult<Self>)
        ensures
            r is Ok <==> (1 <= components@.len() <= 22),
            r matches Ok(u) ==> u.components == components,
            components@.len() == 0 ==> (r matches Err(e) && empty_list_encode_error_of("components"@, e)),
            components@.len() > 22 ==> (r matches Err(e) && long_list_encode_error_of(
                "components"@,
                components@.len(),
                e,
            )),
    {
        if components.len() == 0 {
            return Err(
                EncodeError::InvalidValue {
                    field: "components".to_owned(),
                    value: "empty".to_owned(),
                    reason: "At least one component must be specified".to_owned(),
                },
            );
        }
        if components.len() > 22 {
            return Err(
                EncodeError::InvalidValue {
                    field: "components".to_owned(),
                    value: decimal_string(components.len() as u64),
                    reason: "Maximum 22 components allowed per protocol".to_owned(),
                },
            );
        }
        Ok(Self { components })
    }

    /// The named components.
    pub fn components(&self) -> (r: &[(SystemType, u8, u32)])
        ensures
            r@ == self.components@,
    {
        self.components.as_slice()
    }
}

impl DataUnit for ReadComponentStatus {
    open spec fn spec_encoding(&self) -> Seq<u8> {
        seq![(self.components@.len() % 256) as u8] + components_bytes(self.components@)
    }

    open spec fn spec_encodable(&self) -> bool {
        true
    }

    fn data_unit_type(&self) -> (r: DataUnitType)
        ensures
            r == DataUnitType::ReadComponentStatus,
    {
        DataUnitType::ReadComponentStatus
    }

    fn encode(&self) -> (r: EncodeResult<Vec<u8>>) {
        let mut buf: Vec<u8> = Vec::new();
        buf.push((self.components.len() % 256) as u8);
        let mut i: usize = 0;
        while i < self.components.len()
            invariant
                i <= self.components@.len(),
                buf@ == seq![(self.components@.len() % 256) as u8] + components_bytes(self.components@.take(i as int)),
            decreases self.components@.len() - i,
        {
            let e = self.components[i];
            buf.push(e.0.to_u8());
            buf.push(e.1);
            let a = u32_to_le(e.2);
            append_bytes(&mut buf, &a);
            proof {
                assert(self.components@.take(i + 1).drop_last() =~= self.components@.take(i as int));
            }
            i = i + 1;
            proof {
                assert(buf@ =~= seq![(self.components@.len() % 256) as u8] + components_bytes(
                    self.components@.take(i as int),
                ));
            }
        }
        proof {
            assert(self.components@.take(i as int) =~= self.components@);
        }
        Ok(buf)
    }

    fn parse(data: &[u8]) -> (r: ParseResult<Self>)
        ensures
            read_component_status_parse_ok(data@, r),
    {
        if data.len() == 0 {
            return Err(ParseError::InsufficientData { expected: 1, actual: 0 });
        }
        let n = data[0] as usize;
        let expected_len = 1 + n * 6;
        if data.len() < expected_len {
            return Err(ParseError::InsufficientData { expected: expected_len, actual: data.len() });
        }
        let mut components: Vec<(SystemType, u8, u32)> = Vec::with_capacity(n);
        let mut i: usize = 0;
        while i < n
            invariant
                i <= n,
                n == data@[0],
                data@.len() >= 1 + 6 * n,
                components@.len() == i,
                forall|k: int| 0 <= k < i ==> #[trigger] components@[k] == component_entry_at(data@, k),
            decreases n - i,
        {
            let st = SystemType::from_u8(data[1 + 6 * i]);
            let addr = data[2 + 6 * i];
            let caddr = u32_from_le(data[3 + 6 * i], data[4 + 6 * i], data[5 + 6 * i], data[6 + 6 * i]);
            components.push((st, addr, caddr));
            i = i + 1;
        }
        Ok(Self { components })
    }

    /// `Ok` when 1 to 22 components are named.
    fn validate(&self) -> (r: ParseResult<()>)
        ensures
            r is Ok <==> (1 <= self.components@.len() <= 22),
            self.components@.len() == 0 ==> (r matches Err(e) && empty_list_error_of("components"@, e)),
            self.components@.len() > 22 ==> (r matches Err(e) && long_list_error_of(
                "components"@,
                self.components@.len(),
                e,
            )),
    {
        if self.components.len() == 0 {
            return Err(
                ParseError::InvalidValue {
                    field: "components".to_owned(),
                    value: "empty".to_owned(),
                    reason: "At least one component must be specified".to_owned(),
                },
            );
        }
        if self.components.len() > 22 {
            return Err(
                ParseError::InvalidValue {
                    field: "components".to_owned(),
                    value: decimal_string(self.components.len() as u64),
                    reason: "Maximum 22 components allowed per protocol".to_owned(),
                },
            );
        }
        Ok(())
    }
}

/// Reading back the bytes of a request naming at most 255 components of
/// well-formed system types gives the request.
pub proof fn law_read_component_status_roundtrip(u: ReadComponentStatus)
    requires
        u.components@.len() <= 255,
        forall|i: int| 0 <= i < u.components@.len() ==> #[trigger] u.components@[i].0.well_formed(),
    ensures
        read_component_status_parse_ok(u.spec_encoding(), Ok(u)),
{
    let b = u.spec_encoding();
    let n = u.components@.len() as int;
    lemma_components_bytes(u.components@);
    assert(b[0] == n);
    assert(b.subrange(1, b.len() as int) =~= components_bytes(u.components@));
    assert forall|i: int| 0 <= i < n implies u.components@[i] == component_entry_at(b, i) by {
        lemma_component_entry_read(b, u.components@, i);
    }
}

/// Request to read the components it names (at most 63).
#[derive(Debug, Clone, PartialEq, Eq)]
pub struct ReadAnalogValue {
    /// the components to read
    pub components: Vec<(SystemType, u8, u32)>,
}

/// The outcome of reading a `ReadAnalogValue` from `b`: the count byte and that many
/// 6-byte entries.
pub open spec fn read_analog_value_parse_ok(b: Seq<u8>, r: ParseResult<ReadAnalogValue>) -> bool {
    let n = b[0] as int;
    &&& r is Ok <==> (b.len() >= 1 && b.len() >= 1 + 6 * n)
    &&& r matches Ok(u) ==> u.components@.len() == n && forall|i: int|
        0 <= i < n ==> #[trigger] u.components@[i] == component_entry_at(b, i)
    &&& b.len() == 0 ==> (r matches Err(ParseError::InsufficientData { expected, actual })
        && expected == 1 && actual == 0)
    &&& b.len() >= 1 && b.len() < 1 + 6 * n ==> (r matches Err(
        ParseError::InsufficientData { expected, actual },
    ) && expected == 1 + 6 * n && actual == b.len())
}

impl ReadAnalogValue {
    /// Creates the request; refuses an empty list and more than 63
    /// components.
    pub fn new(components: Vec<(SystemType, u8, u32)>) -> (r: EncodeResult<Self>)
        ensures
            r is Ok <==> (1 <= components@.len() <= 63),
            r matches Ok(u) ==> u.components == components,
            components@.len() == 0 ==> (r matches Err(e) && empty_list_encode_error_of("components"@, e)),
            components@.len() > 63 ==> (r matches Err(e) && long_list_encode_error_of(
                "components"@,
                components@.len(),
                e,
            )),
    {
        if components.len() == 0 {
            return Err(
                EncodeError::InvalidValue {
                    field: "components".to_owned(),
                    value: "empty".to_owned(),
                    reason: "At least one component must be specified".to_owned(),
                },
            );
        }
        if components.len() > 63 {
            return Err(
                EncodeError::InvalidValue {
                    field: "components".to_owned(),
                    value: decimal_string(components.len() as u64),
                    reason: "Maximum 63 components allowed per protocol".to_owned(),
                },
            );
        }
        Ok(Self { components })
    }

    /// The named components.
    pub fn components(&self) -> (r: &[(SystemType, u8, u32)])
        ensures
            r@ == self.components@,
    {
        self.components.as_slice()
    }
}

impl DataUnit for ReadAnalogValue {
    open spec fn spec_encoding(&self) -> Seq<u8> {
        seq![(self.components@.len() % 256) as u8] + components_bytes(self.components@)
    }

    open spec fn spec_encodable(&self) -> bool {
        true
    }

    fn data_unit_type(&self) -> (r: DataUnitType)
        ensures
            r == DataUnitType::ReadAnalogValue,
    {
        DataUnitType::ReadAnalogValue
    }

    fn encode(&self) -> (r: EncodeResult<Vec<u8>>) {
        let mut buf: Vec<u8> = Vec::new();
        buf.push((self.components.len() % 256) as u8);
        let mut i: usize = 0;
        while i < self.components.len()
            invariant
                i <= self.components@.len(),
                buf@ == seq![(self.components@.len() % 256) as u8] + components_bytes(self.components@.take(i as int)),
            decreases self.components@.len() - i,
        {
            let e = self.components[i];
            buf.push(e.0.to_u8());
            buf.push(e.1);
            let a = u32_to_le(e.2);
            append_bytes(&mut buf, &a);
            proof {
                assert(self.components@.take(i + 1).drop_last() =~= self.components@.take(i as int));
            }
            i = i + 1;
            proof {
                assert(buf@ =~= seq![(self.components@.len() % 256) as u8] + components_bytes(
                    self.components@.take(i as int),
                ));
            }
        }
        proof {
            assert(self.components@.take(i as int) =~= self.components@);
        }
        Ok(buf)
    }

    fn parse(data: &[u8]) -> (r: ParseResult<Self>)
        ensures
            read_analog_value_parse_ok(data@, r),
    {
        if data.len() == 0 {
            return Err(ParseError::InsufficientData { expected: 1, actual: 0 });
        }
        let n = data[0] as usize;
        let expected_len = 1 + n * 6;
        if data.len() < expected_len {
            return Err(ParseError::InsufficientData { expected: expected_len, actual: data.len() });
        }
        let mut components: Vec<(SystemType, u8, u32)> = Vec::with_capacity(n);
        let mut i: usize = 0;
        while i < n
            invariant
                i <= n,
                n == data@[0],
                data@.len() >= 1 + 6 * n,
                components@.len() == i,
                forall|k: int| 0 <= k < i ==> #[trigger] components@[k] == component_entry_at(data@, k),
            decreases n - i,
        {
            let st = SystemType::from_u8(data[1 + 6 * i]);
            let addr = data[2 + 6 * i];
            let caddr = u32_from_le(data[3 + 6 * i], data[4 + 6 * i], data[5 + 6 * i], data[6 + 6 * i]);
            components.push((st, addr, caddr));
            i = i + 1;
        }
        Ok(Self { components })
    }

    /// `Ok` when 1 to 63 components are named.
    fn validate(&self) -> (r: ParseResult<()>)
        ensures
            r is Ok <==> (1 <= self.components@.len() <= 63),
            self.components@.len() == 0 ==> (r matches Err(e) && empty_list_error_of("components"@, e)),
            self.components@.len() > 63 ==> (r matches Err(e) && long_list_error_of(
                "components"@,
                self.components@.len(),
                e,
            )),
    {
        if self.components.len() == 0 {
            return Err(
                ParseError::InvalidValue {
                    field: "components".to_owned(),
                    value: "empty".to_owned(),
                    reason: "At least one component must be specified".to_owned(),
                },
            );
        }
        if self.components.len() > 63 {
            return Err(
                ParseError::InvalidValue {
                    field: "components".to_owned(),
                    value: decimal_string(self.components.len() as u64),
                    reason: "Maximum 63 components allowed per protocol".to_owned(),
                },
            );
        }
        Ok(())
    }
}

/// Reading back the bytes of a request naming at most 255 components of
/// well-formed system types gives the request.
pub proof fn law_read_analog_value_roundtrip(u: ReadAnalogValue)
    requires
        u.components@.len() <= 255,
        forall|i: int| 0 <= i < u.components@.len() ==> #[trigger] u.components@[i].0.well_formed(),
    ensures
        read_analog_value_parse_ok(u.spec_encoding(), Ok(u)),
{
    let b = u.spec_encoding();
    let n = u.components@.len() as int;
    lemma_components_bytes(u.components@);
    assert(b[0] == n);
    assert(b.subrange(1, b.len() as int) =~= components_bytes(u.components@));
    assert forall|i: int| 0 <= i < n implies u.components@[i] == component_entry_at(b, i) by {
        lemma_component_entry_read(b, u.components@, i);
    }
}

/// Request to read the systems it names (at most 3).
#[derive(Debug, Clone, PartialEq, Eq)]
pub struct ReadSystemConfig {
    /// the systems to read
    pub systems: Vec<(SystemType, u8)>,
}

/// The outcome of reading a `ReadSystemConfig` from `b`: the count byte and that many
/// 2-byte entries.
pub open spec fn read_system_config_parse_ok(b: Seq<u8>, r: ParseResult<ReadSystemConfig>) -> bool {
    let n = b[0] as int;
    &&& r is Ok <==> (b.len() >= 1 && b.len() >= 1 + 2 * n)
    &&& r matches Ok(u) ==> u.systems@.len() == n && forall|i: int|
        0 <= i < n ==> #[trigger] u.systems@[i] == system_entry_at(b, i)
    &&& b.len() == 0 ==> (r matches Err(ParseError::InsufficientData { expected, actual })
        && expected == 1 && actual == 0)
    &&& b.len() >= 1 && b.len() < 1 + 2 * n ==> (r matches Err(
        ParseError::InsufficientData { expected, actual },
    ) && expected == 1 + 2 * n && actual == b.len())
}

impl ReadSystemConfig {
    /// Creates the request; refuses an empty list and more than 3
    /// systems.
    pub fn new(systems: Vec<(SystemType, u8)>) -> (r: EncodeResult<Self>)
        ensures
            r is Ok <==> (1 <= systems@.len() <= 3),
            r matches Ok(u) ==> u.systems == systems,
            systems@.len() == 0 ==> (r matches Err(e) && empty_list_encode_error_of("systems"@, e)),
            systems@.len() > 3 ==> (r matches Err(e) && long_list_encode_error_of(
                "systems"@,
                systems@.len(),
                e,
            )),
    {
        if systems.len() == 0 {
            return Err(
                EncodeError::InvalidValue {
                    field: "systems".to_owned(),
                    value: "empty".to_owned(),
                    reason: "At least one system must be specified".to_owned(),
                },
            );
        }
        if systems.len() > 3 {
            return Err(
                EncodeError::InvalidValue {
                    field: "systems".to_owned(),
                    value: decimal_string(systems.len() as u64),
                    reason: "Maximum 3 systems allowed per protocol".to_owned(),
                },
            );
        }
        Ok(Self { systems })
    }

    /// The named systems.
    pub fn systems(&self) -> (r: &[(SystemType, u8)])
        ensures
            r@ == self.systems@,
    {
        self.systems.as_slice()
    }
}

impl DataUnit for ReadSystemConfig {
    open spec fn spec_encoding(&self) -> Seq<u8> {
        seq![(self.systems@.len() % 256) as u8] + systems_bytes(self.systems@)
    }

    open spec fn spec_encodable(&self) -> bool {
        true
    }

    fn data_unit_type(&self) -> (r: DataUnitType)
        ensures
            r == DataUnitType::ReadSystemConfig,
    {
        DataUnitType::ReadSystemConfig
    }

    fn encode(&self) -> (r: EncodeResult<Vec<u8>>) {
        let mut buf: Vec<u8> = Vec::new();
        buf.push((self.systems.len() % 256) as u8);
        let mut i: usize = 0;
        while i < self.systems.len()
            invariant
                i <= self.systems@.len(),
                buf@ == seq![(self.systems@.len() % 256) as u8] + systems_bytes(self.systems@.take(i as int)),
            decreases self.systems@.len() - i,
        {
            let e = self.systems[i];
            buf.push(e.0.to_u8());
            buf.push(e.1);
            proof {
                assert(self.systems@.take(i + 1).drop_last() =~= self.systems@.take(i as int));
            }
            i = i + 1;
            proof {
                assert(buf@ =~= seq![(self.systems@.len() % 256) as u8] + systems_bytes(
                    self.systems@.take(i as int),
                ));
            }
        }
        proof {
            assert(self.systems@.take(i as int) =~= self.systems@);
        }
        Ok(buf)
    }

    fn parse(data: &[u8]) -> (r: ParseResult<Self>)
        ensures
            read_system_config_parse_ok(data@, r),
    {
        if data.len() == 0 {
            return Err(ParseError::InsufficientData { expected: 1, actual: 0 });
        }
        let n = data[0] as usize;
        let expected_len = 1 + n * 2;
        if data.len() < expected_len {
            return Err(ParseError::InsufficientData { expected: expected_len, actual: data.len() });
        }
        let mut systems: Vec<(SystemType, u8)> = Vec::with_capacity(n);
        let mut i: usize = 0;
        while i < n
            invariant
                i <= n,
                n == data@[0],
                data@.len() >= 1 + 2 * n,
                systems@.len() == i,
                forall|k: int| 0 <= k < i ==> #[trigger] systems@[k] == system_entry_at(data@, k),
            decreases n - i,
        {
            let st = SystemType::from_u8(data[1 + 2 * i]);
            let addr = data[2 + 2 * i];
            systems.push((st, addr));
            i = i + 1;
        }
        Ok(Self { systems })
    }

    /// `Ok` when 1 to 3 systems are named.
    fn validate(&self) -> (r: ParseResult<()>)
        ensures
            r is Ok <==> (1 <= self.systems@.len() <= 3),
            self.systems@.len() == 0 ==> (r matches Err(e) && empty_list_error_of("systems"@, e)),
            self.systems@.len() > 3 ==> (r matches Err(e) && long_list_error_of(
                "systems"@,
                self.systems@.len(),
                e,
            )),
    {
        if self.systems.len() == 0 {
            return Err(
                ParseError::InvalidValue {
                    field: "systems".to_owned(),
                    value: "empty".to_owned(),
                    reason: "At least one system must be specified".to_owned(),
                },
            );
        }
        if self.systems.len() > 3 {
            return Err(
                ParseError::InvalidValue {
                    field: "systems".to_owned(),
                    value: decimal_string(self.systems.len() as u64),
                    reason: "Maximum 3 systems allowed per protocol".to_owned(),
                },
            );
        }
        Ok(())
    }
}

/// Reading back the bytes of a request naming at most 255 systems of
/// well-formed system types gives the request.
pub proof fn law_read_system_config_roundtrip(u: ReadSystemConfig)
    requires
        u.systems@.len() <= 255,
        forall|i: int| 0 <= i < u.systems@.len() ==> #[trigger] u.systems@[i].0.well_formed(),
    ensures
        read_system_config_parse_ok(u.spec_encoding(), Ok(u)),
{
    let b = u.spec_encoding();
    let n = u.systems@.len() as int;
    lemma_systems_bytes(u.systems@);
    assert(b[0] == n);
    assert(b.subrange(1, b.len() as int) =~= systems_bytes(u.systems@));
    assert forall|i: int| 0 <= i < n implies u.systems@[i] == system_entry_at(b, i) by {
        lemma_system_entry_read(b, u.systems@, i);
    }
}

/// Request to read the components it names (at most 26).
#[derive(Debug, Clone, PartialEq, Eq)]
pub struct ReadComponentConfig {
    /// the components to read
    pub components: Vec<(SystemType, u8, u32)>,
}

/// The outcome of reading a `ReadComponentConfig` from `b`: the count byte and that many
/// 6-byte entries.
pub open spec fn read_component_config_parse_ok(b: Seq<u8>, r: ParseResult<ReadComponentConfig>) -> bool {
    let n = b[0] as int;
    &&& r is Ok <==> (b.len() >= 1 && b.len() >= 1 + 6 * n)
    &&& r matches Ok(u) ==> u.components@.len() == n && forall|i: int|
        0 <= i < n ==> #[trigger] u.components@[i] == component_entry_at(b, i)
    &&& b.len() == 0 ==> (r matches Err(ParseError::InsufficientData { expected, actual })
        && expected == 1 && actual == 0)
    &&& b.len() >= 1 && b.len() < 1 + 6 * n ==> (r matches Err(
        ParseError::InsufficientData { expected, actual },
    ) && expected == 1 + 6 * n && actual == b.len())
}

impl ReadComponentConfig {
    /// Creates the request; refuses an empty list and more than 26
    /// components.
    pub fn new(components: Vec<(SystemType, u8, u32)>) -> (r: EncodeResult<Self>)
        ensures
            r is Ok <==> (1 <= components@.len() <= 26),
            r matches Ok(u) ==> u.components == components,
            components@.len() == 0 ==> (r matches Err(e) && empty_list_encode_error_of("components"@, e)),
            components@.len() > 26 ==> (r matches Err(e) && long_list_encode_error_of(
                "components"@,
                components@.len(),
                e,
            )),
    {
        if components.len() == 0 {
            return Err(
                EncodeError::InvalidValue {
                    field: "components".to_owned(),
                    value: "empty".to_owned(),
                    reason: "At least one component must be specified".to_owned(),
                },
            );
        }
        if components.len() > 26 {
            return Err(
                EncodeError::InvalidValue {
                    field: "components".to_owned(),
                    value: decimal_string(components.len() as u64),
                    reason: "Maximum 26 components allowed per protocol".to_owned(),
                },
            );
        }
        Ok(Self { components })
    }

    /// The named components.
    pub fn components(&self) -> (r: &[(SystemType, u8, u32)])
        ensures
            r@ == self.components@,
    {
        self.components.as_slice()
    }
}

impl DataUnit for ReadComponentConfig {
    open spec fn spec_encoding(&self) -> Seq<u8> {
        seq![(self.components@.len() % 256) as u8] + components_bytes(self.components@)
    }

    open spec fn spec_encodable(&self) -> bool {
        true
    }

    fn data_unit_type(&self) -> (r: DataUnitType)
        ensures
            r == DataUnitType::ReadComponentConfig,
    {
        DataUnitType::ReadComponentConfig
    }

    fn encode(&self) -> (r: EncodeResult<Vec<u8>>) {
        let mut buf: Vec<u8> = Vec::new();
        buf.push((self.components.len() % 256) as u8);
        let mut i: usize = 0;
        while i < self.components.len()
            invariant
                i <= self.components@.len(),
                buf@ == seq![(self.components@.len() % 256) as u8] + components_bytes(self.components@.take(i as int)),
            decreases self.components@.len() - i,
        {
            let e = self.components[i];
            buf.push(e.0.to_u8());
            buf.push(e.1);
            let a = u32_to_le(e.2);
            append_bytes(&mut buf, &a);
            proof {
                assert(self.components@.take(i + 1).drop_last() =~= self.components@.take(i as int));
            }
            i = i + 1;
            proof {
                assert(buf@ =~= seq![(self.components@.len() % 256) as u8] + components_bytes(
                    self.components@.take(i as int),
                ));
            }
        }
        proof {
            assert(self.components@.take(i as int) =~= self.components@);
        }
        Ok(buf)
    }

    fn parse(data: &[u8]) -> (r: ParseResult<Self>)
        ensures
            read_component_config_parse_ok(data@, r),
    {
        if data.len() == 0 {
            return Err(ParseError::InsufficientData { expected: 1, actual: 0 });
        }
        let n = data[0] as usize;
        let expected_len = 1 + n * 6;
        if data.len() < expected_len {
            return Err(ParseError::InsufficientData { expected: expected_len, actual: data.len() });
        }
        let mut components: Vec<(SystemType, u8, u32)> = Vec::with_capacity(n);
        let mut i: usize = 0;
        while i < n
            invariant
                i <= n,
                n == data@[0],
                data@.len() >= 1 + 6 * n,
                components@.len() == i,
                forall|k: int| 0 <= k < i ==> #[trigger] components@[k] == component_entry_at(data@, k),
            decreases n - i,
        {
            let st = SystemType::from_u8(data[1 + 6 * i]);
            let addr = data[2 + 6 * i];
            let caddr = u32_from_le(data[3 + 6 * i], data[4 + 6 * i], data[5 + 6 * i], data[6 + 6 * i]);
            components.push((st, addr, caddr));
            i = i + 1;
        }
        Ok(Self { components })
    }

    /// `Ok` when 1 to 26 components are named.
    fn validate(&self) -> (r: ParseResult<()>)
        ensures
            r is Ok <==> (1 <= self.components@.len() <= 26),
            self.components@.len() == 0 ==> (r matches Err(e) && empty_list_error_of("components"@, e)),
            self.components@.len() > 26 ==> (r matches Err(e) && long_list_error_of(
                "components"@,
                self.components@.len(),
                e,
            )),
    {
        if self.components.len() == 0 {
            return Err(
                ParseError::InvalidValue {
                    field: "components".to_owned(),
                    value: "empty".to_owned(),
                    reason: "At least one component must be specified".to_owned(),
                },
            );
        }
        if self.components.len() > 26 {
            return Err(
                ParseError::InvalidValue {
                    field: "components".to_owned(),
                    value: decimal_string(self.components.len() as u64),
                    reason: "Maximum 26 components allowed per protocol".to_owned(),
                },
            );
        }
        Ok(())
    }
}

/// Reading back the bytes of a request naming at most 255 components of
/// well-formed system types gives the request.
pub proof fn law_read_component_config_roundtrip(u: ReadComponentConfig)
    requires
        u.components@.len() <= 255,
        forall|i: int| 0 <= i < u.components@.len() ==> #[trigger] u.components@[i].0.well_formed(),
    ensures
        read_component_config_parse_ok(u.spec_encoding(), Ok(u)),
{
    let b = u.spec_encoding();
    let n = u.components@.len() as int;
    lemma_components_bytes(u.components@);
    assert(b[0] == n);
    assert(b.subrange(1, b.len() as int) =~= components_bytes(u.components@));
    assert forall|i: int| 0 <= i < n implies u.components@[i] == component_entry_at(b, i) by {
        lemma_component_entry_read(b, u.components@, i);
    }
}

/// Command to set the device clock to `target_time`.
#[derive(Debug, Clone, Copy, PartialEq, Eq, Structural)]
pub struct SyncDeviceClock {
    /// the time to set
    pub target_time: Timestamp,
}

/// The outcome of reading a clock synchronisation from `b`: count 1,
/// reserved 0, then the time label.
pub open spec fn sync_device_clock_parse_ok(b: Seq<u8>, r: ParseResult<SyncDeviceClock>) -> bool {
    let head_ok = b.len() >= 8 && b[0] == 1 && b[1] == 0;
    &&& r is Ok <==> (head_ok && bytes_are_valid_timestamp(b.subrange(2, 8)))
    &&& r matches Ok(u) ==> u.target_time == timestamp_of_bytes(b.subrange(2, 8))
    &&& b.len() < 8 ==> (r matches Err(ParseError::InsufficientData { expected, actual })
        && expected == 8 && actual == b.len())
    &&& b.len() >= 8 && b[0] != 1 ==> (r matches Err(e) && object_count_error_of(b[0], e))
    &&& b.len() >= 8 && b[0] == 1 && b[1] != 0 ==> (r matches Err(e) && reserved_error_of(b[1], e))
    &&& head_ok && !bytes_are_valid_timestamp(b.subrange(2, 8)) ==> (r matches Err(e)
        && timestamp_error_of(b.subrange(2, 8), e))
}

impl SyncDeviceClock {
    /// Creates the command.
    pub fn new(target_time: Timestamp) -> (r: Self)
        ensures
            r.target_time == target_time,
    {
        Self { target_time }
    }

    /// The time to set.
    pub fn target_time(&self) -> (r: &Timestamp)
        ensures
            *r == self.target_time,
    {
        &self.target_time
    }
}

impl DataUnit for SyncDeviceClock {
    open spec fn spec_encoding(&self) -> Seq<u8> {
        seq![1u8, 0u8] + self.target_time.spec_bytes()
    }

    open spec fn spec_encodable(&self) -> bool {
        true
    }

    fn data_unit_type(&self) -> (r: DataUnitType)
        ensures
            r == DataUnitType::SyncDeviceClock,
    {
        DataUnitType::SyncDeviceClock
    }

    fn encode(&self) -> (r: EncodeResult<Vec<u8>>) {
        let mut buf = command_bytes();
        let tb = self.target_time.to_bytes();
        append_bytes(&mut buf, &tb);
        Ok(buf)
    }

    fn parse(data: &[u8]) -> (r: ParseResult<Self>)
        ensures
            sync_device_clock_parse_ok(data@, r),
    {
        if data.len() < 8 {
            return Err(ParseError::InsufficientData { expected: 8, actual: data.len() });
        }
        if data[0] != 1 {
            return Err(object_count_error(data[0], "Object count must be 1 for SyncDeviceClock"));
        }
        if data[1] != 0 {
            return Err(reserved_error(data[1]));
        }
        match Timestamp::from_bytes(&data[2..8]) {
            Ok(t) => Ok(Self { target_time: t }),
            Err(e) => Err(e),
        }
    }

    /// `Ok` when the time to set is a valid time label.
    fn validate(&self) -> (r: ParseResult<()>)
        ensures
            r is Ok <==> self.target_time.spec_is_valid(),
            r matches Err(e) ==> e matches ParseError::InvalidValue { field, value, .. } && field@
                == "target_time"@ && value@ == timestamp_debug_text(self.target_time),
    {
        if !self.target_time.is_valid() {
            return Err(
                ParseError::InvalidValue {
                    field: "target_time".to_owned(),
                    value: self.target_time.debug_text(),
                    reason: "Invalid timestamp fields".to_owned(),
                },
            );
        }
        Ok(())
    }
}

/// Patrol (on-duty check) command.
#[derive(Debug, Clone, Copy, PartialEq, Eq, Structural)]
pub struct PatrolCommand;

impl PatrolCommand {
    /// Creates the command.
    pub fn new() -> (r: Self)
        ensures
            r == PatrolCommand,
    {
        Self
    }
}

impl Default for PatrolCommand {
    fn default() -> (r: Self)
        ensures
            r == PatrolCommand,
    {
        Self::new()
    }
}

impl DataUnit for PatrolCommand {
    open spec fn spec_encoding(&self) -> Seq<u8> {
        seq![1u8, 0u8]
    }

    open spec fn spec_encodable(&self) -> bool {
        true
    }

    fn data_unit_type(&self) -> (r: DataUnitType)
        ensures
            r == DataUnitType::PatrolCommand,
    {
        DataUnitType::PatrolCommand
    }

    fn encode(&self) -> (r: EncodeResult<Vec<u8>>) {
        Ok(command_bytes())
    }

    fn parse(data: &[u8]) -> (r: ParseResult<Self>)
        ensures
            command_bytes_parse_ok(
                data@,
                r is Ok,
                match r {
                    Ok(_) => None,
                    Err(e) => Some(e),
                },
            ),
    {
        match parse_command_bytes(data, "Object count must be 1 for PatrolCommand") {
            Ok(()) => Ok(Self::new()),
            Err(e) => Err(e),
        }
    }

    /// Always `Ok`.
    fn validate(&self) -> (r: ParseResult<()>)
        ensures
            r is Ok,
    {
        Ok(())
    }
}

/// Command to initialise the user information transmission device.
#[derive(Debug, Clone, Copy, PartialEq, Eq, Structural)]
pub struct InitializeDevice;

impl InitializeDevice {
    /// Creates the command.
    pub fn new() -> (r: Self)
        ensures
            r == InitializeDevice,
    {
        Self
    }
}

impl Default for InitializeDevice {
    fn default() -> (r: Self)
        ensures
            r == InitializeDevice,
    {
        Self::new()
    }
}

impl DataUnit for InitializeDevice {
    open spec fn spec_encoding(&self) -> Seq<u8> {
        seq![1u8, 0u8]
    }

    open spec fn spec_encodable(&self) -> bool {
        true
    }

    fn data_unit_type(&self) -> (r: DataUnitType)
        ensures
            r == DataUnitType::InitializeDevice,
    {
        DataUnitType::InitializeDevice
    }

    fn encode(&self) -> (r: EncodeResult<Vec<u8>>) {
        Ok(command_bytes())
    }

    fn parse(data: &[u8]) -> (r: ParseResult<Self>)
        ensures
            command_bytes_parse_ok(
                data@,
                r is Ok,
                match r {
                    Ok(_) => None,
                    Err(e) => Some(e),
                },
            ),
    {
        match parse_command_bytes(data, "Object count must be 1 for InitializeDevice") {
            Ok(()) => Ok(Self::new()),
            Err(e) => Err(e),
        }
    }

    /// Always `Ok`.
    fn validate(&self) -> (r: ParseResult<()>)
        ensures
            r is Ok,
    {
        Ok(())
    }
}

/// Request to read the operation records of a system from `start_time` on.
#[derive(Debug, Clone, Copy, PartialEq, Eq, Structural)]
pub struct ReadOperationInfo {
    /// system type code
    pub system_type: SystemType,
    /// system address
    pub system_address: u8,
    /// number of records to read (at most 102)
    pub record_count: u8,
    /// first time of interest
    pub start_time: Timestamp,
}

/// The outcome of reading a `ReadOperationInfo` from `b`. The time label
/// is read from bytes 4 to 10; on a 9-byte input only five of them are
/// there, and the time label is refused as too short.
pub open spec fn read_operation_info_parse_ok(b: Seq<u8>, r: ParseResult<ReadOperationInfo>) -> bool {
    let head_ok = b.len() >= 9 && b[0] == 1;
    let time = b.subrange(4, if b.len() < 10 { b.len() as int } else { 10 });
    &&& r is Ok <==> (head_ok && b.len() >= 10 && bytes_are_valid_timestamp(time))
    &&& r matches Ok(u) ==> u.system_type == SystemType::spec_from_u8(b[1]) && u.system_address
        == b[2] && u.record_count == b[3] && u.start_time == timestamp_of_bytes(time)
    &&& b.len() < 9 ==> (r matches Err(ParseError::InsufficientData { expected, actual })
        && expected == 9 && actual == b.len())
    &&& b.len() >= 9 && b[0] != 1 ==> (r matches Err(e) && object_count_error_of(b[0], e))
    &&& head_ok ==> (r matches Err(e) ==> timestamp_parse_ok(time, Err(e)))
}

impl ReadOperationInfo {
    /// Creates the request; refuses more than 102 records.
    pub fn new(
        system_type: SystemType,
        system_address: u8,
        record_count: u8,
        start_time: Timestamp,
    ) -> (r: EncodeResult<Self>)
        ensures
            r is Ok <==> record_count <= 102,
            r matches Ok(u) ==> u == (ReadOperationInfo {
                system_type,
                system_address,
                record_count,
                start_time,
            }),
            r matches Err(e) ==> e matches EncodeError::InvalidValue { field, value, .. } && field@
                == "record_count"@ && value@ == decimal_text(record_count as nat),
    {
        if record_count > 102 {
            return Err(
                EncodeError::InvalidValue {
                    field: "record_count".to_owned(),
                    value: decimal_string(record_count as u64),
                    reason: "Record count must be <= 102".to_owned(),
                },
            );
        }
        Ok(Self { system_type, system_address, record_count, start_time })
    }
}

impl DataUnit for ReadOperationInfo {
    open spec fn spec_encoding(&self) -> Seq<u8> {
        seq![1u8, self.system_type.spec_to_u8(), self.system_address, self.record_count]
            + self.start_time.spec_bytes()
    }

    open spec fn spec_encodable(&self) -> bool {
        true
    }

    fn data_unit_type(&self) -> (r: DataUnitType)
        ensures
            r == DataUnitType::ReadOperationInfo,
    {
        DataUnitType::ReadOperationInfo
    }

    fn encode(&self) -> (r: EncodeResult<Vec<u8>>) {
        let mut buf: Vec<u8> = Vec::new();
        buf.push(1);
        buf.push(self.system_type.to_u8());
        buf.push(self.system_address);
        buf.push(self.record_count);
        let tb = self.start_time.to_bytes();
        append_bytes(&mut buf, &tb);
        proof {
            assert(buf@ =~= self.spec_encoding());
        }
        Ok(buf)
    }

    fn parse(data: &[u8]) -> (r: ParseResult<Self>)
        ensures
            read_operation_info_parse_ok(data@, r),
    {
        if data.len() < 9 {
            return Err(ParseError::InsufficientData { expected: 9, actual: data.len() });
        }
        let object_count = data[0];
        if object_count != 1 {
            return Err(object_count_error(object_count, "Object count must be 1 for ReadOperationInfo"));
        }
        let end: usize = if data.len() < 10 {
            data.len()
        } else {
            10
        };
        match Timestamp::parse(&data[4..end]) {
            Ok(t) => Ok(
                Self {
                    system_type: SystemType::from_u8(data[1]),
                    system_address: data[2],
                    record_count: data[3],
                    start_time: t,
                },
            ),
            Err(e) => Err(e),
        }
    }

    /// `Ok` when at most 102 records are asked for and the start time is a
    /// valid time label.
    fn validate(&self) -> (r: ParseResult<()>)
        ensures
            r is Ok <==> (self.record_count <= 102 && self.start_time.spec_is_valid()),
            self.record_count > 102 ==> (r matches Err(ParseError::InvalidValue { field, value, .. })
                && field@ == "record_count"@ && value@ == decimal_text(self.record_count as nat)),
            self.record_count <= 102 && !self.start_time.spec_is_valid() ==> (r matches Err(
                ParseError::InvalidValue { field, value, .. },
            ) && field@ == "start_time"@ && value@ == timestamp_debug_text(self.start_time)),
    {
        if self.record_count > 102 {
            return Err(
                ParseError::InvalidValue {
                    field: "record_count".to_owned(),
                    value: decimal_string(self.record_count as u64),
                    reason: "Record count must be <= 102".to_owned(),
                },
            );
        }
        if !self.start_time.is_valid() {
            return Err(
                ParseError::InvalidValue {
                    field: "start_time".to_owned(),
                    value: self.start_time.debug_text(),
                    reason: "Invalid timestamp fields".to_owned(),
                },
            );
        }
        Ok(())
    }
}

/// Request to read the software version of a system.
#[derive(Debug, Clone, Copy, PartialEq, Eq, Structural)]
pub struct ReadSoftwareVersion {
    /// system type code
    pub system_type: SystemType,
    /// system address
    pub system_address: u8,
}

/// The outcome of reading a `ReadSoftwareVersion` from `b`.
pub open spec fn read_software_version_parse_ok(b: Seq<u8>, r: ParseResult<ReadSoftwareVersion>) -> bool {
    &&& r is Ok <==> (b.len() >= 3 && b[0] == 1)
    &&& r matches Ok(u) ==> u.system_type == SystemType::spec_from_u8(b[1]) && u.system_address
        == b[2]
    &&& b.len() < 3 ==> (r matches Err(ParseError::InsufficientData { expected, actual })
        && expected == 3 && actual == b.len())
    &&& b.len() >= 3 && b[0] != 1 ==> (r matches Err(e) && object_count_error_of(b[0], e))
}

impl ReadSoftwareVersion {
    /// Creates the request.
    pub fn new(system_type: SystemType, system_address: u8) -> (r: Self)
        ensures
            r == (ReadSoftwareVersion { system_type, system_address }),
    {
        Self { system_type, system_address }
    }
}

impl DataUnit for ReadSoftwareVersion {
    open spec fn spec_encoding(&self) -> Seq<u8> {
        seq![1u8, self.system_type.spec_to_u8(), self.system_address]
    }

    open spec fn spec_encodable(&self) -> bool {
        true
    }

    fn data_unit_type(&self) -> (r: DataUnitType)
        ensures
            r == DataUnitType::ReadSoftwareVersion,
    {
        DataUnitType::ReadSoftwareVersion
    }

    fn encode(&self) -> (r: EncodeResult<Vec<u8>>) {
        let mut buf: Vec<u8> = Vec::new();
        buf.push(1);
        buf.push(self.system_type.to_u8());
        buf.push(self.system_address);
        proof {
            assert(buf@ =~= self.spec_encoding());
        }
        Ok(buf)
    }

    fn parse(data: &[u8]) -> (r: ParseResult<Self>)
        ensures
            read_software_version_parse_ok(data@, r),
    {
        if data.len() < 3 {
            return Err(ParseError::InsufficientData { expected: 3, actual: data.len() });
        }
        if data[0] != 1 {
            return Err(object_count_error(data[0], "Object count must be 1 for ReadSoftwareVersion"));
        }
        Ok(Self { system_type: SystemType::from_u8(data[1]), system_address: data[2] })
    }

    /// Always `Ok`.
    fn validate(&self) -> (r: ParseResult<()>)
        ensures
            r is Ok,
    {
        Ok(())
    }
}

/// Request to read the clock of a system.
#[derive(Debug, Clone, Copy, PartialEq, Eq, Structural)]
pub struct ReadSystemTime {
    /// system type code
    pub system_type: SystemType,
    /// system address
    pub system_address: u8,
}

/// The outcome of reading a `ReadSystemTime` from `b`: the object count 1,
/// then the system type and the system address.
pub open spec fn read_system_time_parse_ok(b: Seq<u8>, r: ParseResult<ReadSystemTime>) -> bool {
    &&& r is Ok <==> (b.len() >= 3 && b[0] == 1)
    &&& r matches Ok(u) ==> u.system_type == SystemType::spec_from_u8(b[1]) && u.system_address
        == b[2]
    &&& b.len() < 3 ==> (r matches Err(ParseError::InsufficientData { expected, actual })
        && expected == 3 && actual == b.len())
    &&& b.len() >= 3 && b[0] != 1 ==> (r matches Err(e) && object_count_error_of(b[0], e))
}

impl ReadSystemTime {
    /// Creates the request.
    pub fn new(system_type: SystemType, system_address: u8) -> (r: Self)
        ensures
            r == (ReadSystemTime { system_type, system_address }),
    {
        Self { system_type, system_address }
    }
}

impl DataUnit for ReadSystemTime {
    open spec fn spec_encoding(&self) -> Seq<u8> {
        seq![1u8, self.system_type.spec_to_u8(), self.system_address]
    }

    open spec fn spec_encodable(&self) -> bool {
        true
    }

    fn data_unit_type(&self) -> (r: DataUnitType)
        ensures
            r == DataUnitType::ReadSystemTime,
    {
        DataUnitType::ReadSystemTime
    }

    fn encode(&self) -> (r: EncodeResult<Vec<u8>>) {
        let mut buf: Vec<u8> = Vec::new();
        buf.push(1);
        buf.push(self.system_type.to_u8());
        buf.push(self.system_address);
        proof {
            assert(buf@ =~= self.spec_encoding());
        }
        Ok(buf)
    }

    fn parse(data: &[u8]) -> (r: ParseResult<Self>)
        ensures
            read_system_time_parse_ok(data@, r),
    {
        if data.len() < 3 {
            return Err(ParseError::InsufficientData { expected: 3, actual: data.len() });
        }
        if data[0] != 1 {
            return Err(object_count_error(data[0], "Object count must be 1 for ReadSystemTime"));
        }
        Ok(Self { system_type: SystemType::from_u8(data[1]), system_address: data[2] })
    }

    /// Always `Ok`.
    fn validate(&self) -> (r: ParseResult<()>)
        ensures
            r is Ok,
    {
        Ok(())
    }
}

/// Request to read the operation records of the device from `start_time` on.
#[derive(Debug, Clone, Copy, PartialEq, Eq, Structural)]
pub struct ReadDeviceOperation {
    /// number of records to read (1 to 102)
    pub record_count: u8,
    /// first time of interest
    pub start_time: Timestamp,
}

/// The message for a record count out of 1..=102, when there is one.
pub open spec fn record_count_problem(record_count: u8) -> Option<Seq<char>> {
    if record_count == 0 {
        Some("Record count must be greater than 0"@)
    } else if record_count > 102 {
        Some("Record count must not exceed 102"@)
    } else {
        None
    }
}

/// The outcome of reading a `ReadDeviceOperation` from `b`.
pub open spec fn read_device_operation_parse_ok(b: Seq<u8>, r: ParseResult<ReadDeviceOperation>) -> bool {
    let head_ok = b.len() >= 8 && b[0] == 1;
    let time = b.subrange(2, 8);
    &&& r is Ok <==> (head_ok && bytes_are_valid_timestamp(time) && 1 <= b[1] <= 102)
    &&& r matches Ok(u) ==> u.record_count == b[1] && u.start_time == timestamp_of_bytes(time)
    &&& b.len() < 8 ==> (r matches Err(ParseError::InsufficientData { expected, actual })
        && expected == 8 && actual == b.len())
    &&& b.len() >= 8 && b[0] != 1 ==> (r matches Err(e) && object_count_error_of(b[0], e))
    &&& head_ok && !bytes_are_valid_timestamp(time) ==> (r matches Err(e) && timestamp_error_of(
        time,
        e,
    ))
    &&& head_ok && bytes_are_valid_timestamp(time) && !(1 <= b[1] <= 102) ==> (r matches Err(
        ParseError::InvalidValue { field, value, reason },
    ) && field@ == "record_count"@ && value@ == decimal_text(b[1] as nat) && Some(reason@)
        == record_count_problem(b[1]))
}

impl ReadDeviceOperation {
    /// Creates the request; refuses a record count of 0 or above 102 with a
    /// message.
    pub fn new(record_count: u8, start_time: Timestamp) -> (r: Result<Self, String>)
        ensures
            r is Ok <==> record_count_problem(record_count) is None,
            r matches Ok(u) ==> u == (ReadDeviceOperation { record_count, start_time }),
            r matches Err(m) ==> Some(m@) == record_count_problem(record_count),
    {
        if record_count == 0 {
            return Err("Record count must be greater than 0".to_owned());
        }
        if record_count > 102 {
            return Err("Record count must not exceed 102".to_owned());
        }
        Ok(Self { record_count, start_time })
    }
}

impl DataUnit for ReadDeviceOperation {
    open spec fn spec_encoding(&self) -> Seq<u8> {
        seq![1u8, self.record_count] + self.start_time.spec_bytes()
    }

    open spec fn spec_encodable(&self) -> bool {
        true
    }

    fn data_unit_type(&self) -> (r: DataUnitType)
        ensures
            r == DataUnitType::ReadDeviceOperation,
    {
        DataUnitType::ReadDeviceOperation
    }

    fn encode(&self) -> (r: EncodeResult<Vec<u8>>) {
        let mut buf: Vec<u8> = Vec::new();
        buf.push(1);
        buf.push(self.record_count);
        let tb = self.start_time.to_bytes();
        append_bytes(&mut buf, &tb);
        proof {
            assert(buf@ =~= self.spec_encoding());
        }
        Ok(buf)
    }

    fn parse(data: &[u8]) -> (r: ParseResult<Self>)
        ensures
            read_device_operation_parse_ok(data@, r),
    {
        if data.len() < 8 {
            return Err(ParseError::InsufficientData { expected: 8, actual: data.len() });
        }
        if data[0] != 1 {
            return Err(object_count_error(data[0], "Object count must be 1 for ReadDeviceOperation"));
        }
        let record_count = data[1];
        let start_time = match Timestamp::from_bytes(&data[2..8]) {
            Ok(t) => t,
            Err(e) => {
                return Err(e);
            },
        };
        match Self::new(record_count, start_time) {
            Ok(u) => Ok(u),
            Err(m) => Err(
                ParseError::InvalidValue {
                    field: "record_count".to_owned(),
                    value: decimal_string(record_count as u64),
                    reason: m,
                },
            ),
        }
    }

    /// `Ok` when 1 to 102 records are asked for.
    fn validate(&self) -> (r: ParseResult<()>)
        ensures
            r is Ok <==> record_count_problem(self.record_count) is None,
            r matches Err(e) ==> e matches ParseError::InvalidValue { field, value, .. } && field@
                == "record_count"@ && value@ == decimal_text(self.record_count as nat),
    {
        if self.record_count == 0 {
            return Err(
                ParseError::InvalidValue {
                    field: "record_count".to_owned(),
                    value: decimal_string(self.record_count as u64),
                    reason: "Record count must be greater than 0".to_owned(),
                },
            );
        }
        if self.record_count > 102 {
            return Err(
                ParseError::InvalidValue {
                    field: "record_count".to_owned(),
                    value: decimal_string(self.record_count as u64),
                    reason: "Record count must not exceed 102".to_owned(),
                },
            );
        }
        Ok(())
    }
}

/// Request to read the operating state of the device.
#[derive(Debug, Clone, Copy, PartialEq, Eq, Structural)]
pub struct ReadDeviceStatus;

impl ReadDeviceStatus {
    /// Creates the request.
    pub fn new() -> (r: Self)
        ensures
            r == ReadDeviceStatus,
    {
        Self
    }
}

impl Default for ReadDeviceStatus {
    fn default() -> (r: Self)
        ensures
            r == ReadDeviceStatus,
    {
        Self::new()
    }
}

impl DataUnit for ReadDeviceStatus {
    open spec fn spec_encoding(&self) -> Seq<u8> {
        seq![1u8, 0u8]
    }

    open spec fn spec_encodable(&self) -> bool {
        true
    }

    fn data_unit_type(&self) -> (r: DataUnitType)
        ensures
            r == DataUnitType::ReadDeviceStatus,
    {
        DataUnitType::ReadDeviceStatus
    }

    fn encode(&self) -> (r: EncodeResult<Vec<u8>>) {
        Ok(command_bytes())
    }

    fn parse(data: &[u8]) -> (r: ParseResult<Self>)
        ensures
            command_bytes_parse_ok(
                data@,
                r is Ok,
                match r {
                    Ok(_) => None,
                    Err(e) => Some(e),
                },
            ),
    {
        match parse_command_bytes(data, "Object count must be 1 for ReadDeviceStatus") {
            Ok(()) => Ok(Self::new()),
            Err(e) => Err(e),
        }
    }
}

/// Request to read the software version of the device.
#[derive(Debug, Clone, Copy, PartialEq, Eq, Structural)]
pub struct ReadDeviceVersion;

impl ReadDeviceVersion {
    /// Creates the request.
    pub fn new() -> (r: Self)
        ensures
            r == ReadDeviceVersion,
    {
        Self
    }
}

impl Default for ReadDeviceVersion {
    fn default() -> (r: Self)
        ensures
            r == ReadDeviceVersion,
    {
        Self::new()
    }
}

impl DataUnit for ReadDeviceVersion {
    open spec fn spec_encoding(&self) -> Seq<u8> {
        seq![1u8, 0u8]
    }

    open spec fn spec_encodable(&self) -> bool {
        true
    }

    fn data_unit_type(&self) -> (r: DataUnitType)
        ensures
            r == DataUnitType::ReadDeviceVersion,
    {
        DataUnitType::ReadDeviceVersion
    }

    fn encode(&self) -> (r: EncodeResult<Vec<u8>>) {
        Ok(command_bytes())
    }

    fn parse(data: &[u8]) -> (r: ParseResult<Self>)
        ensures
            command_bytes_parse_ok(
                data@,
                r is Ok,
                match r {
                    Ok(_) => None,
                    Err(e) => Some(e),
                },
            ),
    {
        match parse_command_bytes(data, "Object count must be 1 for ReadDeviceVersion") {
            Ok(()) => Ok(Self::new()),
            Err(e) => Err(e),
        }
    }
}

/// Request to read the configuration of the device.
#[derive(Debug, Clone, Copy, PartialEq, Eq, Structural)]
pub struct ReadDeviceConfig;

impl ReadDeviceConfig {
    /// Creates the request.
    pub fn new() -> (r: Self)
        ensures
            r == ReadDeviceConfig,
    {
        Self
    }
}

impl Default for ReadDeviceConfig {
    fn default() -> (r: Self)
        ensures
            r == ReadDeviceConfig,
    {
        Self::new()
    }
}

impl DataUnit for ReadDeviceConfig {
    open spec fn spec_encoding(&self) -> Seq<u8> {
        seq![1u8, 0u8]
    }

    open spec fn spec_encodable(&self) -> bool {
        true
    }

    fn data_unit_type(&self) -> (r: DataUnitType)
        ensures
            r == DataUnitType::ReadDeviceConfig,
    {
        DataUnitType::ReadDeviceConfig
    }

    fn encode(&self) -> (r: EncodeResult<Vec<u8>>) {
        Ok(command_bytes())
    }

    fn parse(data: &[u8]) -> (r: ParseResult<Self>)
        ensures
            command_bytes_parse_ok(
                data@,
                r is Ok,
                match r {
                    Ok(_) => None,
                    Err(e) => Some(e),
                },
            ),
    {
        match parse_command_bytes(data, "Object count must be 1 for ReadDeviceConfig") {
            Ok(()) => Ok(Self::new()),
            Err(e) => Err(e),
        }
    }
}

/// Request to read the clock of the device.
#[derive(Debug, Clone, Copy, PartialEq, Eq, Structural)]
pub struct ReadDeviceTime;

impl ReadDeviceTime {
    /// Creates the request.
    pub fn new() -> (r: Self)
        ensures
            r == ReadDeviceTime,
    {
        Self
    }
}

impl Default for ReadDeviceTime {
    fn default() -> (r: Self)
        ensures
            r == ReadDeviceTime,
    {
        Self::new()
    }
}

impl DataUnit for ReadDeviceTime {
    open spec fn spec_encoding(&self) -> Seq<u8> {
        seq![1u8, 0u8]
    }

    open spec fn spec_encodable(&self) -> bool {
        true
    }

    fn data_unit_type(&self) -> (r: DataUnitType)
        ensures
            r == DataUnitType::ReadDeviceTime,
    {
        DataUnitType::ReadDeviceTime
    }

    fn encode(&self) -> (r: EncodeResult<Vec<u8>>) {
        Ok(command_bytes())
    }

    fn parse(data: &[u8]) -> (r: ParseResult<Self>)
        ensures
            command_bytes_parse_ok(
                data@,
                r is Ok,
                match r {
                    Ok(_) => None,
                    Err(e) => Some(e),
                },
            ),
    {
        match parse_command_bytes(data, "Object count must be 1 for ReadDeviceTime") {
            Ok(()) => Ok(Self::new()),
            Err(e) => Err(e),
        }
    }
}

/// Reading back the bytes of a clock synchronisation to a valid time label
/// gives the command.
pub proof fn law_sync_device_clock_roundtrip(u: SyncDeviceClock)
    requires
        u.target_time.spec_is_valid(),
    ensures
        sync_device_clock_parse_ok(u.spec_encoding(), Ok(u)),
{
    assert(u.spec_encoding().subrange(2, 8) =~= u.target_time.spec_bytes());
    assert(timestamp_of_bytes(u.target_time.spec_bytes()) == u.target_time);
}

/// Reading back the bytes of a representable operation record request gives
/// the request.
pub proof fn law_read_operation_info_roundtrip(u: ReadOperationInfo)
    requires
        u.system_type.well_formed(),
        u.start_time.spec_is_valid(),
    ensures
        read_operation_info_parse_ok(u.spec_encoding(), Ok(u)),
{
    assert(u.spec_encoding().subrange(4, 10) =~= u.start_time.spec_bytes());
    assert(timestamp_of_bytes(u.start_time.spec_bytes()) == u.start_time);
}

/// Reading back the bytes of a device record request with a count of 1 to
/// 102 and a valid start time gives the request.
pub proof fn law_read_device_operation_roundtrip(u: ReadDeviceOperation)
    requires
        1 <= u.record_count <= 102,
        u.start_time.spec_is_valid(),
    ensures
        read_device_operation_parse_ok(u.spec_encoding(), Ok(u)),
{
    assert(u.spec_encoding().subrange(2, 8) =~= u.start_time.spec_bytes());
    assert(timestamp_of_bytes(u.start_time.spec_bytes()) == u.start_time);
}

/// The bytes of every one-object command read back as a command.
pub proof fn law_command_bytes_roundtrip()
    ensures
        command_bytes_parse_ok(seq![1u8, 0u8], true, None),
{
}

/// Reading back the bytes of a request to read a system's clock gives the
/// request.
pub proof fn law_read_system_time_roundtrip(u: ReadSystemTime)
    requires
        u.system_type.well_formed(),
    ensures
        read_system_time_parse_ok(u.spec_encoding(), Ok(u)),
{
}

} // verus!
