//! Builder of packets: the control unit fields, the command and an optional
//! data unit are set one by one; addresses and the data unit length are
//! checked as they are set.
use crate::builder::{Builder, ResettableBuilder};
use crate::data_unit::GenericDataUnit;
use crate::error::{EncodeError, EncodeResult};
use crate::frame::{ControlUnit, Packet, Timestamp};
use crate::protocol::{Command, ProtocolVersion};
use crate::text::{hex_text, push_hex};
use crate::wire::MAX_ADDR;
use vstd::prelude::*;
use vstd::string::StringExecFns;

verus! {

/// What a packet builder holds: each field, once set.
pub struct PacketBuilderView {
    pub sequence: Option<u16>,
    pub version: Option<ProtocolVersion>,
    pub timestamp: Option<Timestamp>,
    pub source_addr: Option<u64>,
    pub dest_addr: Option<u64>,
    pub command: Option<Command>,
    pub data_unit: Option<Seq<u8>>,
}

/// The builder with nothing set.
pub open spec fn empty_packet_builder() -> PacketBuilderView {
    PacketBuilderView {
        sequence: None,
        version: None,
        timestamp: None,
        source_addr: None,
        dest_addr: None,
        command: None,
        data_unit: None,
    }
}

/// The first field that is not set, in the order sequence, version,
/// timestamp, source address, destination address, command.
pub open spec fn first_missing_field(v: PacketBuilderView) -> Option<Seq<char>> {
    if v.sequence is None {
        Some("sequence"@)
    } else if v.version is None {
        Some("version"@)
    } else if v.timestamp is None {
        Some("timestamp"@)
    } else if v.source_addr is None {
        Some("source_addr"@)
    } else if v.dest_addr is None {
        Some("dest_addr"@)
    } else if v.command is None {
        Some("command"@)
    } else {
        None
    }
}

/// The error for an address beyond six bytes: `InvalidValue` naming the
/// field, with the address in upper-case hexadecimal after `0x`.
pub open spec fn address_error_of(field: Seq<char>, addr: u64, e: EncodeError) -> bool {
    e matches EncodeError::InvalidValue { field: f, value, .. } && f@ == field && value@ == "0x"@
        + hex_text(addr as nat)
}

/// The packet a complete builder makes.
pub open spec fn packet_of_builder(v: PacketBuilderView, p: Packet) -> bool {
    let len = match v.data_unit {
        Some(d) => d.len(),
        None => 0,
    };
    &&& p.control_unit == (ControlUnit {
        sequence: v.sequence->0,
        version: v.version->0,
        timestamp: v.timestamp->0,
        source_addr: v.source_addr->0,
        dest_addr: v.dest_addr->0,
        data_unit_len: len as u16,
        command: v.command->0,
    })
    &&& p.spec_data() == v.data_unit
}

/// Builder of packets.
pub struct PacketBuilder {
    sequence: Option<u16>,
    version: Option<ProtocolVersion>,
    timestamp: Option<Timestamp>,
    source_addr: Option<u64>,
    dest_addr: Option<u64>,
    command: Option<Command>,
    data_unit: Option<Vec<u8>>,
}

impl View for PacketBuilder {
    type V = PacketBuilderView;

    closed spec fn view(&self) -> PacketBuilderView {
        PacketBuilderView {
            sequence: self.sequence,
            version: self.version,
            timestamp: self.timestamp,
            source_addr: self.source_addr,
            dest_addr: self.dest_addr,
            command: self.command,
            data_unit: match self.data_unit {
                Some(d) => Some(d@),
                None => None,
            },
        }
    }
}

/// What every packet builder keeps: addresses within six bytes and a data
/// unit of at most 1024 bytes.
pub open spec fn packet_builder_inv(v: PacketBuilderView) -> bool {
    &&& v.source_addr matches Some(a) ==> a <= MAX_ADDR
    &&& v.dest_addr matches Some(a) ==> a <= MAX_ADDR
    &&& v.data_unit matches Some(d) ==> d.len() <= 1024
}

fn address_error(field: &str, addr: u64, reason: &str) -> (e: EncodeError)
    ensures
        address_error_of(field@, addr, e),
{
    let mut value = String::new();
    value.append("0x");
    push_hex(&mut value, addr);
    EncodeError::InvalidValue { field: field.to_owned(), value, reason: reason.to_owned() }
}

fn missing_error(field: &str, reason: &str) -> (e: EncodeError)
    ensures
        e matches EncodeError::InvalidValue { field: f, value, .. } && f@ == field@ && value@
            == "None"@,
{
    EncodeError::InvalidValue { field: field.to_owned(), value: "None".to_owned(), reason: reason.to_owned() }
}

impl PacketBuilder {
    #[verifier::type_invariant]
    spec fn inv(self) -> bool {
        packet_builder_inv(self@)
    }

    /// A builder with nothing set.
    pub fn new() -> (r: Self)
        ensures
            r@ == empty_packet_builder(),
    {
        PacketBuilder {
            sequence: None,
            version: None,
            timestamp: None,
            source_addr: None,
            dest_addr: None,
            command: None,
            data_unit: None,
        }
    }

    /// Sets the sequence number.
    pub fn sequence(self, sequence: u16) -> (r: Self)
        ensures
            r@ == (PacketBuilderView { sequence: Some(sequence), ..self@ }),
    {
        proof {
            use_type_invariant(&self);
        }
        let mut s = self;
        s.sequence = Some(sequence);
        s
    }

    /// Sets the protocol version.
    pub fn version(self, version: ProtocolVersion) -> (r: Self)
        ensures
            r@ == (PacketBuilderView { version: Some(version), ..self@ }),
    {
        proof {
            use_type_invariant(&self);
        }
        let mut s = self;
        s.version = Some(version);
        s
    }

    /// Sets the protocol version to 1.0.
    pub fn default_version(self) -> (r: Self)
        ensures
            r@ == (PacketBuilderView {
                version: Some(ProtocolVersion { major: 1, minor: 0 }),
                ..self@
            }),
    {
        proof {
            use_type_invariant(&self);
        }
        let mut s = self;
        s.version = Some(ProtocolVersion::v1_0());
        s
    }

    /// Sets the time label.
    pub fn timestamp(self, timestamp: Timestamp) -> (r: Self)
        ensures
            r@ == (PacketBuilderView { timestamp: Some(timestamp), ..self@ }),
    {
        proof {
            use_type_invariant(&self);
        }
        let mut s = self;
        s.timestamp = Some(timestamp);
        s
    }

    /// Sets the time label to the current time.
    pub fn current_timestamp(self) -> (r: Self)
        ensures
            r@.timestamp matches Some(t) && t.spec_is_valid(),
            r@ == (PacketBuilderView { timestamp: r@.timestamp, ..self@ }),
    {
        proof {
            use_type_invariant(&self);
        }
        let mut s = self;
        s.timestamp = Some(Timestamp::now());
        s
    }

    /// Sets the source address; refuses one beyond six bytes.
    pub fn source_address(self, addr: u64) -> (r: EncodeResult<Self>)
        ensures
            r is Ok <==> addr <= MAX_ADDR,
            r matches Ok(b) ==> b@ == (PacketBuilderView { source_addr: Some(addr), ..self@ }),
            r matches Err(e) ==> address_error_of("source_address"@, addr, e),
    {
        proof {
            use_type_invariant(&self);
        }
        if addr > MAX_ADDR {
            return Err(address_error("source_address", addr, "源地址必须在 6 字节范围内"));
        }
        let mut s = self;
        s.source_addr = Some(addr);
        Ok(s)
    }

    /// Sets the destination address; refuses one beyond six bytes.
    pub fn destination_address(self, addr: u64) -> (r: EncodeResult<Self>)
        ensures
            r is Ok <==> addr <= MAX_ADDR,
            r matches Ok(b) ==> b@ == (PacketBuilderView { dest_addr: Some(addr), ..self@ }),
            r matches Err(e) ==> address_error_of("destination_address"@, addr, e),
    {
        proof {
            use_type_invariant(&self);
        }
        if addr > MAX_ADDR {
            return Err(address_error("destination_address", addr, "目的地址必须在 6 字节范围内"));
        }
        let mut s = self;
        s.dest_addr = Some(addr);
        Ok(s)
    }

    /// Sets the command.
    pub fn command(self, command: Command) -> (r: Self)
        ensures
            r@ == (PacketBuilderView { command: Some(command), ..self@ }),
    {
        proof {
            use_type_invariant(&self);
        }
        let mut s = self;
        s.command = Some(command);
        s
    }

    /// Sets the data unit bytes; refuses more than 1024 bytes.
    pub fn data_unit_bytes(self, data: Vec<u8>) -> (r: EncodeResult<Self>)
        ensures
            r is Ok <==> data@.len() <= 1024,
            r matches Ok(b) ==> b@ == (PacketBuilderView { data_unit: Some(data@), ..self@ }),
            r matches Err(e) ==> e matches EncodeError::DataTooLarge { size, max_size } && size
                == data@.len() && max_size == 1024,
    {
        proof {
            use_type_invariant(&self);
        }
        if data.len() > 1024 {
            return Err(EncodeError::DataTooLarge { size: data.len(), max_size: 1024 });
        }
        let mut s = self;
        s.data_unit = Some(data);
        Ok(s)
    }

    /// Sets the data unit to the bytes of `data_unit`; refuses more than
    /// 1024 bytes.
    pub fn data_unit(self, data_unit: GenericDataUnit) -> (r: EncodeResult<Self>)
        ensures
            r is Ok <==> data_unit.spec_encoding().len() <= 1024,
            r matches Ok(b) ==> b@ == (PacketBuilderView {
                data_unit: Some(data_unit.spec_encoding()),
                ..self@
            }),
            r matches Err(e) ==> e matches EncodeError::DataTooLarge { size, max_size } && size
                == data_unit.spec_encoding().len() && max_size == 1024,
    {
        let encoded = match data_unit.encode() {
            Ok(v) => v,
            Err(e) => {
                return Err(e);
            },
        };
        self.data_unit_bytes(encoded)
    }

    /// Removes the data unit.
    pub fn no_data_unit(self) -> (r: Self)
        ensures
            r@ == (PacketBuilderView { data_unit: None, ..self@ }),
    {
        proof {
            use_type_invariant(&self);
        }
        let mut s = self;
        s.data_unit = None;
        s
    }

    /// Whether `v` is a builder with the given sequence number, version 1.0,
    /// a valid time label, the given addresses and command, and the given
    /// data unit.
    pub open spec fn preset(
        v: PacketBuilderView,
        sequence: u16,
        source_addr: u64,
        dest_addr: u64,
        command: Command,
        data_unit: Option<Seq<u8>>,
    ) -> bool {
        &&& v.sequence == Some(sequence)
        &&& v.version == Some(ProtocolVersion { major: 1, minor: 0 })
        &&& v.timestamp matches Some(t) && t.spec_is_valid()
        &&& v.source_addr == Some(source_addr)
        &&& v.dest_addr == Some(dest_addr)
        &&& v.command == Some(command)
        &&& v.data_unit == data_unit
    }

    fn preset_builder(sequence: u16, source_addr: u64, dest_addr: u64, command: Command) -> (r: EncodeResult<Self>)
        ensures
            r is Ok <==> (source_addr <= MAX_ADDR && dest_addr <= MAX_ADDR),
            r matches Ok(b) ==> Self::preset(b@, sequence, source_addr, dest_addr, command, None),
            source_addr > MAX_ADDR ==> (r matches Err(e) && address_error_of(
                "source_address"@,
                source_addr,
                e,
            )),
            source_addr <= MAX_ADDR && dest_addr > MAX_ADDR ==> (r matches Err(e)
                && address_error_of("destination_address"@, dest_addr, e)),
    {
        let b = PacketBuilder::new().sequence(sequence).default_version().current_timestamp();
        let b = match b.source_address(source_addr) {
            Ok(b) => b,
            Err(e) => {
                return Err(e);
            },
        };
        let b = match b.destination_address(dest_addr) {
            Ok(b) => b,
            Err(e) => {
                return Err(e);
            },
        };
        Ok(b.command(command).no_data_unit())
    }

    /// A builder for a heartbeat: send-data command without data unit.
    pub fn heartbeat(sequence: u16, source_addr: u64, dest_addr: u64) -> (r: EncodeResult<Self>)
        ensures
            r is Ok <==> (source_addr <= MAX_ADDR && dest_addr <= MAX_ADDR),
            r matches Ok(b) ==> Self::preset(
                b@,
                sequence,
                source_addr,
                dest_addr,
                Command::SendData,
                None,
            ),
            source_addr > MAX_ADDR ==> (r matches Err(e) && address_error_of(
                "source_address"@,
                source_addr,
                e,
            )),
            source_addr <= MAX_ADDR && dest_addr > MAX_ADDR ==> (r matches Err(e)
                && address_error_of("destination_address"@, dest_addr, e)),
    {
        Self::preset_builder(sequence, source_addr, dest_addr, Command::SendData)
    }

    /// A builder for a status query: request command without data unit.
    pub fn status_query(sequence: u16, source_addr: u64, dest_addr: u64) -> (r: EncodeResult<Self>)
        ensures
            r is Ok <==> (source_addr <= MAX_ADDR && dest_addr <= MAX_ADDR),
            r matches Ok(b) ==> Self::preset(
                b@,
                sequence,
                source_addr,
                dest_addr,
                Command::Request,
                None,
            ),
            source_addr > MAX_ADDR ==> (r matches Err(e) && address_error_of(
                "source_address"@,
                source_addr,
                e,
            )),
            source_addr <= MAX_ADDR && dest_addr > MAX_ADDR ==> (r matches Err(e)
                && address_error_of("destination_address"@, dest_addr, e)),
    {
        Self::preset_builder(sequence, source_addr, dest_addr, Command::Request)
    }

    /// A builder for a status upload: send-data command carrying the bytes
    /// of `data_unit`.
    pub fn status_upload(
        sequence: u16,
        source_addr: u64,
        dest_addr: u64,
        data_unit: GenericDataUnit,
    ) -> (r: EncodeResult<Self>)
        ensures
            r is Ok <==> (source_addr <= MAX_ADDR && dest_addr <= MAX_ADDR
                && data_unit.spec_encoding().len() <= 1024),
            r matches Ok(b) ==> Self::preset(
                b@,
                sequence,
                source_addr,
                dest_addr,
                Command::SendData,
                Some(data_unit.spec_encoding()),
            ),
            source_addr > MAX_ADDR ==> (r matches Err(e) && address_error_of(
                "source_address"@,
                source_addr,
                e,
            )),
            source_addr <= MAX_ADDR && dest_addr > MAX_ADDR ==> (r matches Err(e)
                && address_error_of("destination_address"@, dest_addr, e)),
            source_addr <= MAX_ADDR && dest_addr <= MAX_ADDR && data_unit.spec_encoding().len()
                > 1024 ==> (r matches Err(EncodeError::DataTooLarge { .. })),
    {
        let b = match Self::preset_builder(sequence, source_addr, dest_addr, Command::SendData) {
            Ok(b) => b,
            Err(e) => {
                return Err(e);
            },
        };
        b.data_unit(data_unit)
    }

    /// A builder for an acknowledgement: acknowledge command without data
    /// unit.
    pub fn acknowledgment(sequence: u16, source_addr: u64, dest_addr: u64) -> (r: EncodeResult<Self>)
        ensures
            r is Ok <==> (source_addr <= MAX_ADDR && dest_addr <= MAX_ADDR),
            r matches Ok(b) ==> Self::preset(
                b@,
                sequence,
                source_addr,
                dest_addr,
                Command::Acknowledge,
                None,
            ),
            source_addr > MAX_ADDR ==> (r matches Err(e) && address_error_of(
                "source_address"@,
                source_addr,
                e,
            )),
            source_addr <= MAX_ADDR && dest_addr > MAX_ADDR ==> (r matches Err(e)
                && address_error_of("destination_address"@, dest_addr, e)),
    {
        Self::preset_builder(sequence, source_addr, dest_addr, Command::Acknowledge)
    }

    /// The sequence number, once set.
    pub fn get_sequence(&self) -> (r: Option<u16>)
        ensures
            r == self@.sequence,
    {
        self.sequence
    }

    /// The source address, once set.
    pub fn get_source_address(&self) -> (r: Option<u64>)
        ensures
            r == self@.source_addr,
    {
        self.source_addr
    }

    /// The destination address, once set.
    pub fn get_destination_address(&self) -> (r: Option<u64>)
        ensures
            r == self@.dest_addr,
    {
        self.dest_addr
    }

    /// The command, once set.
    pub fn get_command(&self) -> (r: Option<Command>)
        ensures
            r == self@.command,
    {
        self.command
    }

    /// Whether a data unit is set.
    pub fn has_data_unit(&self) -> (r: bool)
        ensures
            r == self@.data_unit is Some,
    {
        self.data_unit.is_some()
    }

    /// Length of the data unit, zero when there is none.
    pub fn data_unit_length(&self) -> (r: usize)
        ensures
            r == (match self@.data_unit {
                Some(d) => d.len(),
                None => 0,
            }),
    {
        match &self.data_unit {
            Some(d) => d.len(),
            None => 0,
        }
    }
}

impl Clone for PacketBuilder {
    fn clone(&self) -> (r: Self)
        ensures
            r@ == self@,
    {
        proof {
            use_type_invariant(self);
        }
        PacketBuilder {
            sequence: self.sequence,
            version: self.version,
            timestamp: self.timestamp,
            source_addr: self.source_addr,
            dest_addr: self.dest_addr,
            command: self.command,
            data_unit: match &self.data_unit {
                Some(d) => Some(vstd::slice::slice_to_vec(d.as_slice())),
                None => None,
            },
        }
    }
}

impl Builder<Packet> for PacketBuilder {
    /// Success exactly when no field but the data unit is missing: then the
    /// packet of the set fields, else the error naming the first missing one.
    open spec fn builds(&self, r: EncodeResult<Packet>) -> bool {
        &&& r is Ok <==> first_missing_field(self@) is None
        &&& r matches Ok(p) ==> packet_of_builder(self@, p)
        &&& r matches Err(e) ==> e matches EncodeError::InvalidValue { field, value, .. } && Some(
            field@,
        ) == first_missing_field(self@) && value@ == "None"@
    }

    /// The packet made of the set fields, with the data unit length taken
    /// from the data unit; the first missing field is refused.
    fn build(self) -> (r: EncodeResult<Packet>)
        ensures
            r is Ok <==> first_missing_field(self@) is None,
            r matches Ok(p) ==> packet_of_builder(self@, p),
            r matches Err(e) ==> e matches EncodeError::InvalidValue { field, value, .. } && Some(
                field@,
            ) == first_missing_field(self@) && value@ == "None"@,
    {
        proof {
            use_type_invariant(&self);
        }
        match self.validate() {
            Ok(()) => {},
            Err(e) => {
                return Err(e);
            },
        }
        let len: usize = match &self.data_unit {
            Some(d) => d.len(),
            None => 0,
        };
        let control_unit = match ControlUnit::new(
            self.sequence.unwrap(),
            self.version.unwrap(),
            self.timestamp.unwrap(),
            self.source_addr.unwrap(),
            self.dest_addr.unwrap(),
            len as u16,
            self.command.unwrap(),
        ) {
            Ok(cu) => cu,
            Err(_) => {
                return Err(EncodeError::TypeConversion("Control unit creation failed".to_owned()));
            },
        };
        Packet::new(control_unit, self.data_unit)
    }

    /// `Ok` when every field but the data unit is set; otherwise an
    /// `InvalidValue` error naming the first missing field.
    fn validate(&self) -> (r: EncodeResult<()>)
        ensures
            r is Ok <==> first_missing_field(self@) is None,
            r matches Err(e) ==> e matches EncodeError::InvalidValue { field, value, .. } && Some(
                field@,
            ) == first_missing_field(self@) && value@ == "None"@,
    {
        if self.sequence.is_none() {
            return Err(missing_error("sequence", "业务流水号不能为空"));
        }
        if self.version.is_none() {
            return Err(missing_error("version", "协议版本号不能为空"));
        }
        if self.timestamp.is_none() {
            return Err(missing_error("timestamp", "时间标签不能为空"));
        }
        if self.source_addr.is_none() {
            return Err(missing_error("source_addr", "源地址不能为空"));
        }
        if self.dest_addr.is_none() {
            return Err(missing_error("dest_addr", "目的地址不能为空"));
        }
        if self.command.is_none() {
            return Err(missing_error("command", "命令字节不能为空"));
        }
        Ok(())
    }
}

impl ResettableBuilder<Packet> for PacketBuilder {
    /// No field is set.
    open spec fn is_initial(&self) -> bool {
        self@ == empty_packet_builder()
    }

    fn reset(&mut self)
        ensures
            final(self)@ == empty_packet_builder(),
    {
        proof {
            use_type_invariant(&*self);
        }
        self.sequence = None;
        self.version = None;
        self.timestamp = None;
        self.source_addr = None;
        self.dest_addr = None;
        self.command = None;
        self.data_unit = None;
    }
}

impl Default for PacketBuilder {
    fn default() -> (r: Self)
        ensures
            r@ == empty_packet_builder(),
    {
        Self::new()
    }
}

} // verus!
