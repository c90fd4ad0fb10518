//! State of a building fire facility component: system type and address,
//! component type, four-byte component address, two state bytes, a 31-byte
//! description and a time label, 46 bytes in all.
use super::InfoObject;
use crate::error::{EncodeResult, ParseError, ParseResult};
use crate::frame::timestamp::{
    bytes_are_valid_timestamp, timestamp_error_of, timestamp_of_bytes, Timestamp,
};
use crate::protocol::{ComponentType, SystemType};
use crate::text::{trim_nul_end, trim_trailing_nul, utf8_str};
use crate::wire::{
    append_bytes, le16, le16_bytes, le32, le32_bytes, lemma_le16_roundtrip, lemma_le32_roundtrip,
    u16_from_le, u16_to_le, u32_from_le, u32_to_le,
};
use vstd::prelude::*;
use vstd::string::StringSliceAdditionalSpecFns;

verus! {

/// State of a building fire facility component.
#[derive(Debug, Clone, Copy, PartialEq, Eq)]
pub struct ComponentStatus {
    /// system type code
    pub system_type: SystemType,
    /// system address
    pub system_address: u8,
    /// component type code
    pub component_type: ComponentType,
    /// component address (little-endian on the wire)
    pub component_address: u32,
    /// state flags (little-endian on the wire)
    pub component_state: u16,
    /// description text bytes, zero padded
    pub component_description: [u8; 31],
    /// time label
    pub timestamp: Timestamp,
}

/// Whether `c` holds the component state written in the first 46 bytes of
/// `b`.
pub open spec fn component_status_matches(c: ComponentStatus, b: Seq<u8>) -> bool {
    &&& c.system_type == SystemType::spec_from_u8(b[0])
    &&& c.system_address == b[1]
    &&& c.component_type == ComponentType::spec_from_u8(b[2])
    &&& c.component_address == le32(b[3], b[4], b[5], b[6])
    &&& c.component_state == le16(b[7], b[8])
    &&& c.component_description@ == b.subrange(9, 40)
    &&& c.timestamp == timestamp_of_bytes(b.subrange(40, 46))
}

/// Whether the first 46 bytes of `b` hold a component state with a valid time label.
pub open spec fn component_status_bytes_ok(b: Seq<u8>) -> bool {
    b.len() >= 46 && bytes_are_valid_timestamp(b.subrange(40, 46))
}

/// The outcome of reading a component state from `b`.
pub open spec fn component_status_parse_ok(b: Seq<u8>, r: ParseResult<ComponentStatus>) -> bool {
    &&& r is Ok <==> (b.len() >= 46 && bytes_are_valid_timestamp(b.subrange(40, 46)))
    &&& r matches Ok(c) ==> component_status_matches(c, b)
    &&& b.len() < 46 ==> (r matches Err(ParseError::TooShort { actual, expected }) && actual
        == b.len() && expected == 46)
    &&& b.len() >= 46 && !bytes_are_valid_timestamp(b.subrange(40, 46)) ==> (r matches Err(e)
        && timestamp_error_of(b.subrange(40, 46), e))
}

/// A 31-byte description field holding the first 31 bytes of `text`,
/// padded with zeros.
pub open spec fn description_field(text: Seq<u8>) -> Seq<u8> {
    Seq::new(31, |i: int| if i < text.len() { text[i] } else { 0u8 })
}

/// The text of a description field: its bytes up to the trailing zeros,
/// read as UTF-8, or `None` when the field is not valid UTF-8.
pub open spec fn description_text_of(field: Seq<u8>) -> Option<Seq<char>> {
    if vstd::utf8::valid_utf8(field) {
        Some(trim_trailing_nul(vstd::utf8::decode_utf8(field)))
    } else {
        None
    }
}

/// Copies up to 31 bytes of `text` into a zero-padded description field.
pub fn description_bytes(text: &[u8]) -> (r: [u8; 31])
    ensures
        r@ == description_field(text@),
{
    let mut desc: [u8; 31] = vstd::array::array_fill_for_copy_types(0u8);
    proof {
        broadcast use vstd::array::axiom_spec_array_fill_for_copy_type;

        assert(desc == vstd::array::spec_array_fill_for_copy_type::<u8, 31>(0u8));
    }
    let mut i: usize = 0;
    while i < 31
        invariant
            i <= 31,
            forall|k: int| 0 <= k < i ==> desc@[k] == description_field(text@)[k],
            forall|k: int| i <= k < 31 ==> desc@[k] == 0u8,
        decreases 31 - i,
    {
        if i < text.len() {
            desc[i] = text[i];
        }
        i = i + 1;
    }
    proof {
        assert(desc@ =~= description_field(text@));
    }
    desc
}

impl ComponentStatus {
    /// The 46 bytes of the object.
    pub open spec fn spec_bytes(self) -> Seq<u8> {
        seq![self.system_type.spec_to_u8(), self.system_address, self.component_type.spec_to_u8()]
            + le32_bytes(self.component_address) + le16_bytes(self.component_state)
            + self.component_description@ + self.timestamp.spec_bytes()
    }

    /// A component state whose bytes read back as itself.
    pub open spec fn wire_representable(self) -> bool {
        &&& self.system_type.well_formed()
        &&& self.component_type.well_formed()
        &&& self.timestamp.spec_is_valid()
    }

    /// Creates a component state.
    pub fn new(
        system_type: SystemType,
        system_address: u8,
        component_type: ComponentType,
        component_address: u32,
        component_state: u16,
        component_description: [u8; 31],
        timestamp: Timestamp,
    ) -> (r: Self)
        ensures
            r == (ComponentStatus {
                system_type,
                system_address,
                component_type,
                component_address,
                component_state,
                component_description,
                timestamp,
            }),
    {
        Self {
            system_type,
            system_address,
            component_type,
            component_address,
            component_state,
            component_description,
            timestamp,
        }
    }

    /// Replaces the description with the UTF-8 bytes of `text`, cut to 31
    /// bytes and padded with zeros.
    pub fn with_description_text(self, text: &str) -> (r: Self)
        ensures
            r.component_description@ == description_field(text.spec_bytes()),
            r == (ComponentStatus { component_description: r.component_description, ..self }),
    {
        let mut s = self;
        s.component_description = description_bytes(text.as_bytes());
        s
    }

    /// The description as text: the field read as UTF-8 without its trailing
    /// NUL characters; `None` when the field is not valid UTF-8.
    pub fn description_text(&self) -> (r: Result<&str, std::str::Utf8Error>)
        ensures
            r matches Ok(t) ==> description_text_of(self.component_description@) == Some(t@),
            r is Err <==> description_text_of(self.component_description@) is None,
    {
        match utf8_str(&self.component_description) {
            Ok(t) => Ok(trim_nul_end(t)),
            Err(e) => Err(e),
        }
    }
}

impl InfoObject for ComponentStatus {
    /// Type code 2.
    fn object_type(&self) -> (r: u8)
        ensures
            r == 2,
    {
        2
    }

    fn description(&self) -> (r: Option<&str>)
        ensures
            r matches Some(t) && t@ == "建筑消防设施部件状态"@,
    {
        Some("建筑消防设施部件状态")
    }

    fn encode(&self) -> (r: EncodeResult<Vec<u8>>)
        ensures
            r matches Ok(v) && v@ == self.spec_bytes(),
    {
        let mut buf: Vec<u8> = Vec::with_capacity(46);
        buf.push(self.system_type.to_u8());
        buf.push(self.system_address);
        buf.push(self.component_type.to_u8());
        let addr = u32_to_le(self.component_address);
        append_bytes(&mut buf, &addr);
        let st = u16_to_le(self.component_state);
        append_bytes(&mut buf, &st);
        append_bytes(&mut buf, &self.component_description);
        let ts = self.timestamp.to_bytes();
        append_bytes(&mut buf, &ts);
        proof {
            assert(buf@ =~= self.spec_bytes());
        }
        Ok(buf)
    }

    fn parse(data: &[u8]) -> (r: ParseResult<Self>)
        ensures
            component_status_parse_ok(data@, r),
    {
        if data.len() < 46 {
            return Err(ParseError::TooShort { actual: data.len(), expected: 46 });
        }
        let system_type = SystemType::from_u8(data[0]);
        let system_address = data[1];
        let component_type = ComponentType::from_u8(data[2]);
        let component_address = u32_from_le(data[3], data[4], data[5], data[6]);
        let component_state = u16_from_le(data[7], data[8]);
        let component_description = description_bytes(&data[9..40]);
        proof {
            assert(description_field(data@.subrange(9, 40)) =~= data@.subrange(9, 40));
        }
        let timestamp = match Timestamp::from_bytes(&data[40..46]) {
            Ok(t) => t,
            Err(e) => {
                return Err(e);
            },
        };
        Ok(
            ComponentStatus::new(
                system_type,
                system_address,
                component_type,
                component_address,
                component_state,
                component_description,
                timestamp,
            ),
        )
    }

    fn timestamp(&self) -> (r: Option<&Timestamp>)
        ensures
            r == Some(&self.timestamp),
    {
        Some(&self.timestamp)
    }
}

/// Reading back the bytes of a representable component state gives the
/// state.
pub proof fn law_component_status_roundtrip(c: ComponentStatus)
    requires
        c.wire_representable(),
    ensures
        c.spec_bytes().len() == 46,
        bytes_are_valid_timestamp(c.spec_bytes().subrange(40, 46)),
        component_status_matches(c, c.spec_bytes()),
{
    let b = c.spec_bytes();
    lemma_le16_roundtrip(c.component_state);
    lemma_le32_roundtrip(c.component_address);
    assert(b.subrange(9, 40) =~= c.component_description@);
    assert(b.subrange(40, 46) =~= c.timestamp.spec_bytes());
    assert(timestamp_of_bytes(c.timestamp.spec_bytes()) == c.timestamp);
}

/// Encoding a concatenation gives the concatenated encodings.
proof fn lemma_encode_utf8_concat(a: Seq<char>, b: Seq<char>)
    ensures
        vstd::utf8::encode_utf8(a + b) == vstd::utf8::encode_utf8(a) + vstd::utf8::encode_utf8(b),
    decreases a.len(),
{
    if a.len() > 0 {
        lemma_encode_utf8_concat(a.drop_first(), b);
        assert((a + b).drop_first() =~= a.drop_first() + b);
        assert((a + b)[0] == a[0]);
        assert(vstd::utf8::encode_utf8(a + b) =~= vstd::utf8::encode_scalar(a[0] as u32)
            + (vstd::utf8::encode_utf8(a.drop_first()) + vstd::utf8::encode_utf8(b)));
    } else {
        assert(a + b =~= b);
    }
}

/// NUL characters encode to zero bytes, one each.
proof fn lemma_encode_utf8_nuls(n: nat)
    ensures
        vstd::utf8::encode_utf8(Seq::new(n, |i: int| '\0')) == Seq::new(n, |i: int| 0u8),
    decreases n,
{
    let z = Seq::new(n, |i: int| '\0');
    if n > 0 {
        lemma_encode_utf8_nuls((n - 1) as nat);
        assert(z.drop_first() =~= Seq::new((n - 1) as nat, |i: int| '\0'));
        assert(0u32 & 0x7F == 0) by (bit_vector);
        assert(z[0] as u32 == 0u32);
        assert(vstd::utf8::encode_scalar(z[0] as u32) =~= seq![0u8]);
        assert(vstd::utf8::encode_utf8(z) =~= Seq::new(n, |i: int| 0u8));
    } else {
        assert(vstd::utf8::encode_utf8(z) =~= Seq::new(n, |i: int| 0u8));
    }
}

/// Trailing NUL characters after a text not ending in one are trimmed off.
proof fn lemma_trim_nuls(t: Seq<char>, n: nat)
    requires
        t.len() == 0 || t.last() != '\0',
    ensures
        trim_trailing_nul(t + Seq::new(n, |i: int| '\0')) == t,
    decreases n,
{
    let u = t + Seq::new(n, |i: int| '\0');
    if n > 0 {
        lemma_trim_nuls(t, (n - 1) as nat);
        assert(u.drop_last() =~= t + Seq::new((n - 1) as nat, |i: int| '\0'));
        assert(u.last() == '\0');
    } else {
        assert(u =~= t);
    }
}

/// A description set from a text of at most 31 bytes that does not end in a
/// NUL character reads back as that text.
pub proof fn law_description_text_roundtrip(text: Seq<char>)
    requires
        vstd::utf8::encode_utf8(text).len() <= 31,
        text.len() == 0 || text.last() != '\0',
    ensures
        description_text_of(description_field(vstd::utf8::encode_utf8(text))) == Some(text),
{
    let e = vstd::utf8::encode_utf8(text);
    let k = e.len();
    let n = (31 - k) as nat;
    let z = Seq::new(n, |i: int| '\0');
    lemma_encode_utf8_nuls(n);
    lemma_encode_utf8_concat(text, z);
    assert(description_field(e) =~= e + Seq::new(n, |i: int| 0u8));
    let field = vstd::utf8::encode_utf8(text + z);
    vstd::utf8::encode_utf8_valid_utf8(text + z);
    vstd::utf8::encode_utf8_decode_utf8(text + z);
    lemma_trim_nuls(text, n);
}

} // verus!
