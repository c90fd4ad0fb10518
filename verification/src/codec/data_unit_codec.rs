//! Data unit codec: a data unit as its type flag byte followed by its
//! content, one at a time or several in a row, with data units of
//! registered extension types kept as bytes.
use crate::data_unit::{generic_parse_ok, DataUnit, GenericDataUnit};
use crate::data_unit::upstream::UploadSystemStatus;
use crate::error::{EncodeError, EncodeResult, ParseError, ParseResult};
use crate::extension::{description_of, MacroExtensionRegistry, RegisteredExtension};
use crate::protocol::DataUnitType;
use crate::text::push_decimal;
use crate::wire::append_bytes;
use vstd::prelude::*;
use vstd::string::StringExecFns;

verus! {

/// The outcome of decoding `b`, a type flag byte and the content: with
/// extensions enabled, a flag of 128-254 gives an extension data unit when
/// `exts` has that flag, and an unknown one otherwise; any other flag goes
/// to `from_raw` for its type (the type's decoder, or the raw content when
/// the decoder refuses it).
pub open spec fn codec_decode_ok(
    enable: bool,
    exts: Seq<RegisteredExtension>,
    b: Seq<u8>,
    r: ParseResult<GenericDataUnit>,
) -> bool {
    if b.len() == 0 {
        r matches Err(ParseError::InsufficientData { expected, actual }) && expected == 1 && actual
            == 0
    } else if enable && 128 <= b[0] <= 254 {
        match description_of(exts, b[0]) {
            Some(d) => r matches Ok(GenericDataUnit::Extension { type_code, data, description })
                && type_code == b[0] && data@ == b.skip(1) && description@ == d,
            None => r matches Ok(GenericDataUnit::Unknown { data_unit_type, raw_data })
                && data_unit_type == DataUnitType::UserDefined(b[0]) && raw_data@ == b.skip(1),
        }
    } else {
        generic_parse_ok(DataUnitType::spec_from_u8(b[0]), b.skip(1), r)
    }
}

/// The bytes of a data unit with its type flag in front.
pub open spec fn flagged_encoding(u: GenericDataUnit) -> Seq<u8> {
    seq![u.spec_type().spec_to_u8()] + u.spec_encoding()
}

/// The bytes of several data units in a row.
pub open spec fn batch_encoding(s: Seq<GenericDataUnit>) -> Seq<u8>
    decreases s.len(),
{
    if s.len() == 0 {
        Seq::empty()
    } else {
        batch_encoding(s.drop_last()) + flagged_encoding(s.last())
    }
}

/// The outcome of decoding data units in a row from `b`: each decoded unit
/// takes one byte more than its own encoding; the decoding stops at the
/// first error, or with `InsufficientData` when a unit's encoding would run
/// past the end.
pub open spec fn batch_decode_ok(
    enable: bool,
    exts: Seq<RegisteredExtension>,
    b: Seq<u8>,
    r: ParseResult<Seq<GenericDataUnit>>,
) -> bool
    decreases b.len(),
{
    if b.len() == 0 {
        r matches Ok(s) && s.len() == 0
    } else {
        ||| r matches Err(e) && codec_decode_ok(enable, exts, b, Err(e))
        ||| exists|u: GenericDataUnit|
            #[trigger] codec_decode_ok(enable, exts, b, Ok(u)) && {
                let k = 1 + u.spec_encoding().len() as int;
                if k > b.len() {
                    r matches Err(ParseError::InsufficientData { expected, actual }) && expected
                        == (if k <= usize::MAX {
                        k
                    } else {
                        usize::MAX as int
                    }) && actual == b.len()
                } else {
                    match r {
                        Ok(s) => s.len() > 0 && s[0] == u && batch_decode_ok(
                            enable,
                            exts,
                            b.skip(k),
                            Ok(s.drop_first()),
                        ),
                        Err(e) => batch_decode_ok(enable, exts, b.skip(k), Err(e)),
                    }
                }
            }
    }
}

/// The decoded units `prefix` followed by the outcome `rest` of decoding
/// what comes after them.
pub open spec fn after(
    prefix: Seq<GenericDataUnit>,
    rest: ParseResult<Seq<GenericDataUnit>>,
) -> ParseResult<Seq<GenericDataUnit>> {
    match rest {
        Ok(s) => Ok(prefix + s),
        Err(e) => Err(e),
    }
}

/// A batch whose first data unit does not decode fails with that error.
proof fn lemma_batch_error_first(
    enable: bool,
    exts: Seq<RegisteredExtension>,
    b: Seq<u8>,
    e: ParseError,
)
    requires
        b.len() > 0,
        codec_decode_ok(enable, exts, b, Err(e)),
    ensures
        batch_decode_ok(enable, exts, b, Err(e)),
{
}

/// A batch whose first data unit's encoding runs past the end fails with
/// `InsufficientData`.
proof fn lemma_batch_short(
    enable: bool,
    exts: Seq<RegisteredExtension>,
    b: Seq<u8>,
    u: GenericDataUnit,
    e: ParseError,
)
    requires
        b.len() > 0,
        codec_decode_ok(enable, exts, b, Ok(u)),
        1 + u.spec_encoding().len() > b.len(),
        e matches ParseError::InsufficientData { expected, actual } && expected == (if 1
            + u.spec_encoding().len() <= usize::MAX {
            1 + u.spec_encoding().len() as int
        } else {
            usize::MAX as int
        }) && actual == b.len(),
    ensures
        batch_decode_ok(enable, exts, b, Err(e)),
{
    assert(codec_decode_ok(enable, exts, b, Ok(u)));
}

/// A batch whose first data unit decodes and fits goes on after it.
proof fn lemma_batch_step(
    enable: bool,
    exts: Seq<RegisteredExtension>,
    b: Seq<u8>,
    u: GenericDataUnit,
    rest: ParseResult<Seq<GenericDataUnit>>,
)
    requires
        b.len() > 0,
        codec_decode_ok(enable, exts, b, Ok(u)),
        1 + u.spec_encoding().len() <= b.len(),
        batch_decode_ok(enable, exts, b.skip(1 + u.spec_encoding().len() as int), rest),
    ensures
        batch_decode_ok(enable, exts, b, after(seq![u], rest)),
{
    if let Ok(s) = rest {
        assert((seq![u] + s).drop_first() =~= s);
    }
    assert(codec_decode_ok(enable, exts, b, Ok(u)));
}

/// Appending a decoded unit to the prefix.
proof fn lemma_after_push(
    prefix: Seq<GenericDataUnit>,
    u: GenericDataUnit,
    rest: ParseResult<Seq<GenericDataUnit>>,
)
    ensures
        after(prefix, after(seq![u], rest)) == after(prefix.push(u), rest),
{
    if let Ok(s) = rest {
        assert(prefix + (seq![u] + s) =~= prefix.push(u) + s);
    }
}

/// The data unit codec reads back what it writes, for every data unit that
/// its type's own decoder reads back from its bytes (and whose type flag is
/// not taken over by the extension lookup).
pub proof fn law_data_unit_codec_roundtrip(
    enable: bool,
    exts: Seq<RegisteredExtension>,
    g: GenericDataUnit,
)
    requires
        generic_parse_ok(g.spec_type(), g.spec_encoding(), Ok(g)),
        g.spec_type().well_formed(),
        !(enable && 128 <= g.spec_type().spec_to_u8() <= 254),
    ensures
        codec_decode_ok(enable, exts, flagged_encoding(g), Ok(g)),
{
    let b = flagged_encoding(g);
    assert(b.skip(1) =~= g.spec_encoding());
    assert(b[0] == g.spec_type().spec_to_u8());
}

/// For the upload of a system state (the README's example), decoding the
/// codec's bytes gives the same data unit back.
pub proof fn law_upload_system_status_codec_roundtrip(
    enable: bool,
    exts: Seq<RegisteredExtension>,
    u: UploadSystemStatus,
)
    requires
        u.object_count == 1,
        u.system_status.wire_representable(),
        u.timestamp.spec_is_valid(),
    ensures
        codec_decode_ok(
            enable,
            exts,
            flagged_encoding(GenericDataUnit::UploadSystemStatus(u)),
            Ok(GenericDataUnit::UploadSystemStatus(u)),
        ),
{
    crate::data_unit::upstream::law_upload_system_status_roundtrip(u);
    law_data_unit_codec_roundtrip(enable, exts, GenericDataUnit::UploadSystemStatus(u));
}

/// Whether every unit of the batch is an upload of a system state that its
/// bytes represent: one object, a representable state and a valid time.
pub open spec fn representable_status_uploads(s: Seq<GenericDataUnit>) -> bool {
    forall|i: int| 0 <= i < s.len() ==> is_representable_status_upload(#[trigger] s[i])
}

/// Whether the unit is an upload of a system state that its bytes
/// represent.
pub open spec fn is_representable_status_upload(g: GenericDataUnit) -> bool {
    match g {
        GenericDataUnit::UploadSystemStatus(u) => u.object_count == 1
            && u.system_status.wire_representable() && u.timestamp.spec_is_valid(),
        _ => false,
    }
}

/// The bytes of a batch are the first unit's flagged bytes followed by the
/// bytes of the rest.
proof fn lemma_batch_encoding_front(s: Seq<GenericDataUnit>)
    requires
        s.len() > 0,
    ensures
        batch_encoding(s) == flagged_encoding(s[0]) + batch_encoding(s.drop_first()),
    decreases s.len(),
{
    if s.len() == 1 {
        assert(s.drop_first() =~= Seq::<GenericDataUnit>::empty());
        assert(s.drop_last() =~= Seq::<GenericDataUnit>::empty());
        assert(batch_encoding(s.drop_last()) =~= Seq::<u8>::empty());
        assert(batch_encoding(s.drop_first()) =~= Seq::<u8>::empty());
        assert(batch_encoding(s) =~= flagged_encoding(s[0]));
    } else {
        lemma_batch_encoding_front(s.drop_last());
        assert(s.drop_last().drop_first() =~= s.drop_first().drop_last());
        assert(s.drop_first().last() == s.last());
        assert(s.drop_last()[0] == s[0]);
        assert(batch_encoding(s) =~= flagged_encoding(s[0]) + batch_encoding(s.drop_first()));
    }
}

/// The first unit of a batch of uploads of system states is what decoding
/// the batch's bytes gives, and it takes its own 17 bytes and the flag.
#[verifier::spinoff_prover]
proof fn lemma_status_upload_first(
    enable: bool,
    exts: Seq<RegisteredExtension>,
    s: Seq<GenericDataUnit>,
)
    requires
        s.len() > 0,
        is_representable_status_upload(s[0]),
    ensures
        batch_encoding(s).len() >= 18,
        s[0].spec_encoding().len() == 17,
        batch_encoding(s).skip(18) == batch_encoding(s.drop_first()),
        codec_decode_ok(enable, exts, batch_encoding(s), Ok(s[0])),
        forall|v: GenericDataUnit|
            #[trigger] codec_decode_ok(enable, exts, batch_encoding(s), Ok(v)) ==> v == s[0],
        forall|e: ParseError| !#[trigger] codec_decode_ok(enable, exts, batch_encoding(s), Err(e)),
{
    let b = batch_encoding(s);
    let g = s[0];
    let u = match g {
        GenericDataUnit::UploadSystemStatus(u) => u,
        _ => arbitrary(),
    };
    lemma_batch_encoding_front(s);
    let tail = batch_encoding(s.drop_first());
    let enc = u.spec_encoding();
    crate::info_object::system_status::law_system_status_roundtrip(u.system_status);
    crate::data_unit::upstream::law_upload_system_status_roundtrip(u);
    assert(enc.len() == 17);
    assert(b =~= seq![1u8] + enc + tail);
    let body = b.skip(1);
    assert(body =~= enc + tail);
    assert(body.subrange(1, 11) =~= enc.subrange(1, 11));
    assert(body.subrange(11, 17) =~= enc.subrange(11, 17));
    assert(crate::data_unit::upstream::upload_system_status_parse_ok(body, Ok(u)));
    assert(codec_decode_ok(enable, exts, b, Ok(g)));
    assert(b.skip(18) =~= tail);
    assert forall|v: GenericDataUnit| #[trigger] codec_decode_ok(enable, exts, b, Ok(v)) implies v
        == g by {
        if let GenericDataUnit::UploadSystemStatus(w) = v {
            assert(w == u);
        }
    }
    assert forall|e: ParseError| !#[trigger] codec_decode_ok(enable, exts, b, Err(e)) by {
        if codec_decode_ok(enable, exts, b, Err(e)) {
            law_decode_outcome_exclusive(enable, exts, b, g, e);
        }
    }
}

/// The codec reads a batch of uploads of system states back from the bytes
/// it writes for them: decoding the batch's bytes has exactly one outcome,
/// the batch itself.
pub proof fn law_status_upload_batch_roundtrip(
    enable: bool,
    exts: Seq<RegisteredExtension>,
    s: Seq<GenericDataUnit>,
)
    requires
        representable_status_uploads(s),
    ensures
        batch_decode_ok(enable, exts, batch_encoding(s), Ok(s)),
        forall|r: ParseResult<Seq<GenericDataUnit>>|
            #[trigger] batch_decode_ok(enable, exts, batch_encoding(s), r) ==> r == Ok::<
                Seq<GenericDataUnit>,
                ParseError,
            >(s),
    decreases s.len(),
{
    let b = batch_encoding(s);
    if s.len() == 0 {
        assert(b =~= Seq::<u8>::empty());
        assert forall|r: ParseResult<Seq<GenericDataUnit>>|
            #[trigger] batch_decode_ok(enable, exts, b, r) implies r == Ok::<
                Seq<GenericDataUnit>,
                ParseError,
            >(s) by {
            if let Ok(t) = r {
                assert(t =~= s);
            }
        }
    } else {
        let g = s[0];
        assert(is_representable_status_upload(g));
        let rest = s.drop_first();
        assert(representable_status_uploads(rest)) by {
            assert forall|i: int| 0 <= i < rest.len() implies is_representable_status_upload(
                #[trigger] rest[i],
            ) by {
                assert(rest[i] == s[i + 1]);
            }
        }
        law_status_upload_batch_roundtrip(enable, exts, rest);
        lemma_status_upload_first(enable, exts, s);
        assert(s.drop_first() =~= rest);
        assert(batch_decode_ok(enable, exts, b, Ok(s)));
        assert forall|r: ParseResult<Seq<GenericDataUnit>>|
            #[trigger] batch_decode_ok(enable, exts, b, r) implies r == Ok::<
                Seq<GenericDataUnit>,
                ParseError,
            >(s) by {
            let tail = batch_encoding(rest);
            assert(b.skip(18) == tail);
            if exists|e: ParseError| r == Err::<Seq<GenericDataUnit>, ParseError>(e)
                && codec_decode_ok(enable, exts, b, Err(e)) {
                let e = choose|e: ParseError| r == Err::<Seq<GenericDataUnit>, ParseError>(e)
                    && codec_decode_ok(enable, exts, b, Err(e));
                assert(!codec_decode_ok(enable, exts, b, Err(e)));
            }
            let u = choose|u: GenericDataUnit|
                #[trigger] codec_decode_ok(enable, exts, b, Ok(u)) && {
                    let k = 1 + u.spec_encoding().len() as int;
                    if k > b.len() {
                        r matches Err(ParseError::InsufficientData { expected, actual })
                            && expected == (if k <= usize::MAX {
                            k
                        } else {
                            usize::MAX as int
                        }) && actual == b.len()
                    } else {
                        match r {
                            Ok(t) => t.len() > 0 && t[0] == u && batch_decode_ok(
                                enable,
                                exts,
                                b.skip(k),
                                Ok(t.drop_first()),
                            ),
                            Err(e) => batch_decode_ok(enable, exts, b.skip(k), Err(e)),
                        }
                    }
                };
            assert(u == g);
            match r {
                Ok(t) => {
                    assert(batch_decode_ok(enable, exts, tail, Ok(t.drop_first())));
                    assert(t.drop_first() == rest);
                    assert(t =~= seq![t[0]] + t.drop_first());
                    assert(s =~= seq![s[0]] + rest);
                },
                Err(e) => {
                    assert(batch_decode_ok(enable, exts, tail, Err(e)));
                },
            }
        }
    }
}

/// Encodes and decodes application data units with their type flag.
#[derive(Debug, Clone)]
pub struct DataUnitCodec {
    /// whether type flags 128-254 are looked up among the extensions
    pub enable_extensions: bool,
    /// the extensions this codec knows
    pub registry: MacroExtensionRegistry,
}

impl DataUnitCodec {
    /// A codec for the standard data units.
    pub fn new() -> (r: Self)
        ensures
            !r.enable_extensions,
            r.registry.data_unit_extensions@.len() == 0,
    {
        DataUnitCodec { enable_extensions: false, registry: MacroExtensionRegistry::new() }
    }

    /// A codec that looks type flags 128-254 up among its extensions, of
    /// which it has none yet.
    pub fn with_extensions() -> (r: Self)
        ensures
            r.enable_extensions,
            r.registry.data_unit_extensions@.len() == 0,
    {
        DataUnitCodec { enable_extensions: true, registry: MacroExtensionRegistry::new() }
    }

    /// A codec that looks type flags 128-254 up in `registry`.
    pub fn with_registry(registry: MacroExtensionRegistry) -> (r: Self)
        ensures
            r.enable_extensions,
            r.registry == registry,
    {
        DataUnitCodec { enable_extensions: true, registry }
    }

    /// The type flag byte followed by the data unit's bytes.
    pub fn encode_generic(&self, data_unit: &GenericDataUnit) -> (r: EncodeResult<Vec<u8>>)
        ensures
            r matches Ok(v) && v@ == flagged_encoding(*data_unit),
    {
        let mut buf: Vec<u8> = Vec::new();
        buf.push(data_unit.data_unit_type().to_u8());
        let content = match data_unit.encode() {
            Ok(c) => c,
            Err(e) => {
                return Err(e);
            },
        };
        append_bytes(&mut buf, &content);
        proof {
            assert(buf@ =~= flagged_encoding(*data_unit));
        }
        Ok(buf)
    }

    /// Decodes a data unit from its type flag byte and content.
    pub fn decode_generic(&self, data: &[u8]) -> (r: ParseResult<GenericDataUnit>)
        ensures
            codec_decode_ok(
                self.enable_extensions,
                self.registry.data_unit_extensions@,
                data@,
                r,
            ),
    {
        if data.len() == 0 {
            return Err(ParseError::InsufficientData { expected: 1, actual: 0 });
        }
        let data_unit_type = DataUnitType::from_u8(data[0]);
        let content = &data[1..data.len()];
        proof {
            assert(content@ =~= data@.skip(1));
        }
        if self.enable_extensions && data[0] >= 128 && data[0] <= 254 {
            return self.decode_extension_data_unit(data[0], content);
        }
        GenericDataUnit::parse_from_type_and_content(data_unit_type, content)
    }

    /// An extension data unit when `type_code` is registered, and an
    /// unknown one otherwise; either keeps `content` as it is.
    fn decode_extension_data_unit(&self, type_code: u8, content: &[u8]) -> (r: ParseResult<GenericDataUnit>)
        ensures
            match description_of(self.registry.data_unit_extensions@, type_code) {
                Some(d) => r matches Ok(GenericDataUnit::Extension { type_code: t, data, description })
                    && t == type_code && data@ == content@ && description@ == d,
                None => r matches Ok(GenericDataUnit::Unknown { data_unit_type, raw_data })
                    && data_unit_type == DataUnitType::UserDefined(type_code) && raw_data@
                    == content@,
            },
    {
        match self.registry.find_data_unit(type_code) {
            Some(extension) => Ok(
                GenericDataUnit::Extension {
                    type_code,
                    data: vstd::slice::slice_to_vec(content),
                    description: extension.description.clone(),
                },
            ),
            None => Ok(
                GenericDataUnit::Unknown {
                    data_unit_type: DataUnitType::UserDefined(type_code),
                    raw_data: vstd::slice::slice_to_vec(content),
                },
            ),
        }
    }

    /// The extension data as it is when `type_code` is a registered data
    /// unit extension; `UnsupportedDataUnit` otherwise.
    pub fn encode_extension_data_unit(&self, type_code: u8, extension_data: &[u8]) -> (r: EncodeResult<Vec<u8>>)
        ensures
            r is Ok <==> description_of(self.registry.data_unit_extensions@, type_code) is Some,
            r matches Ok(v) ==> v@ == extension_data@,
            r matches Err(e) ==> e matches EncodeError::UnsupportedDataUnit { data_unit_type, .. }
                && data_unit_type == type_code,
    {
        match self.registry.find_data_unit(type_code) {
            Some(_) => Ok(vstd::slice::slice_to_vec(extension_data)),
            None => {
                let mut reason = "No extension registered for code ".to_owned();
                push_decimal(&mut reason, type_code as u64);
                Err(EncodeError::UnsupportedDataUnit { data_unit_type: type_code, reason })
            },
        }
    }

    /// The flagged encodings of the data units, one after another.
    pub fn encode_batch(&self, data_units: &[GenericDataUnit]) -> (r: EncodeResult<Vec<u8>>)
        ensures
            r matches Ok(v) && v@ == batch_encoding(data_units@),
    {
        let mut buf: Vec<u8> = Vec::new();
        let mut i: usize = 0;
        while i < data_units.len()
            invariant
                i <= data_units@.len(),
                buf@ == batch_encoding(data_units@.take(i as int)),
            decreases data_units@.len() - i,
        {
            let encoded = match self.encode_generic(&data_units[i]) {
                Ok(e) => e,
                Err(e) => {
                    return Err(e);
                },
            };
            append_bytes(&mut buf, &encoded);
            proof {
                assert(data_units@.take(i + 1).drop_last() =~= data_units@.take(i as int));
            }
            i = i + 1;
        }
        proof {
            assert(data_units@.take(data_units@.len() as int) =~= data_units@);
        }
        Ok(buf)
    }

    /// Decodes data units one after another until the bytes are used up.
    pub fn decode_batch(&self, data: &[u8]) -> (r: ParseResult<Vec<GenericDataUnit>>)
        ensures
            batch_decode_ok(
                self.enable_extensions,
                self.registry.data_unit_extensions@,
                data@,
                match r {
                    Ok(v) => Ok(v@),
                    Err(e) => Err(e),
                },
            ),
    {
        let ghost enable = self.enable_extensions;
        let ghost exts = self.registry.data_unit_extensions@;
        let mut results: Vec<GenericDataUnit> = Vec::new();
        let mut pos: usize = 0;
        proof {
            assert forall|rest: ParseResult<Seq<GenericDataUnit>>|
                #[trigger] batch_decode_ok(enable, exts, data@.skip(0), rest) implies batch_decode_ok(
                    enable,
                    exts,
                    data@,
                    after(results@, rest),
                ) by {
                assert(data@.skip(0) =~= data@);
                if let Ok(s) = rest {
                    assert(results@ + s =~= s);
                }
            }
        }
        while pos < data.len()
            invariant
                pos <= data@.len(),
                enable == self.enable_extensions,
                exts == self.registry.data_unit_extensions@,
                forall|rest: ParseResult<Seq<GenericDataUnit>>|
                    #[trigger] batch_decode_ok(enable, exts, data@.skip(pos as int), rest)
                        ==> batch_decode_ok(enable, exts, data@, after(results@, rest)),
            decreases data@.len() - pos,
        {
            let remaining = &data[pos..data.len()];
            proof {
                assert(remaining@ =~= data@.skip(pos as int));
            }
            let data_unit = match self.decode_generic(remaining) {
                Ok(u) => u,
                Err(e) => {
                    proof {
                        lemma_batch_error_first(enable, exts, remaining@, e);
                        assert(after(results@, Err(e)) == Err::<Seq<GenericDataUnit>, ParseError>(e));
                    }
                    return Err(e);
                },
            };
            let content = match data_unit.encode() {
                Ok(c) => c,
                Err(_) => {
                    return Err(
                        ParseError::InvalidValue {
                            field: "data_unit_content".to_owned(),
                            value: "failed to encode".to_owned(),
                            reason: "encoding error during batch decode".to_owned(),
                        },
                    );
                },
            };
            let remaining_len = data.len() - pos;
            if content.len() >= remaining_len {
                let e = ParseError::InsufficientData {
                    expected: content.len().saturating_add(1),
                    actual: remaining_len,
                };
                proof {
                    lemma_batch_short(enable, exts, remaining@, data_unit, e);
                }
                return Err(e);
            }
            let consumed = 1 + content.len();
            let ghost old_results = results@;
            let ghost old_pos = pos;
            results.push(data_unit);
            pos = pos + consumed;
            proof {
                assert(data@.skip(old_pos as int).skip(consumed as int) =~= data@.skip(pos as int));
                assert forall|rest: ParseResult<Seq<GenericDataUnit>>|
                    #[trigger] batch_decode_ok(enable, exts, data@.skip(pos as int), rest)
                        implies batch_decode_ok(enable, exts, data@, after(results@, rest)) by {
                    lemma_batch_step(enable, exts, data@.skip(old_pos as int), data_unit, rest);
                    lemma_after_push(old_results, data_unit, rest);
                }
            }
        }
        proof {
            let empty: Seq<GenericDataUnit> = Seq::empty();
            assert(batch_decode_ok(enable, exts, data@.skip(pos as int), Ok(empty)));
            assert(results@ + empty =~= results@);
        }
        Ok(results)
    }

    /// Decodes a data unit from its type flag byte and content (as
    /// `decode_generic`).
    pub fn decode_smart(&self, data: &[u8]) -> (r: ParseResult<GenericDataUnit>)
        ensures
            codec_decode_ok(
                self.enable_extensions,
                self.registry.data_unit_extensions@,
                data@,
                r,
            ),
    {
        if data.len() == 0 {
            return Err(ParseError::InsufficientData { expected: 1, actual: 0 });
        }
        self.decode_generic(data)
    }

    /// Whether the codec decodes type flag `type_code`: the standard flags
    /// 1-127 always, 128-254 when extensions are enabled and registered.
    pub fn supports_data_unit_type(&self, type_code: u8) -> (r: bool)
        ensures
            r == (1 <= type_code <= 127 || (self.enable_extensions && 128 <= type_code <= 254
                && description_of(self.registry.data_unit_extensions@, type_code) is Some)),
    {
        if type_code >= 1 && type_code <= 127 {
            return true;
        }
        if self.enable_extensions && type_code >= 128 && type_code <= 254 {
            return self.registry.find_data_unit(type_code).is_some();
        }
        false
    }

    /// The type flags of the registered data unit extensions; none when
    /// extensions are disabled.
    pub fn list_extension_data_unit_types(&self) -> (r: Vec<u8>)
        ensures
            !self.enable_extensions ==> r@.len() == 0,
            self.enable_extensions ==> r@.len() == self.registry.data_unit_extensions@.len()
                && forall|i: int|
                0 <= i < r@.len() ==> #[trigger] r@[i] == self.registry.data_unit_extensions@[i].code,
    {
        let mut r: Vec<u8> = Vec::new();
        if !self.enable_extensions {
            return r;
        }
        let exts = &self.registry.data_unit_extensions;
        let mut i: usize = 0;
        while i < exts.len()
            invariant
                i <= exts@.len(),
                r@.len() == i,
                forall|j: int| 0 <= j < i ==> #[trigger] r@[j] == exts@[j].code,
            decreases exts@.len() - i,
        {
            r.push(exts[i].code);
            i = i + 1;
        }
        r
    }

    /// The description of the data unit extension with `type_code`; none
    /// when extensions are disabled.
    pub fn get_extension_description(&self, type_code: u8) -> (r: Option<String>)
        ensures
            !self.enable_extensions ==> r is None,
            self.enable_extensions ==> match description_of(
                self.registry.data_unit_extensions@,
                type_code,
            ) {
                Some(d) => r matches Some(t) && t@ == d,
                None => r is None,
            },
    {
        if !self.enable_extensions {
            return None;
        }
        match self.registry.find_data_unit(type_code) {
            Some(e) => Some(e.description.clone()),
            None => None,
        }
    }
}

impl crate::codec::traits::Codec<GenericDataUnit> for DataUnitCodec {
    /// The flagged bytes of a data unit, as `encode_generic`.
    fn encode(&self, data_unit: &GenericDataUnit) -> (r: EncodeResult<Vec<u8>>)
        ensures
            r matches Ok(v) && v@ == flagged_encoding(*data_unit),
    {
        self.encode_generic(data_unit)
    }

    /// A data unit from its flag and content, as `decode_generic`.
    fn decode(&self, data: &[u8]) -> (r: ParseResult<GenericDataUnit>)
        ensures
            codec_decode_ok(
                self.enable_extensions,
                self.registry.data_unit_extensions@,
                data@,
                r,
            ),
    {
        self.decode_generic(data)
    }
}

impl Default for DataUnitCodec {
    fn default() -> (r: Self)
        ensures
            !r.enable_extensions,
            r.registry.data_unit_extensions@.len() == 0,
    {
        Self::new()
    }
}

/// Decoding a data unit either succeeds or fails, never both: no input has
/// both an accepted data unit and an error as its outcome.
pub proof fn law_decode_outcome_exclusive(
    enable: bool,
    exts: Seq<RegisteredExtension>,
    b: Seq<u8>,
    u: GenericDataUnit,
    e: ParseError,
)
    requires
        codec_decode_ok(enable, exts, b, Ok(u)),
    ensures
        !codec_decode_ok(enable, exts, b, Err(e)),
{
}

/// A data unit with a type flag and any content always decodes: what the
/// type's decoder refuses is kept as raw bytes.
pub proof fn law_flagged_data_unit_decodes(
    enable: bool,
    exts: Seq<RegisteredExtension>,
    b: Seq<u8>,
    e: ParseError,
)
    requires
        b.len() > 0,
    ensures
        !codec_decode_ok(enable, exts, b, Err(e)),
{
}

} // verus!
