//! The exmebus packet engine: the record type for "own data signal"
//! messages, the value codec that turns a decimal or text value into its
//! fixed-width byte encoding, the frame encoder that produces the exact
//! wire bytes, and the event-to-packet conversion.

use vstd::prelude::*;

verus! {

use vstd::bytes::*;
use vstd::string::StringSliceAdditionalSpecFns;
use crate::numparse::{parse_uint, parse_sint, parse_uint_str, parse_sint_str};
use crate::jsonio::{json_doc_parses, json_doc_of, json_parse, json_array_elems, json_as_array,
    json_value_is_object, json_is_object, json_field_of, json_get, json_u64_of, json_as_u64,
    json_str_of, json_as_str};

/// The error kinds of the conversion pipeline.
#[derive(Debug, Clone, Copy, PartialEq, Eq, Structural)]
pub enum MyError {
    ConversionError,
    ConversionNotDefined,
    PreliminaryDataNotValid,
}

/// Classification group of a data signal; this gateway only emits into the
/// user group.
pub enum DataSignalGroups {
    User,
}

impl DataSignalGroups {
    /// The numeric code of the group on the wire.
    pub open spec fn spec_code(self) -> u16 {
        match self {
            DataSignalGroups::User => 100,
        }
    }

    pub fn code(self) -> (r: u16)
        ensures
            r == self.spec_code(),
    {
        match self {
            DataSignalGroups::User => 100,
        }
    }
}

/// Sampling semantics of a signal value; this gateway only emits current
/// values.
pub enum SignalSampleTypes {
    Current,
}

impl SignalSampleTypes {
    /// The numeric code of the sample type on the wire.
    pub open spec fn spec_code(self) -> u8 {
        match self {
            SignalSampleTypes::Current => 0,
        }
    }

    pub fn code(self) -> (r: u8)
        ensures
            r == self.spec_code(),
    {
        match self {
            SignalSampleTypes::Current => 0,
        }
    }
}

/// The view types a signal value can declare; the codec defines an
/// encoding for the fixed-width integer tags, the float and the string,
/// and rejects the rest.
#[allow(non_camel_case_types)]
pub enum ViewTypes {
    V_VOID,
    V_BIT,
    V_SIGNED_CHAR,
    V_SIGNED_SHORT,
    V_SIGNED_LONG,
    V_UNSIGNED_CHAR,
    V_UNSIGNED_SHORT,
    V_UNSIGNED_LONG,
    V_FLOAT,
    V_STRING,
    V_HEX,
    V_BINARY,
    V_BE_SIGNED_SHORT,
    V_BE_SIGNED_LONG,
    V_BE_UNSIGNED_SHORT,
    V_BE_UNSIGNED_LONG,
    V_UNIX_TIME,
    V_TWO_BIT,
    V_SIGNED_LONG_LONG,
    V_UNSIGNED_LONG_LONG,
    V_DOUBLE,
}

impl ViewTypes {
    /// The numeric tag of the view type.
    pub open spec fn spec_tag(self) -> u8 {
        match self {
            ViewTypes::V_VOID => 0,
            ViewTypes::V_BIT => 1,
            ViewTypes::V_SIGNED_CHAR => 2,
            ViewTypes::V_SIGNED_SHORT => 3,
            ViewTypes::V_SIGNED_LONG => 4,
            ViewTypes::V_UNSIGNED_CHAR => 5,
            ViewTypes::V_UNSIGNED_SHORT => 6,
            ViewTypes::V_UNSIGNED_LONG => 7,
            ViewTypes::V_FLOAT => 8,
            ViewTypes::V_STRING => 9,
            ViewTypes::V_HEX => 10,
            ViewTypes::V_BINARY => 11,
            ViewTypes::V_BE_SIGNED_SHORT => 12,
            ViewTypes::V_BE_SIGNED_LONG => 13,
            ViewTypes::V_BE_UNSIGNED_SHORT => 14,
            ViewTypes::V_BE_UNSIGNED_LONG => 15,
            ViewTypes::V_UNIX_TIME => 16,
            ViewTypes::V_TWO_BIT => 17,
            ViewTypes::V_SIGNED_LONG_LONG => 18,
            ViewTypes::V_UNSIGNED_LONG_LONG => 19,
            ViewTypes::V_DOUBLE => 20,
        }
    }

    pub fn tag(self) -> (r: u8)
        ensures
            r == self.spec_tag(),
    {
        match self {
            ViewTypes::V_VOID => 0,
            ViewTypes::V_BIT => 1,
            ViewTypes::V_SIGNED_CHAR => 2,
            ViewTypes::V_SIGNED_SHORT => 3,
            ViewTypes::V_SIGNED_LONG => 4,
            ViewTypes::V_UNSIGNED_CHAR => 5,
            ViewTypes::V_UNSIGNED_SHORT => 6,
            ViewTypes::V_UNSIGNED_LONG => 7,
            ViewTypes::V_FLOAT => 8,
            ViewTypes::V_STRING => 9,
            ViewTypes::V_HEX => 10,
            ViewTypes::V_BINARY => 11,
            ViewTypes::V_BE_SIGNED_SHORT => 12,
            ViewTypes::V_BE_SIGNED_LONG => 13,
            ViewTypes::V_BE_UNSIGNED_SHORT => 14,
            ViewTypes::V_BE_UNSIGNED_LONG => 15,
            ViewTypes::V_UNIX_TIME => 16,
            ViewTypes::V_TWO_BIT => 17,
            ViewTypes::V_SIGNED_LONG_LONG => 18,
            ViewTypes::V_UNSIGNED_LONG_LONG => 19,
            ViewTypes::V_DOUBLE => 20,
        }
    }
}

/// Packet type tag of an "own data signal" message.
pub const EMT_OWN_DATA_SIGNAL_MESSAGE: u16 = 21;

/// Length in bytes of the fixed packet header that precedes the payload.
pub const PACKET_HEADER_LEN: usize = 20;

/// The sample packet length sits this many bytes below the total packet
/// length.
pub const EXTRA_LEN_ADJUSTMENTS: u16 = 4;

/// The two's-complement byte of an 8-bit signed value.
pub open spec fn twos_u8(v: int) -> u8
    recommends
        -128 <= v < 256,
{
    (if v >= 0 {
        v
    } else {
        v + 0x100
    }) as u8
}

/// The two's-complement 16-bit word of a 16-bit signed value.
pub open spec fn twos_u16(v: int) -> u16
    recommends
        -0x8000 <= v < 0x10000,
{
    (if v >= 0 {
        v
    } else {
        v + 0x10000
    }) as u16
}

/// The two's-complement 32-bit word of a 32-bit signed value.
pub open spec fn twos_u32(v: int) -> u32
    recommends
        -0x8000_0000 <= v < 0x1_0000_0000,
{
    (if v >= 0 {
        v
    } else {
        v + 0x1_0000_0000
    }) as u32
}

/// The two's-complement 64-bit word of a 64-bit signed value.
pub open spec fn twos_u64(v: int) -> u64
    recommends
        -0x8000_0000_0000_0000 <= v < 0x1_0000_0000_0000_0000,
{
    (if v >= 0 {
        v
    } else {
        v + 0x1_0000_0000_0000_0000
    }) as u64
}

/// The tags for which the codec defines an encoding.
pub open spec fn tag_supported(tag: u8) -> bool {
    1 <= tag <= 9
}

/// The bytes the codec produces for a supported non-float tag: the
/// fixed-width little-endian encoding of the parsed integer, the raw UTF-8
/// bytes for the string tag, and no bytes at all when a numeric value does
/// not parse for its declared type.
pub open spec fn codec_bytes(tag: u8, s: Seq<u8>) -> Seq<u8>
    recommends
        tag_supported(tag),
        tag != 8,
{
    if tag == 1 || tag == 5 {
        match parse_uint(s, 0xff) {
            Some(v) => seq![v as u8],
            None => Seq::<u8>::empty(),
        }
    } else if tag == 2 {
        match parse_sint(s, -0x80, 0x7f) {
            Some(v) => seq![twos_u8(v)],
            None => Seq::<u8>::empty(),
        }
    } else if tag == 3 {
        match parse_sint(s, -0x8000, 0x7fff) {
            Some(v) => spec_u16_to_le_bytes(twos_u16(v)),
            None => Seq::<u8>::empty(),
        }
    } else if tag == 4 {
        match parse_sint(s, -0x8000_0000, 0x7fff_ffff) {
            Some(v) => spec_u32_to_le_bytes(twos_u32(v)),
            None => Seq::<u8>::empty(),
        }
    } else if tag == 6 {
        match parse_uint(s, 0xffff) {
            Some(v) => spec_u16_to_le_bytes(v as u16),
            None => Seq::<u8>::empty(),
        }
    } else if tag == 7 {
        match parse_uint(s, 0xffff_ffff) {
            Some(v) => spec_u32_to_le_bytes(v as u32),
            None => Seq::<u8>::empty(),
        }
    } else {
        s
    }
}

/// The mathematical model of a packet: its header fields as machine words
/// and its payload and pending float text as byte sequences.
pub struct OwnDataSignalPacketView {
    pub packet_length: u16,
    pub packet_id: u16,
    pub sample_packet_length: u16,
    pub signal_sample_type: u8,
    pub signal_view_type: u8,
    pub signal_number: u16,
    pub signal_group: u16,
    pub milliseconds: i64,
    pub data: Seq<u8>,
    pub pending_float_val: Option<Seq<u8>>,
}

impl OwnDataSignalPacketView {
    /// A well-formed packet always carries the "own data signal" tag.
    pub open spec fn wf(self) -> bool {
        self.packet_id == EMT_OWN_DATA_SIGNAL_MESSAGE
    }
}

/// The packet as it first comes into being: zero lengths and defaults,
/// waiting to be populated from an event.
pub open spec fn default_packet() -> OwnDataSignalPacketView {
    OwnDataSignalPacketView {
        packet_length: 0,
        packet_id: EMT_OWN_DATA_SIGNAL_MESSAGE,
        sample_packet_length: 0,
        signal_sample_type: 0,
        signal_view_type: 0,
        signal_number: 0,
        signal_group: 100,
        milliseconds: 0,
        data: Seq::<u8>::empty(),
        pending_float_val: None::<Seq<u8>>,
    }
}

/// The fixed-layout record for one data signal sample.  The length fields
/// are derived: the frame encoder recomputes them on every encode and they
/// cannot be set from outside.
#[derive(Debug, Clone)]
pub struct OwnDataSignalPacket {
    packet_length: u16,
    packet_id: u16,
    sample_packet_length: u16,
    signal_sample_type: u8,
    pub signal_view_type: u8,
    signal_number: u16,
    signal_group: u16,
    milliseconds: i64,
    data: Vec<u8>,
    pending_float_val: Option<String>,
}

impl View for OwnDataSignalPacket {
    type V = OwnDataSignalPacketView;

    closed spec fn view(&self) -> OwnDataSignalPacketView {
        OwnDataSignalPacketView {
            packet_length: self.packet_length,
            packet_id: self.packet_id,
            sample_packet_length: self.sample_packet_length,
            signal_sample_type: self.signal_sample_type,
            signal_view_type: self.signal_view_type,
            signal_number: self.signal_number,
            signal_group: self.signal_group,
            milliseconds: self.milliseconds,
            data: self.data@,
            pending_float_val: match self.pending_float_val {
                Some(s) => Some(vstd::utf8::encode_utf8(s@)),
                None => None::<Seq<u8>>,
            },
        }
    }
}

impl Default for OwnDataSignalPacket {
    /// A fresh record: defaults everywhere, ready to be populated.
    fn default() -> (r: Self)
        ensures
            r@ == default_packet(),
    {
        OwnDataSignalPacket {
            packet_length: 0,
            packet_id: EMT_OWN_DATA_SIGNAL_MESSAGE,
            sample_packet_length: 0,
            signal_sample_type: 0,
            signal_view_type: 0,
            signal_number: 0,
            signal_group: 100,
            milliseconds: 0,
            data: Vec::new(),
            pending_float_val: None,
        }
    }
}

/// The two's-complement byte of an 8-bit signed value.
fn encode_i8(v: i64) -> (r: u8)
    requires
        -128 <= v <= 127,
    ensures
        r == twos_u8(v as int),
{
    if v >= 0 {
        v as u8
    } else {
        (v + 0x100) as u8
    }
}

/// The two's-complement word of a 16-bit signed value.
fn encode_i16(v: i64) -> (r: u16)
    requires
        -0x8000 <= v <= 0x7fff,
    ensures
        r == twos_u16(v as int),
{
    if v >= 0 {
        v as u16
    } else {
        (v + 0x10000) as u16
    }
}

/// The two's-complement word of a 32-bit signed value.
fn encode_i32(v: i64) -> (r: u32)
    requires
        -0x8000_0000 <= v <= 0x7fff_ffff,
    ensures
        r == twos_u32(v as int),
{
    if v >= 0 {
        v as u32
    } else {
        (v + 0x1_0000_0000) as u32
    }
}

/// The two's-complement word of a 64-bit signed value.
fn encode_i64(v: i64) -> (r: u64)
    ensures
        r == twos_u64(v as int),
{
    if v >= 0 {
        v as u64
    } else if v == i64::MIN {
        0x8000_0000_0000_0000u64
    } else {
        let m = (-v) as u64;
        (0xffff_ffff_ffff_ffffu64 - m) + 1
    }
}

impl OwnDataSignalPacket {
    /// Encodes `value` under the record's current view type.  A supported
    /// integer tag yields the little-endian bytes of the parsed value, or
    /// no bytes when the text does not parse for that type; the string tag
    /// yields the raw UTF-8 bytes; the float tag records the text so that
    /// the caller can supply the parsed bits, and yields no bytes yet; any
    /// other tag has no conversion defined.
    pub fn packdata(&mut self, value: &str) -> (r: Result<Vec<u8>, MyError>)
        ensures
            final(self)@ == (OwnDataSignalPacketView {
                pending_float_val: final(self)@.pending_float_val,
                ..old(self)@
            }),
            ({
                let tag = old(self)@.signal_view_type;
                if !tag_supported(tag) {
                    &&& r == Err::<Vec<u8>, MyError>(MyError::ConversionNotDefined)
                    &&& final(self)@.pending_float_val == old(self)@.pending_float_val
                } else if tag == 8 {
                    &&& r matches Ok(out) && out@ == Seq::<u8>::empty()
                    &&& final(self)@.pending_float_val == Some(value.spec_bytes())
                } else {
                    &&& r matches Ok(out) && out@ == codec_bytes(tag, value.spec_bytes())
                    &&& final(self)@.pending_float_val is None
                }
            }),
    {
        let tag = self.signal_view_type;
        if tag == 0 || tag > 9 {
            return Err(MyError::ConversionNotDefined);
        }
        if tag == 8 {
            self.pending_float_val = Some(value.to_owned());
            return Ok(Vec::new());
        }
        self.pending_float_val = None;
        if tag == 1 || tag == 5 {
            match parse_uint_str(value, 0xff) {
                Some(v) => {
                    let mut out: Vec<u8> = Vec::new();
                    out.push(v as u8);
                    Ok(out)
                },
                None => Ok(Vec::new()),
            }
        } else if tag == 2 {
            match parse_sint_str(value, 0x80, 0x7f) {
                Some(v) => {
                    let mut out: Vec<u8> = Vec::new();
                    out.push(encode_i8(v));
                    Ok(out)
                },
                None => Ok(Vec::new()),
            }
        } else if tag == 3 {
            match parse_sint_str(value, 0x8000, 0x7fff) {
                Some(v) => Ok(u16_to_le_bytes(encode_i16(v))),
                None => Ok(Vec::new()),
            }
        } else if tag == 4 {
            match parse_sint_str(value, 0x8000_0000, 0x7fff_ffff) {
                Some(v) => Ok(u32_to_le_bytes(encode_i32(v))),
                None => Ok(Vec::new()),
            }
        } else if tag == 6 {
            match parse_uint_str(value, 0xffff) {
                Some(v) => Ok(u16_to_le_bytes(v as u16)),
                None => Ok(Vec::new()),
            }
        } else if tag == 7 {
            match parse_uint_str(value, 0xffff_ffff) {
                Some(v) => Ok(u32_to_le_bytes(v as u32)),
                None => Ok(Vec::new()),
            }
        } else {
            let b = value.as_bytes();
            Ok(vstd::slice::slice_to_vec(b))
        }
    }

    /// Completes a float-tagged record: replaces the payload with the
    /// little-endian bytes of the supplied IEEE-754 bit pattern, which the
    /// caller parsed from the recorded text, or with no bytes when the text
    /// did not parse.  The pending text is cleared.
    pub fn apply_float_bits(&mut self, bits: Option<u32>)
        ensures
            final(self)@ == (OwnDataSignalPacketView {
                data: (match bits {
                    Some(b) => spec_u32_to_le_bytes(b),
                    None => Seq::<u8>::empty(),
                }),
                pending_float_val: None::<Seq<u8>>,
                ..old(self)@
            }),
    {
        match bits {
            Some(b) => {
                self.data = u32_to_le_bytes(b);
            },
            None => {
                self.data = Vec::new();
            },
        }
        self.pending_float_val = None;
    }

    /// Serializes the record into its exact wire bytes: the 20-byte fixed
    /// header, fields little-endian in declared order, followed directly by
    /// the raw payload.  The two length fields are recomputed from the
    /// payload length first, so they are never serialized stale: the packet
    /// length records the total record length after framing, the sample
    /// packet length sits four below it.
    pub fn exmebusify(&mut self) -> (r: Result<Vec<u8>, MyError>)
        ensures
            final(self)@ == (OwnDataSignalPacketView {
                packet_length: final(self)@.packet_length,
                sample_packet_length: final(self)@.sample_packet_length,
                ..old(self)@
            }),
            final(self)@.packet_length as int == (old(self)@.data.len() + PACKET_HEADER_LEN)
                % 0x10000,
            final(self)@.sample_packet_length as int == (old(self)@.data.len() + PACKET_HEADER_LEN
                - EXTRA_LEN_ADJUSTMENTS as int) % 0x10000,
            r matches Ok(out) && out@ == frame_bytes(final(self)@),
    {
        let len: usize = self.data.len();
        let lm: usize = len % 0x10000;
        self.packet_length = ((lm + PACKET_HEADER_LEN) % 0x10000) as u16;
        self.sample_packet_length = ((lm + (PACKET_HEADER_LEN - EXTRA_LEN_ADJUSTMENTS as usize))
            % 0x10000) as u16;
        proof {
            vstd::arithmetic::div_mod::lemma_add_mod_noop(
                len as int,
                PACKET_HEADER_LEN as int,
                0x10000,
            );
            vstd::arithmetic::div_mod::lemma_add_mod_noop(
                len as int,
                PACKET_HEADER_LEN as int - EXTRA_LEN_ADJUSTMENTS as int,
                0x10000,
            );
        }
        let mut out: Vec<u8> = Vec::new();
        let mut b = u16_to_le_bytes(self.packet_length);
        out.append(&mut b);
        let mut b = u16_to_le_bytes(self.packet_id);
        out.append(&mut b);
        let mut b = u16_to_le_bytes(self.sample_packet_length);
        out.append(&mut b);
        out.push(self.signal_sample_type);
        out.push(self.signal_view_type);
        let mut b = u16_to_le_bytes(self.signal_number);
        out.append(&mut b);
        let mut b = u16_to_le_bytes(self.signal_group);
        out.append(&mut b);
        let mut b = u64_to_le_bytes(encode_i64(self.milliseconds));
        out.append(&mut b);
        let mut d = vstd::slice::slice_to_vec(self.data.as_slice());
        out.append(&mut d);
        proof {
            assert(out@ =~= frame_bytes(self@));
        }
        Ok(out)
    }

    pub fn packet_length(&self) -> (r: u16)
        ensures
            r == self@.packet_length,
    {
        self.packet_length
    }

    pub fn packet_id(&self) -> (r: u16)
        ensures
            r == self@.packet_id,
    {
        self.packet_id
    }

    pub fn sample_packet_length(&self) -> (r: u16)
        ensures
            r == self@.sample_packet_length,
    {
        self.sample_packet_length
    }

    pub fn signal_sample_type(&self) -> (r: u8)
        ensures
            r == self@.signal_sample_type,
    {
        self.signal_sample_type
    }

    pub fn signal_number(&self) -> (r: u16)
        ensures
            r == self@.signal_number,
    {
        self.signal_number
    }

    pub fn signal_group(&self) -> (r: u16)
        ensures
            r == self@.signal_group,
    {
        self.signal_group
    }

    pub fn milliseconds(&self) -> (r: i64)
        ensures
            r == self@.milliseconds,
    {
        self.milliseconds
    }

    pub fn data(&self) -> (r: &Vec<u8>)
        ensures
            r@ == self@.data,
    {
        &self.data
    }

    pub fn pending_float_value(&self) -> (r: &Option<String>)
        ensures
            r is Some <==> self@.pending_float_val is Some,
            r matches Some(s) ==> self@.pending_float_val == Some(vstd::utf8::encode_utf8(s@)),
    {
        &self.pending_float_val
    }
}

/// The 20 header bytes of a packet: every field in declared order, the
/// multi-byte fields little-endian, the timestamp in two's complement.
pub open spec fn header_bytes(p: OwnDataSignalPacketView) -> Seq<u8> {
    spec_u16_to_le_bytes(p.packet_length) + spec_u16_to_le_bytes(p.packet_id)
        + spec_u16_to_le_bytes(p.sample_packet_length) + seq![p.signal_sample_type]
        + seq![p.signal_view_type] + spec_u16_to_le_bytes(p.signal_number) + spec_u16_to_le_bytes(
        p.signal_group,
    ) + spec_u64_to_le_bytes(twos_u64(p.milliseconds as int))
}

/// The full wire frame: the header followed directly by the payload, with
/// no length prefix or other artifact in between.
pub open spec fn frame_bytes(p: OwnDataSignalPacketView) -> Seq<u8> {
    header_bytes(p) + p.data
}

/// The frame is always exactly 20 bytes of header plus the payload.
pub proof fn lemma_frame_length(p: OwnDataSignalPacketView)
    ensures
        header_bytes(p).len() == PACKET_HEADER_LEN,
        frame_bytes(p).len() == PACKET_HEADER_LEN + p.data.len(),
{
    lemma_auto_spec_u16_to_from_le_bytes();
    lemma_auto_spec_u64_to_from_le_bytes();
}

/// For every payload short enough that the length fields do not truncate,
/// the encoded frame carries the exact length convention: the first two
/// bytes decode to the packet length, which is the total frame length,
/// and the sample packet length sits four below it; the header region
/// holds the header fields alone and the payload starts right at its end.
pub proof fn lemma_frame_header_exact(p: OwnDataSignalPacketView)
    requires
        (p.data.len() + PACKET_HEADER_LEN as int) < 0x10000,
        p.packet_length as int == (p.data.len() + PACKET_HEADER_LEN) % 0x10000,
        p.sample_packet_length as int == (p.data.len() + PACKET_HEADER_LEN
            - EXTRA_LEN_ADJUSTMENTS as int) % 0x10000,
    ensures
        p.packet_length as int == frame_bytes(p).len(),
        p.sample_packet_length as int == p.packet_length - EXTRA_LEN_ADJUSTMENTS as int,
        spec_u16_from_le_bytes(frame_bytes(p).subrange(0, 2)) == p.packet_length,
        frame_bytes(p).subrange(0, PACKET_HEADER_LEN as int) == header_bytes(p),
        frame_bytes(p).skip(PACKET_HEADER_LEN as int) == p.data,
{
    lemma_frame_length(p);
    vstd::arithmetic::div_mod::lemma_small_mod(
        (p.data.len() + PACKET_HEADER_LEN) as nat,
        0x10000,
    );
    vstd::arithmetic::div_mod::lemma_small_mod(
        (p.data.len() + PACKET_HEADER_LEN - EXTRA_LEN_ADJUSTMENTS as int) as nat,
        0x10000,
    );
    lemma_auto_spec_u16_to_from_le_bytes();
    lemma_auto_spec_u64_to_from_le_bytes();
    assert(frame_bytes(p).subrange(0, 2) =~= spec_u16_to_le_bytes(p.packet_length));
    assert(frame_bytes(p).subrange(0, PACKET_HEADER_LEN as int) =~= header_bytes(p));
    assert(frame_bytes(p).skip(PACKET_HEADER_LEN as int) =~= p.data);
}

/// The signed value a two's-complement byte denotes.
pub open spec fn sint_of_twos_u8(b: u8) -> int {
    if b >= 0x80 {
        b - 0x100
    } else {
        b as int
    }
}

/// The signed value a two's-complement 16-bit word denotes.
pub open spec fn sint_of_twos_u16(w: u16) -> int {
    if w >= 0x8000 {
        w - 0x10000
    } else {
        w as int
    }
}

/// The signed value a two's-complement 32-bit word denotes.
pub open spec fn sint_of_twos_u32(w: u32) -> int {
    if w >= 0x8000_0000 {
        w - 0x1_0000_0000
    } else {
        w as int
    }
}

/// Every supported fixed-width tag round-trips: re-reading the bytes the
/// codec produced under the tag's fixed-width little-endian
/// interpretation yields exactly the value parsed from the text, and the
/// string tag hands the text's bytes through unchanged.  A text that does
/// not parse for its tag yields no bytes at all.
#[verifier::spinoff_prover]
#[verifier::rlimit(60)]
pub proof fn lemma_codec_round_trip(tag: u8, s: Seq<u8>)
    requires
        tag_supported(tag),
        tag != 8,
    ensures
        tag == 1 || tag == 5 ==> (match parse_uint(s, 0xff) {
            Some(v) => codec_bytes(tag, s).len() == 1 && codec_bytes(tag, s)[0] as nat == v,
            None => codec_bytes(tag, s) == Seq::<u8>::empty(),
        }),
        tag == 2 ==> (match parse_sint(s, -0x80, 0x7f) {
            Some(v) => codec_bytes(tag, s).len() == 1 && sint_of_twos_u8(codec_bytes(tag, s)[0])
                == v,
            None => codec_bytes(tag, s) == Seq::<u8>::empty(),
        }),
        tag == 3 ==> (match parse_sint(s, -0x8000, 0x7fff) {
            Some(v) => codec_bytes(tag, s).len() == 2 && sint_of_twos_u16(
                spec_u16_from_le_bytes(codec_bytes(tag, s)),
            ) == v,
            None => codec_bytes(tag, s) == Seq::<u8>::empty(),
        }),
        tag == 4 ==> (match parse_sint(s, -0x8000_0000, 0x7fff_ffff) {
            Some(v) => codec_bytes(tag, s).len() == 4 && sint_of_twos_u32(
                spec_u32_from_le_bytes(codec_bytes(tag, s)),
            ) == v,
            None => codec_bytes(tag, s) == Seq::<u8>::empty(),
        }),
        tag == 6 ==> (match parse_uint(s, 0xffff) {
            Some(v) => codec_bytes(tag, s).len() == 2 && spec_u16_from_le_bytes(
                codec_bytes(tag, s),
            ) as nat == v,
            None => codec_bytes(tag, s) == Seq::<u8>::empty(),
        }),
        tag == 7 ==> (match parse_uint(s, 0xffff_ffff) {
            Some(v) => codec_bytes(tag, s).len() == 4 && spec_u32_from_le_bytes(
                codec_bytes(tag, s),
            ) as nat == v,
            None => codec_bytes(tag, s) == Seq::<u8>::empty(),
        }),
        tag == 9 ==> codec_bytes(tag, s) == s,
{
    if tag == 3 {
        lemma_auto_spec_u16_to_from_le_bytes();
        match parse_sint(s, -0x8000, 0x7fff) {
            Some(v) => {
                assert(spec_u16_to_le_bytes(twos_u16(v)).len() == 2);
                assert(sint_of_twos_u16(spec_u16_from_le_bytes(spec_u16_to_le_bytes(twos_u16(v))))
                    == v);
            },
            None => {},
        }
    } else if tag == 4 {
        lemma_auto_spec_u32_to_from_le_bytes();
        match parse_sint(s, -0x8000_0000, 0x7fff_ffff) {
            Some(v) => {
                assert(spec_u32_to_le_bytes(twos_u32(v)).len() == 4);
                assert(sint_of_twos_u32(spec_u32_from_le_bytes(spec_u32_to_le_bytes(twos_u32(v))))
                    == v);
            },
            None => {},
        }
    } else if tag == 6 {
        lemma_auto_spec_u16_to_from_le_bytes();
        match parse_uint(s, 0xffff) {
            Some(v) => {
                assert(spec_u16_to_le_bytes(v as u16).len() == 2);
                assert(spec_u16_from_le_bytes(spec_u16_to_le_bytes(v as u16)) as nat == v);
            },
            None => {},
        }
    } else if tag == 7 {
        lemma_auto_spec_u32_to_from_le_bytes();
        match parse_uint(s, 0xffff_ffff) {
            Some(v) => {
                assert(spec_u32_to_le_bytes(v as u32).len() == 4);
                assert(spec_u32_from_le_bytes(spec_u32_to_le_bytes(v as u32)) as nat == v);
            },
            None => {},
        }
    }
}

/// The float payload is bit-exact: the four bytes written for an IEEE-754
/// bit pattern decode to exactly that pattern.
pub proof fn lemma_float_bits_round_trip(bits: u32)
    ensures
        spec_u32_from_le_bytes(spec_u32_to_le_bytes(bits)) == bits,
{
    lemma_auto_spec_u32_to_from_le_bytes();
    assert(spec_u32_to_le_bytes(bits).len() == 4);
}

/// The UTF-8 bytes of an owned string.
pub open spec fn string_bytes(s: String) -> Seq<u8> {
    vstd::utf8::encode_utf8(s@)
}

/// The plain fields one inbound event object carries, as verified code
/// reads them out of the parsed JSON value.
pub struct RawEvent {
    pub type_tag: Option<u64>,
    pub dt_tag: Option<u64>,
    pub id: Option<u64>,
    pub ts: Option<String>,
    pub val: Option<String>,
}

/// The mathematical model of an event's fields: the strings as their
/// UTF-8 bytes.
pub struct RawEventView {
    pub type_tag: Option<u64>,
    pub dt_tag: Option<u64>,
    pub id: Option<u64>,
    pub ts: Option<Seq<u8>>,
    pub val: Option<Seq<u8>>,
}

impl View for RawEvent {
    type V = RawEventView;

    open spec fn view(&self) -> RawEventView {
        RawEventView {
            type_tag: self.type_tag,
            dt_tag: self.dt_tag,
            id: self.id,
            ts: match self.ts {
                Some(t) => Some(string_bytes(t)),
                None => None::<Seq<u8>>,
            },
            val: match self.val {
                Some(v) => Some(string_bytes(v)),
                None => None::<Seq<u8>>,
            },
        }
    }
}

/// The fields the parser reads out of one JSON value: `type`, `dt` and
/// `id` when they are integers, `ts` and `val` when they are strings; a
/// field of the wrong kind counts as missing.
pub open spec fn event_of(v: serde_json::Value) -> RawEventView {
    RawEventView {
        type_tag: (match json_field_of(v, "type"@) {
            Some(f) => json_u64_of(f),
            None => None::<u64>,
        }),
        dt_tag: (match json_field_of(v, "dt"@) {
            Some(f) => json_u64_of(f),
            None => None::<u64>,
        }),
        id: (match json_field_of(v, "id"@) {
            Some(f) => json_u64_of(f),
            None => None::<u64>,
        }),
        ts: (match json_field_of(v, "ts"@) {
            Some(f) => json_str_of(f),
            None => None::<Seq<u8>>,
        }),
        val: (match json_field_of(v, "val"@) {
            Some(f) => json_str_of(f),
            None => None::<Seq<u8>>,
        }),
    }
}

/// Reads the recognized fields of one event object, exactly as
/// `event_of` describes them.
pub fn read_event(v: &serde_json::Value) -> (r: RawEvent)
    ensures
        r@ == event_of(*v),
{
    let type_tag = match json_get(v, "type") {
        Some(f) => json_as_u64(f),
        None => None,
    };
    let dt_tag = match json_get(v, "dt") {
        Some(f) => json_as_u64(f),
        None => None,
    };
    let id = match json_get(v, "id") {
        Some(f) => json_as_u64(f),
        None => None,
    };
    let ts = match json_get(v, "ts") {
        Some(f) => match json_as_str(f) {
            Some(s) => Some(s.to_owned()),
            None => None,
        },
        None => None,
    };
    let val = match json_get(v, "val") {
        Some(f) => match json_as_str(f) {
            Some(s) => Some(s.to_owned()),
            None => None,
        },
        None => None,
    };
    RawEvent { type_tag, dt_tag, id, ts, val }
}

/// The view type the packet ends up with: `type`, or `dt` as the
/// fallback, either truncated to eight bits; with neither present the
/// packet keeps its current view type.
pub open spec fn event_view_tag(p: OwnDataSignalPacketView, ev: RawEventView) -> u8 {
    match ev.type_tag {
        Some(t) => (t % 0x100) as u8,
        None => match ev.dt_tag {
            Some(d) => (d % 0x100) as u8,
            None => p.signal_view_type,
        },
    }
}

/// The signal number the packet ends up with: `id` truncated to sixteen
/// bits, or the current number when absent.
pub open spec fn event_signal_number(p: OwnDataSignalPacketView, ev: RawEventView) -> u16 {
    match ev.id {
        Some(i) => (i % 0x10000) as u16,
        None => p.signal_number,
    }
}

/// The timestamp an event carries: its `ts` string parsed as a signed
/// 64-bit integer, when present and well-formed.
pub open spec fn event_millis(ev: RawEventView) -> Option<int> {
    match ev.ts {
        Some(t) => parse_sint(t, i64::MIN as int, i64::MAX as int),
        None => None,
    }
}

/// The packet state after populating it from one event, mirroring the
/// order the fields are read in: view type and signal number always take
/// effect; the timestamp only when it parses; the payload only when a
/// value string is present and its view type is supported.
pub open spec fn apply_event_packet(p: OwnDataSignalPacketView, ev: RawEventView)
    -> OwnDataSignalPacketView {
    let tag = event_view_tag(p, ev);
    let p1 = OwnDataSignalPacketView {
        signal_view_type: tag,
        signal_number: event_signal_number(p, ev),
        ..p
    };
    match event_millis(ev) {
        None => p1,
        Some(ms) => {
            let p2 = OwnDataSignalPacketView { milliseconds: ms as i64, ..p1 };
            match ev.val {
                None => p2,
                Some(v) => if !tag_supported(tag) {
                    p2
                } else if tag == 8 {
                    OwnDataSignalPacketView {
                        data: Seq::<u8>::empty(),
                        pending_float_val: Some(v),
                        ..p2
                    }
                } else {
                    OwnDataSignalPacketView {
                        data: codec_bytes(tag, v),
                        pending_float_val: None::<Seq<u8>>,
                        ..p2
                    }
                },
            }
        },
    }
}

/// Whether populating a packet from the event succeeds, and with which
/// error it fails: a missing or unparsable timestamp invalidates the
/// record — it is the only field whose absence aborts it; a value string
/// under an unsupported view type has no conversion defined; a missing
/// value string merely leaves the payload at its default.
pub open spec fn apply_event_result(p: OwnDataSignalPacketView, ev: RawEventView) -> Result<
    (),
    MyError,
> {
    match event_millis(ev) {
        None => Err(MyError::PreliminaryDataNotValid),
        Some(_) => match ev.val {
            None => Ok(()),
            Some(_) => if tag_supported(event_view_tag(p, ev)) {
                Ok(())
            } else {
                Err(MyError::ConversionNotDefined)
            },
        },
    }
}

impl OwnDataSignalPacket {
    /// Populates the record from the plain fields of one event, exactly as
    /// `apply_event_packet` and `apply_event_result` describe.
    pub fn apply_event(&mut self, ev: &RawEvent) -> (r: Result<(), MyError>)
        ensures
            final(self)@ == apply_event_packet(old(self)@, ev@),
            r == apply_event_result(old(self)@, ev@),
    {
        match &ev.type_tag {
            Some(t) => {
                self.signal_view_type = (*t % 0x100) as u8;
            },
            None => {
                match &ev.dt_tag {
                    Some(d) => {
                        self.signal_view_type = (*d % 0x100) as u8;
                    },
                    None => {},
                }
            },
        }
        match &ev.id {
            Some(i) => {
                self.signal_number = (*i % 0x10000) as u16;
            },
            None => {},
        }
        let ms = match &ev.ts {
            Some(t) => parse_sint_str(t.as_str(), 0x8000_0000_0000_0000u64, 0x7fff_ffff_ffff_ffffu64),
            None => None,
        };
        match ms {
            None => {
                return Err(MyError::PreliminaryDataNotValid);
            },
            Some(m) => {
                self.milliseconds = m;
            },
        }
        match &ev.val {
            Some(v) => {
                match self.packdata(v.as_str()) {
                    Ok(bytes) => {
                        self.data = bytes;
                        Ok(())
                    },
                    Err(_) => Err(MyError::ConversionNotDefined),
                }
            },
            None => Ok(()),
        }
    }

    /// Populates the record from one parsed JSON event object, exactly as
    /// `apply_event` does on the fields that object carries.
    pub fn val_to_datsignalpacket(&mut self, msg: &serde_json::Value) -> (r: Result<(), MyError>)
        ensures
            final(self)@ == apply_event_packet(old(self)@, event_of(*msg)),
            r == apply_event_result(old(self)@, event_of(*msg)),
    {
        let ev = read_event(msg);
        self.apply_event(&ev)
    }
}

/// Whether a one-event batch member makes it into the output.
pub open spec fn event_accepted(ev: RawEventView) -> bool {
    apply_event_result(default_packet(), ev) is Ok
}

/// The packet a fresh record becomes under one event.
pub open spec fn packet_of_event(ev: RawEventView) -> OwnDataSignalPacketView {
    apply_event_packet(default_packet(), ev)
}

/// The views of a sequence of packets.
pub open spec fn views_of(ps: Seq<OwnDataSignalPacket>) -> Seq<OwnDataSignalPacketView> {
    ps.map_values(|p: OwnDataSignalPacket| p@)
}

/// The events a sequence of JSON values carries, element by element.
pub open spec fn events_of_elems(elems: Seq<serde_json::Value>) -> Seq<RawEventView> {
    elems.map_values(|v: serde_json::Value| event_of(v))
}

/// The packets a batch of events produces: one per accepted event, in
/// order, each built from a fresh record; rejected events are skipped.
pub open spec fn batch_packets(evs: Seq<RawEventView>) -> Seq<OwnDataSignalPacketView>
    decreases evs.len(),
{
    if evs.len() == 0 {
        Seq::<OwnDataSignalPacketView>::empty()
    } else {
        let rest = batch_packets(evs.drop_last());
        if event_accepted(evs.last()) {
            rest.push(packet_of_event(evs.last()))
        } else {
            rest
        }
    }
}

/// A batch of accepted events loses nothing: it produces exactly one
/// packet per event, and the packet at each position reflects the event at
/// that position alone.
pub proof fn lemma_batch_of_accepted_events(evs: Seq<RawEventView>)
    requires
        forall|i: int| 0 <= i < evs.len() ==> event_accepted(#[trigger] evs[i]),
    ensures
        batch_packets(evs).len() == evs.len(),
        forall|i: int|
            0 <= i < evs.len() ==> batch_packets(evs)[i] == packet_of_event(#[trigger] evs[i]),
    decreases evs.len(),
{
    if evs.len() > 0 {
        let pre = evs.drop_last();
        assert forall|i: int| 0 <= i < pre.len() implies event_accepted(#[trigger] pre[i]) by {
            assert(pre[i] == evs[i]);
        }
        lemma_batch_of_accepted_events(pre);
        assert(event_accepted(evs.last())) by {
            assert(evs.last() == evs[evs.len() - 1]);
        }
        assert forall|i: int|
            0 <= i < evs.len() implies batch_packets(evs)[i] == packet_of_event(
            #[trigger] evs[i],
        ) by {
            if i < evs.len() - 1 {
                assert(batch_packets(evs)[i] == batch_packets(pre)[i]);
                assert(pre[i] == evs[i]);
            } else {
                assert(evs[i] == evs.last());
            }
        }
    }
}

/// A record's identifying tag is immutable after construction: populating
/// it from an event never touches it, so every packet built from a fresh
/// record stays well-formed.
pub proof fn lemma_packet_id_immutable(p: OwnDataSignalPacketView, ev: RawEventView)
    ensures
        apply_event_packet(p, ev).packet_id == p.packet_id,
        packet_of_event(ev).wf(),
{
}

/// Converts one inbound JSON text into packets.  A well-formed array
/// yields one packet per accepted element, each populated from its own
/// element alone; a well-formed object is a one-element batch whose
/// failure is reported; a document of any other shape, or text that is
/// not JSON at all, is not valid preliminary data.
pub fn to_exmebus_better(msg: &str) -> (r: Result<Vec<OwnDataSignalPacket>, MyError>)
    ensures
        !json_doc_parses(msg.spec_bytes()) ==> r == Err::<Vec<OwnDataSignalPacket>, MyError>(
            MyError::PreliminaryDataNotValid,
        ),
        json_doc_parses(msg.spec_bytes()) ==> ({
            let doc = json_doc_of(msg.spec_bytes());
            match json_array_elems(doc) {
                Some(elems) => r matches Ok(ps) && views_of(ps@) == batch_packets(
                    events_of_elems(elems),
                ),
                None => if json_value_is_object(doc) {
                    match apply_event_result(default_packet(), event_of(doc)) {
                        Ok(_) => r matches Ok(ps) && views_of(ps@) == seq![
                            packet_of_event(event_of(doc)),
                        ],
                        Err(e) => r == Err::<Vec<OwnDataSignalPacket>, MyError>(e),
                    }
                } else {
                    r == Err::<Vec<OwnDataSignalPacket>, MyError>(
                        MyError::PreliminaryDataNotValid,
                    )
                },
            }
        }),
        r matches Err(e) ==> e == MyError::PreliminaryDataNotValid || e
            == MyError::ConversionNotDefined,
{
    let parsed = match json_parse(msg) {
        Some(p) => p,
        None => {
            return Err(MyError::PreliminaryDataNotValid);
        },
    };
    let mut vec: Vec<OwnDataSignalPacket> = Vec::new();
    if let Some(arr) = json_as_array(&parsed) {
        let n = arr.len();
        let mut i: usize = 0;
        proof {
            assert(arr@.take(0) =~= Seq::<serde_json::Value>::empty());
            assert(views_of(vec@) =~= batch_packets(events_of_elems(arr@.take(0))));
        }
        while i < n
            invariant
                i <= n,
                n == arr@.len(),
                views_of(vec@) == batch_packets(events_of_elems(arr@.take(i as int))),
            decreases n - i,
        {
            let mut sample2 = OwnDataSignalPacket::default();
            let ev = read_event(&arr[i]);
            let res = sample2.apply_event(&ev);
            if res.is_ok() {
                vec.push(sample2);
            }
            proof {
                let prefix = events_of_elems(arr@.take(i as int));
                let prefix2 = events_of_elems(arr@.take(i as int + 1));
                assert(arr@.take(i as int + 1)[i as int] == arr@[i as int]);
                assert(prefix2.last() == event_of(arr@[i as int]));
                assert(prefix2.drop_last() =~= prefix);
                assert(views_of(vec@) =~= batch_packets(prefix2));
            }
            i += 1;
        }
        proof {
            assert(arr@.take(n as int) =~= arr@);
        }
        Ok(vec)
    } else if json_is_object(&parsed) {
        let mut sample2 = OwnDataSignalPacket::default();
        let ev = read_event(&parsed);
        match sample2.apply_event(&ev) {
            Ok(_) => {
                vec.push(sample2);
                proof {
                    assert(views_of(vec@) =~= seq![packet_of_event(event_of(parsed))]);
                }
                Ok(vec)
            },
            Err(e) => Err(e),
        }
    } else {
        Err(MyError::PreliminaryDataNotValid)
    }
}

} // verus!
