//! The proprietary paging protocol: three opcode-tagged messages with
//! session control and per-packet audio redundancy.

use vstd::prelude::*;
use vstd::string::StringSliceAdditionalSpecFns;
use crate::codec::{eq_ignore_ascii_case, spec_eq_ignore_case};
use crate::wire::{be32, be32_bytes, le32_bytes, read_be32};

verus! {

/// Default paging multicast address.
pub const DEFAULT_ADDRESS: &'static str = "224.0.1.116";

/// Default paging port.
pub const DEFAULT_PORT: u16 = 5001;

/// Op code of an alert packet (session start).
pub const OP_ALERT: u8 = 0x0f;

/// Op code of a transmit packet (audio data).
pub const OP_TRANSMIT: u8 = 0x10;

/// Op code of an end packet (session end).
pub const OP_END: u8 = 0xff;

/// Codec tag for G.711 mu-law.
pub const CODEC_G711U: u8 = 0x00;

/// Codec tag for G.711 A-law (the RTP payload type value).
pub const CODEC_G711A: u8 = 0x08;

/// Codec tag for G.722.
pub const CODEC_G722: u8 = 0x09;

/// How many alert packets start a page.
pub const ALERT_PACKET_COUNT: u32 = 31;

/// How many end packets close a page.
pub const END_PACKET_COUNT: u32 = 12;

/// Spacing of alert and end packets in milliseconds.
pub const CONTROL_PACKET_INTERVAL_MS: u64 = 30;

/// Pause before the end packets in milliseconds.
pub const END_DELAY_MS: u64 = 50;

/// Frame bytes per 20 ms for G.711.
pub const G711_FRAME_SIZE: usize = 160;

/// Frame bytes per 20 ms for G.722 on this wire format.
pub const G722_FRAME_SIZE: usize = 160;

/// Push-to-talk channel range and its special channels.
pub const PTT_CHANNEL_MIN: u8 = 1;

pub const PTT_CHANNEL_MAX: u8 = 25;

pub const PTT_PRIORITY_CHANNEL: u8 = 24;

pub const PTT_EMERGENCY_CHANNEL: u8 = 25;

/// Group paging channel range and its special channels.
pub const PAGING_CHANNEL_MIN: u8 = 26;

pub const PAGING_CHANNEL_MAX: u8 = 50;

pub const PAGING_PRIORITY_CHANNEL: u8 = 49;

pub const PAGING_EMERGENCY_CHANNEL: u8 = 50;

/// Callers' IDs are padded to this many bytes, for a fixed 20-byte prefix:
/// 1 op + 1 channel + 4 serial + 1 length + 13 caller ID.
pub const MIN_CALLER_ID_LEN: usize = 13;

/// Errors of the paging codec.
#[derive(Debug, Clone, Copy, PartialEq, Eq, Structural)]
pub enum PolycomError {
    /// Fewer bytes than the smallest form of the structure.
    TooShort { expected: usize, actual: usize },
    /// An op code outside the three known ones.
    InvalidOpCode(u8),
    /// A channel outside 1..=50.
    InvalidChannel(u8),
    /// A codec tag outside the three known ones.
    InvalidCodec(u8),
    /// The packet ends before the structure it announces.
    Truncated { expected: usize, actual: usize },
    /// A caller ID longer than its 1-byte length field can carry.
    CallerIdTooLong,
}

/// Codecs the paging wire format carries.
#[derive(Debug, Clone, Copy, PartialEq, Eq, Structural)]
pub enum PolycomCodec {
    /// G.711 mu-law: 8 kHz, 20 ms frames, 160 bytes per frame.
    G711U,
    /// G.711 A-law: 8 kHz, 20 ms frames, 160 bytes per frame.
    G711A,
    /// G.722: 16 kHz, 20 ms frames, 160 bytes per frame.
    G722,
}

/// The codec a tag byte denotes.
pub open spec fn spec_codec_from_byte(b: u8) -> Option<PolycomCodec> {
    if b == 0x00 {
        Some(PolycomCodec::G711U)
    } else if b == 0x08 {
        Some(PolycomCodec::G711A)
    } else if b == 0x09 {
        Some(PolycomCodec::G722)
    } else {
        None
    }
}

impl PolycomCodec {
    /// The codec a tag byte denotes.
    pub fn from_byte(b: u8) -> (r: Option<Self>)
        ensures
            r == spec_codec_from_byte(b),
    {
        match b {
            CODEC_G711U => Some(Self::G711U),
            CODEC_G711A => Some(Self::G711A),
            CODEC_G722 => Some(Self::G722),
            _ => None,
        }
    }

    /// The tag byte of this codec.
    pub fn to_byte(&self) -> (r: u8)
        ensures
            r == self.spec_to_byte(),
    {
        match self {
            Self::G711U => CODEC_G711U,
            Self::G711A => CODEC_G711A,
            Self::G722 => CODEC_G722,
        }
    }

    /// The tag byte as a spec-level value.
    pub open spec fn spec_to_byte(self) -> u8 {
        match self {
            Self::G711U => 0x00,
            Self::G711A => 0x08,
            Self::G722 => 0x09,
        }
    }

    /// The sample rate of this codec.
    pub fn sample_rate(&self) -> (r: u32)
        ensures
            r == self.spec_sample_rate(),
    {
        match self {
            Self::G711U | Self::G711A => 8000,
            Self::G722 => 16000,
        }
    }

    /// The sample rate as a spec-level value.
    pub open spec fn spec_sample_rate(self) -> u32 {
        match self {
            Self::G711U | Self::G711A => 8000,
            Self::G722 => 16000,
        }
    }

    /// The frame size in bytes: 160 for every codec of this wire format.
    pub fn frame_size(&self) -> (r: usize)
        ensures
            r == self.spec_frame_size(),
    {
        match self {
            Self::G711U | Self::G711A => G711_FRAME_SIZE,
            Self::G722 => G722_FRAME_SIZE,
        }
    }

    /// The frame size as a spec-level value.
    pub open spec fn spec_frame_size(self) -> usize {
        160
    }

    /// The frame duration: 20 ms for every codec of this wire format.
    pub fn frame_duration_ms(&self) -> (r: u32)
        ensures
            r == 20,
    {
        match self {
            Self::G711U | Self::G711A | Self::G722 => 20,
        }
    }

    /// A human-readable name.
    pub fn name(&self) -> (r: &'static str)
        ensures
            r@ == self.spec_name()@,
    {
        match self {
            Self::G711U => "G.711u",
            Self::G711A => "G.711A",
            Self::G722 => "G.722",
        }
    }

    /// The name as a spec-level value.
    pub open spec fn spec_name(self) -> &'static str {
        match self {
            Self::G711U => "G.711u",
            Self::G711A => "G.711A",
            Self::G722 => "G.722",
        }
    }

    /// The codec a (case-folded) command-line name denotes.
    pub fn parse_name(s: &str) -> (r: Option<Self>)
        ensures
            r == spec_codec_parse_name(s.spec_bytes()),
    {
        let b = s.as_bytes();
        if eq_ignore_ascii_case(b, "g711u".as_bytes()) || eq_ignore_ascii_case(
            b,
            "g711ulaw".as_bytes(),
        ) || eq_ignore_ascii_case(b, "pcmu".as_bytes()) {
            Some(Self::G711U)
        } else if eq_ignore_ascii_case(b, "g711a".as_bytes()) || eq_ignore_ascii_case(
            b,
            "g711alaw".as_bytes(),
        ) || eq_ignore_ascii_case(b, "pcma".as_bytes()) {
            Some(Self::G711A)
        } else if eq_ignore_ascii_case(b, "g722".as_bytes()) {
            Some(Self::G722)
        } else {
            None
        }
    }
}

/// The codec a (case-folded) command-line name denotes.
pub open spec fn spec_codec_parse_name(s: Seq<u8>) -> Option<PolycomCodec> {
    if spec_eq_ignore_case(s, "g711u".spec_bytes()) || spec_eq_ignore_case(
        s,
        "g711ulaw".spec_bytes(),
    ) || spec_eq_ignore_case(s, "pcmu".spec_bytes()) {
        Some(PolycomCodec::G711U)
    } else if spec_eq_ignore_case(s, "g711a".spec_bytes()) || spec_eq_ignore_case(
        s,
        "g711alaw".spec_bytes(),
    ) || spec_eq_ignore_case(s, "pcma".spec_bytes()) {
        Some(PolycomCodec::G711A)
    } else if spec_eq_ignore_case(s, "g722".spec_bytes()) {
        Some(PolycomCodec::G722)
    } else {
        None
    }
}

/// The three message kinds of the protocol.
#[derive(Debug, Clone, Copy, PartialEq, Eq, Structural)]
pub enum PacketType {
    /// Signals the start of a page.
    Alert,
    /// Carries audio data.
    Transmit,
    /// Signals the end of a page.
    End,
}

/// The packet type an op code denotes.
pub open spec fn spec_packet_type_from_op(op: u8) -> Option<PacketType> {
    if op == 0x0f {
        Some(PacketType::Alert)
    } else if op == 0x10 {
        Some(PacketType::Transmit)
    } else if op == 0xff {
        Some(PacketType::End)
    } else {
        None
    }
}

impl PacketType {
    /// The packet type an op code denotes.
    pub fn from_op_code(op: u8) -> (r: Option<Self>)
        ensures
            r == spec_packet_type_from_op(op),
    {
        match op {
            OP_ALERT => Some(Self::Alert),
            OP_TRANSMIT => Some(Self::Transmit),
            OP_END => Some(Self::End),
            _ => None,
        }
    }

    /// The op code of this packet type.
    pub fn to_op_code(&self) -> (r: u8)
        ensures
            r == self.spec_to_op_code(),
    {
        match self {
            Self::Alert => OP_ALERT,
            Self::Transmit => OP_TRANSMIT,
            Self::End => OP_END,
        }
    }

    /// The op code as a spec-level value.
    pub open spec fn spec_to_op_code(self) -> u8 {
        match self {
            Self::Alert => 0x0f,
            Self::Transmit => 0x10,
            Self::End => 0xff,
        }
    }
}

/// Common header of every paging packet. The caller ID is kept as the raw
/// bytes off the wire; received IDs end at their first NUL.
#[derive(Debug, Clone)]
pub struct PolycomHeader {
    /// Packet type (alert, transmit, end).
    pub packet_type: PacketType,
    /// Channel number, 1..=50.
    pub channel: u8,
    /// Host serial (the last four bytes of the sender's MAC address).
    pub host_serial: [u8; 4],
    /// Caller ID bytes.
    pub caller_id: Vec<u8>,
}

/// The mathematical image of a `PolycomHeader`.
pub struct PolycomHeaderV {
    pub packet_type: PacketType,
    pub channel: u8,
    pub host_serial: [u8; 4],
    pub caller_id: Seq<u8>,
}

impl View for PolycomHeader {
    type V = PolycomHeaderV;

    open spec fn view(&self) -> PolycomHeaderV {
        PolycomHeaderV {
            packet_type: self.packet_type,
            channel: self.channel,
            host_serial: self.host_serial,
            caller_id: self.caller_id@,
        }
    }
}

/// How many leading bytes of `s` precede its first NUL (all of `s` if none).
pub open spec fn spec_nul_prefix_len(s: Seq<u8>) -> int
    decreases s.len(),
{
    if s.len() == 0 {
        0
    } else if s[0] == 0 {
        0
    } else {
        1 + spec_nul_prefix_len(s.skip(1))
    }
}

/// The prefix of `s` up to (not including) its first NUL.
pub open spec fn spec_nul_prefix(s: Seq<u8>) -> Seq<u8> {
    s.take(spec_nul_prefix_len(s))
}

/// An index bounds `spec_nul_prefix_len` exactly when everything before it
/// is non-NUL and it is the end or a NUL.
pub proof fn lemma_nul_prefix_len_at(s: Seq<u8>, i: int)
    requires
        0 <= i <= s.len(),
        forall|j: int| 0 <= j < i ==> s[j] != 0,
        i < s.len() ==> s[i] == 0,
    ensures
        spec_nul_prefix_len(s) == i,
    decreases s.len(),
{
    if s.len() == 0 {
    } else if s[0] == 0 {
        assert(i == 0);
    } else {
        assert(i >= 1);
        lemma_nul_prefix_len_at(s.skip(1), i - 1);
    }
}

/// The minimum header length: op, channel, serial, caller-ID length.
pub open spec fn spec_header_min_len() -> int {
    7
}

/// Parses the common header, yielding its image and the header length, or
/// the first error in the order length, op code, channel, truncation.
pub open spec fn spec_parse_header(d: Seq<u8>) -> Result<(PolycomHeaderV, int), PolycomError> {
    if d.len() < 7 {
        Err(PolycomError::TooShort { expected: 7, actual: d.len() as usize })
    } else if spec_packet_type_from_op(d[0]) is None {
        Err(PolycomError::InvalidOpCode(d[0]))
    } else if d[1] == 0 || d[1] > 50 {
        Err(PolycomError::InvalidChannel(d[1]))
    } else if d.len() < 7 + d[6] {
        Err(
            PolycomError::Truncated { expected: (7 + d[6]) as usize, actual: d.len() as usize },
        )
    } else {
        Ok(
            (
                PolycomHeaderV {
                    packet_type: spec_packet_type_from_op(d[0]).unwrap(),
                    channel: d[1],
                    host_serial: [d[2], d[3], d[4], d[5]],
                    caller_id: spec_nul_prefix(d.subrange(7, 7 + d[6])),
                },
                7 + d[6],
            ),
        )
    }
}

/// The bytes a header encodes to: the caller ID is padded with NULs to at
/// least 13 bytes, making the prefix at least 20 bytes long.
pub open spec fn spec_encode_header(h: PolycomHeaderV) -> Seq<u8> {
    let padded_len = if h.caller_id.len() < 13 {
        13int
    } else {
        h.caller_id.len() as int
    };
    seq![h.packet_type.spec_to_op_code(), h.channel, h.host_serial[0], h.host_serial[1], h.host_serial[2], h.host_serial[3], padded_len as u8]
        + h.caller_id + Seq::new((padded_len - h.caller_id.len()) as nat, |i: int| 0u8)
}

impl PolycomHeader {
    /// Builds a header value.
    pub fn new(packet_type: PacketType, channel: u8, host_serial: [u8; 4], caller_id: Vec<u8>) -> (r:
        Self)
        ensures
            r@ == (PolycomHeaderV { packet_type, channel, host_serial, caller_id: caller_id@ }),
    {
        PolycomHeader { packet_type, channel, host_serial, caller_id }
    }

    /// Parses the common header from the start of a datagram, returning the
    /// header and how many bytes it occupied.
    pub fn parse(data: &[u8]) -> (r: Result<(PolycomHeader, usize), PolycomError>)
        ensures
            match r {
                Ok(p) => spec_parse_header(data@) == Ok::<_, PolycomError>((p.0@, p.1 as int)),
                Err(e) => spec_parse_header(data@) == Err::<(PolycomHeaderV, int), _>(e),
            },
    {
        if data.len() < 7 {
            return Err(PolycomError::TooShort { expected: 7, actual: data.len() });
        }
        let op_code = data[0];
        let packet_type = match PacketType::from_op_code(op_code) {
            Some(t) => t,
            None => {
                return Err(PolycomError::InvalidOpCode(op_code));
            },
        };
        let channel = data[1];
        if channel == 0 || channel > 50 {
            return Err(PolycomError::InvalidChannel(channel));
        }
        let host_serial = [data[2], data[3], data[4], data[5]];
        let caller_id_len = data[6] as usize;
        let header_len = 7 + caller_id_len;
        if data.len() < header_len {
            return Err(PolycomError::Truncated { expected: header_len, actual: data.len() });
        }
        let ghost field = data@.subrange(7, 7 + caller_id_len as int);
        let mut caller_id: Vec<u8> = Vec::new();
        let mut i: usize = 0;
        let mut hit_nul = false;
        while i < caller_id_len && !hit_nul
            invariant
                0 <= i <= caller_id_len,
                caller_id_len <= 255,
                data@.len() >= 7 + caller_id_len,
                field == data@.subrange(7, 7 + caller_id_len as int),
                forall|j: int| 0 <= j < i ==> field[j] != 0 || (hit_nul && j == i - 1),
                !hit_nul ==> forall|j: int| 0 <= j < i ==> field[j] != 0,
                !hit_nul ==> caller_id@ == field.take(i as int),
                hit_nul ==> i >= 1 && field[i - 1] == 0 && (forall|j: int|
                    0 <= j < i - 1 ==> field[j] != 0) && caller_id@ == field.take(i - 1),
            decreases caller_id_len - i,
        {
            let b = data[7 + i];
            assert(b == field[i as int]);
            if b == 0 {
                hit_nul = true;
            } else {
                caller_id.push(b);
                assert(caller_id@ =~= field.take(i + 1));
            }
            i = i + 1;
        }
        proof {
            if hit_nul {
                lemma_nul_prefix_len_at(field, i - 1);
            } else {
                assert(i == caller_id_len);
                lemma_nul_prefix_len_at(field, i as int);
            }
            assert(caller_id@ =~= spec_nul_prefix(field));
        }
        Ok((PolycomHeader { packet_type, channel, host_serial, caller_id }, header_len))
    }

    /// Encodes the header, padding the caller ID to at least 13 bytes.
    /// Fails only when the caller ID cannot fit its 1-byte length field.
    pub fn encode(&self) -> (r: Result<Vec<u8>, PolycomError>)
        ensures
            self.caller_id@.len() <= 255 ==> (r matches Ok(v) && v@ == spec_encode_header(self@)),
            self.caller_id@.len() > 255 ==> r == Err::<Vec<u8>, _>(PolycomError::CallerIdTooLong),
    {
        if self.caller_id.len() > 255 {
            return Err(PolycomError::CallerIdTooLong);
        }
        let padded_len: usize = if self.caller_id.len() < MIN_CALLER_ID_LEN {
            MIN_CALLER_ID_LEN
        } else {
            self.caller_id.len()
        };
        let mut buf: Vec<u8> = Vec::new();
        buf.push(self.packet_type.to_op_code());
        buf.push(self.channel);
        buf.push(self.host_serial[0]);
        buf.push(self.host_serial[1]);
        buf.push(self.host_serial[2]);
        buf.push(self.host_serial[3]);
        buf.push(padded_len as u8);
        buf.extend_from_slice(self.caller_id.as_slice());
        let mut pad: usize = self.caller_id.len();
        while pad < padded_len
            invariant
                self.caller_id@.len() <= pad <= padded_len,
                padded_len == if self.caller_id@.len() < 13 {
                    13int
                } else {
                    self.caller_id@.len() as int
                },
                buf@.len() == 7 + pad,
                buf@ == spec_encode_header(self@).take(7 + pad),
            decreases padded_len - pad,
        {
            buf.push(0);
            assert(buf@ =~= spec_encode_header(self@).take(7 + pad + 1));
            pad = pad + 1;
        }
        assert(buf@ =~= spec_encode_header(self@));
        Ok(buf)
    }

    /// The encoded header length: 7 plus the padded caller ID.
    pub fn len(&self) -> (r: usize)
        requires
            self.caller_id@.len() + 7 <= usize::MAX,
        ensures
            r == 7 + if self.caller_id@.len() < 13 {
                13int
            } else {
                self.caller_id@.len() as int
            },
    {
        let padded = if self.caller_id.len() < MIN_CALLER_ID_LEN {
            MIN_CALLER_ID_LEN
        } else {
            self.caller_id.len()
        };
        7 + padded
    }

    /// Whether the channel is an emergency channel.
    pub fn is_emergency(&self) -> (r: bool)
        ensures
            r == (self.channel == 25 || self.channel == 50),
    {
        self.channel == PTT_EMERGENCY_CHANNEL || self.channel == PAGING_EMERGENCY_CHANNEL
    }

    /// Whether the channel is a priority channel.
    pub fn is_priority(&self) -> (r: bool)
        ensures
            r == (self.channel == 24 || self.channel == 49),
    {
        self.channel == PTT_PRIORITY_CHANNEL || self.channel == PAGING_PRIORITY_CHANNEL
    }
}

/// A caller ID of up to 255 bytes with no embedded NUL survives the
/// round trip exactly, and the encoded header is `7 + max(n, 13)` bytes.
pub proof fn lemma_header_roundtrip(h: PolycomHeaderV)
    requires
        h.caller_id.len() <= 255,
        forall|j: int| 0 <= j < h.caller_id.len() ==> h.caller_id[j] != 0,
        1 <= h.channel <= 50,
    ensures
        ({
            let e = spec_encode_header(h);
            let n = h.caller_id.len() as int;
            let padded = if n < 13 {
                13int
            } else {
                n
            };
            &&& e.len() == 7 + padded
            &&& spec_parse_header(e) is Ok
            &&& spec_parse_header(e).unwrap().0.packet_type == h.packet_type
            &&& spec_parse_header(e).unwrap().0.channel == h.channel
            &&& spec_parse_header(e).unwrap().0.host_serial == h.host_serial
            &&& spec_parse_header(e).unwrap().0.caller_id == h.caller_id
            &&& spec_parse_header(e).unwrap().1 == e.len()
        }),
{
    let e = spec_encode_header(h);
    let n = h.caller_id.len() as int;
    let padded = if n < 13 {
        13int
    } else {
        n
    };
    assert(e.len() == 7 + padded);
    assert(e[0] == h.packet_type.spec_to_op_code());
    assert(spec_packet_type_from_op(e[0]) == Some(h.packet_type));
    assert(e[1] == h.channel);
    assert(e[6] == padded as u8);
    let field = e.subrange(7, 7 + padded);
    assert(forall|j: int| 0 <= j < n ==> field[j] == h.caller_id[j]);
    assert(forall|j: int| n <= j < padded ==> field[j] == 0);
    lemma_nul_prefix_len_at(field, n);
    assert(spec_nul_prefix(field) =~= h.caller_id);
    let parsed = spec_parse_header(e);
    assert(parsed is Ok);
    assert(parsed.unwrap().0.host_serial =~= h.host_serial);
}

/// Audio subheader of a transmit packet.
#[derive(Debug, Clone, Copy, PartialEq, Eq, Structural)]
pub struct AudioHeader {
    /// Codec tag.
    pub codec: PolycomCodec,
    /// Flags byte; its meaning is not documented.
    pub flags: u8,
    /// Sample counter, advancing by one frame of samples per packet.
    pub sample_count: u32,
}

/// Parses the 6-byte audio subheader.
pub open spec fn spec_parse_audio_header(d: Seq<u8>) -> Result<AudioHeader, PolycomError> {
    if d.len() < 6 {
        Err(PolycomError::TooShort { expected: 6, actual: d.len() as usize })
    } else if spec_codec_from_byte(d[0]) is None {
        Err(PolycomError::InvalidCodec(d[0]))
    } else {
        Ok(
            AudioHeader {
                codec: spec_codec_from_byte(d[0]).unwrap(),
                flags: d[1],
                sample_count: be32(d[2], d[3], d[4], d[5]),
            },
        )
    }
}

/// The 6 bytes an audio subheader encodes to, with the chosen endianness
/// for the sample counter.
pub open spec fn spec_encode_audio_header(h: AudioHeader, big_endian: bool) -> Seq<u8> {
    seq![h.codec.spec_to_byte(), h.flags] + if big_endian {
        be32_bytes(h.sample_count)
    } else {
        le32_bytes(h.sample_count)
    }
}

impl AudioHeader {
    /// Builds an audio subheader value.
    pub fn new(codec: PolycomCodec, flags: u8, sample_count: u32) -> (r: Self)
        ensures
            r == (AudioHeader { codec, flags, sample_count }),
    {
        AudioHeader { codec, flags, sample_count }
    }

    /// Parses the 6-byte audio subheader.
    pub fn parse(data: &[u8]) -> (r: Result<AudioHeader, PolycomError>)
        ensures
            r == spec_parse_audio_header(data@),
    {
        if data.len() < 6 {
            return Err(PolycomError::TooShort { expected: 6, actual: data.len() });
        }
        let codec = match PolycomCodec::from_byte(data[0]) {
            Some(c) => c,
            None => {
                return Err(PolycomError::InvalidCodec(data[0]));
            },
        };
        let flags = data[1];
        let sample_count = read_be32(data[2], data[3], data[4], data[5]);
        Ok(AudioHeader { codec, flags, sample_count })
    }

    /// Encodes the subheader with the big-endian counter of real traffic.
    pub fn encode(&self) -> (r: Vec<u8>)
        ensures
            r@ == spec_encode_audio_header(*self, true),
    {
        self.encode_with_endian(true)
    }

    /// Encodes the subheader; a little-endian counter is a diagnostic
    /// variant only.
    pub fn encode_with_endian(&self, big_endian: bool) -> (r: Vec<u8>)
        ensures
            r@ == spec_encode_audio_header(*self, big_endian),
    {
        let mut buf: Vec<u8> = Vec::new();
        buf.push(self.codec.to_byte());
        buf.push(self.flags);
        if big_endian {
            crate::wire::push_be32(&mut buf, self.sample_count);
        } else {
            crate::wire::push_le32(&mut buf, self.sample_count);
        }
        assert(buf@ =~= spec_encode_audio_header(*self, big_endian));
        buf
    }

    /// The audio subheader is always 6 bytes.
    pub fn len() -> (r: usize)
        ensures
            r == 6,
    {
        6
    }
}

/// The audio subheader of a transmit packet round-trips through its
/// big-endian encoding.
pub proof fn lemma_audio_header_roundtrip(h: AudioHeader)
    ensures
        spec_parse_audio_header(spec_encode_audio_header(h, true)) == Ok::<_, PolycomError>(h),
{
    let e = spec_encode_audio_header(h, true);
    assert(e[0] == h.codec.spec_to_byte());
    assert(spec_codec_from_byte(e[0]) == Some(h.codec));
    crate::wire::lemma_be32_roundtrip(h.sample_count);
    assert(e[2] == be32_bytes(h.sample_count)[0] && e[3] == be32_bytes(h.sample_count)[1] && e[4]
        == be32_bytes(h.sample_count)[2] && e[5] == be32_bytes(h.sample_count)[3]);
}

/// A parsed paging packet.
#[derive(Debug, Clone)]
pub struct PolycomPacket {
    /// Common header.
    pub header: PolycomHeader,
    /// Audio subheader; transmit packets only.
    pub audio_header: Option<AudioHeader>,
    /// The previous packet's frame, resent for loss recovery.
    pub redundant_frame: Option<Vec<u8>>,
    /// The current audio frame.
    pub audio_frame: Option<Vec<u8>>,
}

/// The mathematical image of a `PolycomPacket`.
pub struct PolycomPacketV {
    pub header: PolycomHeaderV,
    pub audio_header: Option<AudioHeader>,
    pub redundant_frame: Option<Seq<u8>>,
    pub audio_frame: Option<Seq<u8>>,
}

impl View for PolycomPacket {
    type V = PolycomPacketV;

    open spec fn view(&self) -> PolycomPacketV {
        PolycomPacketV {
            header: self.header@,
            audio_header: self.audio_header,
            redundant_frame: match self.redundant_frame {
                Some(ref f) => Some(f@),
                None => None,
            },
            audio_frame: match self.audio_frame {
                Some(ref f) => Some(f@),
                None => None,
            },
        }
    }
}

/// How a transmit payload after the audio subheader splits into frames:
/// redundant plus current when two frames fit, current alone when one
/// does, neither otherwise.
pub open spec fn spec_split_frames(audio: Seq<u8>, frame: int) -> (Option<Seq<u8>>, Option<
    Seq<u8>,
>) {
    if audio.len() >= 2 * frame {
        (Some(audio.take(frame)), Some(audio.subrange(frame, 2 * frame)))
    } else if audio.len() >= frame {
        (None, Some(audio.take(frame)))
    } else {
        (None, None)
    }
}

/// Parses a whole paging packet: the common header, then for transmit
/// packets the audio subheader and the frame split.
pub open spec fn spec_parse_packet(d: Seq<u8>) -> Result<PolycomPacketV, PolycomError> {
    match spec_parse_header(d) {
        Err(e) => Err(e),
        Ok((h, hlen)) => {
            if h.packet_type != PacketType::Transmit {
                Ok(
                    PolycomPacketV {
                        header: h,
                        audio_header: None,
                        redundant_frame: None,
                        audio_frame: None,
                    },
                )
            } else {
                let payload = d.skip(hlen);
                if payload.len() < 6 {
                    Err(
                        PolycomError::TooShort {
                            expected: (hlen + 6) as usize,
                            actual: d.len() as usize,
                        },
                    )
                } else {
                    match spec_parse_audio_header(payload) {
                        Err(e) => Err(e),
                        Ok(ah) => {
                            let split = spec_split_frames(
                                payload.skip(6),
                                ah.codec.spec_frame_size() as int,
                            );
                            Ok(
                                PolycomPacketV {
                                    header: h,
                                    audio_header: Some(ah),
                                    redundant_frame: split.0,
                                    audio_frame: split.1,
                                },
                            )
                        },
                    }
                }
            }
        },
    }
}

impl PolycomPacket {
    /// Parses a paging packet from raw bytes.
    pub fn parse(data: &[u8]) -> (r: Result<PolycomPacket, PolycomError>)
        ensures
            match r {
                Ok(p) => spec_parse_packet(data@) == Ok::<_, PolycomError>(p@),
                Err(e) => spec_parse_packet(data@) == Err::<PolycomPacketV, _>(e),
            },
    {
        let (header, header_len) = match PolycomHeader::parse(data) {
            Ok(p) => p,
            Err(e) => {
                return Err(e);
            },
        };
        match header.packet_type {
            PacketType::Alert | PacketType::End => Ok(
                PolycomPacket { header, audio_header: None, redundant_frame: None, audio_frame: None },
            ),
            PacketType::Transmit => {
                if data.len() < header_len + 6 {
                    return Err(
                        PolycomError::TooShort { expected: header_len + 6, actual: data.len() },
                    );
                }
                let payload = &data[header_len..data.len()];
                let audio_header = match AudioHeader::parse(payload) {
                    Ok(a) => a,
                    Err(e) => {
                        return Err(e);
                    },
                };
                let audio_data = &data[header_len + 6..data.len()];
                let frame_size = audio_header.codec.frame_size();
                let (redundant_frame, audio_frame): (Option<Vec<u8>>, Option<Vec<u8>>) = if
                    audio_data.len() >= frame_size * 2 {
                    (
                        Some(vstd::slice::slice_to_vec(&audio_data[0..frame_size])),
                        Some(vstd::slice::slice_to_vec(&audio_data[frame_size..frame_size * 2])),
                    )
                } else if audio_data.len() >= frame_size {
                    (None, Some(vstd::slice::slice_to_vec(&audio_data[0..frame_size])))
                } else {
                    (None, None)
                };
                let p = PolycomPacket {
                    header,
                    audio_header: Some(audio_header),
                    redundant_frame,
                    audio_frame,
                };
                proof {
                    let d = data@;
                    let payload_s = d.skip(header_len as int);
                    assert(payload@ =~= payload_s);
                    assert(d.skip(header_len as int + 6) =~= payload_s.skip(6));
                    let split = spec_split_frames(payload_s.skip(6), frame_size as int);
                    match p.redundant_frame {
                        Some(ref f) => {
                            assert(f@ =~= split.0.unwrap());
                        },
                        None => {},
                    }
                    match p.audio_frame {
                        Some(ref f) => {
                            assert(f@ =~= split.1.unwrap());
                        },
                        None => {},
                    }
                }
                Ok(p)
            },
        }
    }
}

/// The byte image of an optional frame.
pub open spec fn spec_opt_view(o: Option<Vec<u8>>) -> Option<Seq<u8>> {
    match o {
        Some(v) => Some(v@),
        None => None,
    }
}

/// The bytes of a transmit packet: header, then (unless suppressed) the
/// audio subheader and any redundant previous frame, then the current
/// frame.
pub open spec fn spec_transmit_bytes(
    channel: u8,
    host_serial: [u8; 4],
    caller_id: Seq<u8>,
    codec: PolycomCodec,
    sample_count: u32,
    prev: Option<Seq<u8>>,
    skip_redundant: bool,
    skip_audio_header: bool,
    little_endian: bool,
    frame: Seq<u8>,
) -> Seq<u8> {
    let hdr = spec_encode_header(
        PolycomHeaderV { packet_type: PacketType::Transmit, channel, host_serial, caller_id },
    );
    let audio_part = if !skip_audio_header {
        spec_encode_audio_header(
            AudioHeader { codec, flags: 0, sample_count },
            !little_endian,
        ) + if !skip_redundant && prev is Some {
            prev.unwrap()
        } else {
            Seq::empty()
        }
    } else {
        Seq::empty()
    };
    hdr + audio_part + frame
}


/// A transmit packet built with the default switches parses back exactly:
/// the same header fields, the audio subheader with the builder's codec
/// and counter, the previous frame (when one exists) as the redundant
/// frame, and the current frame. The first packet of a page therefore
/// parses with no redundancy, and every later one carries its
/// predecessor.
pub proof fn lemma_transmit_roundtrip(
    channel: u8,
    host_serial: [u8; 4],
    caller_id: Seq<u8>,
    codec: PolycomCodec,
    sample_count: u32,
    prev: Option<Seq<u8>>,
    frame: Seq<u8>,
)
    requires
        caller_id.len() <= 255,
        forall|j: int| 0 <= j < caller_id.len() ==> caller_id[j] != 0,
        1 <= channel <= 50,
        frame.len() == 160,
        prev matches Some(p) ==> p.len() == 160,
    ensures
        ({
            let d = spec_transmit_bytes(
                channel,
                host_serial,
                caller_id,
                codec,
                sample_count,
                prev,
                false,
                false,
                false,
                frame,
            );
            let r = spec_parse_packet(d);
            &&& r is Ok
            &&& r.unwrap().header.packet_type == PacketType::Transmit
            &&& r.unwrap().header.channel == channel
            &&& r.unwrap().header.host_serial == host_serial
            &&& r.unwrap().header.caller_id == caller_id
            &&& r.unwrap().audio_header == Some(
                AudioHeader { codec, flags: 0, sample_count },
            )
            &&& r.unwrap().redundant_frame == prev
            &&& r.unwrap().audio_frame == Some(frame)
        }),
{
    let h = PolycomHeaderV {
        packet_type: PacketType::Transmit,
        channel,
        host_serial,
        caller_id,
    };
    let hdr = spec_encode_header(h);
    let ah = spec_encode_audio_header(AudioHeader { codec, flags: 0, sample_count }, true);
    let prevpart: Seq<u8> = match prev {
        Some(p) => p,
        None => Seq::empty(),
    };
    let d = spec_transmit_bytes(
        channel,
        host_serial,
        caller_id,
        codec,
        sample_count,
        prev,
        false,
        false,
        false,
        frame,
    );
    assert(d =~= hdr + (ah + prevpart) + frame);
    let n = caller_id.len() as int;
    let padded = if n < 13 {
        13int
    } else {
        n
    };
    lemma_header_roundtrip(h);
    assert(hdr.len() == 7 + padded);

    // The header parses the same whether or not bytes follow it: every
    // byte it reads lies inside `hdr`.
    assert(d.len() >= 7 && d[0] == hdr[0] && d[1] == hdr[1] && d[6] == hdr[6]);
    assert(d[2] == hdr[2] && d[3] == hdr[3] && d[4] == hdr[4] && d[5] == hdr[5]);
    assert(d.subrange(7, 7 + padded) =~= hdr.subrange(7, 7 + padded));
    assert(spec_parse_header(d) is Ok);
    let (ph, hlen) = spec_parse_header(d).unwrap();
    assert(ph.packet_type == PacketType::Transmit && ph.channel == channel);
    assert(ph.host_serial =~= host_serial);
    assert(ph.caller_id == caller_id && hlen == 7 + padded);

    let payload = d.skip(hlen);
    assert(payload =~= ah + prevpart + frame);
    assert(payload.len() >= 6);
    assert(payload[0] == codec.spec_to_byte() && payload[1] == 0);
    assert(spec_codec_from_byte(payload[0]) == Some(codec));
    crate::wire::lemma_be32_roundtrip(sample_count);
    assert(payload[2] == be32_bytes(sample_count)[0] && payload[3] == be32_bytes(sample_count)[1]
        && payload[4] == be32_bytes(sample_count)[2] && payload[5] == be32_bytes(
        sample_count,
    )[3]);
    assert(spec_parse_audio_header(payload) == Ok::<_, PolycomError>(
        AudioHeader { codec, flags: 0, sample_count },
    ));

    let audio = payload.skip(6);
    assert(audio =~= prevpart + frame);
    match prev {
        Some(p) => {
            assert(audio.len() == 320);
            assert(audio.take(160) =~= p);
            assert(audio.subrange(160, 320) =~= frame);
        },
        None => {
            assert(audio.len() == 160);
            assert(audio.take(160) =~= frame);
        },
    }
}

/// Builds paging packets for one sender: keeps the channel, identity,
/// codec, the advancing sample counter and the previous frame for
/// redundancy.
#[derive(Debug)]
pub struct PolycomPacketBuilder {
    /// Channel number.
    pub channel: u8,
    /// Host serial (the last four bytes of a MAC address).
    pub host_serial: [u8; 4],
    /// Caller ID bytes.
    pub caller_id: Vec<u8>,
    /// Codec for transmit packets.
    pub codec: PolycomCodec,
    /// Sample counter; seeded pseudo-randomly, advances one frame per
    /// transmit packet.
    pub sample_count: u32,
    /// The last frame sent, resent as redundancy.
    pub previous_frame: Option<Vec<u8>>,
    /// Diagnostic switch: leave out the redundant frame.
    pub skip_redundant: bool,
    /// Diagnostic switch: leave out the audio subheader.
    pub skip_audio_header: bool,
    /// Diagnostic switch: send the sample counter little-endian.
    pub little_endian: bool,
}

impl PolycomPacketBuilder {
    /// A fresh builder; the sample counter starts at a pseudo-random value.
    pub fn new(channel: u8, host_serial: [u8; 4], caller_id: Vec<u8>, codec: PolycomCodec) -> (r:
        Self)
        ensures
            r.channel == channel,
            r.host_serial == host_serial,
            r.caller_id@ == caller_id@,
            r.codec == codec,
            r.previous_frame is None,
            !r.skip_redundant,
            !r.skip_audio_header,
            !r.little_endian,
    {
        PolycomPacketBuilder {
            channel,
            host_serial,
            caller_id,
            codec,
            sample_count: crate::clock::initial_sample_count(),
            previous_frame: None,
            skip_redundant: false,
            skip_audio_header: false,
            little_endian: false,
        }
    }

    /// A fresh builder keyed by the last four bytes of a MAC address.
    pub fn from_mac(channel: u8, mac: [u8; 6], caller_id: Vec<u8>, codec: PolycomCodec) -> (r: Self)
        ensures
            r.channel == channel,
            r.host_serial == [mac[2], mac[3], mac[4], mac[5]],
            r.caller_id@ == caller_id@,
            r.codec == codec,
            r.previous_frame is None,
            !r.skip_redundant,
            !r.skip_audio_header,
            !r.little_endian,
    {
        let host_serial = [mac[2], mac[3], mac[4], mac[5]];
        Self::new(channel, host_serial, caller_id, codec)
    }

    /// Sets whether redundant frames are left out.
    pub fn set_skip_redundant(&mut self, skip: bool)
        ensures
            *final(self) == (PolycomPacketBuilder { skip_redundant: skip, ..*old(self) }),
    {
        self.skip_redundant = skip;
    }

    /// Sets whether the audio subheader is left out.
    pub fn set_skip_audio_header(&mut self, skip: bool)
        ensures
            *final(self) == (PolycomPacketBuilder { skip_audio_header: skip, ..*old(self) }),
    {
        self.skip_audio_header = skip;
    }

    /// Sets whether the sample counter goes out little-endian.
    pub fn set_little_endian(&mut self, little_endian: bool)
        ensures
            *final(self) == (PolycomPacketBuilder { little_endian: little_endian, ..*old(self) }),
    {
        self.little_endian = little_endian;
    }

    /// Builds an alert packet: the header alone.
    pub fn build_alert(&self) -> (r: Result<Vec<u8>, PolycomError>)
        ensures
            self.caller_id@.len() <= 255 ==> (r matches Ok(v) && v@ == spec_encode_header(
                PolycomHeaderV {
                    packet_type: PacketType::Alert,
                    channel: self.channel,
                    host_serial: self.host_serial,
                    caller_id: self.caller_id@,
                },
            )),
            self.caller_id@.len() > 255 ==> r == Err::<Vec<u8>, _>(PolycomError::CallerIdTooLong),
    {
        let header = PolycomHeader::new(
            PacketType::Alert,
            self.channel,
            self.host_serial,
            self.caller_id.clone(),
        );
        header.encode()
    }

    /// Builds a transmit packet around the given frame, records the frame
    /// for redundancy, and advances the sample counter by one frame of
    /// samples.
    pub fn build_transmit(&mut self, audio_frame: &[u8]) -> (r: Result<Vec<u8>, PolycomError>)
        ensures
            old(self).caller_id@.len() > 255 ==> r == Err::<Vec<u8>, _>(
                PolycomError::CallerIdTooLong,
            ) && *final(self) == *old(self),
            old(self).caller_id@.len() <= 255 ==> (r matches Ok(v) && v@ == spec_transmit_bytes(
                old(self).channel,
                old(self).host_serial,
                old(self).caller_id@,
                old(self).codec,
                old(self).sample_count,
                spec_opt_view(old(self).previous_frame),
                old(self).skip_redundant,
                old(self).skip_audio_header,
                old(self).little_endian,
                audio_frame@,
            )),
            old(self).caller_id@.len() <= 255 ==> (final(self).previous_frame matches Some(f)
                && f@ == audio_frame@),
            old(self).caller_id@.len() <= 255 ==> final(self).sample_count == old(self).sample_count.wrapping_add(160),
            final(self).channel == old(self).channel,
            final(self).host_serial == old(self).host_serial,
            final(self).caller_id@ == old(self).caller_id@,
            final(self).codec == old(self).codec,
            final(self).skip_redundant == old(self).skip_redundant,
            final(self).skip_audio_header == old(self).skip_audio_header,
            final(self).little_endian == old(self).little_endian,
    {
        let header = PolycomHeader::new(
            PacketType::Transmit,
            self.channel,
            self.host_serial,
            self.caller_id.clone(),
        );
        let mut packet = match header.encode() {
            Ok(p) => p,
            Err(e) => {
                return Err(e);
            },
        };
        if !self.skip_audio_header {
            let audio_header = AudioHeader::new(self.codec, 0, self.sample_count);
            let ah_bytes = audio_header.encode_with_endian(!self.little_endian);
            packet.extend_from_slice(ah_bytes.as_slice());
            if !self.skip_redundant {
                match self.previous_frame {
                    Some(ref prev) => {
                        packet.extend_from_slice(prev.as_slice());
                    },
                    None => {},
                }
            }
        }
        packet.extend_from_slice(audio_frame);
        proof {
            assert(packet@ =~= spec_transmit_bytes(
                self.channel,
                self.host_serial,
                self.caller_id@,
                self.codec,
                self.sample_count,
                spec_opt_view(self.previous_frame),
                self.skip_redundant,
                self.skip_audio_header,
                self.little_endian,
                audio_frame@,
            ));
        }
        self.previous_frame = Some(vstd::slice::slice_to_vec(audio_frame));
        let advance: u32 = self.codec.frame_size() as u32;
        self.sample_count = self.sample_count.wrapping_add(advance);
        Ok(packet)
    }

    /// Builds an end packet: the header alone.
    pub fn build_end(&self) -> (r: Result<Vec<u8>, PolycomError>)
        ensures
            self.caller_id@.len() <= 255 ==> (r matches Ok(v) && v@ == spec_encode_header(
                PolycomHeaderV {
                    packet_type: PacketType::End,
                    channel: self.channel,
                    host_serial: self.host_serial,
                    caller_id: self.caller_id@,
                },
            )),
            self.caller_id@.len() > 255 ==> r == Err::<Vec<u8>, _>(PolycomError::CallerIdTooLong),
    {
        let header = PolycomHeader::new(
            PacketType::End,
            self.channel,
            self.host_serial,
            self.caller_id.clone(),
        );
        header.encode()
    }

    /// Resets between pages: a new pseudo-random sample counter, no
    /// remembered frame.
    pub fn reset(&mut self)
        ensures
            final(self).previous_frame is None,
            final(self).channel == old(self).channel,
            final(self).host_serial == old(self).host_serial,
            final(self).caller_id@ == old(self).caller_id@,
            final(self).codec == old(self).codec,
            final(self).skip_redundant == old(self).skip_redundant,
            final(self).skip_audio_header == old(self).skip_audio_header,
            final(self).little_endian == old(self).little_endian,
    {
        self.sample_count = crate::clock::initial_sample_count();
        self.previous_frame = None;
    }

    /// The codec transmit packets carry.
    pub fn codec(&self) -> (r: PolycomCodec)
        ensures
            r == self.codec,
    {
        self.codec
    }

    /// The channel packets go out on.
    pub fn channel(&self) -> (r: u8)
        ensures
            r == self.channel,
    {
        self.channel
    }
}

/// States of a paging session at the receiver.
#[derive(Debug, Clone, Copy, PartialEq, Eq, Structural)]
pub enum SessionState {
    /// No active session.
    Idle,
    /// Alert packets are arriving.
    Alerting,
    /// Audio is arriving.
    Transmitting,
    /// End packets are arriving.
    Ending,
}

/// One receiving paging session: alert through end on a single channel.
/// Instants are milliseconds of a monotonic clock the caller reads.
#[derive(Debug)]
pub struct PolycomSession {
    /// Channel number.
    pub channel: u8,
    /// Current state.
    pub state: SessionState,
    /// Caller ID from the opening packet.
    pub caller_id: Vec<u8>,
    /// Host serial of the sender.
    pub host_serial: [u8; 4],
    /// Codec, once a transmit packet has shown it.
    pub codec: Option<PolycomCodec>,
    /// When the session started.
    pub started_at_ms: u64,
    /// When the last packet arrived.
    pub last_packet_at_ms: u64,
    /// Alert packets seen.
    pub alert_count: u32,
    /// Audio packets seen.
    pub audio_packet_count: u32,
    /// End packets seen.
    pub end_count: u32,
}

impl PolycomSession {
    /// The clock never runs backwards within a session.
    pub open spec fn wf(&self) -> bool {
        self.started_at_ms <= self.last_packet_at_ms
    }

    /// Opens a session from its first packet.
    pub fn from_alert(packet: &PolycomPacket, now_ms: u64) -> (r: Self)
        ensures
            r.channel == packet.header.channel,
            r.state == SessionState::Alerting,
            r.caller_id@ == packet.header.caller_id@,
            r.host_serial == packet.header.host_serial,
            r.codec is None,
            r.started_at_ms == now_ms,
            r.last_packet_at_ms == now_ms,
            r.alert_count == 1,
            r.audio_packet_count == 0,
            r.end_count == 0,
            r.wf(),
    {
        PolycomSession {
            channel: packet.header.channel,
            state: SessionState::Alerting,
            caller_id: packet.header.caller_id.clone(),
            host_serial: packet.header.host_serial,
            codec: None,
            started_at_ms: now_ms,
            last_packet_at_ms: now_ms,
            alert_count: 1,
            audio_packet_count: 0,
            end_count: 0,
        }
    }

    /// Absorbs one packet: counts it, moves the state machine, learns the
    /// codec from a transmit packet's subheader.
    pub fn update(&mut self, packet: &PolycomPacket, now_ms: u64)
        requires
            old(self).wf(),
            now_ms >= old(self).last_packet_at_ms,
            old(self).alert_count < u32::MAX,
            old(self).audio_packet_count < u32::MAX,
            old(self).end_count < u32::MAX,
        ensures
            final(self).wf(),
            final(self).last_packet_at_ms == now_ms,
            final(self).channel == old(self).channel,
            final(self).caller_id@ == old(self).caller_id@,
            final(self).host_serial == old(self).host_serial,
            final(self).started_at_ms == old(self).started_at_ms,
            packet.header.packet_type == PacketType::Alert ==> final(self).alert_count == old(self).alert_count + 1 && final(self).state == old(self).state && final(self).codec == old(self).codec && final(self).audio_packet_count == old(self).audio_packet_count && final(self).end_count == old(self).end_count,
            packet.header.packet_type == PacketType::Transmit ==> final(self).audio_packet_count
                == old(self).audio_packet_count + 1 && final(self).state == (if old(self).state
                == SessionState::Alerting {
                SessionState::Transmitting
            } else {
                old(self).state
            }) && final(self).codec == (match packet.audio_header {
                Some(ah) => Some(ah.codec),
                None => old(self).codec,
            }) && final(self).alert_count == old(self).alert_count && final(self).end_count == old(self).end_count,
            packet.header.packet_type == PacketType::End ==> final(self).end_count == old(self).end_count + 1 && final(self).state == SessionState::Ending && final(self).codec
                == old(self).codec && final(self).alert_count == old(self).alert_count && final(self).audio_packet_count == old(self).audio_packet_count,
    {
        self.last_packet_at_ms = now_ms;
        match packet.header.packet_type {
            PacketType::Alert => {
                self.alert_count = self.alert_count + 1;
            },
            PacketType::Transmit => {
                if self.state == SessionState::Alerting {
                    self.state = SessionState::Transmitting;
                }
                match packet.audio_header {
                    Some(ref audio_hdr) => {
                        self.codec = Some(audio_hdr.codec);
                    },
                    None => {},
                }
                self.audio_packet_count = self.audio_packet_count + 1;
            },
            PacketType::End => {
                self.state = SessionState::Ending;
                self.end_count = self.end_count + 1;
            },
        }
    }

    /// Whether the session has gone quiet for longer than the timeout.
    pub fn is_timed_out(&self, now_ms: u64, timeout_ms: u64) -> (r: bool)
        requires
            now_ms >= self.last_packet_at_ms,
        ensures
            r == (now_ms - self.last_packet_at_ms > timeout_ms),
    {
        now_ms - self.last_packet_at_ms > timeout_ms
    }

    /// Whether the session is complete: in the ending state with at least
    /// three end packets seen.
    pub fn is_complete(&self) -> (r: bool)
        ensures
            r == (self.state == SessionState::Ending && self.end_count >= 3),
    {
        self.state == SessionState::Ending && self.end_count >= 3
    }

    /// How long the session ran, in milliseconds: first packet to last.
    pub fn duration(&self) -> (r: u64)
        requires
            self.wf(),
        ensures
            r == self.last_packet_at_ms - self.started_at_ms,
    {
        self.last_packet_at_ms - self.started_at_ms
    }
}

} // verus!
