//! RTP (RFC 3550) packet parsing and building.

use vstd::prelude::*;
use crate::wire::{be16, be32, be16_bytes, be32_bytes, read_be16, read_be32};

verus! {

/// Errors of the RTP parser.
#[derive(Debug, Clone, Copy, PartialEq, Eq, Structural)]
pub enum RtpError {
    /// Fewer than the 12 fixed header bytes arrived; carries the length seen.
    TooShort(usize),
    /// The version field was not 2; carries the version seen.
    InvalidVersion(u8),
    /// The packet ends before the header it announces.
    Truncated { expected: usize, actual: usize },
    /// The padding trailer claims zero bytes or more than remain.
    InvalidPadding,
}

/// RTP header as defined in RFC 3550.
#[derive(Debug, Clone)]
pub struct RtpHeader {
    /// RTP version (always 2 after a successful parse).
    pub version: u8,
    /// Padding flag.
    pub padding: bool,
    /// Extension header present.
    pub extension: bool,
    /// CSRC count.
    pub csrc_count: u8,
    /// Marker bit.
    pub marker: bool,
    /// Payload type (7 bits).
    pub payload_type: u8,
    /// Sequence number (16 bits).
    pub sequence_number: u16,
    /// Timestamp (32 bits).
    pub timestamp: u32,
    /// Synchronization source identifier.
    pub ssrc: u32,
    /// Contributing source identifiers.
    pub csrc: Vec<u32>,
}

/// The mathematical image of an `RtpHeader`.
pub struct RtpHeaderV {
    pub version: u8,
    pub padding: bool,
    pub extension: bool,
    pub csrc_count: u8,
    pub marker: bool,
    pub payload_type: u8,
    pub sequence_number: u16,
    pub timestamp: u32,
    pub ssrc: u32,
    pub csrc: Seq<u32>,
}

impl View for RtpHeader {
    type V = RtpHeaderV;

    open spec fn view(&self) -> RtpHeaderV {
        RtpHeaderV {
            version: self.version,
            padding: self.padding,
            extension: self.extension,
            csrc_count: self.csrc_count,
            marker: self.marker,
            payload_type: self.payload_type,
            sequence_number: self.sequence_number,
            timestamp: self.timestamp,
            ssrc: self.ssrc,
            csrc: self.csrc@,
        }
    }
}

/// A parsed RTP packet: header fields and the payload bytes.
#[derive(Debug, Clone)]
pub struct RtpPacket {
    pub header: RtpHeader,
    pub payload: Vec<u8>,
}

/// How many bytes the fixed header and the CSRC list occupy.
pub open spec fn spec_rtp_base_len(d: Seq<u8>) -> int {
    12 + 4 * (d[0] % 16)
}

/// How many bytes the whole header occupies, extension included.
pub open spec fn spec_rtp_header_len(d: Seq<u8>) -> int {
    let base = spec_rtp_base_len(d);
    if (d[0] / 16) % 2 == 1 {
        base + 4 + 4 * be16(d[base + 2], d[base + 3])
    } else {
        base
    }
}

/// The CSRC list carried after the fixed header.
pub open spec fn spec_rtp_csrc(d: Seq<u8>) -> Seq<u32> {
    Seq::new(
        (d[0] % 16) as nat,
        |i: int| be32(d[12 + 4 * i], d[12 + 4 * i + 1], d[12 + 4 * i + 2], d[12 + 4 * i + 3]),
    )
}

/// Where the payload ends: the packet end, less any padding trailer.
pub open spec fn spec_rtp_payload_end(d: Seq<u8>) -> int {
    if (d[0] / 32) % 2 == 1 {
        d.len() - d[d.len() - 1]
    } else {
        d.len() as int
    }
}

/// What parsing a datagram as RTP yields: the header's image and the payload
/// bytes, or the first error the validation rules hit, in the order
/// length, version, truncation, padding.
pub open spec fn spec_rtp_parse(d: Seq<u8>) -> Result<(RtpHeaderV, Seq<u8>), RtpError> {
    if d.len() < 12 {
        Err(RtpError::TooShort(d.len() as usize))
    } else if d[0] / 64 != 2 {
        Err(RtpError::InvalidVersion((d[0] / 64) as u8))
    } else if d.len() < spec_rtp_base_len(d) {
        Err(
            RtpError::Truncated {
                expected: spec_rtp_base_len(d) as usize,
                actual: d.len() as usize,
            },
        )
    } else if (d[0] / 16) % 2 == 1 && d.len() < spec_rtp_base_len(d) + 4 {
        Err(
            RtpError::Truncated {
                expected: (spec_rtp_base_len(d) + 4) as usize,
                actual: d.len() as usize,
            },
        )
    } else if d.len() < spec_rtp_header_len(d) {
        Err(
            RtpError::Truncated {
                expected: spec_rtp_header_len(d) as usize,
                actual: d.len() as usize,
            },
        )
    } else if (d[0] / 32) % 2 == 1 && (d[d.len() - 1] == 0 || d[d.len() - 1] > d.len()
        - spec_rtp_header_len(d)) {
        Err(RtpError::InvalidPadding)
    } else {
        Ok(
            (
                RtpHeaderV {
                    version: 2,
                    padding: (d[0] / 32) % 2 == 1,
                    extension: (d[0] / 16) % 2 == 1,
                    csrc_count: (d[0] % 16) as u8,
                    marker: d[1] / 128 == 1,
                    payload_type: (d[1] % 128) as u8,
                    sequence_number: be16(d[2], d[3]),
                    timestamp: be32(d[4], d[5], d[6], d[7]),
                    ssrc: be32(d[8], d[9], d[10], d[11]),
                    csrc: spec_rtp_csrc(d),
                },
                d.subrange(spec_rtp_header_len(d), spec_rtp_payload_end(d)),
            ),
        )
    }
}

/// The bytes `build` produces: a fixed 12-byte header with no CSRC,
/// extension or padding, followed by the payload.
pub open spec fn spec_rtp_build(
    payload_type: u8,
    sequence_number: u16,
    timestamp: u32,
    ssrc: u32,
    payload: Seq<u8>,
    marker: bool,
) -> Seq<u8> {
    seq![
        0x80u8,
        if marker {
            (128 + payload_type % 128) as u8
        } else {
            (payload_type % 128) as u8
        },
    ] + be16_bytes(sequence_number) + be32_bytes(timestamp) + be32_bytes(ssrc) + payload
}

impl RtpPacket {
    /// Parses an RTP packet from raw bytes.
    pub fn parse(data: &[u8]) -> (r: Result<RtpPacket, RtpError>)
        ensures
            match r {
                Ok(p) => spec_rtp_parse(data@) == Ok::<_, RtpError>((p.header@, p.payload@)),
                Err(e) => spec_rtp_parse(data@) == Err::<(RtpHeaderV, Seq<u8>), _>(e),
            },
    {
        if data.len() < 12 {
            return Err(RtpError::TooShort(data.len()));
        }
        let first = data[0];
        let version = first / 64;
        if version != 2 {
            return Err(RtpError::InvalidVersion(version));
        }
        let padding = (first / 32) % 2 == 1;
        let extension = (first / 16) % 2 == 1;
        let csrc_count = first % 16;

        let second = data[1];
        let marker = second / 128 == 1;
        let payload_type = second % 128;

        let sequence_number = read_be16(data[2], data[3]);
        let timestamp = read_be32(data[4], data[5], data[6], data[7]);
        let ssrc = read_be32(data[8], data[9], data[10], data[11]);

        let base_len: usize = 12 + 4 * csrc_count as usize;
        if data.len() < base_len {
            return Err(RtpError::Truncated { expected: base_len, actual: data.len() });
        }

        let mut csrc: Vec<u32> = Vec::new();
        let mut i: usize = 0;
        while i < csrc_count as usize
            invariant
                i <= csrc_count as usize,
                data@.len() >= 12 + 4 * (csrc_count as int),
                csrc_count == data@[0] % 16,
                csrc@.len() == i,
                forall|j: int| 0 <= j < i ==> csrc@[j] == spec_rtp_csrc(data@)[j],
            decreases csrc_count as usize - i,
        {
            let offset = 12 + i * 4;
            let val = read_be32(data[offset], data[offset + 1], data[offset + 2], data[offset + 3]);
            csrc.push(val);
            i = i + 1;
        }
        assert(csrc@ =~= spec_rtp_csrc(data@));

        let mut header_len = base_len;
        if extension {
            if data.len() < header_len + 4 {
                return Err(RtpError::Truncated { expected: header_len + 4, actual: data.len() });
            }
            let ext_words = read_be16(data[header_len + 2], data[header_len + 3]);
            if ext_words as usize > (usize::MAX - base_len - 4) / 4 {
                // Cannot arise: the field is 16 bits wide and the packet
                // would have to be longer than any datagram.
                return Err(
                    RtpError::Truncated { expected: usize::MAX, actual: data.len() },
                );
            }
            header_len = header_len + 4 + ext_words as usize * 4;
            assert(header_len == spec_rtp_header_len(data@));
            if data.len() < header_len {
                return Err(RtpError::Truncated { expected: header_len, actual: data.len() });
            }
        }
        assert(header_len == spec_rtp_header_len(data@));

        let payload_end: usize = if padding {
            let padding_len = data[data.len() - 1] as usize;
            if padding_len == 0 || padding_len > data.len() - header_len {
                return Err(RtpError::InvalidPadding);
            }
            data.len() - padding_len
        } else {
            data.len()
        };
        assert(payload_end == spec_rtp_payload_end(data@));

        let payload = vstd::slice::slice_to_vec(&data[header_len..payload_end]);

        Ok(
            RtpPacket {
                header: RtpHeader {
                    version,
                    padding,
                    extension,
                    csrc_count,
                    marker,
                    payload_type,
                    sequence_number,
                    timestamp,
                    ssrc,
                    csrc,
                },
                payload,
            },
        )
    }

    /// Builds an RTP packet with a fixed 12-byte header: no CSRC, no
    /// extension, no padding.
    pub fn build(
        payload_type: u8,
        sequence_number: u16,
        timestamp: u32,
        ssrc: u32,
        payload: &[u8],
        marker: bool,
    ) -> (r: Vec<u8>)
        ensures
            r@ == spec_rtp_build(payload_type, sequence_number, timestamp, ssrc, payload@, marker),
    {
        let mut packet: Vec<u8> = Vec::new();
        packet.push(0x80);
        let second: u8 = if marker {
            128 + payload_type % 128
        } else {
            payload_type % 128
        };
        packet.push(second);
        crate::wire::push_be16(&mut packet, sequence_number);
        crate::wire::push_be32(&mut packet, timestamp);
        crate::wire::push_be32(&mut packet, ssrc);
        packet.extend_from_slice(payload);
        assert(packet@ =~= spec_rtp_build(
            payload_type,
            sequence_number,
            timestamp,
            ssrc,
            payload@,
            marker,
        ));
        packet
    }
}

/// A built packet parses back to the fields it was built from: version 2,
/// no padding, no extension, no CSRC, and the same payload.
pub proof fn lemma_rtp_build_parse(
    payload_type: u8,
    sequence_number: u16,
    timestamp: u32,
    ssrc: u32,
    payload: Seq<u8>,
    marker: bool,
)
    ensures
        spec_rtp_parse(spec_rtp_build(payload_type, sequence_number, timestamp, ssrc, payload, marker))
            == Ok::<_, RtpError>(
            (
                RtpHeaderV {
                    version: 2,
                    padding: false,
                    extension: false,
                    csrc_count: 0,
                    marker: marker,
                    payload_type: (payload_type % 128) as u8,
                    sequence_number: sequence_number,
                    timestamp: timestamp,
                    ssrc: ssrc,
                    csrc: Seq::empty(),
                },
                payload,
            ),
        ),
{
    let d = spec_rtp_build(payload_type, sequence_number, timestamp, ssrc, payload, marker);
    assert(d.len() == 12 + payload.len());
    assert(d[0] == 0x80);
    assert(d[1] == if marker {
        (128 + payload_type % 128) as u8
    } else {
        (payload_type % 128) as u8
    });
    assert(d[0] / 64 == 2 && (d[0] / 32) % 2 == 0 && (d[0] / 16) % 2 == 0 && d[0] % 16 == 0);
    assert(spec_rtp_base_len(d) == 12 && spec_rtp_header_len(d) == 12);
    assert(spec_rtp_payload_end(d) == d.len());
    let parsed = spec_rtp_parse(d);
    assert(parsed is Ok);
    let (h, p) = parsed.unwrap();
    assert(h.marker == marker && h.payload_type == payload_type % 128) by {
        if marker {
            assert(d[1] == (128 + payload_type % 128) as u8);
            assert(d[1] / 128 == 1 && d[1] % 128 == payload_type % 128);
        } else {
            assert(d[1] / 128 == 0 && d[1] % 128 == payload_type % 128);
        }
    };
    assert(h.sequence_number == sequence_number) by {
        crate::wire::lemma_be16_roundtrip(sequence_number);
        assert(d[2] == be16_bytes(sequence_number)[0] && d[3] == be16_bytes(sequence_number)[1]);
    };
    assert(h.timestamp == timestamp) by {
        crate::wire::lemma_be32_roundtrip(timestamp);
        assert(d[4] == be32_bytes(timestamp)[0] && d[5] == be32_bytes(timestamp)[1] && d[6]
            == be32_bytes(timestamp)[2] && d[7] == be32_bytes(timestamp)[3]);
    };
    assert(h.ssrc == ssrc) by {
        crate::wire::lemma_be32_roundtrip(ssrc);
        assert(d[8] == be32_bytes(ssrc)[0] && d[9] == be32_bytes(ssrc)[1] && d[10] == be32_bytes(
            ssrc,
        )[2] && d[11] == be32_bytes(ssrc)[3]);
    };
    assert(h.csrc =~= Seq::<u32>::empty());
    assert(p =~= payload);
}

/// Every parsed packet, rebuilt from its scalar header fields and payload,
/// parses again to the same marker, payload type, sequence number,
/// timestamp, SSRC and payload; CSRC, extension and padding are the
/// normalisation `build` omits.
pub proof fn lemma_rtp_reparse(d: Seq<u8>)
    requires
        spec_rtp_parse(d) is Ok,
    ensures
        ({
            let (h, p) = spec_rtp_parse(d).unwrap();
            let rebuilt = spec_rtp_build(
                h.payload_type,
                h.sequence_number,
                h.timestamp,
                h.ssrc,
                p,
                h.marker,
            );
            let (h2, p2) = spec_rtp_parse(rebuilt).unwrap();
            &&& spec_rtp_parse(rebuilt) is Ok
            &&& h2.marker == h.marker
            &&& h2.payload_type == h.payload_type
            &&& h2.sequence_number == h.sequence_number
            &&& h2.timestamp == h.timestamp
            &&& h2.ssrc == h.ssrc
            &&& p2 == p
        }),
{
    let (h, p) = spec_rtp_parse(d).unwrap();
    assert(h.payload_type < 128);
    lemma_rtp_build_parse(h.payload_type, h.sequence_number, h.timestamp, h.ssrc, p, h.marker);
}

/// Standard RTP payload types as defined in RFC 3551.
#[derive(Debug, Clone, Copy, PartialEq, Eq, Structural, Hash)]
pub enum PayloadType {
    /// G.711 mu-law (PCMU): 8 kHz, mono.
    Pcmu,
    /// G.711 A-law (PCMA): 8 kHz, mono.
    Pcma,
    /// G.722: wideband, mono.
    G722,
    /// L16 stereo, 44.1 kHz.
    L16Stereo,
    /// L16 mono, 44.1 kHz.
    L16Mono,
    /// Dynamic payload type (96-127), taken as Opus.
    Dynamic(u8),
    /// Any other payload type.
    Unknown(u8),
}

/// The payload-type table of RFC 3551, plus the dynamic range.
pub open spec fn spec_payload_type_from_pt(pt: u8) -> PayloadType {
    if pt == 0 {
        PayloadType::Pcmu
    } else if pt == 8 {
        PayloadType::Pcma
    } else if pt == 9 {
        PayloadType::G722
    } else if pt == 10 {
        PayloadType::L16Stereo
    } else if pt == 11 {
        PayloadType::L16Mono
    } else if 96 <= pt <= 127 {
        PayloadType::Dynamic(pt)
    } else {
        PayloadType::Unknown(pt)
    }
}

impl PayloadType {
    /// The payload type a 7-bit number denotes.
    pub fn from_pt(pt: u8) -> (r: PayloadType)
        ensures
            r == spec_payload_type_from_pt(pt),
    {
        match pt {
            0 => PayloadType::Pcmu,
            8 => PayloadType::Pcma,
            9 => PayloadType::G722,
            10 => PayloadType::L16Stereo,
            11 => PayloadType::L16Mono,
            96..=127 => PayloadType::Dynamic(pt),
            _ => PayloadType::Unknown(pt),
        }
    }

    /// The number this payload type is sent under.
    pub fn to_pt(&self) -> (r: u8)
        ensures
            r == self.spec_to_pt(),
    {
        match self {
            PayloadType::Pcmu => 0,
            PayloadType::Pcma => 8,
            PayloadType::G722 => 9,
            PayloadType::L16Stereo => 10,
            PayloadType::L16Mono => 11,
            PayloadType::Dynamic(pt) => *pt,
            PayloadType::Unknown(pt) => *pt,
        }
    }

    /// The number as a spec-level value.
    pub open spec fn spec_to_pt(self) -> u8 {
        match self {
            PayloadType::Pcmu => 0,
            PayloadType::Pcma => 8,
            PayloadType::G722 => 9,
            PayloadType::L16Stereo => 10,
            PayloadType::L16Mono => 11,
            PayloadType::Dynamic(pt) => pt,
            PayloadType::Unknown(pt) => pt,
        }
    }

    /// The RTP clock rate of this payload type.
    pub fn sample_rate(&self) -> (r: u32)
        ensures
            r == self.spec_sample_rate(),
    {
        match self {
            PayloadType::Pcmu | PayloadType::Pcma => 8000,
            PayloadType::G722 => 16000,
            PayloadType::L16Stereo | PayloadType::L16Mono => 44100,
            PayloadType::Dynamic(_) => 48000,
            PayloadType::Unknown(_) => 8000,
        }
    }

    /// The clock rate as a spec-level value.
    pub open spec fn spec_sample_rate(self) -> u32 {
        match self {
            PayloadType::Pcmu | PayloadType::Pcma => 8000,
            PayloadType::G722 => 16000,
            PayloadType::L16Stereo | PayloadType::L16Mono => 44100,
            PayloadType::Dynamic(_) => 48000,
            PayloadType::Unknown(_) => 8000,
        }
    }

    /// The channel count of this payload type.
    pub fn channels(&self) -> (r: u8)
        ensures
            r == self.spec_channels(),
    {
        match self {
            PayloadType::Pcmu | PayloadType::Pcma | PayloadType::G722 | PayloadType::L16Mono => 1,
            PayloadType::L16Stereo => 2,
            PayloadType::Dynamic(_) => 2,
            PayloadType::Unknown(_) => 1,
        }
    }

    /// The channel count as a spec-level value.
    pub open spec fn spec_channels(self) -> u8 {
        match self {
            PayloadType::Pcmu | PayloadType::Pcma | PayloadType::G722 | PayloadType::L16Mono => 1,
            PayloadType::L16Stereo => 2,
            PayloadType::Dynamic(_) => 2,
            PayloadType::Unknown(_) => 1,
        }
    }

    /// A human-readable name.
    pub fn name(&self) -> (r: &'static str)
        ensures
            r@ == self.spec_name()@,
    {
        match self {
            PayloadType::Pcmu => "G.711 u-law",
            PayloadType::Pcma => "G.711 A-law",
            PayloadType::G722 => "G.722",
            PayloadType::L16Stereo => "L16 Stereo",
            PayloadType::L16Mono => "L16 Mono",
            PayloadType::Dynamic(_) => "Opus",
            PayloadType::Unknown(_) => "Unknown",
        }
    }

    /// The name as a spec-level value.
    pub open spec fn spec_name(self) -> &'static str {
        match self {
            PayloadType::Pcmu => "G.711 u-law",
            PayloadType::Pcma => "G.711 A-law",
            PayloadType::G722 => "G.722",
            PayloadType::L16Stereo => "L16 Stereo",
            PayloadType::L16Mono => "L16 Mono",
            PayloadType::Dynamic(_) => "Opus",
            PayloadType::Unknown(_) => "Unknown",
        }
    }
}

} // verus!
