//! Detection of IEC 61937 bursts inside an arbitrary byte window.
//!
//! A burst starts with the two little-endian sync words `0xF872` and `0x4E1F`,
//! followed by the little-endian header words `Pc` (burst info) and `Pd`
//! (length code). The detector scans a whole buffer for the first such
//! preamble and decodes the header fields.

use vstd::prelude::*;

verus! {

/// `Pc` bit layout (16 bits): bits 0..=6 data type, bit 7 error flag,
/// bits 8..=12 type-dependent info, bits 13..=15 stream number.
pub const PC_TYPE_MASK: u16 = 0x007f;

pub const PC_ERR_MASK: u16 = 0x0080;

pub const PC_INFO_MASK: u16 = 0x1f00;

pub const PC_STRM_MASK: u16 = 0xe000;

pub const PC_INFO_SHIFT: u8 = 8;

pub const PC_STRM_SHIFT: u8 = 13;

/// Payload kind carried by a burst, from the data-type bits of `Pc`.
#[derive(Clone, Copy, Debug, PartialEq, Eq, Structural)]
pub enum StreamType {
    Ac3,
    EAc3,
    Unknown(u8),
}

/// Data-type code of each known stream type.
pub open spec fn spec_stream_type(code: u8) -> StreamType {
    if code == 0x01 {
        StreamType::Ac3
    } else if code == 0x15 {
        StreamType::EAc3
    } else {
        StreamType::Unknown(code)
    }
}

impl From<u8> for StreamType {
    fn from(value: u8) -> StreamType {
        match value {
            0x01 => StreamType::Ac3,
            0x15 => StreamType::EAc3,
            other => StreamType::Unknown(other),
        }
    }
}

impl vstd::std_specs::convert::FromSpecImpl<u8> for StreamType {
    open spec fn obeys_from_spec() -> bool {
        true
    }

    open spec fn from_spec(value: u8) -> StreamType {
        spec_stream_type(value)
    }
}

/// A decoded IEC 61937 burst preamble.
#[derive(Clone, Copy, Debug, PartialEq, Eq, Structural)]
pub struct Iec61937Preamble {
    pub stream_type: StreamType,
    pub error: bool,
    pub info: u8,
    pub stream_number: u8,
    pub length_code: u16,
}

impl Iec61937Preamble {
    /// Size of the burst payload in bytes: for AC-3 the length code counts
    /// bits and truncates to whole bytes; for E-AC-3 it counts bytes as is;
    /// for an unknown stream type no length unit is known.
    pub open spec fn spec_payload_bytes(self) -> Option<usize> {
        match self.stream_type {
            StreamType::Ac3 => Some((self.length_code / 8) as usize),
            StreamType::EAc3 => Some(self.length_code as usize),
            StreamType::Unknown(_) => None,
        }
    }

    pub fn payload_bytes(&self) -> (r: Option<usize>)
        ensures
            r == self.spec_payload_bytes(),
    {
        match self.stream_type {
            StreamType::Ac3 => Some((self.length_code as usize) / 8),
            StreamType::EAc3 => Some(self.length_code as usize),
            StreamType::Unknown(_) => None,
        }
    }
}

/// For any E-AC-3 burst the payload size is the length code verbatim: the
/// code already counts bytes, so no division happens.
pub proof fn lemma_eac3_payload_is_length_code(p: Iec61937Preamble)
    requires
        p.stream_type is EAc3,
    ensures
        p.spec_payload_bytes() == Some(p.length_code as usize),
{
}

/// An eight-byte preamble (sync pair plus `Pc`/`Pd`) starts at offset `i`.
pub open spec fn spec_sync_at(b: Seq<u8>, i: int) -> bool {
    &&& 0 <= i
    &&& i + 8 <= b.len()
    &&& b[i] == 0x72u8
    &&& b[i + 1] == 0xf8u8
    &&& b[i + 2] == 0x1fu8
    &&& b[i + 3] == 0x4eu8
}

/// Some preamble starts somewhere in the buffer.
pub open spec fn spec_has_preamble(b: Seq<u8>) -> bool {
    exists|i: int| spec_sync_at(b, i)
}

/// A preamble starts at `i` and at no earlier offset.
pub open spec fn spec_first_sync_at(b: Seq<u8>, i: int) -> bool {
    &&& spec_sync_at(b, i)
    &&& forall|j: int| 0 <= j < i ==> !spec_sync_at(b, j)
}

/// The 16-bit word stored little-endian as `lo`, `hi`.
pub open spec fn spec_le16(lo: u8, hi: u8) -> u16 {
    (lo + 256 * hi) as u16
}

/// The preamble decoded from the eight bytes at offset `i`.
pub open spec fn spec_preamble_at(b: Seq<u8>, i: int) -> Iec61937Preamble {
    let pc = spec_le16(b[i + 4], b[i + 5]);
    let pd = spec_le16(b[i + 6], b[i + 7]);
    Iec61937Preamble {
        stream_type: spec_stream_type((pc & PC_TYPE_MASK) as u8),
        error: (pc & PC_ERR_MASK) != 0,
        info: ((pc & PC_INFO_MASK) >> (PC_INFO_SHIFT as u16)) as u8,
        stream_number: ((pc & PC_STRM_MASK) >> (PC_STRM_SHIFT as u16)) as u8,
        length_code: pd,
    }
}

/// Whatever the header bytes hold, the decoded type-dependent info field is
/// five bits wide and the stream number three.
pub proof fn lemma_preamble_fields_bounded(b: Seq<u8>, i: int)
    ensures
        spec_preamble_at(b, i).info <= 0x1f,
        spec_preamble_at(b, i).stream_number <= 7,
{
    let pc = spec_le16(b[i + 4], b[i + 5]);
    assert((pc & 0x1f00u16) >> 8u16 <= 0x1fu16) by (bit_vector);
    assert((pc & 0xe000u16) >> 13u16 <= 7u16) by (bit_vector);
}

/// Stateless scanner for IEC 61937 preambles.
pub struct Iec61937Detector {}

impl Iec61937Detector {
    pub fn new() -> Iec61937Detector {
        Iec61937Detector {  }
    }

    /// Scan the whole buffer for the first preamble and decode its header.
    ///
    /// Buffers shorter than eight bytes never hold a whole preamble, so they
    /// always yield `None`; scanning starts at every offset, since chunk
    /// boundaries do not align with burst boundaries.
    pub fn find_preamble(bytes: &[u8]) -> (r: Option<Iec61937Preamble>)
        ensures
            bytes@.len() < 8 ==> r is None,
            r is None <==> !spec_has_preamble(bytes@),
            forall|i: int|
                spec_first_sync_at(bytes@, i) ==> r == Some(spec_preamble_at(bytes@, i)),
    {
        if bytes.len() < 8 {
            return None;
        }
        let end: usize = bytes.len() - 8;
        let mut i: usize = 0;
        while i <= end
            invariant
                bytes@.len() >= 8,
                end == bytes@.len() - 8,
                i <= end + 1,
                forall|j: int| 0 <= j < i ==> !spec_sync_at(bytes@, j),
            decreases end + 1 - i,
        {
            if bytes[i] == 0x72 && bytes[i + 1] == 0xf8 && bytes[i + 2] == 0x1f && bytes[i + 3]
                == 0x4e {
                let pc: u16 = (bytes[i + 4] as u16) + 256 * (bytes[i + 5] as u16);
                let pd: u16 = (bytes[i + 6] as u16) + 256 * (bytes[i + 7] as u16);
                let data_type: u8 = (pc & PC_TYPE_MASK) as u8;
                let error: bool = (pc & PC_ERR_MASK) != 0;
                let info: u8 = ((pc & PC_INFO_MASK) >> (PC_INFO_SHIFT as u16)) as u8;
                let stream_number: u8 = ((pc & PC_STRM_MASK) >> (PC_STRM_SHIFT as u16)) as u8;
                let p = Iec61937Preamble {
                    stream_type: StreamType::from(data_type),
                    error,
                    info,
                    stream_number,
                    length_code: pd,
                };
                proof {
                    assert(spec_sync_at(bytes@, i as int));
                    assert(p == spec_preamble_at(bytes@, i as int));
                }
                return Some(p);
            }
            i += 1;
        }
        None
    }
}

} // verus!
