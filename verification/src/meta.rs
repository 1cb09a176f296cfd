//! The 8-byte firmware metadata record: little-endian decoding, packing, and
//! the validity predicate that admits or rejects a candidate image.

use vstd::prelude::*;

use crate::layout::FlashAddr;
use crate::{FW_META_OFFSET, FW_SIGNATURE_LEN};

verus! {

/// The little-endian 16-bit value stored at byte offset `i`.
pub open spec fn le16_at(s: Seq<u8>, i: int) -> int
    recommends
        0 <= i,
        i + 2 <= s.len(),
{
    s[i] + s[i + 1] * 0x100
}

/// The little-endian 32-bit value stored at byte offset `i`.
pub open spec fn le32_at(s: Seq<u8>, i: int) -> int
    recommends
        0 <= i,
        i + 4 <= s.len(),
{
    s[i] + s[i + 1] * 0x100 + s[i + 2] * 0x1_0000 + s[i + 3] * 0x100_0000
}

/// The metadata record stored at `FW_META_OFFSET` inside the image.
#[derive(Clone, Copy, Debug, PartialEq, Eq, Structural)]
pub struct FirmwareMeta {
    /// Image type tag; only `0x3801` is accepted.
    pub image_type: u16,
    /// Count of extra files after the image; only `0` is accepted.
    pub extra_file_count: u16,
    /// Total image length in bytes, trailing signature included.
    pub fw_len: u32,
}

/// The record that an 8-byte buffer decodes to.
pub open spec fn spec_parse_meta(s: Seq<u8>) -> FirmwareMeta
    recommends
        s.len() >= 8,
{
    FirmwareMeta {
        image_type: le16_at(s, 0) as u16,
        extra_file_count: le16_at(s, 2) as u16,
        fw_len: le32_at(s, 4) as u32,
    }
}

/// Decodes the metadata record from its 8 little-endian bytes.
pub fn parse_meta(buffer: [u8; 8]) -> (m: FirmwareMeta)
    ensures
        m == spec_parse_meta(buffer@),
{
    let image_type: u16 = buffer[0] as u16 + buffer[1] as u16 * 0x100;
    let extra_file_count: u16 = buffer[2] as u16 + buffer[3] as u16 * 0x100;
    let fw_len: u32 = buffer[4] as u32 + buffer[5] as u32 * 0x100 + buffer[6] as u32 * 0x1_0000
        + buffer[7] as u32 * 0x100_0000;
    FirmwareMeta { image_type, extra_file_count, fw_len }
}

/// Encodes a metadata record into the 8 bytes that `parse_meta` decodes:
/// packing and then parsing yields the original fields.
pub fn pack_meta(m: &FirmwareMeta) -> (buffer: [u8; 8])
    ensures
        spec_parse_meta(buffer@) == *m,
{
    let buffer: [u8; 8] = [
        (m.image_type % 0x100) as u8,
        (m.image_type / 0x100) as u8,
        (m.extra_file_count % 0x100) as u8,
        (m.extra_file_count / 0x100) as u8,
        (m.fw_len % 0x100) as u8,
        (m.fw_len / 0x100 % 0x100) as u8,
        (m.fw_len / 0x1_0000 % 0x100) as u8,
        (m.fw_len / 0x100_0000) as u8,
    ];
    proof {
        let s = buffer@;
        assert(le16_at(s, 0) == m.image_type);
        assert(le16_at(s, 2) == m.extra_file_count);
        assert(le32_at(s, 4) == m.fw_len);
    }
    buffer
}

/// The full validity predicate over a decoded record: the image is accepted
/// only when the type tag matches, no extra files are declared, the declared
/// length covers the signature and the header, and the image together with a
/// second signature's worth of slack fits the user region.
pub open spec fn meta_valid(m: FirmwareMeta, user_length: int) -> bool {
    &&& m.image_type == 0x3801
    &&& m.extra_file_count == 0
    &&& m.fw_len >= FW_SIGNATURE_LEN
    &&& m.fw_len >= FW_META_OFFSET
    &&& m.fw_len <= user_length
    &&& m.fw_len + FW_SIGNATURE_LEN <= user_length
}

/// Applies the validity predicate for a record against the user region bounds.
pub fn validate_meta(m: &FirmwareMeta, addr: &FlashAddr) -> (r: bool)
    ensures
        r == meta_valid(*m, addr.user_length as int),
{
    m.image_type == 0x3801 && m.extra_file_count == 0 && m.fw_len as u64 >= FW_SIGNATURE_LEN
        as u64 && m.fw_len >= FW_META_OFFSET && m.fw_len as u64 <= addr.user_length as u64 && m.fw_len
        as u64 + FW_SIGNATURE_LEN as u64 <= addr.user_length as u64
}

} // verus!
