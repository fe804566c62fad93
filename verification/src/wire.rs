//! Byte layout of the IEC 60870-5-104 application layer: the ASDU header,
//! information object addresses and the information elements of the
//! commands a master sends.

use vstd::prelude::*;

verus! {

/// Little-endian bytes of a 16-bit value.
pub open spec fn le16(v: u16) -> Seq<u8> {
    seq![(v % 256) as u8, (v / 256) as u8]
}

/// Little-endian bytes of a 32-bit value.
pub open spec fn le32(v: u32) -> Seq<u8> {
    seq![(v % 256) as u8, ((v / 256) % 256) as u8, ((v / 65536) % 256) as u8, (v / 16777216) as u8]
}

/// The three-byte information object address field (low byte first).
pub open spec fn ioa3(ioa: u32) -> Seq<u8> {
    seq![(ioa % 256) as u8, ((ioa / 256) % 256) as u8, ((ioa / 65536) % 256) as u8]
}

/// Variable structure qualifier: object count in bit 0-6, SQ flag in bit 7.
pub open spec fn vsq_byte(object_count: u8, sequence: bool) -> u8 {
    ((object_count % 128) + if sequence { 128int } else { 0int }) as u8
}

/// ASDU header (type, VSQ, two-byte cause, two-byte common address) followed by the data field.
pub open spec fn asdu_bytes(type_id: u8, cause: u16, common_address: u16, data: Seq<u8>, object_count: u8, sequence: bool) -> Seq<u8> {
    seq![type_id, vsq_byte(object_count, sequence)] + le16(cause) + le16(common_address) + data
}

/// Command qualifier octet shared by SCO, DCO and RCO: state in bit 0-1, QU in bit 2-6, S/E in bit 7.
pub open spec fn command_octet(state: u8, qu: u8, select: bool) -> u8 {
    ((state % 4) + (qu % 32) * 4 + if select { 128int } else { 0int }) as u8
}

pub fn push_le16(out: &mut Vec<u8>, v: u16)
    ensures
        final(out)@ == old(out)@ + le16(v),
{
    out.push((v % 256) as u8);
    out.push((v / 256) as u8);
    assert(final(out)@ =~= old(out)@ + le16(v));
}

pub fn push_le32(out: &mut Vec<u8>, v: u32)
    ensures
        final(out)@ == old(out)@ + le32(v),
{
    out.push((v % 256) as u8);
    out.push(((v / 256) % 256) as u8);
    out.push(((v / 65536) % 256) as u8);
    out.push((v / 16777216) as u8);
    assert(final(out)@ =~= old(out)@ + le32(v));
}

/// Appends `src` to `out`.
pub fn append_bytes(out: &mut Vec<u8>, src: &[u8])
    ensures
        final(out)@ == old(out)@ + src@,
{
    let mut i: usize = 0;
    while i < src.len()
        invariant
            i <= src@.len(),
            out@ == old(out)@ + src@.subrange(0, i as int),
        decreases src@.len() - i,
    {
        out.push(src[i]);
        i = i + 1;
        assert(out@ =~= old(out)@ + src@.subrange(0, i as int));
    }
    assert(src@.subrange(0, src@.len() as int) =~= src@);
}

/// Information object address bytes.
pub fn ioa_field(ioa: u32) -> (r: Vec<u8>)
    ensures
        r@ == ioa3(ioa),
{
    let mut v: Vec<u8> = Vec::new();
    v.push((ioa % 256) as u8);
    v.push(((ioa / 256) % 256) as u8);
    v.push(((ioa / 65536) % 256) as u8);
    assert(v@ =~= ioa3(ioa));
    v
}

/// Encodes a complete ASDU: header followed by the data field.
pub fn encode_wire_asdu(type_id: u8, cause: u16, common_address: u16, data: &[u8], object_count: u8, sequence: bool) -> (r: Vec<u8>)
    ensures
        r@ == asdu_bytes(type_id, cause, common_address, data@, object_count, sequence),
{
    let mut v: Vec<u8> = Vec::new();
    v.push(type_id);
    let vsq: u8 = if sequence { object_count % 128 + 128 } else { object_count % 128 };
    v.push(vsq);
    push_le16(&mut v, cause);
    push_le16(&mut v, common_address);
    append_bytes(&mut v, data);
    assert(v@ =~= asdu_bytes(type_id, cause, common_address, data@, object_count, sequence));
    v
}

/// Builds the command qualifier octet of a single, double or regulating-step command.
pub fn command_qualifier_octet(state: u8, qu: u8, select: bool) -> (r: u8)
    ensures
        r == command_octet(state, qu, select),
{
    let base: u8 = state % 4 + (qu % 32) * 4;
    if select { base + 128 } else { base }
}

} // verus!
