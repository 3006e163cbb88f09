//! The tagged option list shared by every pcapng block: records of a 2-byte
//! code, a 2-byte length and a payload padded to a multiple of four bytes,
//! closed by a record of code 0 or by the end of the input.

use crate::endian::{
    bytes_of, lemma_bytes_len, lemma_uint_of_bytes, pow256, read_u16, read_u32, read_u64, uint_of,
    Endianness,
};
use crate::errors::{take_bytes, PcapError};
use vstd::prelude::*;
use vstd::string::StringSliceAdditionalSpecFns;
use vstd::utf8::{
    decode_utf8, decode_utf8_encode_utf8, encode_utf8, encode_utf8_decode_utf8,
    encode_utf8_valid_utf8, valid_utf8,
};

verus! {

/// The code that closes an option list.
pub const END_OF_OPTIONS: u16 = 0;

/// The padding that follows a payload of `len` bytes.
pub open spec fn pad_len(len: nat) -> nat {
    ((4 - len % 4) % 4) as nat
}

/// What one step of the scan finds at the start of the input.
pub enum StepModel {
    /// The list ends here, after this many bytes.
    End(nat),
    /// A record with this code and payload, taking this many bytes padding included.
    Record(u16, Seq<u8>, nat),
}

/// One step of the scan over `s` in byte order `e`. The list ends at the end
/// of the input or at a record of code 0, whose 4-byte header is consumed.
/// A record that the input cuts short, in its header, its payload or its
/// padding, fails as incomplete by the count of bytes missing from that part;
/// padding bytes are skipped unread.
pub open spec fn option_step(e: Endianness, s: Seq<u8>) -> Result<StepModel, PcapError> {
    if s.len() == 0 {
        Ok(StepModel::End(0))
    } else if s.len() < 4 {
        Err(PcapError::IncompleteBuffer((4 - s.len()) as usize))
    } else {
        let code = uint_of(e, s.subrange(0, 2));
        let len = uint_of(e, s.subrange(2, 4));
        let avail = (s.len() - 4) as nat;
        if code == 0 {
            Ok(StepModel::End(4))
        } else if len > avail {
            Err(PcapError::IncompleteBuffer((len - avail) as usize))
        } else if len + pad_len(len) > avail {
            Err(PcapError::IncompleteBuffer((len + pad_len(len) - avail) as usize))
        } else {
            Ok(StepModel::Record(code as u16, s.subrange(4, 4 + len as int), 4 + len + pad_len(len)))
        }
    }
}

/// One record of an option list, its payload borrowed from the input.
#[derive(Clone, Copy, Debug, PartialEq, Eq)]
pub struct RawOption<'a> {
    pub code: u16,
    pub length: u16,
    pub payload: &'a [u8],
}

/// What one step of the scan found, with the input that follows it.
#[derive(Clone, Copy, Debug, PartialEq, Eq)]
pub enum OptionStep<'a> {
    End(&'a [u8]),
    Record(RawOption<'a>, &'a [u8]),
}

/// Whether `r` is what `option_step` gives for `s`, with the rest of `s`.
pub open spec fn step_result_matches<'a>(
    e: Endianness,
    s: Seq<u8>,
    r: Result<OptionStep<'a>, PcapError>,
) -> bool {
    match option_step(e, s) {
        Err(err) => r == Err::<OptionStep<'a>, PcapError>(err),
        Ok(StepModel::End(n)) => r matches Ok(OptionStep::End(rest)) && rest@ == s.subrange(
            n as int,
            s.len() as int,
        ),
        Ok(StepModel::Record(code, payload, n)) => r matches Ok(OptionStep::Record(opt, rest))
            && opt.code == code && opt.length as nat == payload.len() && opt.payload@ == payload
            && rest@ == s.subrange(n as int, s.len() as int),
    }
}

/// Reads the record at the start of `slice`, or finds the end of the list.
pub fn next_option<'a>(e: Endianness, slice: &'a [u8]) -> (r: Result<OptionStep<'a>, PcapError>)
    ensures
        step_result_matches(e, slice@, r),
{
    if slice.len() == 0 {
        assert(slice@.subrange(0, slice@.len() as int) =~= slice@);
        return Ok(OptionStep::End(slice));
    }
    let (header, rest) = take_bytes(slice, 4)?;
    let code = read_u16(e, header);
    let (_, len_bytes) = header.split_at(2);
    let length = read_u16(e, len_bytes);
    assert(len_bytes@.subrange(0, 2) =~= slice@.subrange(2, 4));
    assert(header@.subrange(0, 2) =~= slice@.subrange(0, 2));
    if code == END_OF_OPTIONS {
        return Ok(OptionStep::End(rest));
    }
    let (payload, rest) = take_bytes(rest, length as usize)?;
    let pad: usize = ((4 - length % 4) % 4) as usize;
    let (_, rest2) = take_bytes(rest, pad)?;
    assert(payload@ =~= slice@.subrange(4, 4 + length as int));
    assert(rest2@ =~= slice@.subrange(4 + length as int + pad as int, slice@.len() as int));
    Ok(OptionStep::Record(RawOption { code, length, payload }, rest2))
}

/// How a block kind reads the payload of an option.
pub enum PayloadKind {
    /// A UTF-8 string.
    Text,
    /// Raw bytes, kept as they are.
    Bytes,
    /// An unsigned integer of this many bytes, in the section's byte order.
    Uint(nat),
}

/// The value of a decoded option.
pub enum OptionData {
    Text(Seq<char>),
    Bytes(Seq<u8>),
    Uint(nat),
}

/// A decoded option: its code and its value.
pub struct OptionModel {
    pub code: u16,
    pub data: OptionData,
}

/// The error for a string option whose bytes are not UTF-8.
pub open spec fn invalid_utf8_error() -> PcapError {
    PcapError::InvalidField("option value is not valid UTF-8")
}

/// The error for an integer option with fewer bytes than the integer needs.
pub open spec fn short_value_error() -> PcapError {
    PcapError::InvalidField("option value is too short")
}

/// The value that payload `p` holds when read as `kind` in byte order `e`.
/// An integer is read from the first bytes of the payload; any further bytes
/// are ignored.
pub open spec fn decode_payload(e: Endianness, kind: PayloadKind, p: Seq<u8>) -> Result<
    OptionData,
    PcapError,
> {
    match kind {
        PayloadKind::Text => if valid_utf8(p) {
            Ok(OptionData::Text(decode_utf8(p)))
        } else {
            Err(invalid_utf8_error())
        },
        PayloadKind::Bytes => Ok(OptionData::Bytes(p)),
        PayloadKind::Uint(width) => if p.len() >= width {
            Ok(OptionData::Uint(uint_of(e, p.subrange(0, width as int))))
        } else {
            Err(short_value_error())
        },
    }
}

/// Relies on `std::str::from_utf8`: it succeeds exactly on valid UTF-8, and
/// the string it returns is made of the given bytes.
#[verifier::external_body]
fn str_from_utf8<'a>(bytes: &'a [u8]) -> (r: Option<&'a str>)
    ensures
        r is Some <==> valid_utf8(bytes@),
        r matches Some(s) ==> s.spec_bytes() == bytes@,
{
    std::str::from_utf8(bytes).ok()
}

/// The payload `p` read as a UTF-8 string, borrowed from `p`.
pub fn payload_str<'a>(p: &'a [u8]) -> (r: Result<&'a str, PcapError>)
    ensures
        valid_utf8(p@) ==> (r matches Ok(s) && s@ == decode_utf8(p@)),
        !valid_utf8(p@) ==> r == Err::<&'a str, PcapError>(invalid_utf8_error()),
{
    match str_from_utf8(p) {
        Some(s) => {
            proof {
                encode_utf8_decode_utf8(s@);
            }
            Ok(s)
        },
        None => Err(PcapError::InvalidField("option value is not valid UTF-8")),
    }
}

/// The payload `p` read as an unsigned 8-bit integer: its first byte.
pub fn payload_u8(p: &[u8]) -> (r: Result<u8, PcapError>)
    ensures
        p@.len() >= 1 ==> r == Ok::<u8, PcapError>(p@[0]),
        p@.len() < 1 ==> r == Err::<u8, PcapError>(short_value_error()),
{
    if p.len() < 1 {
        return Err(PcapError::InvalidField("option value is too short"));
    }
    Ok(p[0])
}

/// The payload `p` read as an unsigned 32-bit integer in byte order `e`.
pub fn payload_u32(e: Endianness, p: &[u8]) -> (r: Result<u32, PcapError>)
    ensures
        p@.len() >= 4 ==> (r matches Ok(x) && x as nat == uint_of(e, p@.subrange(0, 4))),
        p@.len() < 4 ==> r == Err::<u32, PcapError>(short_value_error()),
{
    if p.len() < 4 {
        return Err(PcapError::InvalidField("option value is too short"));
    }
    Ok(read_u32(e, p))
}

/// The payload `p` read as an unsigned 64-bit integer in byte order `e`.
pub fn payload_u64(e: Endianness, p: &[u8]) -> (r: Result<u64, PcapError>)
    ensures
        p@.len() >= 8 ==> (r matches Ok(x) && x as nat == uint_of(e, p@.subrange(0, 8))),
        p@.len() < 8 ==> r == Err::<u64, PcapError>(short_value_error()),
{
    if p.len() < 8 {
        return Err(PcapError::InvalidField("option value is too short"));
    }
    Ok(read_u64(e, p))
}

/// The record that stores an option of code `code` with payload `p`, in
/// byte order `e`, padding included.
pub open spec fn encode_record(e: Endianness, code: u16, p: Seq<u8>) -> Seq<u8> {
    bytes_of(e, code as nat, 2) + bytes_of(e, p.len(), 2) + p + Seq::new(pad_len(p.len()), |i| 0u8)
}

/// The record that closes an option list.
pub open spec fn end_record(e: Endianness) -> Seq<u8> {
    bytes_of(e, 0, 2) + bytes_of(e, 0, 2)
}

/// The payload that stores `data` as an option value of kind `kind`.
pub open spec fn encode_payload(e: Endianness, kind: PayloadKind, data: OptionData) -> Seq<u8> {
    match data {
        OptionData::Text(cs) => encode_utf8(cs),
        OptionData::Bytes(b) => b,
        OptionData::Uint(v) => match kind {
            PayloadKind::Uint(width) => bytes_of(e, v, width),
            _ => Seq::empty(),
        },
    }
}

/// Whether `data` is a value of kind `kind` that fits in an option.
pub open spec fn payload_fits(kind: PayloadKind, data: OptionData) -> bool {
    match (kind, data) {
        (PayloadKind::Text, OptionData::Text(cs)) => encode_utf8(cs).len() < 0x10000,
        (PayloadKind::Bytes, OptionData::Bytes(b)) => b.len() < 0x10000,
        (PayloadKind::Uint(width), OptionData::Uint(v)) => width <= 8 && v < pow256(width),
        _ => false,
    }
}

/// The count of values of one, two, four and eight bytes.
pub proof fn lemma_pow256_small()
    ensures
        pow256(1) == 0x100,
        pow256(2) == 0x10000,
        pow256(4) == 0x1_0000_0000,
        pow256(8) == 0x1_0000_0000_0000_0000,
{
    assert(pow256(0) == 1);
    assert(pow256(1) == 0x100);
    assert(pow256(2) == 0x10000);
    assert(pow256(3) == 0x100_0000);
    assert(pow256(4) == 0x1_0000_0000);
    assert(pow256(5) == 0x100_0000_0000);
    assert(pow256(6) == 0x1_0000_0000_0000);
    assert(pow256(7) == 0x100_0000_0000_0000);
}

/// A value that fits, stored and read back as the same kind, is the same value.
pub proof fn lemma_decode_encoded_payload(e: Endianness, kind: PayloadKind, data: OptionData)
    requires
        payload_fits(kind, data),
    ensures
        decode_payload(e, kind, encode_payload(e, kind, data)) == Ok::<OptionData, PcapError>(data),
        encode_payload(e, kind, data).len() < 0x10000,
{
    lemma_pow256_small();
    match (kind, data) {
        (PayloadKind::Text, OptionData::Text(cs)) => {
            encode_utf8_valid_utf8(cs);
            encode_utf8_decode_utf8(cs);
        },
        (PayloadKind::Uint(width), OptionData::Uint(v)) => {
            lemma_bytes_len(e, v, width);
            lemma_uint_of_bytes(e, v, width);
            assert(bytes_of(e, v, width).subrange(0, width as int) =~= bytes_of(e, v, width));
        },
        _ => {},
    }
}

/// A value read from a complete payload fits, and storing it again gives the
/// same payload but for bytes past the end of an integer.
pub proof fn lemma_decoded_payload_fits(e: Endianness, kind: PayloadKind, p: Seq<u8>)
    requires
        p.len() < 0x10000,
        kind matches PayloadKind::Uint(width) ==> width <= 8,
        decode_payload(e, kind, p) is Ok,
    ensures
        payload_fits(kind, decode_payload(e, kind, p)->Ok_0),
{
    match kind {
        PayloadKind::Text => {
            decode_utf8_encode_utf8(p);
        },
        PayloadKind::Uint(width) => {
            crate::endian::lemma_uint_bound(e, p.subrange(0, width as int));
        },
        _ => {},
    }
}

/// The record that stores a payload of fewer than `2^16` bytes under a
/// nonzero code is read back as that code and payload, whatever follows it.
pub proof fn lemma_step_encoded_record(e: Endianness, code: u16, p: Seq<u8>, rest: Seq<u8>)
    requires
        code != 0,
        p.len() < 0x10000,
    ensures
        option_step(e, encode_record(e, code, p) + rest) == Ok::<StepModel, PcapError>(
            StepModel::Record(code, p, encode_record(e, code, p).len()),
        ),
        encode_record(e, code, p).len() == 4 + p.len() + pad_len(p.len()),
{
    lemma_pow256_small();
    let c = bytes_of(e, code as nat, 2);
    let l = bytes_of(e, p.len(), 2);
    lemma_bytes_len(e, code as nat, 2);
    lemma_bytes_len(e, p.len(), 2);
    lemma_uint_of_bytes(e, code as nat, 2);
    lemma_uint_of_bytes(e, p.len(), 2);
    let s = encode_record(e, code, p) + rest;
    assert(s.subrange(0, 2) =~= c);
    assert(s.subrange(2, 4) =~= l);
    assert(s.subrange(4, 4 + p.len() as int) =~= p);
}

/// The closing record is read as the end of the list, whatever follows it.
pub proof fn lemma_step_end_record(e: Endianness, rest: Seq<u8>)
    ensures
        option_step(e, end_record(e) + rest) == Ok::<StepModel, PcapError>(StepModel::End(4)),
        end_record(e).len() == 4,
{
    lemma_pow256_small();
    lemma_bytes_len(e, 0, 2);
    lemma_uint_of_bytes(e, 0, 2);
    let s = end_record(e) + rest;
    assert(s.subrange(0, 2) =~= bytes_of(e, 0, 2));
}

} // verus!
