//! The Interface Description Block: the link type and capture length of one
//! interface of a capture, and its options.
//!
//! Decoding borrows: the strings and byte slices of the options point into
//! the input buffer, which must outlive the decoded block.

use crate::datalink::{datalink_of, DataLink};
use crate::datalink::lemma_datalink_of_code;
use crate::endian::{
    bytes_of, lemma_bytes_len, lemma_uint_bound, lemma_uint_of_bytes, lemma_uint_one_byte, read_u16,
    read_u32, uint_of, Endianness,
};
use crate::errors::PcapError;
use crate::options::{
    decode_payload, encode_payload, encode_record, end_record, lemma_decode_encoded_payload,
    lemma_decoded_payload_fits, lemma_pow256_small, lemma_step_encoded_record,
    lemma_step_end_record, next_option, option_step, payload_fits, payload_str, payload_u32,
    payload_u64, payload_u8, OptionData, OptionModel, OptionStep, PayloadKind, StepModel,
};
use vstd::prelude::*;

verus! {

/// An Interface Description Block (IDB) is the container for information
/// describing an interface on which packet data is captured.
#[derive(Clone, Debug, PartialEq, Eq)]
pub struct InterfaceDescriptionBlock<'a> {
    /// The link layer type of this interface, from the tcpdump.org registry
    /// of standardized link-layer type codes.
    pub linktype: DataLink,
    /// Maximum number of octets captured from each packet; the portion of a
    /// packet beyond it is not stored. Zero means no limit.
    pub snaplen: u32,
    /// The options, in the order in which they were stored.
    pub options: Vec<InterfaceDescriptionOption<'a>>,
}

/// An option of an Interface Description Block.
#[derive(Clone, Copy, Debug, PartialEq, Eq)]
pub enum InterfaceDescriptionOption<'a> {
    /// A comment, a UTF-8 string.
    Comment(&'a str),
    /// The if_name option is a UTF-8 string containing the name of the device used to capture data.
    IfName(&'a str),
    /// The if_description option is a UTF-8 string containing the description of the device used to capture data.
    IfDescription(&'a str),
    /// The if_IPv4addr option is an IPv4 network address and corresponding netmask for the interface.
    IfIpv4Addr(&'a [u8]),
    /// The if_IPv6addr option is an IPv6 network address and corresponding prefix length for the interface.
    IfIpv6Addr(&'a [u8]),
    /// The if_MACaddr option is the Interface Hardware MAC address (48 bits), if available.
    IfMacAddr(&'a [u8]),
    /// The if_EUIaddr option is the Interface Hardware EUI address (64 bits), if available.
    IfEulAddr(u64),
    /// The if_speed option is a 64-bit number for the Interface speed (in bits per second).
    IfSpeed(u64),
    /// The if_tsresol option identifies the resolution of timestamps.
    IfTsResol(u8),
    /// The if_tzone option identifies the time zone for GMT support.
    IfTzone(u32),
    /// The if_filter option identifies the filter (e.g. "capture only TCP traffic") used to capture traffic.
    IfFilter(&'a [u8]),
    /// The if_os option is a UTF-8 string containing the name of the operating system
    /// of the machine in which this interface is installed.
    IfOs(&'a str),
    /// The if_fcslen option is an 8-bit unsigned integer value that specifies
    /// the length of the Frame Check Sequence (in bits) for this interface.
    IfFcsLen(u8),
    /// The if_tsoffset option is a 64-bit integer value that specifies an offset (in seconds)
    /// that must be added to the timestamp of each packet to obtain the absolute timestamp of a packet.
    IfTsOffset(u64),
    /// The if_hardware option is a UTF-8 string containing the description of the interface hardware.
    IfHardware(&'a str),
}

/// How the payload of the option with code `code` is read, or `None` for a
/// code that this block kind does not define.
pub open spec fn idb_payload_kind(code: u16) -> Option<PayloadKind> {
    if code == 1 || code == 2 || code == 3 || code == 12 || code == 15 {
        Some(PayloadKind::Text)
    } else if code == 4 || code == 5 || code == 6 || code == 11 {
        Some(PayloadKind::Bytes)
    } else if code == 7 || code == 8 || code == 14 {
        Some(PayloadKind::Uint(8))
    } else if code == 10 {
        Some(PayloadKind::Uint(4))
    } else if code == 9 || code == 13 {
        Some(PayloadKind::Uint(1))
    } else {
        None
    }
}

/// The error for an option code that this block kind does not define.
pub open spec fn invalid_type_error() -> PcapError {
    PcapError::InvalidField("InterfaceDescriptionOption type invalid")
}

/// The option with code `code` and payload `p`, in byte order `e`.
pub open spec fn idb_option(e: Endianness, code: u16, p: Seq<u8>) -> Result<OptionModel, PcapError> {
    match idb_payload_kind(code) {
        None => Err(invalid_type_error()),
        Some(kind) => match decode_payload(e, kind, p) {
            Ok(data) => Ok(OptionModel { code, data }),
            Err(err) => Err(err),
        },
    }
}

/// The options at the start of `s` in byte order `e`, and how many bytes
/// they take, the closing record included.
pub open spec fn idb_options(e: Endianness, s: Seq<u8>) -> Result<(Seq<OptionModel>, nat), PcapError>
    decreases s.len(),
{
    match option_step(e, s) {
        Err(err) => Err(err),
        Ok(StepModel::End(n)) => Ok((Seq::empty(), n)),
        Ok(StepModel::Record(code, payload, n)) => match idb_option(e, code, payload) {
            Err(err) => Err(err),
            Ok(opt) => match idb_options(e, s.subrange(n as int, s.len() as int)) {
                Err(err) => Err(err),
                Ok((rest, m)) => Ok((seq![opt] + rest, n + m)),
            },
        },
    }
}

/// An option list takes no more bytes than its input holds.
pub proof fn lemma_idb_options_len(e: Endianness, s: Seq<u8>)
    ensures
        idb_options(e, s) matches Ok((_, n)) ==> n <= s.len(),
    decreases s.len(),
{
    if let Ok(StepModel::Record(code, payload, n)) = option_step(e, s) {
        lemma_idb_options_len(e, s.subrange(n as int, s.len() as int));
    }
}

/// A record of a decoded Interface Description Block.
pub struct BlockModel {
    pub linktype: DataLink,
    pub snaplen: u32,
    pub options: Seq<OptionModel>,
}

/// The Interface Description Block body at the start of `s` in byte order
/// `e`, and how many bytes it takes.
pub open spec fn idb_block(e: Endianness, s: Seq<u8>) -> Result<(BlockModel, nat), PcapError> {
    if s.len() < 6 {
        Err(PcapError::IncompleteBuffer((6 - s.len()) as usize))
    } else {
        match idb_options(e, s.subrange(6, s.len() as int)) {
            Err(err) => Err(err),
            Ok((options, n)) => Ok(
                (
                    BlockModel {
                        linktype: datalink_of(uint_of(e, s.subrange(0, 2)) as u32),
                        snaplen: uint_of(e, s.subrange(2, 6)) as u32,
                        options,
                    },
                    6 + n,
                ),
            ),
        }
    }
}

impl<'a> View for InterfaceDescriptionOption<'a> {
    type V = OptionModel;

    open spec fn view(&self) -> OptionModel {
        match *self {
            InterfaceDescriptionOption::Comment(s) => OptionModel { code: 1, data: OptionData::Text(s@) },
            InterfaceDescriptionOption::IfName(s) => OptionModel { code: 2, data: OptionData::Text(s@) },
            InterfaceDescriptionOption::IfDescription(s) => OptionModel { code: 3, data: OptionData::Text(s@) },
            InterfaceDescriptionOption::IfIpv4Addr(b) => OptionModel { code: 4, data: OptionData::Bytes(b@) },
            InterfaceDescriptionOption::IfIpv6Addr(b) => OptionModel { code: 5, data: OptionData::Bytes(b@) },
            InterfaceDescriptionOption::IfMacAddr(b) => OptionModel { code: 6, data: OptionData::Bytes(b@) },
            InterfaceDescriptionOption::IfEulAddr(v) => OptionModel { code: 7, data: OptionData::Uint(v as nat) },
            InterfaceDescriptionOption::IfSpeed(v) => OptionModel { code: 8, data: OptionData::Uint(v as nat) },
            InterfaceDescriptionOption::IfTsResol(v) => OptionModel { code: 9, data: OptionData::Uint(v as nat) },
            InterfaceDescriptionOption::IfTzone(v) => OptionModel { code: 10, data: OptionData::Uint(v as nat) },
            InterfaceDescriptionOption::IfFilter(b) => OptionModel { code: 11, data: OptionData::Bytes(b@) },
            InterfaceDescriptionOption::IfOs(s) => OptionModel { code: 12, data: OptionData::Text(s@) },
            InterfaceDescriptionOption::IfFcsLen(v) => OptionModel { code: 13, data: OptionData::Uint(v as nat) },
            InterfaceDescriptionOption::IfTsOffset(v) => OptionModel { code: 14, data: OptionData::Uint(v as nat) },
            InterfaceDescriptionOption::IfHardware(s) => OptionModel { code: 15, data: OptionData::Text(s@) },
        }
    }
}

/// The models of a list of decoded options.
pub open spec fn options_view<'a>(v: Seq<InterfaceDescriptionOption<'a>>) -> Seq<OptionModel> {
    v.map_values(|o: InterfaceDescriptionOption<'a>| o@)
}

impl<'a> View for InterfaceDescriptionBlock<'a> {
    type V = BlockModel;

    open spec fn view(&self) -> BlockModel {
        BlockModel { linktype: self.linktype, snaplen: self.snaplen, options: options_view(self.options@) }
    }
}

/// Whether `r` is the decode that `spec` describes: the same error, or a
/// success whose model and consumed length it gives.
pub open spec fn options_result_matches<'a>(
    s: Seq<u8>,
    spec: Result<(Seq<OptionModel>, nat), PcapError>,
    r: Result<(Vec<InterfaceDescriptionOption<'a>>, &'a [u8]), PcapError>,
) -> bool {
    match spec {
        Err(err) => r == Err::<(Vec<InterfaceDescriptionOption<'a>>, &'a [u8]), PcapError>(err),
        Ok((opts, n)) => r matches Ok((v, rest)) && options_view(v@) == opts && rest@ == s.subrange(
            n as int,
            s.len() as int,
        ),
    }
}

/// `r` with `acc` put before its options and `n` added to its length.
pub open spec fn after_prefix(
    acc: Seq<OptionModel>,
    n: nat,
    r: Result<(Seq<OptionModel>, nat), PcapError>,
) -> Result<(Seq<OptionModel>, nat), PcapError> {
    match r {
        Err(err) => Err(err),
        Ok((opts, m)) => Ok((acc + opts, n + m)),
    }
}

impl<'a> InterfaceDescriptionOption<'a> {
    /// The option with code `code` and payload `payload`, in byte order `e`.
    pub fn from_raw(e: Endianness, code: u16, payload: &'a [u8]) -> (r: Result<Self, PcapError>)
        ensures
            match idb_option(e, code, payload@) {
                Ok(m) => r matches Ok(o) && o@ == m,
                Err(err) => r == Err::<Self, PcapError>(err),
            },
    {
        let opt = match code {
            1 => InterfaceDescriptionOption::Comment(payload_str(payload)?),
            2 => InterfaceDescriptionOption::IfName(payload_str(payload)?),
            3 => InterfaceDescriptionOption::IfDescription(payload_str(payload)?),
            4 => InterfaceDescriptionOption::IfIpv4Addr(payload),
            5 => InterfaceDescriptionOption::IfIpv6Addr(payload),
            6 => InterfaceDescriptionOption::IfMacAddr(payload),
            7 => InterfaceDescriptionOption::IfEulAddr(payload_u64(e, payload)?),
            8 => InterfaceDescriptionOption::IfSpeed(payload_u64(e, payload)?),
            9 => InterfaceDescriptionOption::IfTsResol(payload_u8(payload)?),
            10 => InterfaceDescriptionOption::IfTzone(payload_u32(e, payload)?),
            11 => InterfaceDescriptionOption::IfFilter(payload),
            12 => InterfaceDescriptionOption::IfOs(payload_str(payload)?),
            13 => InterfaceDescriptionOption::IfFcsLen(payload_u8(payload)?),
            14 => InterfaceDescriptionOption::IfTsOffset(payload_u64(e, payload)?),
            15 => InterfaceDescriptionOption::IfHardware(payload_str(payload)?),
            _ => return Err(PcapError::InvalidField("InterfaceDescriptionOption type invalid")),
        };
        proof {
            if payload@.len() >= 1 {
                lemma_uint_one_byte(e, payload@.subrange(0, 1));
            }
        }
        Ok(opt)
    }

    /// The options at the start of `slice` in byte order `e`, and the input
    /// that follows them and their closing record.
    pub fn from_slice(e: Endianness, slice: &'a [u8]) -> (r: Result<
        (Vec<Self>, &'a [u8]),
        PcapError,
    >)
        ensures
            options_result_matches(slice@, idb_options(e, slice@), r),
    {
        let mut options: Vec<Self> = Vec::new();
        let mut rest: &'a [u8] = slice;
        let ghost mut used: nat = 0;
        assert(slice@.subrange(0, slice@.len() as int) =~= slice@);
        assert(after_prefix(Seq::empty(), 0, idb_options(e, slice@)) == idb_options(e, slice@)) by {
            match idb_options(e, slice@) {
                Ok((opts, m)) => {
                    assert(Seq::<OptionModel>::empty() + opts =~= opts);
                },
                Err(_) => {},
            }
        }
        loop
            invariant
                used <= slice@.len(),
                rest@ == slice@.subrange(used as int, slice@.len() as int),
                idb_options(e, slice@) == after_prefix(options_view(options@), used, idb_options(e, rest@)),
            decreases rest@.len(),
        {
            match next_option(e, rest) {
                Err(err) => {
                    return Err(err);
                },
                Ok(OptionStep::End(after)) => {
                    assert(options_view(options@) + Seq::<OptionModel>::empty() =~= options_view(options@));
                    assert(after@ =~= slice@.subrange(
                        (used + (rest@.len() - after@.len())) as int,
                        slice@.len() as int,
                    ));
                    return Ok((options, after));
                },
                Ok(OptionStep::Record(raw, after)) => {
                    let opt = match Self::from_raw(e, raw.code, raw.payload) {
                        Ok(o) => o,
                        Err(err) => {
                            return Err(err);
                        },
                    };
                    let ghost prev = options_view(options@);
                    let ghost n: nat = (rest@.len() - after@.len()) as nat;
                    options.push(opt);
                    assert(options_view(options@) =~= prev.push(opt@));
                    assert(after@ =~= slice@.subrange((used + n) as int, slice@.len() as int));
                    proof {
                        match idb_options(e, after@) {
                            Ok((tail, m)) => {
                                assert(prev + (seq![opt@] + tail) =~= prev.push(opt@) + tail);
                            },
                            Err(_) => {},
                        }
                        used = used + n;
                    }
                    rest = after;
                },
            }
        }
    }
}

/// Whether `r` is the decode that `idb_block` gives for `s` in byte order `e`.
pub open spec fn block_result_matches<'a>(
    e: Endianness,
    s: Seq<u8>,
    r: Result<(InterfaceDescriptionBlock<'a>, &'a [u8]), PcapError>,
) -> bool {
    match idb_block(e, s) {
        Err(err) => r == Err::<(InterfaceDescriptionBlock<'a>, &'a [u8]), PcapError>(err),
        Ok((m, n)) => r matches Ok((b, rest)) && b@ == m && rest@ == s.subrange(
            n as int,
            s.len() as int,
        ),
    }
}

impl<'a> InterfaceDescriptionBlock<'a> {
    /// Decodes the body of an Interface Description Block at the start of
    /// `slice`, stored in byte order `e`: the block and the input that
    /// follows it.
    pub fn from_slice(e: Endianness, slice: &'a [u8]) -> (r: Result<(Self, &'a [u8]), PcapError>)
        ensures
            block_result_matches(e, slice@, r),
            slice@.len() < 6 ==> r == Err::<(Self, &'a [u8]), PcapError>(
                PcapError::IncompleteBuffer((6 - slice@.len()) as usize),
            ),
    {
        if slice.len() < 6 {
            return Err(PcapError::IncompleteBuffer(6 - slice.len()));
        }
        let linktype = DataLink::from_u32(read_u16(e, slice) as u32);
        let (_, from_snaplen) = slice.split_at(2);
        let snaplen = read_u32(e, from_snaplen);
        assert(from_snaplen@.subrange(0, 4) =~= slice@.subrange(2, 6));
        assert(slice@.subrange(0, 2) =~= slice@.subrange(0, 2));
        let (_, tail) = slice.split_at(6);
        let (options, rest) = match InterfaceDescriptionOption::from_slice(e, tail) {
            Ok(found) => found,
            Err(err) => {
                return Err(err);
            },
        };
        proof {
            lemma_idb_options_len(e, tail@);
            if let Ok((_, n)) = idb_options(e, tail@) {
                assert(rest@ =~= slice@.subrange(6 + n as int, slice@.len() as int));
            }
        }
        Ok((InterfaceDescriptionBlock { linktype, snaplen, options }, rest))
    }
}

/// Whether `o` is an option that an Interface Description Block can store:
/// a defined code, with a value of the kind that the code asks for, that
/// fits in a record.
pub open spec fn idb_option_wf(o: OptionModel) -> bool {
    match idb_payload_kind(o.code) {
        Some(kind) => payload_fits(kind, o.data),
        None => false,
    }
}

/// The record that stores option `o` in byte order `e`.
pub open spec fn encode_idb_option(e: Endianness, o: OptionModel) -> Seq<u8> {
    encode_record(e, o.code, encode_payload(e, idb_payload_kind(o.code)->Some_0, o.data))
}

/// The option list that stores `opts` in order, closed by the end record.
pub open spec fn encode_idb_options(e: Endianness, opts: Seq<OptionModel>) -> Seq<u8>
    decreases opts.len(),
{
    if opts.len() == 0 {
        end_record(e)
    } else {
        encode_idb_option(e, opts[0]) + encode_idb_options(e, opts.drop_first())
    }
}

/// Whether `m` is a block that can be stored: a link type of at most 16
/// bits that is the one its code stands for, and options that can be stored.
pub open spec fn idb_block_wf(m: BlockModel) -> bool {
    &&& m.linktype.is_wf()
    &&& m.linktype.spec_code() < 0x10000
    &&& forall|i: int| 0 <= i < m.options.len() ==> idb_option_wf(#[trigger] m.options[i])
}

/// The block body that stores `m` in byte order `e`.
pub open spec fn encode_idb_block(e: Endianness, m: BlockModel) -> Seq<u8> {
    bytes_of(e, m.linktype.spec_code() as nat, 2) + bytes_of(e, m.snaplen as nat, 4)
        + encode_idb_options(e, m.options)
}

/// An option list stored from options that can be stored decodes to those
/// options, in order, and takes exactly the stored bytes, whatever follows.
pub proof fn lemma_decode_encoded_options(e: Endianness, opts: Seq<OptionModel>, rest: Seq<u8>)
    requires
        forall|i: int| 0 <= i < opts.len() ==> idb_option_wf(#[trigger] opts[i]),
    ensures
        idb_options(e, encode_idb_options(e, opts) + rest) == Ok::<(Seq<OptionModel>, nat), PcapError>(
            (opts, encode_idb_options(e, opts).len()),
        ),
    decreases opts.len(),
{
    let s = encode_idb_options(e, opts) + rest;
    if opts.len() == 0 {
        lemma_step_end_record(e, rest);
        assert(opts =~= Seq::<OptionModel>::empty());
    } else {
        let o = opts[0];
        assert(idb_option_wf(opts[0]));
        let kind = idb_payload_kind(o.code)->Some_0;
        let p = encode_payload(e, kind, o.data);
        lemma_decode_encoded_payload(e, kind, o.data);
        let tail = opts.drop_first();
        assert forall|i: int| 0 <= i < tail.len() implies idb_option_wf(#[trigger] tail[i]) by {
            assert(tail[i] == opts[i + 1]);
        }
        let later = encode_idb_options(e, tail) + rest;
        assert(s =~= encode_record(e, o.code, p) + later);
        lemma_step_encoded_record(e, o.code, p, later);
        let n = encode_record(e, o.code, p).len();
        assert(s.subrange(n as int, s.len() as int) =~= later);
        lemma_decode_encoded_options(e, tail, rest);
        assert(idb_option(e, o.code, p) == Ok::<OptionModel, PcapError>(o));
        assert(seq![o] + tail =~= opts);
        assert(encode_idb_options(e, opts).len() == n + encode_idb_options(e, tail).len());
    }
}

/// Every option that a decode yields can be stored again.
pub proof fn lemma_decoded_options_wf(e: Endianness, s: Seq<u8>)
    requires
        idb_options(e, s) is Ok,
    ensures
        forall|i: int|
            0 <= i < idb_options(e, s)->Ok_0.0.len() ==> idb_option_wf(
                #[trigger] idb_options(e, s)->Ok_0.0[i],
            ),
    decreases s.len(),
{
    if let Ok(StepModel::Record(code, payload, n)) = option_step(e, s) {
        let after = s.subrange(n as int, s.len() as int);
        lemma_decoded_options_wf(e, after);
        lemma_pow256_small();
        lemma_uint_bound(e, s.subrange(2, 4));
        let kind = idb_payload_kind(code)->Some_0;
        lemma_decoded_payload_fits(e, kind, payload);
        let opts = idb_options(e, s)->Ok_0.0;
        let tail = idb_options(e, after)->Ok_0.0;
        assert forall|i: int| 0 <= i < opts.len() implies idb_option_wf(#[trigger] opts[i]) by {
            if i > 0 {
                assert(opts[i] == tail[i - 1]);
            }
        }
    }
}

/// Decoding an option list, storing the options it yields and decoding
/// that again yields the same options in the same order.
pub proof fn lemma_options_round_trip(e: Endianness, s: Seq<u8>)
    requires
        idb_options(e, s) is Ok,
    ensures
        ({
            let opts = idb_options(e, s)->Ok_0.0;
            idb_options(e, encode_idb_options(e, opts)) is Ok && idb_options(
                e,
                encode_idb_options(e, opts),
            )->Ok_0.0 == opts
        }),
{
    let opts = idb_options(e, s)->Ok_0.0;
    lemma_decoded_options_wf(e, s);
    lemma_decode_encoded_options(e, opts, Seq::empty());
    assert(encode_idb_options(e, opts) + Seq::empty() =~= encode_idb_options(e, opts));
}

/// Of blocks stored back to back, decoding the first yields that block and
/// takes exactly its bytes, so that what remains is the input after it.
pub proof fn lemma_packed_blocks(e: Endianness, m: BlockModel, rest: Seq<u8>)
    requires
        idb_block_wf(m),
    ensures
        idb_block(e, encode_idb_block(e, m) + rest) == Ok::<(BlockModel, nat), PcapError>(
            (m, encode_idb_block(e, m).len()),
        ),
{
    lemma_pow256_small();
    let code = m.linktype.spec_code() as nat;
    let body = encode_idb_options(e, m.options);
    let s = encode_idb_block(e, m) + rest;
    lemma_bytes_len(e, code, 2);
    lemma_bytes_len(e, m.snaplen as nat, 4);
    lemma_uint_of_bytes(e, code, 2);
    lemma_uint_of_bytes(e, m.snaplen as nat, 4);
    lemma_datalink_of_code(m.linktype);
    assert(s.subrange(0, 2) =~= bytes_of(e, code, 2));
    assert(s.subrange(2, 6) =~= bytes_of(e, m.snaplen as nat, 4));
    assert(s.subrange(6, s.len() as int) =~= body + rest);
    lemma_decode_encoded_options(e, m.options, rest);
}

/// An option whose declared length runs past the end of the input fails the
/// decode as incomplete, short by exactly the missing payload bytes.
pub proof fn lemma_truncated_option_incomplete(e: Endianness, s: Seq<u8>)
    requires
        s.len() >= 4,
        uint_of(e, s.subrange(0, 2)) != 0,
        uint_of(e, s.subrange(2, 4)) > s.len() - 4,
    ensures
        idb_options(e, s) == Err::<(Seq<OptionModel>, nat), PcapError>(
            PcapError::IncompleteBuffer((uint_of(e, s.subrange(2, 4)) - (s.len() - 4)) as usize),
        ),
{
}

/// A complete option record whose code this block kind does not define fails
/// the decode as an invalid option type, whatever its payload.
pub proof fn lemma_unknown_code_invalid(e: Endianness, s: Seq<u8>)
    requires
        s.len() >= 4,
        uint_of(e, s.subrange(0, 2)) != 0,
        idb_payload_kind(uint_of(e, s.subrange(0, 2)) as u16) is None,
        ({
            let len = uint_of(e, s.subrange(2, 4));
            len + crate::options::pad_len(len) <= s.len() - 4
        }),
    ensures
        idb_options(e, s) == Err::<(Seq<OptionModel>, nat), PcapError>(invalid_type_error()),
{
}

} // verus!
