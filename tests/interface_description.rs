use pcapng_idb::endian::{read_u16, read_u32, read_u64};
use pcapng_idb::errors::take_bytes;
use pcapng_idb::options::{next_option, payload_str, OptionStep};
use pcapng_idb::{
    DataLink, Endianness, InterfaceDescriptionBlock, InterfaceDescriptionOption, PcapError,
};

fn put_u16(e: Endianness, v: u16, out: &mut Vec<u8>) {
    match e {
        Endianness::Big => out.extend_from_slice(&v.to_be_bytes()),
        Endianness::Little => out.extend_from_slice(&v.to_le_bytes()),
    }
}

fn put_u32(e: Endianness, v: u32, out: &mut Vec<u8>) {
    match e {
        Endianness::Big => out.extend_from_slice(&v.to_be_bytes()),
        Endianness::Little => out.extend_from_slice(&v.to_le_bytes()),
    }
}

fn put_u64(e: Endianness, v: u64, out: &mut Vec<u8>) {
    match e {
        Endianness::Big => out.extend_from_slice(&v.to_be_bytes()),
        Endianness::Little => out.extend_from_slice(&v.to_le_bytes()),
    }
}

fn put_record(e: Endianness, code: u16, payload: &[u8], out: &mut Vec<u8>) {
    put_u16(e, code, out);
    put_u16(e, payload.len() as u16, out);
    out.extend_from_slice(payload);
    let mut pad = (4 - payload.len() % 4) % 4;
    while pad > 0 {
        out.push(0);
        pad -= 1;
    }
}

fn put_end(e: Endianness, out: &mut Vec<u8>) {
    put_u16(e, 0, out);
    put_u16(e, 0, out);
}

fn encode_options(e: Endianness, opts: &[InterfaceDescriptionOption]) -> Vec<u8> {
    let mut out = Vec::new();
    for o in opts {
        let mut p = Vec::new();
        let code = match *o {
            InterfaceDescriptionOption::Comment(s) => { p.extend_from_slice(s.as_bytes()); 1 }
            InterfaceDescriptionOption::IfName(s) => { p.extend_from_slice(s.as_bytes()); 2 }
            InterfaceDescriptionOption::IfDescription(s) => { p.extend_from_slice(s.as_bytes()); 3 }
            InterfaceDescriptionOption::IfIpv4Addr(b) => { p.extend_from_slice(b); 4 }
            InterfaceDescriptionOption::IfIpv6Addr(b) => { p.extend_from_slice(b); 5 }
            InterfaceDescriptionOption::IfMacAddr(b) => { p.extend_from_slice(b); 6 }
            InterfaceDescriptionOption::IfEulAddr(v) => { put_u64(e, v, &mut p); 7 }
            InterfaceDescriptionOption::IfSpeed(v) => { put_u64(e, v, &mut p); 8 }
            InterfaceDescriptionOption::IfTsResol(v) => { p.push(v); 9 }
            InterfaceDescriptionOption::IfTzone(v) => { put_u32(e, v, &mut p); 10 }
            InterfaceDescriptionOption::IfFilter(b) => { p.extend_from_slice(b); 11 }
            InterfaceDescriptionOption::IfOs(s) => { p.extend_from_slice(s.as_bytes()); 12 }
            InterfaceDescriptionOption::IfFcsLen(v) => { p.push(v); 13 }
            InterfaceDescriptionOption::IfTsOffset(v) => { put_u64(e, v, &mut p); 14 }
            InterfaceDescriptionOption::IfHardware(s) => { p.extend_from_slice(s.as_bytes()); 15 }
        };
        put_record(e, code, &p, &mut out);
    }
    put_end(e, &mut out);
    out
}

fn header(e: Endianness, linktype: u16, snaplen: u32) -> Vec<u8> {
    let mut out = Vec::new();
    put_u16(e, linktype, &mut out);
    put_u32(e, snaplen, &mut out);
    out
}

#[test]
fn minimal_block_ethernet() {
    let buf = [0x00u8, 0x01, 0x00, 0x00, 0x00, 0x00, 0x00, 0x00, 0x00, 0x00];
    let (block, rest) = InterfaceDescriptionBlock::from_slice(Endianness::Big, &buf).unwrap();
    assert_eq!(block.linktype, DataLink::ETHERNET);
    assert_eq!(block.snaplen, 0);
    assert!(block.options.is_empty());
    assert!(rest.is_empty());
}

#[test]
fn minimal_block_little_endian() {
    let buf = [0x01u8, 0x00, 0xff, 0xff, 0x00, 0x00, 0x00, 0x00, 0x00, 0x00];
    let (block, rest) = InterfaceDescriptionBlock::from_slice(Endianness::Little, &buf).unwrap();
    assert_eq!(block.linktype, DataLink::ETHERNET);
    assert_eq!(block.snaplen, 0xffff);
    assert!(block.options.is_empty());
    assert!(rest.is_empty());
}

#[test]
fn short_buffer_reports_missing_bytes() {
    let buf = [0x00u8, 0x01];
    assert_eq!(
        InterfaceDescriptionBlock::from_slice(Endianness::Big, &buf),
        Err(PcapError::IncompleteBuffer(4))
    );
    assert_eq!(
        InterfaceDescriptionBlock::from_slice(Endianness::Big, &[]),
        Err(PcapError::IncompleteBuffer(6))
    );
    assert_eq!(
        InterfaceDescriptionBlock::from_slice(Endianness::Little, &[1, 2, 3, 4, 5]),
        Err(PcapError::IncompleteBuffer(1))
    );
}

#[test]
fn header_without_options_is_a_block() {
    let buf = header(Endianness::Big, 1, 65535);
    let (block, rest) = InterfaceDescriptionBlock::from_slice(Endianness::Big, &buf).unwrap();
    assert_eq!(block.snaplen, 65535);
    assert!(block.options.is_empty());
    assert!(rest.is_empty());
}

#[test]
fn timestamp_resolution_option() {
    for e in [Endianness::Big, Endianness::Little] {
        let mut buf = header(e, 1, 0);
        put_record(e, 9, &[0x06], &mut buf);
        put_end(e, &mut buf);
        let (block, rest) = InterfaceDescriptionBlock::from_slice(e, &buf).unwrap();
        assert_eq!(block.options, vec![InterfaceDescriptionOption::IfTsResol(6)]);
        assert!(rest.is_empty());
    }
}

#[test]
fn truncated_option_is_incomplete() {
    let mut buf = header(Endianness::Big, 1, 0);
    put_u16(Endianness::Big, 2, &mut buf);
    put_u16(Endianness::Big, 10, &mut buf);
    buf.extend_from_slice(b"eth");
    assert_eq!(
        InterfaceDescriptionBlock::from_slice(Endianness::Big, &buf),
        Err(PcapError::IncompleteBuffer(7))
    );
}

#[test]
fn truncated_option_header_is_incomplete() {
    let mut buf = header(Endianness::Big, 1, 0);
    buf.extend_from_slice(&[0x00, 0x02, 0x00]);
    assert_eq!(
        InterfaceDescriptionBlock::from_slice(Endianness::Big, &buf),
        Err(PcapError::IncompleteBuffer(1))
    );
}

#[test]
fn missing_padding_is_incomplete() {
    let mut buf = header(Endianness::Little, 1, 0);
    put_u16(Endianness::Little, 2, &mut buf);
    put_u16(Endianness::Little, 3, &mut buf);
    buf.extend_from_slice(b"eth");
    assert_eq!(
        InterfaceDescriptionBlock::from_slice(Endianness::Little, &buf),
        Err(PcapError::IncompleteBuffer(1))
    );
}

#[test]
fn unknown_option_code_is_invalid() {
    for len in [0usize, 1, 4, 7] {
        let mut buf = header(Endianness::Big, 1, 0);
        put_record(Endianness::Big, 99, &vec![0xaa; len], &mut buf);
        put_end(Endianness::Big, &mut buf);
        assert_eq!(
            InterfaceDescriptionBlock::from_slice(Endianness::Big, &buf),
            Err(PcapError::InvalidField("InterfaceDescriptionOption type invalid"))
        );
    }
}

#[test]
fn invalid_utf8_is_invalid_field() {
    let mut buf = header(Endianness::Big, 1, 0);
    put_record(Endianness::Big, 1, &[0xff, 0xfe], &mut buf);
    put_end(Endianness::Big, &mut buf);
    assert_eq!(
        InterfaceDescriptionBlock::from_slice(Endianness::Big, &buf),
        Err(PcapError::InvalidField("option value is not valid UTF-8"))
    );
}

#[test]
fn short_integer_value_is_invalid_field() {
    let mut buf = header(Endianness::Big, 1, 0);
    put_record(Endianness::Big, 8, &[1, 2, 3, 4], &mut buf);
    put_end(Endianness::Big, &mut buf);
    assert_eq!(
        InterfaceDescriptionBlock::from_slice(Endianness::Big, &buf),
        Err(PcapError::InvalidField("option value is too short"))
    );
    let mut buf = header(Endianness::Big, 1, 0);
    put_record(Endianness::Big, 13, &[], &mut buf);
    put_end(Endianness::Big, &mut buf);
    assert_eq!(
        InterfaceDescriptionBlock::from_slice(Endianness::Big, &buf),
        Err(PcapError::InvalidField("option value is too short"))
    );
}

#[test]
fn every_option_kind_decodes() {
    let e = Endianness::Little;
    let mut buf = header(e, 105, 262144);
    put_record(e, 1, "a comment".as_bytes(), &mut buf);
    put_record(e, 2, b"eth0", &mut buf);
    put_record(e, 3, "Ethernet ü".as_bytes(), &mut buf);
    put_record(e, 4, &[192, 168, 0, 1, 255, 255, 255, 0], &mut buf);
    put_record(e, 5, &[0x20, 0x01, 0x0d, 0xb8, 0, 0, 0, 0, 0, 0, 0, 0, 0, 0, 0, 1, 64], &mut buf);
    put_record(e, 6, &[0, 1, 2, 3, 4, 5], &mut buf);
    put_record(e, 7, &0x0102030405060708u64.to_le_bytes(), &mut buf);
    put_record(e, 8, &1_000_000_000u64.to_le_bytes(), &mut buf);
    put_record(e, 9, &[9], &mut buf);
    put_record(e, 10, &0xfffffe20u32.to_le_bytes(), &mut buf);
    put_record(e, 11, &[0, b't', b'c', b'p'], &mut buf);
    put_record(e, 12, b"Linux", &mut buf);
    put_record(e, 13, &[32], &mut buf);
    put_record(e, 14, &3600u64.to_le_bytes(), &mut buf);
    put_record(e, 15, b"", &mut buf);
    put_end(e, &mut buf);
    let (block, rest) = InterfaceDescriptionBlock::from_slice(e, &buf).unwrap();
    assert_eq!(block.linktype, DataLink::IEEE802_11);
    assert_eq!(block.snaplen, 262144);
    assert!(rest.is_empty());
    let expected = vec![
        InterfaceDescriptionOption::Comment("a comment"),
        InterfaceDescriptionOption::IfName("eth0"),
        InterfaceDescriptionOption::IfDescription("Ethernet ü"),
        InterfaceDescriptionOption::IfIpv4Addr(&[192, 168, 0, 1, 255, 255, 255, 0]),
        InterfaceDescriptionOption::IfIpv6Addr(&[0x20, 0x01, 0x0d, 0xb8, 0, 0, 0, 0, 0, 0, 0, 0, 0, 0, 0, 1, 64]),
        InterfaceDescriptionOption::IfMacAddr(&[0, 1, 2, 3, 4, 5]),
        InterfaceDescriptionOption::IfEulAddr(0x0102030405060708),
        InterfaceDescriptionOption::IfSpeed(1_000_000_000),
        InterfaceDescriptionOption::IfTsResol(9),
        InterfaceDescriptionOption::IfTzone(0xfffffe20),
        InterfaceDescriptionOption::IfFilter(&[0, b't', b'c', b'p']),
        InterfaceDescriptionOption::IfOs("Linux"),
        InterfaceDescriptionOption::IfFcsLen(32),
        InterfaceDescriptionOption::IfTsOffset(3600),
        InterfaceDescriptionOption::IfHardware(""),
    ];
    assert_eq!(block.options, expected);
}

#[test]
fn integer_value_ignores_extra_bytes() {
    let e = Endianness::Big;
    let mut buf = header(e, 1, 0);
    put_record(e, 10, &[0, 0, 1, 0, 0xee, 0xee], &mut buf);
    put_end(e, &mut buf);
    let (block, _) = InterfaceDescriptionBlock::from_slice(e, &buf).unwrap();
    assert_eq!(block.options, vec![InterfaceDescriptionOption::IfTzone(256)]);
}

#[test]
fn options_round_trip() {
    for e in [Endianness::Big, Endianness::Little] {
        let mut src = Vec::new();
        put_record(e, 2, b"wlan0", &mut src);
        put_record(e, 8, &[1, 2, 3, 4, 5, 6, 7, 8, 9, 10], &mut src);
        put_record(e, 6, &[1, 2, 3, 4, 5, 6], &mut src);
        put_record(e, 1, "größe".as_bytes(), &mut src);
        put_record(e, 13, &[16], &mut src);
        put_end(e, &mut src);
        let (first, rest) = InterfaceDescriptionOption::from_slice(e, &src).unwrap();
        assert!(rest.is_empty());
        assert_eq!(first.len(), 5);
        let again = encode_options(e, &first);
        let (second, rest) = InterfaceDescriptionOption::from_slice(e, &again).unwrap();
        assert!(rest.is_empty());
        assert_eq!(first, second);
    }
}

#[test]
fn two_packed_blocks() {
    let e = Endianness::Big;
    let mut first = header(e, 1, 96);
    put_record(e, 2, b"eth0", &mut first);
    put_record(e, 1, b"abcde", &mut first);
    put_end(e, &mut first);
    let mut second = header(e, 113, 0);
    put_record(e, 9, &[6], &mut second);
    put_end(e, &mut second);
    let mut buf = first.clone();
    buf.extend_from_slice(&second);

    let (b1, rest) = InterfaceDescriptionBlock::from_slice(e, &buf).unwrap();
    assert_eq!(rest.len(), buf.len() - first.len());
    assert_eq!(b1.linktype, DataLink::ETHERNET);
    assert_eq!(b1.snaplen, 96);
    assert_eq!(
        b1.options,
        vec![
            InterfaceDescriptionOption::IfName("eth0"),
            InterfaceDescriptionOption::Comment("abcde"),
        ]
    );
    let (b2, rest) = InterfaceDescriptionBlock::from_slice(e, rest).unwrap();
    assert!(rest.is_empty());
    assert_eq!(b2.linktype, DataLink::LINUX_SLL);
    assert_eq!(b2.options, vec![InterfaceDescriptionOption::IfTsResol(6)]);
}

#[test]
fn options_end_with_input_without_terminator() {
    let e = Endianness::Big;
    let mut buf = Vec::new();
    put_record(e, 12, b"BSD", &mut buf);
    let (opts, rest) = InterfaceDescriptionOption::from_slice(e, &buf).unwrap();
    assert_eq!(opts, vec![InterfaceDescriptionOption::IfOs("BSD")]);
    assert!(rest.is_empty());
}

#[test]
fn terminator_leaves_following_bytes() {
    let e = Endianness::Little;
    let mut buf = Vec::new();
    put_end(e, &mut buf);
    buf.extend_from_slice(&[7, 8, 9]);
    let (opts, rest) = InterfaceDescriptionOption::from_slice(e, &buf).unwrap();
    assert!(opts.is_empty());
    assert_eq!(rest, &[7, 8, 9]);
}

#[test]
fn unknown_link_type_keeps_code() {
    let buf = [0xffu8, 0xfe, 0, 0, 0, 0];
    let (block, _) = InterfaceDescriptionBlock::from_slice(Endianness::Big, &buf).unwrap();
    assert_eq!(block.linktype, DataLink::Unknown(0xfffe));
    assert_eq!(DataLink::from_u32(0), DataLink::NULL);
    assert_eq!(DataLink::from_u32(276), DataLink::LINUX_SLL2);
    assert_eq!(DataLink::from_u32(70000), DataLink::Unknown(70000));
}

#[test]
fn byte_order_reads() {
    let b = [0x01u8, 0x02, 0x03, 0x04, 0x05, 0x06, 0x07, 0x08];
    assert_eq!(read_u16(Endianness::Big, &b), 0x0102);
    assert_eq!(read_u16(Endianness::Little, &b), 0x0201);
    assert_eq!(read_u32(Endianness::Big, &b), 0x01020304);
    assert_eq!(read_u32(Endianness::Little, &b), 0x04030201);
    assert_eq!(read_u64(Endianness::Big, &b), 0x0102030405060708);
    assert_eq!(read_u64(Endianness::Little, &b), 0x0807060504030201);
}

#[test]
fn payload_text_and_bounded_take() {
    assert_eq!(payload_str("héllo".as_bytes()), Ok("héllo"));
    assert!(payload_str(&[0xc3]).is_err());
    let b = [1u8, 2, 3];
    assert_eq!(take_bytes(&b, 2), Ok((&b[..2], &b[2..])));
    assert_eq!(take_bytes(&b, 5), Err(PcapError::IncompleteBuffer(2)));
}

#[test]
fn option_scan_step() {
    let e = Endianness::Big;
    let mut buf = Vec::new();
    put_record(e, 3, b"x", &mut buf);
    buf.push(0xaa);
    match next_option(e, &buf).unwrap() {
        OptionStep::Record(raw, rest) => {
            assert_eq!(raw.code, 3);
            assert_eq!(raw.length, 1);
            assert_eq!(raw.payload, b"x");
            assert_eq!(rest, &[0xaa]);
        }
        OptionStep::End(_) => panic!("expected a record"),
    }
    assert_eq!(next_option(e, &[]), Ok(OptionStep::End(&[])));
}
