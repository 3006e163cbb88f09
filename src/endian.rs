//! Byte order of a capture section, and reading unsigned integers in it.

use byteorder::ByteOrder;
use vstd::prelude::*;

verus! {

/// The byte order that a section header declared; every multi-byte field
/// of the blocks of that section is stored in it.
#[derive(Clone, Copy, Debug, PartialEq, Eq, Structural)]
pub enum Endianness {
    Big,
    Little,
}

/// The number that `s` holds with its most significant byte first.
pub open spec fn uint_be(s: Seq<u8>) -> nat
    decreases s.len(),
{
    if s.len() == 0 {
        0
    } else {
        uint_be(s.drop_last()) * 256 + s.last() as nat
    }
}

/// The number that `s` holds with its least significant byte first.
pub open spec fn uint_le(s: Seq<u8>) -> nat
    decreases s.len(),
{
    if s.len() == 0 {
        0
    } else {
        s[0] as nat + 256 * uint_le(s.drop_first())
    }
}

/// The number that `s` holds in byte order `e`.
pub open spec fn uint_of(e: Endianness, s: Seq<u8>) -> nat {
    match e {
        Endianness::Big => uint_be(s),
        Endianness::Little => uint_le(s),
    }
}

/// The `n` bytes that hold `v` (modulo `256^n`) most significant first.
pub open spec fn bytes_be(v: nat, n: nat) -> Seq<u8>
    decreases n,
{
    if n == 0 {
        Seq::empty()
    } else {
        bytes_be(v / 256, (n - 1) as nat).push((v % 256) as u8)
    }
}

/// The `n` bytes that hold `v` (modulo `256^n`) least significant first.
pub open spec fn bytes_le(v: nat, n: nat) -> Seq<u8>
    decreases n,
{
    if n == 0 {
        Seq::empty()
    } else {
        seq![(v % 256) as u8] + bytes_le(v / 256, (n - 1) as nat)
    }
}

/// The `n` bytes that hold `v` in byte order `e`.
pub open spec fn bytes_of(e: Endianness, v: nat, n: nat) -> Seq<u8> {
    match e {
        Endianness::Big => bytes_be(v, n),
        Endianness::Little => bytes_le(v, n),
    }
}

/// `256^n`: the count of numbers that `n` bytes can hold.
pub open spec fn pow256(n: nat) -> nat
    decreases n,
{
    if n == 0 {
        1
    } else {
        256 * pow256((n - 1) as nat)
    }
}

/// `bytes_of` gives as many bytes as it is asked for.
pub proof fn lemma_bytes_len(e: Endianness, v: nat, n: nat)
    ensures
        bytes_of(e, v, n).len() == n,
    decreases n,
{
    if n > 0 {
        lemma_bytes_len(e, v / 256, (n - 1) as nat);
    }
}

/// Writing a number that fits in `n` bytes and reading it back gives the number.
pub proof fn lemma_uint_of_bytes(e: Endianness, v: nat, n: nat)
    requires
        v < pow256(n),
    ensures
        uint_of(e, bytes_of(e, v, n)) == v,
    decreases n,
{
    if n > 0 {
        assert(v / 256 < pow256((n - 1) as nat)) by (nonlinear_arith)
            requires
                v < 256 * pow256((n - 1) as nat),
        ;
        lemma_uint_of_bytes(e, v / 256, (n - 1) as nat);
        let s = bytes_of(e, v, n);
        match e {
            Endianness::Big => {
                assert(s.drop_last() =~= bytes_be(v / 256, (n - 1) as nat));
            },
            Endianness::Little => {
                assert(s.drop_first() =~= bytes_le(v / 256, (n - 1) as nat));
            },
        }
        assert(v == (v % 256) + 256 * (v / 256)) by (nonlinear_arith);
    }
}

/// The number that `n` bytes hold is below `256^n`.
pub proof fn lemma_uint_bound(e: Endianness, s: Seq<u8>)
    ensures
        uint_of(e, s) < pow256(s.len()),
    decreases s.len(),
{
    if s.len() > 0 {
        let n = (s.len() - 1) as nat;
        match e {
            Endianness::Big => {
                lemma_uint_bound(e, s.drop_last());
                let a = uint_be(s.drop_last());
                let b = s.last() as nat;
                assert(a * 256 + b < 256 * pow256(n)) by (nonlinear_arith)
                    requires
                        a < pow256(n),
                        b < 256,
                ;
            },
            Endianness::Little => {
                lemma_uint_bound(e, s.drop_first());
                let a = uint_le(s.drop_first());
                let b = s[0] as nat;
                assert(b + 256 * a < 256 * pow256(n)) by (nonlinear_arith)
                    requires
                        a < pow256(n),
                        b < 256,
                ;
            },
        }
    }
}

/// A single byte holds its own value in either byte order.
pub proof fn lemma_uint_one_byte(e: Endianness, s: Seq<u8>)
    requires
        s.len() == 1,
    ensures
        uint_of(e, s) == s[0] as nat,
{
    assert(s.drop_last() =~= Seq::<u8>::empty());
    assert(s.drop_first() =~= Seq::<u8>::empty());
    assert(uint_be(Seq::<u8>::empty()) == 0);
    assert(uint_le(Seq::<u8>::empty()) == 0);
}

/// Relies on byteorder's `BigEndian::read_u16`: the first two bytes of `buf`,
/// most significant first; it panics on a shorter `buf`.
#[verifier::external_body]
fn be_u16(buf: &[u8]) -> (r: u16)
    requires
        buf@.len() >= 2,
    ensures
        r as nat == uint_be(buf@.subrange(0, 2)),
{
    byteorder::BigEndian::read_u16(buf)
}

/// Relies on byteorder's `LittleEndian::read_u16`: the first two bytes of
/// `buf`, least significant first; it panics on a shorter `buf`.
#[verifier::external_body]
fn le_u16(buf: &[u8]) -> (r: u16)
    requires
        buf@.len() >= 2,
    ensures
        r as nat == uint_le(buf@.subrange(0, 2)),
{
    byteorder::LittleEndian::read_u16(buf)
}

/// Relies on byteorder's `BigEndian::read_u32`: the first four bytes of `buf`,
/// most significant first; it panics on a shorter `buf`.
#[verifier::external_body]
fn be_u32(buf: &[u8]) -> (r: u32)
    requires
        buf@.len() >= 4,
    ensures
        r as nat == uint_be(buf@.subrange(0, 4)),
{
    byteorder::BigEndian::read_u32(buf)
}

/// Relies on byteorder's `LittleEndian::read_u32`: the first four bytes of
/// `buf`, least significant first; it panics on a shorter `buf`.
#[verifier::external_body]
fn le_u32(buf: &[u8]) -> (r: u32)
    requires
        buf@.len() >= 4,
    ensures
        r as nat == uint_le(buf@.subrange(0, 4)),
{
    byteorder::LittleEndian::read_u32(buf)
}

/// Relies on byteorder's `BigEndian::read_u64`: the first eight bytes of
/// `buf`, most significant first; it panics on a shorter `buf`.
#[verifier::external_body]
fn be_u64(buf: &[u8]) -> (r: u64)
    requires
        buf@.len() >= 8,
    ensures
        r as nat == uint_be(buf@.subrange(0, 8)),
{
    byteorder::BigEndian::read_u64(buf)
}

/// Relies on byteorder's `LittleEndian::read_u64`: the first eight bytes of
/// `buf`, least significant first; it panics on a shorter `buf`.
#[verifier::external_body]
fn le_u64(buf: &[u8]) -> (r: u64)
    requires
        buf@.len() >= 8,
    ensures
        r as nat == uint_le(buf@.subrange(0, 8)),
{
    byteorder::LittleEndian::read_u64(buf)
}

/// The unsigned 16-bit number at the start of `buf`, in byte order `e`.
pub fn read_u16(e: Endianness, buf: &[u8]) -> (r: u16)
    requires
        buf@.len() >= 2,
    ensures
        r as nat == uint_of(e, buf@.subrange(0, 2)),
{
    match e {
        Endianness::Big => be_u16(buf),
        Endianness::Little => le_u16(buf),
    }
}

/// The unsigned 32-bit number at the start of `buf`, in byte order `e`.
pub fn read_u32(e: Endianness, buf: &[u8]) -> (r: u32)
    requires
        buf@.len() >= 4,
    ensures
        r as nat == uint_of(e, buf@.subrange(0, 4)),
{
    match e {
        Endianness::Big => be_u32(buf),
        Endianness::Little => le_u32(buf),
    }
}

/// The unsigned 64-bit number at the start of `buf`, in byte order `e`.
pub fn read_u64(e: Endianness, buf: &[u8]) -> (r: u64)
    requires
        buf@.len() >= 8,
    ensures
        r as nat == uint_of(e, buf@.subrange(0, 8)),
{
    match e {
        Endianness::Big => be_u64(buf),
        Endianness::Little => le_u64(buf),
    }
}

} // verus!
