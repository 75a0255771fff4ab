//! Reads and writes of primitive values at a cursor into a byte buffer.
//!
//! The cursor is a plain offset owned by the caller. A read or a write either
//! succeeds and moves the cursor past the value, or fails and leaves the
//! cursor where it was.
use crate::{ByteOrder, CodecError};
use scroll::{Pread, Pwrite};
use vstd::prelude::*;

verus! {

/// scroll's error type, which the wrappers below return; the cursor maps it
/// to the library's own error.
#[verifier::external_type_specification]
#[verifier::external_body]
pub struct ExScrollError(scroll::Error);

/// The byte order that scroll's `Endian::from` gives for `little`.
pub open spec fn order_of(little: bool) -> ByteOrder {
    if little {
        ByteOrder::Little
    } else {
        ByteOrder::Big
    }
}

/// The value of a two-byte unsigned integer whose bytes are `b0`, `b1` in that order.
pub open spec fn u16_value(b0: u8, b1: u8, order: ByteOrder) -> u16 {
    match order {
        ByteOrder::Little => (b0 + 256 * b1) as u16,
        ByteOrder::Big => (256 * b0 + b1) as u16,
    }
}

/// The two bytes of `v` in the order they stand on the wire.
pub open spec fn u16_bytes(v: u16, order: ByteOrder) -> Seq<u8> {
    match order {
        ByteOrder::Little => seq![(v % 256) as u8, (v / 256) as u8],
        ByteOrder::Big => seq![(v / 256) as u8, (v % 256) as u8],
    }
}

/// The signed byte whose two's-complement image is `b`.
pub open spec fn i8_of(b: u8) -> i8 {
    if b < 128 {
        b as i8
    } else {
        (b - 256) as i8
    }
}

/// The two's-complement image of the signed byte `v`.
pub open spec fn byte_of(v: i8) -> u8 {
    if v >= 0 {
        v as u8
    } else {
        (v + 256) as u8
    }
}

/// The two bytes of a two-byte integer read back in the same order give it back.
pub proof fn lemma_u16_round_trip(v: u16, order: ByteOrder)
    ensures
        u16_bytes(v, order).len() == 2,
        u16_value(u16_bytes(v, order)[0], u16_bytes(v, order)[1], order) == v,
{
}

/// The two's-complement byte of a signed byte reads back as that signed byte.
pub proof fn lemma_i8_round_trip(v: i8)
    ensures
        i8_of(byte_of(v)) == v,
{
}

/// Relies on scroll's `Pread::gread_with` for `u8`: reads the byte at the
/// offset and moves the offset by one; fails, offset unchanged, past the end.
#[verifier::external_body]
fn gread_u8(src: &[u8], off: &mut usize) -> (r: Result<u8, scroll::Error>)
    ensures
        r is Ok <==> *old(off) < src@.len(),
        r is Ok ==> r->Ok_0 == src@[*old(off) as int],
        r is Ok ==> *final(off) == *old(off) + 1,
        r is Err ==> *final(off) == *old(off),
{
    src.gread_with::<u8>(off, scroll::LE)
}

/// Relies on scroll's `Pread::gread_with` for `i8`: reads the byte at the
/// offset as a two's-complement value and moves the offset by one; fails,
/// offset unchanged, past the end.
#[verifier::external_body]
fn gread_i8(src: &[u8], off: &mut usize) -> (r: Result<i8, scroll::Error>)
    ensures
        r is Ok <==> *old(off) < src@.len(),
        r is Ok ==> r->Ok_0 == i8_of(src@[*old(off) as int]),
        r is Ok ==> *final(off) == *old(off) + 1,
        r is Err ==> *final(off) == *old(off),
{
    src.gread_with::<i8>(off, scroll::LE)
}

/// Relies on scroll's `Pread::gread_with` for `u16` and on `Endian::from`
/// (`true` is little endian): reads two bytes in the given order and moves
/// the offset by two; fails, offset unchanged, where fewer than two are left.
#[verifier::external_body]
fn gread_u16(src: &[u8], off: &mut usize, little: bool) -> (r: Result<u16, scroll::Error>)
    ensures
        r is Ok <==> *old(off) + 2 <= src@.len(),
        r is Ok ==> r->Ok_0 == u16_value(src@[*old(off) as int], src@[*old(off) + 1], order_of(little)),
        r is Ok ==> *final(off) == *old(off) + 2,
        r is Err ==> *final(off) == *old(off),
{
    src.gread_with::<u16>(off, scroll::Endian::from(little))
}

/// Relies on scroll's `Pread::gread_inout_with` for `u8`: fills `inout` with
/// the bytes from the offset on and moves the offset past them; fails where
/// fewer bytes are left than `inout` holds. With an empty `inout` it reads
/// nothing and succeeds wherever the offset is, so that case is left out.
#[verifier::external_body]
fn gread_inout(src: &[u8], off: &mut usize, inout: &mut Vec<u8>) -> (r: Result<(), scroll::Error>)
    requires
        old(inout)@.len() > 0,
    ensures
        r is Ok <==> *old(off) + old(inout)@.len() <= src@.len(),
        r is Ok ==> final(inout)@ == src@.subrange(*old(off) as int, *old(off) + old(inout)@.len()),
        r is Ok ==> *final(off) == *old(off) + old(inout)@.len(),
{
    src.gread_inout_with(off, inout.as_mut_slice(), scroll::LE)
}

/// Relies on scroll's `Pwrite::gwrite_with` for `u8`: writes the byte at the
/// offset and moves the offset by one; fails, nothing changed, past the end.
#[verifier::external_body]
fn gwrite_u8(dst: &mut [u8], v: u8, off: &mut usize) -> (r: Result<usize, scroll::Error>)
    ensures
        r is Ok <==> *old(off) < old(dst)@.len(),
        r is Ok ==> final(dst)@ == crate::splice(old(dst)@, *old(off) as int, seq![v]),
        r is Ok ==> *final(off) == *old(off) + 1,
        r is Err ==> final(dst)@ == old(dst)@,
{
    dst.gwrite_with::<u8>(v, off, scroll::LE)
}

/// Relies on scroll's `Pwrite::gwrite_with` for `i8`: writes the
/// two's-complement byte of `v` at the offset and moves the offset by one;
/// fails, nothing changed, past the end.
#[verifier::external_body]
fn gwrite_i8(dst: &mut [u8], v: i8, off: &mut usize) -> (r: Result<usize, scroll::Error>)
    ensures
        r is Ok <==> *old(off) < old(dst)@.len(),
        r is Ok ==> final(dst)@ == crate::splice(old(dst)@, *old(off) as int, seq![byte_of(v)]),
        r is Ok ==> *final(off) == *old(off) + 1,
        r is Err ==> final(dst)@ == old(dst)@,
{
    dst.gwrite_with::<i8>(v, off, scroll::LE)
}

/// Relies on scroll's `Pwrite::gwrite_with` for `u16` and on `Endian::from`
/// (`true` is little endian): writes the two bytes of `v` in the given order
/// and moves the offset by two; fails, nothing changed, where fewer than two
/// bytes are left.
#[verifier::external_body]
fn gwrite_u16(dst: &mut [u8], v: u16, off: &mut usize, little: bool) -> (r: Result<usize, scroll::Error>)
    ensures
        r is Ok <==> *old(off) + 2 <= old(dst)@.len(),
        r is Ok ==> final(dst)@ == crate::splice(old(dst)@, *old(off) as int, u16_bytes(v, order_of(little))),
        r is Ok ==> *final(off) == *old(off) + 2,
        r is Err ==> final(dst)@ == old(dst)@,
{
    dst.gwrite_with::<u16>(v, off, scroll::Endian::from(little))
}

/// Relies on scroll's `Pwrite::gwrite_with` for a byte slice: copies `bytes`
/// to the offset and moves the offset past them; fails, nothing changed,
/// where the offset is at or past the end or the bytes do not fit.
#[verifier::external_body]
fn gwrite_bytes(dst: &mut [u8], bytes: &[u8], off: &mut usize) -> (r: Result<usize, scroll::Error>)
    ensures
        r is Ok <==> *old(off) < old(dst)@.len() && *old(off) + bytes@.len() <= old(dst)@.len(),
        r is Ok ==> final(dst)@ == crate::splice(old(dst)@, *old(off) as int, bytes@),
        r is Ok ==> *final(off) == *old(off) + bytes@.len(),
        r is Err ==> final(dst)@ == old(dst)@,
{
    dst.gwrite_with::<&[u8]>(bytes, off, ())
}

/// Reads one byte at the cursor.
pub fn read_u8(src: &[u8], off: &mut usize) -> (r: Result<u8, CodecError>)
    ensures
        *old(off) < src@.len() ==> r == Ok::<u8, CodecError>(src@[*old(off) as int]) && *final(off) == *old(
            off,
        ) + 1,
        *old(off) >= src@.len() ==> (r matches Err(CodecError::BufferUnderrun)) && *final(off) == *old(off),
{
    match gread_u8(src, off) {
        Ok(b) => Ok(b),
        Err(_) => Err(CodecError::BufferUnderrun),
    }
}

/// Reads one signed byte at the cursor.
pub fn read_i8(src: &[u8], off: &mut usize) -> (r: Result<i8, CodecError>)
    ensures
        *old(off) < src@.len() ==> r == Ok::<i8, CodecError>(i8_of(src@[*old(off) as int])) && *final(off)
            == *old(off) + 1,
        *old(off) >= src@.len() ==> (r matches Err(CodecError::BufferUnderrun)) && *final(off) == *old(off),
{
    match gread_i8(src, off) {
        Ok(b) => Ok(b),
        Err(_) => Err(CodecError::BufferUnderrun),
    }
}

/// Reads a two-byte unsigned integer at the cursor, in the given byte order.
pub fn read_u16(src: &[u8], off: &mut usize, order: ByteOrder) -> (r: Result<u16, CodecError>)
    ensures
        *old(off) + 2 <= src@.len() ==> r == Ok::<u16, CodecError>(
            u16_value(src@[*old(off) as int], src@[*old(off) + 1], order),
        ) && *final(off) == *old(off) + 2,
        *old(off) + 2 > src@.len() ==> (r matches Err(CodecError::BufferUnderrun)) && *final(off) == *old(off),
{
    match gread_u16(src, off, order.is_little()) {
        Ok(v) => Ok(v),
        Err(_) => Err(CodecError::BufferUnderrun),
    }
}

/// Reads `n` bytes at the cursor and discards them.
pub fn skip_bytes(src: &[u8], off: &mut usize, n: usize) -> (r: Result<(), CodecError>)
    ensures
        *old(off) + n <= src@.len() ==> r is Ok && *final(off) == *old(off) + n,
        *old(off) + n > src@.len() ==> (r matches Err(CodecError::BufferUnderrun)),
{
    if n == 0 {
        if *off <= src.len() {
            return Ok(());
        } else {
            return Err(CodecError::BufferUnderrun);
        }
    }
    let mut block: Vec<u8> = vec![0u8; n];
    match gread_inout(src, off, &mut block) {
        Ok(()) => Ok(()),
        Err(_) => Err(CodecError::BufferUnderrun),
    }
}

/// Copies every byte from the cursor to the end of the buffer, and moves the
/// cursor to the end.
pub fn read_rest(src: &[u8], off: &mut usize) -> (r: Vec<u8>)
    requires
        *old(off) <= src@.len(),
    ensures
        r@ == src@.skip(*old(off) as int),
        *final(off) == src@.len(),
{
    let start: usize = *off;
    let mut data: Vec<u8> = Vec::new();
    while *off < src.len()
        invariant
            start <= *off <= src@.len(),
            data@ == src@.subrange(start as int, *off as int),
        decreases src@.len() - *off,
    {
        let b = src[*off];
        data.push(b);
        *off = *off + 1;
        assert(data@ =~= src@.subrange(start as int, *off as int));
    }
    assert(data@ =~= src@.skip(start as int));
    data
}

/// Writes one byte at the cursor.
pub fn write_u8(dst: &mut [u8], v: u8, off: &mut usize) -> (r: Result<(), CodecError>)
    ensures
        crate::encoded_at(r, true, seq![v], old(dst)@, final(dst)@, *old(off), *final(off)),
{
    let ghost before = dst@;
    match gwrite_u8(dst, v, off) {
        Ok(_) => {
            assert(dst@ =~= crate::splice(before, *old(off) as int, seq![v]));
            Ok(())
        },
        Err(_) => Err(CodecError::BufferOverrun),
    }
}

/// Writes one signed byte at the cursor.
pub fn write_i8(dst: &mut [u8], v: i8, off: &mut usize) -> (r: Result<(), CodecError>)
    ensures
        crate::encoded_at(r, true, seq![byte_of(v)], old(dst)@, final(dst)@, *old(off), *final(off)),
{
    let ghost before = dst@;
    match gwrite_i8(dst, v, off) {
        Ok(_) => {
            assert(dst@ =~= crate::splice(before, *old(off) as int, seq![byte_of(v)]));
            Ok(())
        },
        Err(_) => Err(CodecError::BufferOverrun),
    }
}

/// Writes a two-byte unsigned integer at the cursor, in the given byte order.
pub fn write_u16(dst: &mut [u8], v: u16, off: &mut usize, order: ByteOrder) -> (r: Result<(), CodecError>)
    ensures
        crate::encoded_at(r, true, u16_bytes(v, order), old(dst)@, final(dst)@, *old(off), *final(off)),
{
    match gwrite_u16(dst, v, off, order.is_little()) {
        Ok(_) => Ok(()),
        Err(_) => Err(CodecError::BufferOverrun),
    }
}

/// Writes `bytes` at the cursor. Writing no bytes always succeeds.
pub fn write_bytes(dst: &mut [u8], bytes: &[u8], off: &mut usize) -> (r: Result<(), CodecError>)
    ensures
        crate::encoded_at(r, true, bytes@, old(dst)@, final(dst)@, *old(off), *final(off)),
{
    if bytes.len() == 0 {
        if *off <= dst.len() {
            assert(dst@ =~= crate::splice(dst@, *off as int, bytes@));
            return Ok(());
        } else {
            return Err(CodecError::BufferOverrun);
        }
    }
    match gwrite_bytes(dst, bytes, off) {
        Ok(_) => Ok(()),
        Err(_) => Err(CodecError::BufferOverrun),
    }
}

} // verus!
