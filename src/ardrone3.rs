//! The ardrone3 feature. Of its classes only the piloting class is modelled,
//! with its commands that carry no payload; any other class or command tag
//! fails to decode.
use crate::cursor::{lemma_u16_round_trip, read_u16, read_u8, u16_bytes, u16_value, write_u16, write_u8};
use crate::{
    after, decoded, encoded, encoded_at, lemma_splice_concat, lemma_splice_start, ByteOrder,
    CodecError, Parse,
};
use vstd::prelude::*;
use vstd::slice::slice_subrange;

verus! {

/// Second-level tag of the ardrone3 feature, one byte on the wire.
#[derive(Debug, Clone, Copy, PartialEq, Eq, Structural)]
pub enum ArDrone3 {
    Piloting(Piloting),
}

/// Command of the piloting class, two bytes on the wire.
#[derive(Debug, Clone, Copy, PartialEq, Eq, Structural)]
pub enum Piloting {
    FlatTrim,
    TakeOff,
    Landing,
    Emergency,
}

/// The piloting command that a tag selects.
pub open spec fn piloting_of_tag(t: u16) -> Option<Piloting> {
    match t {
        0 => Some(Piloting::FlatTrim),
        1 => Some(Piloting::TakeOff),
        3 => Some(Piloting::Landing),
        4 => Some(Piloting::Emergency),
        _ => None,
    }
}

/// What decoding a piloting command gives on the bytes `s`.
pub open spec fn parse_piloting(s: Seq<u8>, order: ByteOrder) -> Parse<Piloting> {
    if s.len() < 2 {
        Parse::Underrun
    } else {
        let t = u16_value(s[0], s[1], order);
        match piloting_of_tag(t) {
            Some(p) => Parse::Value(p, 2),
            None => Parse::OutOfBound(t as u64, "Piloting"@),
        }
    }
}

/// What decoding a class of the ardrone3 feature gives on the bytes `s`.
pub open spec fn parse_ardrone3(s: Seq<u8>, order: ByteOrder) -> Parse<ArDrone3> {
    if s.len() < 1 {
        Parse::Underrun
    } else if s[0] == 0 {
        after(parse_piloting(s.skip(1), order), 1, |p: Piloting| ArDrone3::Piloting(p))
    } else {
        Parse::OutOfBound(s[0] as u64, "ArDrone3"@)
    }
}

impl Piloting {
    pub open spec fn spec_tag(self) -> u16 {
        match self {
            Piloting::FlatTrim => 0,
            Piloting::TakeOff => 1,
            Piloting::Landing => 3,
            Piloting::Emergency => 4,
        }
    }

    pub fn tag(&self) -> (r: u16)
        ensures
            r == self.spec_tag(),
    {
        match self {
            Piloting::FlatTrim => 0,
            Piloting::TakeOff => 1,
            Piloting::Landing => 3,
            Piloting::Emergency => 4,
        }
    }

    pub fn try_from_ctx(src: &[u8], ctx: ByteOrder) -> (r: Result<(Piloting, usize), CodecError>)
        ensures
            r is Ok ==> r->Ok_0.1 <= src@.len(),
            decoded(r, parse_piloting(src@, ctx)),
    {
        let mut offset: usize = 0;
        let piloting = match read_u16(src, &mut offset, ctx) {
            Ok(0) => Piloting::FlatTrim,
            Ok(1) => Piloting::TakeOff,
            Ok(3) => Piloting::Landing,
            Ok(4) => Piloting::Emergency,
            Ok(value) => {
                return Err(CodecError::OutOfBound { value: value as u64, param: "Piloting".to_owned() });
            },
            Err(e) => return Err(e),
        };
        Ok((piloting, offset))
    }
}

impl ArDrone3 {
    pub open spec fn spec_tag(self) -> u8 {
        match self {
            ArDrone3::Piloting(_) => 0,
        }
    }

    /// The class tag, then the command tag in the given byte order.
    pub open spec fn wire(self, order: ByteOrder) -> Seq<u8> {
        match self {
            ArDrone3::Piloting(p) => seq![0u8] + u16_bytes(p.spec_tag(), order),
        }
    }

    pub fn try_from_ctx(src: &[u8], ctx: ByteOrder) -> (r: Result<(ArDrone3, usize), CodecError>)
        ensures
            r is Ok ==> r->Ok_0.1 <= src@.len(),
            decoded(r, parse_ardrone3(src@, ctx)),
    {
        let mut offset: usize = 0;
        let class = match read_u8(src, &mut offset) {
            Ok(0) => {
                let rest = slice_subrange(src, offset, src.len());
                assert(rest@ =~= src@.skip(1));
                match Piloting::try_from_ctx(rest, ctx) {
                    Ok((piloting, n)) => {
                        offset = offset + n;
                        ArDrone3::Piloting(piloting)
                    },
                    Err(e) => return Err(e),
                }
            },
            Ok(value) => {
                return Err(CodecError::OutOfBound { value: value as u64, param: "ArDrone3".to_owned() });
            },
            Err(e) => return Err(e),
        };
        Ok((class, offset))
    }

    /// Writes the class and its command at the cursor.
    pub fn encode_at(&self, dst: &mut [u8], off: &mut usize, ctx: ByteOrder) -> (r: Result<(), CodecError>)
        ensures
            encoded_at(r, true, self.wire(ctx), old(dst)@, final(dst)@, *old(off), *final(off)),
    {
        let ghost b0 = dst@;
        let ghost at = *off;
        match self {
            ArDrone3::Piloting(p) => {
                if let Err(e) = write_u8(dst, 0, off) {
                    return Err(e);
                }
                if let Err(e) = write_u16(dst, p.tag(), off, ctx) {
                    return Err(e);
                }
                proof {
                    lemma_splice_concat(b0, at as int, seq![0u8], u16_bytes(p.spec_tag(), ctx));
                }
            },
        }
        Ok(())
    }

    pub fn try_into_ctx(self, this: &mut [u8], ctx: ByteOrder) -> (r: Result<usize, CodecError>)
        ensures
            encoded(r, true, self.wire(ctx), old(this)@, final(this)@),
    {
        let mut offset: usize = 0;
        let r = self.encode_at(this, &mut offset, ctx);
        proof {
            if self.wire(ctx).len() <= old(this)@.len() {
                lemma_splice_start(old(this)@, self.wire(ctx));
            }
        }
        match r {
            Ok(()) => Ok(offset),
            Err(e) => Err(e),
        }
    }
}

/// Decoding the bytes of a class of the ardrone3 feature gives it back, and
/// takes all of them.
pub proof fn lemma_ardrone3_round_trip(a: ArDrone3, order: ByteOrder)
    ensures
        parse_ardrone3(a.wire(order), order) == Parse::Value(a, a.wire(order).len()),
{
    let ArDrone3::Piloting(p) = a;
    lemma_u16_round_trip(p.spec_tag(), order);
    assert(a.wire(order).skip(1) =~= u16_bytes(p.spec_tag(), order));
}

} // verus!
