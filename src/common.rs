//! The common feature. Of its classes only the class of general commands is
//! modelled, with its commands that carry no payload; any other class or
//! command tag fails to decode. This feature has no encoder.
use crate::cursor::{read_u16, read_u8, u16_value};
use crate::{after, decoded, ByteOrder, CodecError, Parse};
use vstd::prelude::*;
use vstd::slice::slice_subrange;

verus! {

/// Second-level tag of the common feature, one byte on the wire.
#[derive(Debug, Clone, Copy, PartialEq, Eq, Structural)]
pub enum Class {
    Common(Common),
}

/// Command of the class of general commands, two bytes on the wire.
#[derive(Debug, Clone, Copy, PartialEq, Eq, Structural)]
pub enum Common {
    AllStates,
    Reboot,
}

/// What decoding a general command gives on the bytes `s`.
pub open spec fn parse_common(s: Seq<u8>, order: ByteOrder) -> Parse<Common> {
    if s.len() < 2 {
        Parse::Underrun
    } else {
        let t = u16_value(s[0], s[1], order);
        if t == 0 {
            Parse::Value(Common::AllStates, 2)
        } else if t == 3 {
            Parse::Value(Common::Reboot, 2)
        } else {
            Parse::OutOfBound(t as u64, "Common"@)
        }
    }
}

/// What decoding a class of the common feature gives on the bytes `s`.
pub open spec fn parse_class(s: Seq<u8>, order: ByteOrder) -> Parse<Class> {
    if s.len() < 1 {
        Parse::Underrun
    } else if s[0] == 4 {
        after(parse_common(s.skip(1), order), 1, |c: Common| Class::Common(c))
    } else {
        Parse::OutOfBound(s[0] as u64, "Class"@)
    }
}

impl Common {
    pub fn try_from_ctx(src: &[u8], ctx: ByteOrder) -> (r: Result<(Common, usize), CodecError>)
        ensures
            r is Ok ==> r->Ok_0.1 <= src@.len(),
            decoded(r, parse_common(src@, ctx)),
    {
        let mut offset: usize = 0;
        let common = match read_u16(src, &mut offset, ctx) {
            Ok(0) => Common::AllStates,
            Ok(3) => Common::Reboot,
            Ok(value) => {
                return Err(CodecError::OutOfBound { value: value as u64, param: "Common".to_owned() });
            },
            Err(e) => return Err(e),
        };
        Ok((common, offset))
    }
}

impl Class {
    pub fn try_from_ctx(src: &[u8], ctx: ByteOrder) -> (r: Result<(Class, usize), CodecError>)
        ensures
            r is Ok ==> r->Ok_0.1 <= src@.len(),
            decoded(r, parse_class(src@, ctx)),
    {
        let mut offset: usize = 0;
        let class = match read_u8(src, &mut offset) {
            Ok(4) => {
                let rest = slice_subrange(src, offset, src.len());
                assert(rest@ =~= src@.skip(1));
                match Common::try_from_ctx(rest, ctx) {
                    Ok((common, n)) => {
                        offset = offset + n;
                        Class::Common(common)
                    },
                    Err(e) => return Err(e),
                }
            },
            Ok(value) => {
                return Err(CodecError::OutOfBound { value: value as u64, param: "Class".to_owned() });
            },
            Err(e) => return Err(e),
        };
        Ok((class, offset))
    }
}

} // verus!
