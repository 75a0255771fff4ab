//! Codec for the tagged command namespace of a robot-control wire protocol.
//!
//! A command is a feature tag, optionally followed by a class tag, a command
//! tag and a fixed-layout payload. Every decoder is proved against a spec
//! parser over the input bytes, and every encoder against the byte image of
//! the value it writes.
use vstd::prelude::*;

pub mod ardrone3;
pub mod command;
pub mod common;
pub mod cursor;
pub mod jumping_sumo;

verus! {

/// Byte order of the multi-byte integers on the wire.
#[derive(Debug, Clone, Copy, PartialEq, Eq, Structural)]
pub enum ByteOrder {
    Little,
    Big,
}

impl ByteOrder {
    pub fn is_little(self) -> (r: bool)
        ensures
            r == (self is Little),
    {
        match self {
            ByteOrder::Little => true,
            ByteOrder::Big => false,
        }
    }
}

/// Failures of decoding and encoding.
#[derive(Debug, Clone, PartialEq, Eq)]
pub enum CodecError {
    /// Not enough bytes are left to read a value.
    BufferUnderrun,
    /// The destination buffer is too small for the value written.
    BufferOverrun,
    /// A tag or a field has no mapping at a level without fallback.
    OutOfBound { value: u64, param: String },
    /// The value is well formed but has no encoder.
    Unsupported,
}

/// Outcome of a spec parser: a value and the number of bytes it took, or the
/// failure that decoding reports.
pub enum Parse<T> {
    Value(T, nat),
    Underrun,
    OutOfBound(u64, Seq<char>),
}

/// The parse `p` taken `k` bytes further into the input, its value passed through `f`.
pub open spec fn after<A, B>(p: Parse<A>, k: nat, f: spec_fn(A) -> B) -> Parse<B> {
    match p {
        Parse::Value(v, n) => Parse::Value(f(v), n + k),
        Parse::Underrun => Parse::Underrun,
        Parse::OutOfBound(value, param) => Parse::OutOfBound(value, param),
    }
}

/// The decoder's failure `r` is the one that the spec parser reports.
pub open spec fn same_failure<T, U>(r: Result<T, CodecError>, p: Parse<U>) -> bool {
    match p {
        Parse::Value(_, _) => false,
        Parse::Underrun => r matches Err(CodecError::BufferUnderrun),
        Parse::OutOfBound(value, param) => r matches Err(CodecError::OutOfBound { value: v, param: s })
            && v == value && s@ == param,
    }
}

/// The decoder's result `r` is what the spec parser `p` gives.
pub open spec fn decoded<T>(r: Result<(T, usize), CodecError>, p: Parse<T>) -> bool {
    match p {
        Parse::Value(v, n) => r matches Ok((w, m)) && w == v && m == n,
        _ => same_failure(r, p),
    }
}

/// `buf` with `bytes` written over it from position `at` on.
pub open spec fn splice(buf: Seq<u8>, at: int, bytes: Seq<u8>) -> Seq<u8> {
    buf.take(at) + bytes + buf.skip(at + bytes.len())
}

/// An encoder that writes at a cursor met its contract: `Unsupported` for a
/// value without an encoder, `BufferOverrun` when `wire` does not fit after
/// the cursor, else `wire` written there and the cursor moved past it.
pub open spec fn encoded_at(
    r: Result<(), CodecError>,
    encodable: bool,
    wire: Seq<u8>,
    before: Seq<u8>,
    after: Seq<u8>,
    at: usize,
    moved: usize,
) -> bool {
    &&& after.len() == before.len()
    &&& !encodable ==> (r matches Err(CodecError::Unsupported))
    &&& encodable && at + wire.len() > before.len() ==> (r matches Err(CodecError::BufferOverrun))
    &&& encodable && at + wire.len() <= before.len() ==> {
        &&& r is Ok
        &&& after == splice(before, at as int, wire)
        &&& moved == at + wire.len()
    }
}

/// An encoder that writes from the start of the buffer met its contract: as
/// `encoded_at`, with the number of bytes written as its result.
pub open spec fn encoded(
    r: Result<usize, CodecError>,
    encodable: bool,
    wire: Seq<u8>,
    before: Seq<u8>,
    after: Seq<u8>,
) -> bool {
    &&& after.len() == before.len()
    &&& !encodable ==> (r matches Err(CodecError::Unsupported))
    &&& encodable && wire.len() > before.len() ==> (r matches Err(CodecError::BufferOverrun))
    &&& encodable && wire.len() <= before.len() ==> {
        &&& r == Ok::<usize, CodecError>(wire.len() as usize)
        &&& after == wire + before.skip(wire.len() as int)
    }
}

/// Writing `x` and then `y` right after it is writing `x + y`.
pub proof fn lemma_splice_concat(buf: Seq<u8>, at: int, x: Seq<u8>, y: Seq<u8>)
    requires
        0 <= at,
        at + x.len() + y.len() <= buf.len(),
    ensures
        splice(splice(buf, at, x), at + x.len(), y) == splice(buf, at, x + y),
{
    assert(splice(splice(buf, at, x), at + x.len(), y) =~= splice(buf, at, x + y));
}

/// Writing from the start of a buffer leaves the bytes after the written ones.
pub proof fn lemma_splice_start(buf: Seq<u8>, x: Seq<u8>)
    requires
        x.len() <= buf.len(),
    ensures
        splice(buf, 0, x) == x + buf.skip(x.len() as int),
{
    assert(splice(buf, 0, x) =~= x + buf.skip(x.len() as int));
}

} // verus!
