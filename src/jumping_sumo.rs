//! The jumping-sumo feature: its classes, the piloting commands and their
//! payloads.
use crate::cursor::{
    byte_of, i8_of, lemma_i8_round_trip, lemma_u16_round_trip, read_i8, read_u16, read_u8, skip_bytes, u16_bytes,
    u16_value, write_bytes, write_i8, write_u16, write_u8,
};
use crate::{
    after, decoded, encoded, encoded_at, lemma_splice_concat, lemma_splice_start, ByteOrder,
    CodecError, Parse,
};
use vstd::prelude::*;
use vstd::slice::slice_subrange;

verus! {

/// Kind of jump of the vehicle.
#[derive(Debug, Clone, Copy, PartialEq, Eq, Structural)]
pub enum JumpType {
    LONG,
    HIGH,
    DEFAULT,
}

/// Second-level tag of the jumping-sumo feature, one byte on the wire.
#[derive(Debug, Clone, Copy, PartialEq, Eq, Structural)]
pub enum Class {
    Piloting(PilotingID),
    PilotingState,
    Animations(Anim),
    AnimationsState,
    SettingsState,
    MediaRecord,
    MediaRecordState,
    NetworkSettings,
    NetworkSettingsState,
    Network,
    NetworkState,
    AutioSettings,
    AudioSettingsState,
    Roadplan,
    RoadplanState,
    SpeedSettings,
    SpeedSettingsState,
    MediaStreaming,
    MediaStreamingState,
    MediaRecordEvent,
    VideoSettings,
    VideoSettingsState,
}

/// Animation selector, one byte on the wire followed by a block of five
/// bytes whose layout is not modelled.
#[derive(Debug, Clone, Copy, PartialEq, Eq, Structural)]
pub enum Anim {
    JumpStop,
    JumpCancel,
    JumpLoad,
    Jump,
    SimpleAnimation,
}

/// Command of the piloting class, two bytes on the wire.
#[derive(Debug, Clone, Copy, PartialEq, Eq, Structural)]
pub enum PilotingID {
    Pilot(PilotState),
    Posture,
    AddCapOffset,
}

/// Payload of the pilot command: a flag byte that is 0 or 1, then speed and
/// turn as signed bytes.
#[derive(Debug, Clone, Copy, PartialEq, Eq, Structural)]
pub struct PilotState {
    pub flag: bool,
    pub speed: i8,
    pub turn: i8,
}

impl Default for PilotState {
    fn default() -> (r: PilotState)
        ensures
            r == (PilotState { flag: false, speed: 0, turn: 0 }),
    {
        PilotState { flag: false, speed: 0, turn: 0 }
    }
}

/// Length of the block that follows an animation tag.
pub const ANIM_BLOCK_LEN: usize = 5;

// ----- payload of the pilot command -----

/// What decoding a pilot state gives on the bytes `s`.
pub open spec fn parse_pilot_state(s: Seq<u8>) -> Parse<PilotState> {
    if s.len() < 1 {
        Parse::Underrun
    } else if s[0] > 1 {
        Parse::OutOfBound(s[0] as u64, "flag"@)
    } else if s.len() < 3 {
        Parse::Underrun
    } else {
        Parse::Value(PilotState { flag: s[0] == 1, speed: i8_of(s[1]), turn: i8_of(s[2]) }, 3)
    }
}

impl PilotState {
    /// The three bytes of the payload.
    pub open spec fn wire(self) -> Seq<u8> {
        seq![if self.flag { 1u8 } else { 0u8 }, byte_of(self.speed), byte_of(self.turn)]
    }

    pub fn try_from_ctx(src: &[u8], _ctx: ByteOrder) -> (r: Result<(PilotState, usize), CodecError>)
        ensures
            r is Ok ==> r->Ok_0.1 <= src@.len(),
            decoded(r, parse_pilot_state(src@)),
    {
        let mut offset: usize = 0;
        let flag = match read_u8(src, &mut offset) {
            Ok(0) => false,
            Ok(1) => true,
            Ok(value) => {
                return Err(CodecError::OutOfBound { value: value as u64, param: "flag".to_owned() });
            },
            Err(e) => return Err(e),
        };
        let speed = match read_i8(src, &mut offset) {
            Ok(v) => v,
            Err(e) => return Err(e),
        };
        let turn = match read_i8(src, &mut offset) {
            Ok(v) => v,
            Err(e) => return Err(e),
        };
        Ok((PilotState { flag, speed, turn }, offset))
    }

    /// Writes the payload at the cursor.
    pub fn encode_at(&self, dst: &mut [u8], off: &mut usize, _ctx: ByteOrder) -> (r: Result<(), CodecError>)
        ensures
            encoded_at(r, true, self.wire(), old(dst)@, final(dst)@, *old(off), *final(off)),
    {
        let ghost b0 = dst@;
        let ghost at = *off;
        let flag: u8 = if self.flag { 1 } else { 0 };
        if let Err(e) = write_u8(dst, flag, off) {
            return Err(e);
        }
        if let Err(e) = write_i8(dst, self.speed, off) {
            return Err(e);
        }
        proof {
            lemma_splice_concat(b0, at as int, seq![flag], seq![byte_of(self.speed)]);
        }
        if let Err(e) = write_i8(dst, self.turn, off) {
            return Err(e);
        }
        proof {
            lemma_splice_concat(b0, at as int, seq![flag, byte_of(self.speed)], seq![byte_of(self.turn)]);
            assert(seq![flag, byte_of(self.speed)] + seq![byte_of(self.turn)] =~= self.wire());
            assert(seq![flag] + seq![byte_of(self.speed)] =~= seq![flag, byte_of(self.speed)]);
        }
        Ok(())
    }

    pub fn try_into_ctx(self, this: &mut [u8], ctx: ByteOrder) -> (r: Result<usize, CodecError>)
        ensures
            encoded(r, true, self.wire(), old(this)@, final(this)@),
    {
        let mut offset: usize = 0;
        let r = self.encode_at(this, &mut offset, ctx);
        proof {
            if self.wire().len() <= old(this)@.len() {
                lemma_splice_start(old(this)@, self.wire());
            }
        }
        match r {
            Ok(()) => Ok(offset),
            Err(e) => Err(e),
        }
    }
}

// ----- animation selector -----

/// The animation that a tag selects.
pub open spec fn anim_of_tag(t: u8) -> Option<Anim> {
    match t {
        0 => Some(Anim::JumpStop),
        1 => Some(Anim::JumpCancel),
        2 => Some(Anim::JumpLoad),
        3 => Some(Anim::Jump),
        4 => Some(Anim::SimpleAnimation),
        _ => None,
    }
}

/// What decoding an animation gives on the bytes `s`.
pub open spec fn parse_anim(s: Seq<u8>) -> Parse<Anim> {
    if s.len() < 1 {
        Parse::Underrun
    } else if anim_of_tag(s[0]) is None {
        Parse::OutOfBound(s[0] as u64, "Anim"@)
    } else if s.len() < 1 + ANIM_BLOCK_LEN {
        Parse::Underrun
    } else {
        Parse::Value(anim_of_tag(s[0])->0, (1 + ANIM_BLOCK_LEN) as nat)
    }
}

impl Anim {
    pub open spec fn spec_tag(self) -> u8 {
        match self {
            Anim::JumpStop => 0,
            Anim::JumpCancel => 1,
            Anim::JumpLoad => 2,
            Anim::Jump => 3,
            Anim::SimpleAnimation => 4,
        }
    }

    /// The tag, then a block of zero bytes.
    pub open spec fn wire(self) -> Seq<u8> {
        seq![self.spec_tag()] + Seq::new(ANIM_BLOCK_LEN as nat, |i: int| 0u8)
    }

    pub fn tag(self) -> (r: u8)
        ensures
            r == self.spec_tag(),
    {
        match self {
            Anim::JumpStop => 0,
            Anim::JumpCancel => 1,
            Anim::JumpLoad => 2,
            Anim::Jump => 3,
            Anim::SimpleAnimation => 4,
        }
    }

    /// Decodes the tag and reads past the block that follows it; the block is
    /// not kept.
    pub fn try_from_ctx(src: &[u8], _ctx: ByteOrder) -> (r: Result<(Anim, usize), CodecError>)
        ensures
            r is Ok ==> r->Ok_0.1 <= src@.len(),
            decoded(r, parse_anim(src@)),
    {
        let mut offset: usize = 0;
        let anim = match read_u8(src, &mut offset) {
            Ok(0) => Anim::JumpStop,
            Ok(1) => Anim::JumpCancel,
            Ok(2) => Anim::JumpLoad,
            Ok(3) => Anim::Jump,
            Ok(4) => Anim::SimpleAnimation,
            Ok(value) => {
                return Err(CodecError::OutOfBound { value: value as u64, param: "Anim".to_owned() });
            },
            Err(e) => return Err(e),
        };
        if let Err(e) = skip_bytes(src, &mut offset, ANIM_BLOCK_LEN) {
            return Err(e);
        }
        Ok((anim, offset))
    }

    /// Writes the tag and a block of zero bytes at the cursor.
    pub fn encode_at(&self, dst: &mut [u8], off: &mut usize, _ctx: ByteOrder) -> (r: Result<(), CodecError>)
        ensures
            encoded_at(r, true, self.wire(), old(dst)@, final(dst)@, *old(off), *final(off)),
    {
        let ghost b0 = dst@;
        let ghost at = *off;
        let mut block: Vec<u8> = Vec::new();
        let mut i: usize = 0;
        while i < ANIM_BLOCK_LEN
            invariant
                i <= ANIM_BLOCK_LEN,
                block@ == Seq::new(i as nat, |j: int| 0u8),
            decreases ANIM_BLOCK_LEN - i,
        {
            block.push(0);
            i = i + 1;
            assert(block@ =~= Seq::new(i as nat, |j: int| 0u8));
        }
        if let Err(e) = write_u8(dst, self.tag(), off) {
            return Err(e);
        }
        if let Err(e) = write_bytes(dst, block.as_slice(), off) {
            return Err(e);
        }
        proof {
            lemma_splice_concat(b0, at as int, seq![self.spec_tag()], block@);
        }
        Ok(())
    }

    pub fn try_into_ctx(self, this: &mut [u8], ctx: ByteOrder) -> (r: Result<usize, CodecError>)
        ensures
            encoded(r, true, self.wire(), old(this)@, final(this)@),
    {
        let mut offset: usize = 0;
        let r = self.encode_at(this, &mut offset, ctx);
        proof {
            if self.wire().len() <= old(this)@.len() {
                lemma_splice_start(old(this)@, self.wire());
            }
        }
        match r {
            Ok(()) => Ok(offset),
            Err(e) => Err(e),
        }
    }
}

impl From<Anim> for u8 {
    fn from(a: Anim) -> (r: u8) {
        a.tag()
    }
}

impl vstd::std_specs::convert::FromSpecImpl<Anim> for u8 {
    open spec fn obeys_from_spec() -> bool {
        true
    }

    open spec fn from_spec(a: Anim) -> u8 {
        a.spec_tag()
    }
}

// ----- commands of the piloting class -----

/// What decoding a piloting command gives on the bytes `s`.
pub open spec fn parse_piloting_id(s: Seq<u8>, order: ByteOrder) -> Parse<PilotingID> {
    if s.len() < 2 {
        Parse::Underrun
    } else {
        let t = u16_value(s[0], s[1], order);
        if t == 0 {
            after(parse_pilot_state(s.skip(2)), 2, |p: PilotState| PilotingID::Pilot(p))
        } else if t == 1 {
            Parse::Value(PilotingID::Posture, 2)
        } else if t == 2 {
            Parse::Value(PilotingID::AddCapOffset, 2)
        } else {
            Parse::OutOfBound(t as u64, "PilotingId"@)
        }
    }
}

impl PilotingID {
    pub open spec fn spec_tag(self) -> u16 {
        match self {
            PilotingID::Pilot(_) => 0,
            PilotingID::Posture => 1,
            PilotingID::AddCapOffset => 2,
        }
    }

    /// Only the pilot command has an encoder.
    pub open spec fn encodable(self) -> bool {
        self is Pilot
    }

    /// The tag in the given byte order, then the payload.
    pub open spec fn wire(self, order: ByteOrder) -> Seq<u8> {
        match self {
            PilotingID::Pilot(p) => u16_bytes(0, order) + p.wire(),
            _ => u16_bytes(self.spec_tag(), order),
        }
    }

    pub fn tag(&self) -> (r: u16)
        ensures
            r == self.spec_tag(),
    {
        match self {
            PilotingID::Pilot(_) => 0,
            PilotingID::Posture => 1,
            PilotingID::AddCapOffset => 2,
        }
    }

    pub fn can_encode(&self) -> (r: bool)
        ensures
            r == self.encodable(),
    {
        match self {
            PilotingID::Pilot(_) => true,
            _ => false,
        }
    }

    pub fn try_from_ctx(src: &[u8], ctx: ByteOrder) -> (r: Result<(PilotingID, usize), CodecError>)
        ensures
            r is Ok ==> r->Ok_0.1 <= src@.len(),
            decoded(r, parse_piloting_id(src@, ctx)),
    {
        let mut offset: usize = 0;
        let piloting_id = match read_u16(src, &mut offset, ctx) {
            Ok(0) => {
                let rest = slice_subrange(src, offset, src.len());
                assert(rest@ =~= src@.skip(2));
                match PilotState::try_from_ctx(rest, ctx) {
                    Ok((state, n)) => {
                        offset = offset + n;
                        PilotingID::Pilot(state)
                    },
                    Err(e) => return Err(e),
                }
            },
            Ok(1) => PilotingID::Posture,
            Ok(2) => PilotingID::AddCapOffset,
            Ok(value) => {
                return Err(CodecError::OutOfBound { value: value as u64, param: "PilotingId".to_owned() });
            },
            Err(e) => return Err(e),
        };
        Ok((piloting_id, offset))
    }

    /// Writes the command at the cursor; `Unsupported` for a command without
    /// an encoder.
    pub fn encode_at(&self, dst: &mut [u8], off: &mut usize, ctx: ByteOrder) -> (r: Result<(), CodecError>)
        ensures
            encoded_at(r, self.encodable(), self.wire(ctx), old(dst)@, final(dst)@, *old(off), *final(off)),
    {
        if !self.can_encode() {
            return Err(CodecError::Unsupported);
        }
        let ghost b0 = dst@;
        let ghost at = *off;
        if let Err(e) = write_u16(dst, self.tag(), off, ctx) {
            return Err(e);
        }
        match self {
            PilotingID::Pilot(state) => {
                if let Err(e) = state.encode_at(dst, off, ctx) {
                    return Err(e);
                }
                proof {
                    lemma_splice_concat(b0, at as int, u16_bytes(0, ctx), state.wire());
                }
            },
            _ => {},
        }
        Ok(())
    }

    pub fn try_into_ctx(self, this: &mut [u8], ctx: ByteOrder) -> (r: Result<usize, CodecError>)
        ensures
            encoded(r, self.encodable(), self.wire(ctx), old(this)@, final(this)@),
    {
        let mut offset: usize = 0;
        let r = self.encode_at(this, &mut offset, ctx);
        proof {
            if self.wire(ctx).len() <= old(this)@.len() {
                lemma_splice_start(old(this)@, self.wire(ctx));
            }
        }
        match r {
            Ok(()) => Ok(offset),
            Err(e) => Err(e),
        }
    }
}

impl<'a> From<&'a PilotingID> for u16 {
    fn from(p: &'a PilotingID) -> (r: u16) {
        p.tag()
    }
}

impl<'a> vstd::std_specs::convert::FromSpecImpl<&'a PilotingID> for u16 {
    open spec fn obeys_from_spec() -> bool {
        true
    }

    open spec fn from_spec(p: &'a PilotingID) -> u16 {
        p.spec_tag()
    }
}

// ----- classes -----

/// The class without a nested payload that a tag selects.
pub open spec fn bare_class_of_tag(t: u8) -> Option<Class> {
    match t {
        1 => Some(Class::PilotingState),
        3 => Some(Class::AnimationsState),
        5 => Some(Class::SettingsState),
        6 => Some(Class::MediaRecord),
        7 => Some(Class::MediaRecordState),
        8 => Some(Class::NetworkSettings),
        9 => Some(Class::NetworkSettingsState),
        10 => Some(Class::Network),
        11 => Some(Class::NetworkState),
        12 => Some(Class::AutioSettings),
        13 => Some(Class::AudioSettingsState),
        14 => Some(Class::Roadplan),
        15 => Some(Class::RoadplanState),
        16 => Some(Class::SpeedSettings),
        17 => Some(Class::SpeedSettingsState),
        18 => Some(Class::MediaStreaming),
        19 => Some(Class::MediaStreamingState),
        20 => Some(Class::MediaRecordEvent),
        21 => Some(Class::VideoSettings),
        22 => Some(Class::VideoSettingsState),
        _ => None,
    }
}

/// What decoding a class gives on the bytes `s`. A tag out of the table,
/// the gap at 4 included, fails.
pub open spec fn parse_class(s: Seq<u8>, order: ByteOrder) -> Parse<Class> {
    if s.len() < 1 {
        Parse::Underrun
    } else if s[0] == 0 {
        after(parse_piloting_id(s.skip(1), order), 1, |p: PilotingID| Class::Piloting(p))
    } else if s[0] == 2 {
        after(parse_anim(s.skip(1)), 1, |a: Anim| Class::Animations(a))
    } else {
        match bare_class_of_tag(s[0]) {
            Some(c) => Parse::Value(c, 1),
            None => Parse::OutOfBound(s[0] as u64, "Class"@),
        }
    }
}

impl Class {
    pub open spec fn spec_tag(self) -> u8 {
        match self {
            Class::Piloting(_) => 0,
            Class::PilotingState => 1,
            Class::Animations(_) => 2,
            Class::AnimationsState => 3,
            Class::SettingsState => 5,
            Class::MediaRecord => 6,
            Class::MediaRecordState => 7,
            Class::NetworkSettings => 8,
            Class::NetworkSettingsState => 9,
            Class::Network => 10,
            Class::NetworkState => 11,
            Class::AutioSettings => 12,
            Class::AudioSettingsState => 13,
            Class::Roadplan => 14,
            Class::RoadplanState => 15,
            Class::SpeedSettings => 16,
            Class::SpeedSettingsState => 17,
            Class::MediaStreaming => 18,
            Class::MediaStreamingState => 19,
            Class::MediaRecordEvent => 20,
            Class::VideoSettings => 21,
            Class::VideoSettingsState => 22,
        }
    }

    /// Only the piloting class, with a command that has an encoder, and the
    /// animations class have an encoder.
    pub open spec fn encodable(self) -> bool {
        match self {
            Class::Piloting(p) => p.encodable(),
            Class::Animations(_) => true,
            _ => false,
        }
    }

    /// The tag, then the nested payload.
    pub open spec fn wire(self, order: ByteOrder) -> Seq<u8> {
        match self {
            Class::Piloting(p) => seq![0u8] + p.wire(order),
            Class::Animations(a) => seq![2u8] + a.wire(),
            _ => seq![self.spec_tag()],
        }
    }

    pub fn tag(&self) -> (r: u8)
        ensures
            r == self.spec_tag(),
    {
        match self {
            Class::Piloting(_) => 0,
            Class::PilotingState => 1,
            Class::Animations(_) => 2,
            Class::AnimationsState => 3,
            Class::SettingsState => 5,
            Class::MediaRecord => 6,
            Class::MediaRecordState => 7,
            Class::NetworkSettings => 8,
            Class::NetworkSettingsState => 9,
            Class::Network => 10,
            Class::NetworkState => 11,
            Class::AutioSettings => 12,
            Class::AudioSettingsState => 13,
            Class::Roadplan => 14,
            Class::RoadplanState => 15,
            Class::SpeedSettings => 16,
            Class::SpeedSettingsState => 17,
            Class::MediaStreaming => 18,
            Class::MediaStreamingState => 19,
            Class::MediaRecordEvent => 20,
            Class::VideoSettings => 21,
            Class::VideoSettingsState => 22,
        }
    }

    pub fn can_encode(&self) -> (r: bool)
        ensures
            r == self.encodable(),
    {
        match self {
            Class::Piloting(p) => p.can_encode(),
            Class::Animations(_) => true,
            _ => false,
        }
    }

    pub fn try_from_ctx(src: &[u8], ctx: ByteOrder) -> (r: Result<(Class, usize), CodecError>)
        ensures
            r is Ok ==> r->Ok_0.1 <= src@.len(),
            decoded(r, parse_class(src@, ctx)),
    {
        let mut offset: usize = 0;
        let class = match read_u8(src, &mut offset) {
            Ok(0) => {
                let rest = slice_subrange(src, offset, src.len());
                assert(rest@ =~= src@.skip(1));
                match PilotingID::try_from_ctx(rest, ctx) {
                    Ok((piloting_id, n)) => {
                        offset = offset + n;
                        Class::Piloting(piloting_id)
                    },
                    Err(e) => return Err(e),
                }
            },
            Ok(1) => Class::PilotingState,
            Ok(2) => {
                let rest = slice_subrange(src, offset, src.len());
                assert(rest@ =~= src@.skip(1));
                match Anim::try_from_ctx(rest, ctx) {
                    Ok((anim, n)) => {
                        offset = offset + n;
                        Class::Animations(anim)
                    },
                    Err(e) => return Err(e),
                }
            },
            Ok(3) => Class::AnimationsState,
            Ok(5) => Class::SettingsState,
            Ok(6) => Class::MediaRecord,
            Ok(7) => Class::MediaRecordState,
            Ok(8) => Class::NetworkSettings,
            Ok(9) => Class::NetworkSettingsState,
            Ok(10) => Class::Network,
            Ok(11) => Class::NetworkState,
            Ok(12) => Class::AutioSettings,
            Ok(13) => Class::AudioSettingsState,
            Ok(14) => Class::Roadplan,
            Ok(15) => Class::RoadplanState,
            Ok(16) => Class::SpeedSettings,
            Ok(17) => Class::SpeedSettingsState,
            Ok(18) => Class::MediaStreaming,
            Ok(19) => Class::MediaStreamingState,
            Ok(20) => Class::MediaRecordEvent,
            Ok(21) => Class::VideoSettings,
            Ok(22) => Class::VideoSettingsState,
            Ok(value) => {
                return Err(CodecError::OutOfBound { value: value as u64, param: "Class".to_owned() });
            },
            Err(e) => return Err(e),
        };
        Ok((class, offset))
    }

    /// Writes the class at the cursor; `Unsupported` for a class without an
    /// encoder.
    pub fn encode_at(&self, dst: &mut [u8], off: &mut usize, ctx: ByteOrder) -> (r: Result<(), CodecError>)
        ensures
            encoded_at(r, self.encodable(), self.wire(ctx), old(dst)@, final(dst)@, *old(off), *final(off)),
    {
        if !self.can_encode() {
            return Err(CodecError::Unsupported);
        }
        let ghost b0 = dst@;
        let ghost at = *off;
        if let Err(e) = write_u8(dst, self.tag(), off) {
            return Err(e);
        }
        match self {
            Class::Piloting(piloting_id) => {
                if let Err(e) = piloting_id.encode_at(dst, off, ctx) {
                    return Err(e);
                }
                proof {
                    lemma_splice_concat(b0, at as int, seq![0u8], piloting_id.wire(ctx));
                }
            },
            Class::Animations(anim) => {
                if let Err(e) = anim.encode_at(dst, off, ctx) {
                    return Err(e);
                }
                proof {
                    lemma_splice_concat(b0, at as int, seq![2u8], anim.wire());
                }
            },
            _ => {},
        }
        Ok(())
    }

    pub fn try_into_ctx(self, this: &mut [u8], ctx: ByteOrder) -> (r: Result<usize, CodecError>)
        ensures
            encoded(r, self.encodable(), self.wire(ctx), old(this)@, final(this)@),
    {
        let mut offset: usize = 0;
        let r = self.encode_at(this, &mut offset, ctx);
        proof {
            if self.wire(ctx).len() <= old(this)@.len() {
                lemma_splice_start(old(this)@, self.wire(ctx));
            }
        }
        match r {
            Ok(()) => Ok(offset),
            Err(e) => Err(e),
        }
    }
}

impl<'a> From<&'a Class> for u8 {
    fn from(c: &'a Class) -> (r: u8) {
        c.tag()
    }
}

impl<'a> vstd::std_specs::convert::FromSpecImpl<&'a Class> for u8 {
    open spec fn obeys_from_spec() -> bool {
        true
    }

    open spec fn from_spec(c: &'a Class) -> u8 {
        c.spec_tag()
    }
}

// ----- round trips -----

/// Decoding the bytes of a pilot state gives it back, and takes all three.
pub proof fn lemma_pilot_state_round_trip(p: PilotState)
    ensures
        parse_pilot_state(p.wire()) == Parse::Value(p, 3),
{
    lemma_i8_round_trip(p.speed);
    lemma_i8_round_trip(p.turn);
}

/// Decoding the bytes of an animation gives it back, and takes the tag and
/// the block after it.
pub proof fn lemma_anim_round_trip(a: Anim)
    ensures
        parse_anim(a.wire()) == Parse::Value(a, a.wire().len()),
{
}

/// Decoding the bytes of a piloting command that has an encoder gives it
/// back, and takes all of them.
pub proof fn lemma_piloting_id_round_trip(p: PilotingID, order: ByteOrder)
    requires
        p.encodable(),
    ensures
        parse_piloting_id(p.wire(order), order) == Parse::Value(p, p.wire(order).len()),
{
    lemma_u16_round_trip(0, order);
    if let PilotingID::Pilot(state) = p {
        assert(p.wire(order).skip(2) =~= state.wire());
        lemma_pilot_state_round_trip(state);
    }
}

/// Decoding the bytes of a class that has an encoder gives it back, and
/// takes all of them.
pub proof fn lemma_class_round_trip(c: Class, order: ByteOrder)
    requires
        c.encodable(),
    ensures
        parse_class(c.wire(order), order) == Parse::Value(c, c.wire(order).len()),
{
    match c {
        Class::Piloting(p) => {
            assert(c.wire(order).skip(1) =~= p.wire(order));
            lemma_piloting_id_round_trip(p, order);
        },
        Class::Animations(a) => {
            assert(c.wire(order).skip(1) =~= a.wire());
            lemma_anim_round_trip(a);
        },
        _ => {},
    }
}

} // verus!
