//! The top level of a command: the feature tag and what follows it.
//!
//! A feature tag out of the table does not fail: the rest of the buffer is
//! kept as opaque data, so that a command of a feature added later still
//! decodes and can be written back byte for byte.
use crate::ardrone3::{self, ArDrone3};
use crate::common;
use crate::cursor::{read_rest, read_u8, write_bytes, write_u8};
use crate::jumping_sumo;
use crate::{
    after, encoded, encoded_at, lemma_splice_concat, lemma_splice_start, same_failure, ByteOrder,
    CodecError, Parse,
};
use vstd::prelude::*;
use vstd::slice::slice_subrange;

verus! {

/// First-level tag of a command, one byte on the wire.
#[derive(Debug, PartialEq, Eq, Clone)]
pub enum Feature {
    Common(Option<common::Class>),
    ArDrone3(Option<ArDrone3>),
    Minidrone,
    JumpingSumo(Option<jumping_sumo::Class>),
    SkyController,
    PowerUp,
    Generic,
    FollowMe,
    Wifi,
    RC,
    DroneManager,
    Mapper,
    Debug,
    ControllerInfo,
    MapperMini,
    ThermalCam,
    Animation,
    SequoiaCam,
    /// A feature tag out of the table, with the bytes that followed it.
    Unknown { feature: u8, data: Vec<u8> },
}

/// A feature as a mathematical value: the data of an unknown feature as a sequence.
pub enum FeatureView {
    Known(Feature),
    Unknown(u8, Seq<u8>),
}

impl View for Feature {
    type V = FeatureView;

    open spec fn view(&self) -> FeatureView {
        match self {
            Feature::Unknown { feature, data } => FeatureView::Unknown(*feature, data@),
            _ => FeatureView::Known(*self),
        }
    }
}

/// The feature without a nested payload that a tag selects.
pub open spec fn bare_feature_of_tag(t: u8) -> Option<Feature> {
    match t {
        2 => Some(Feature::Minidrone),
        4 => Some(Feature::SkyController),
        8 => Some(Feature::PowerUp),
        133 => Some(Feature::Generic),
        134 => Some(Feature::FollowMe),
        135 => Some(Feature::Wifi),
        136 => Some(Feature::RC),
        137 => Some(Feature::DroneManager),
        138 => Some(Feature::Mapper),
        139 => Some(Feature::Debug),
        140 => Some(Feature::ControllerInfo),
        141 => Some(Feature::MapperMini),
        142 => Some(Feature::ThermalCam),
        144 => Some(Feature::Animation),
        147 => Some(Feature::SequoiaCam),
        _ => None,
    }
}

/// The tag is in the table of features.
pub open spec fn is_known_tag(t: u8) -> bool {
    t == 0 || t == 1 || t == 3 || bare_feature_of_tag(t) is Some
}

/// Whether the tag is in the table of features.
pub fn known_tag(t: u8) -> (r: bool)
    ensures
        r == is_known_tag(t),
{
    match t {
        0 | 1 | 2 | 3 | 4 | 8 | 133 | 134 | 135 | 136 | 137 | 138 | 139 | 140 | 141 | 142 | 144
        | 147 => true,
        _ => false,
    }
}

/// What decoding a command gives on the bytes `s`. A feature with a nested
/// payload and no byte after its tag has no payload; a tag out of the table
/// takes every byte after it.
pub open spec fn parse_feature(s: Seq<u8>, order: ByteOrder) -> Parse<FeatureView> {
    if s.len() < 1 {
        Parse::Underrun
    } else {
        let t = s[0];
        let rest = s.skip(1);
        if t == 0 {
            if rest.len() == 0 {
                Parse::Value(FeatureView::Known(Feature::Common(None)), 1)
            } else {
                after(
                    common::parse_class(rest, order),
                    1,
                    |c: common::Class| FeatureView::Known(Feature::Common(Some(c))),
                )
            }
        } else if t == 1 {
            if rest.len() == 0 {
                Parse::Value(FeatureView::Known(Feature::ArDrone3(None)), 1)
            } else {
                after(
                    ardrone3::parse_ardrone3(rest, order),
                    1,
                    |a: ArDrone3| FeatureView::Known(Feature::ArDrone3(Some(a))),
                )
            }
        } else if t == 3 {
            if rest.len() == 0 {
                Parse::Value(FeatureView::Known(Feature::JumpingSumo(None)), 1)
            } else {
                after(
                    jumping_sumo::parse_class(rest, order),
                    1,
                    |c: jumping_sumo::Class| FeatureView::Known(Feature::JumpingSumo(Some(c))),
                )
            }
        } else {
            match bare_feature_of_tag(t) {
                Some(f) => Parse::Value(FeatureView::Known(f), 1),
                None => Parse::Value(FeatureView::Unknown(t, rest), s.len()),
            }
        }
    }
}

/// The decoder's result `r` is what the spec parser `p` gives, up to the view.
pub open spec fn decoded_view(r: Result<(Feature, usize), CodecError>, p: Parse<FeatureView>) -> bool {
    match p {
        Parse::Value(v, n) => r matches Ok((f, m)) && f@ == v && m == n,
        _ => same_failure(r, p),
    }
}

impl Feature {
    pub open spec fn spec_tag(&self) -> u8 {
        match self {
            Feature::Common(_) => 0,
            Feature::ArDrone3(_) => 1,
            Feature::Minidrone => 2,
            Feature::JumpingSumo(_) => 3,
            Feature::SkyController => 4,
            Feature::PowerUp => 8,
            Feature::Generic => 133,
            Feature::FollowMe => 134,
            Feature::Wifi => 135,
            Feature::RC => 136,
            Feature::DroneManager => 137,
            Feature::Mapper => 138,
            Feature::Debug => 139,
            Feature::ControllerInfo => 140,
            Feature::MapperMini => 141,
            Feature::ThermalCam => 142,
            Feature::Animation => 144,
            Feature::SequoiaCam => 147,
            Feature::Unknown { feature, .. } => *feature,
        }
    }

    /// Every feature has an encoder but the common feature with a class, the
    /// jumping-sumo feature with a class that has none, and an unknown feature
    /// whose tag is in the table (its bytes would decode as another feature).
    pub open spec fn encodable(&self) -> bool {
        match self {
            Feature::Common(Some(_)) => false,
            Feature::JumpingSumo(Some(c)) => c.encodable(),
            Feature::Unknown { feature, .. } => !is_known_tag(*feature),
            _ => true,
        }
    }

    /// The tag, then the nested payload or the data of an unknown feature.
    pub open spec fn wire(&self, order: ByteOrder) -> Seq<u8> {
        match self {
            Feature::ArDrone3(Some(a)) => seq![1u8] + a.wire(order),
            Feature::JumpingSumo(Some(c)) => seq![3u8] + c.wire(order),
            Feature::Unknown { feature, data } => seq![*feature] + data@,
            _ => seq![self.spec_tag()],
        }
    }

    pub fn tag(&self) -> (r: u8)
        ensures
            r == self.spec_tag(),
    {
        match self {
            Feature::Common(_) => 0,
            Feature::ArDrone3(_) => 1,
            Feature::Minidrone => 2,
            Feature::JumpingSumo(_) => 3,
            Feature::SkyController => 4,
            Feature::PowerUp => 8,
            Feature::Generic => 133,
            Feature::FollowMe => 134,
            Feature::Wifi => 135,
            Feature::RC => 136,
            Feature::DroneManager => 137,
            Feature::Mapper => 138,
            Feature::Debug => 139,
            Feature::ControllerInfo => 140,
            Feature::MapperMini => 141,
            Feature::ThermalCam => 142,
            Feature::Animation => 144,
            Feature::SequoiaCam => 147,
            Feature::Unknown { feature, .. } => *feature,
        }
    }

    pub fn can_encode(&self) -> (r: bool)
        ensures
            r == self.encodable(),
    {
        match self {
            Feature::Common(Some(_)) => false,
            Feature::JumpingSumo(Some(c)) => c.can_encode(),
            Feature::Unknown { feature, .. } => !known_tag(*feature),
            _ => true,
        }
    }

    /// Decodes a command from the start of `src`; the result holds the
    /// number of bytes consumed.
    pub fn try_from_ctx(src: &[u8], ctx: ByteOrder) -> (r: Result<(Feature, usize), CodecError>)
        ensures
            r is Ok ==> r->Ok_0.1 <= src@.len(),
            decoded_view(r, parse_feature(src@, ctx)),
    {
        let mut offset: usize = 0;
        let tag = match read_u8(src, &mut offset) {
            Ok(t) => t,
            Err(e) => return Err(e),
        };
        let rest = slice_subrange(src, offset, src.len());
        assert(rest@ =~= src@.skip(1));
        let feature = match tag {
            0 => {
                if rest.len() == 0 {
                    Feature::Common(None)
                } else {
                    match common::Class::try_from_ctx(rest, ctx) {
                        Ok((class, n)) => {
                            offset = offset + n;
                            Feature::Common(Some(class))
                        },
                        Err(e) => return Err(e),
                    }
                }
            },
            1 => {
                if rest.len() == 0 {
                    Feature::ArDrone3(None)
                } else {
                    match ArDrone3::try_from_ctx(rest, ctx) {
                        Ok((class, n)) => {
                            offset = offset + n;
                            Feature::ArDrone3(Some(class))
                        },
                        Err(e) => return Err(e),
                    }
                }
            },
            2 => Feature::Minidrone,
            3 => {
                if rest.len() == 0 {
                    Feature::JumpingSumo(None)
                } else {
                    match jumping_sumo::Class::try_from_ctx(rest, ctx) {
                        Ok((class, n)) => {
                            offset = offset + n;
                            Feature::JumpingSumo(Some(class))
                        },
                        Err(e) => return Err(e),
                    }
                }
            },
            4 => Feature::SkyController,
            8 => Feature::PowerUp,
            133 => Feature::Generic,
            134 => Feature::FollowMe,
            135 => Feature::Wifi,
            136 => Feature::RC,
            137 => Feature::DroneManager,
            138 => Feature::Mapper,
            139 => Feature::Debug,
            140 => Feature::ControllerInfo,
            141 => Feature::MapperMini,
            142 => Feature::ThermalCam,
            144 => Feature::Animation,
            147 => Feature::SequoiaCam,
            unknown_feature => Feature::Unknown {
                feature: unknown_feature,
                data: read_rest(src, &mut offset),
            },
        };
        Ok((feature, offset))
    }

    /// Writes the command at the cursor; `Unsupported` for a command without
    /// an encoder, whatever room is left.
    pub fn encode_at(&self, dst: &mut [u8], off: &mut usize, ctx: ByteOrder) -> (r: Result<(), CodecError>)
        ensures
            encoded_at(r, self.encodable(), self.wire(ctx), old(dst)@, final(dst)@, *old(off), *final(off)),
    {
        if !self.can_encode() {
            return Err(CodecError::Unsupported);
        }
        let ghost b0 = dst@;
        let ghost at = *off;
        let tag = self.tag();
        if let Err(e) = write_u8(dst, tag, off) {
            return Err(e);
        }
        match self {
            Feature::ArDrone3(Some(class)) => {
                if let Err(e) = class.encode_at(dst, off, ctx) {
                    return Err(e);
                }
                proof {
                    lemma_splice_concat(b0, at as int, seq![tag], class.wire(ctx));
                }
            },
            Feature::JumpingSumo(Some(class)) => {
                if let Err(e) = class.encode_at(dst, off, ctx) {
                    return Err(e);
                }
                proof {
                    lemma_splice_concat(b0, at as int, seq![tag], class.wire(ctx));
                }
            },
            Feature::Unknown { data, .. } => {
                if let Err(e) = write_bytes(dst, data.as_slice(), off) {
                    return Err(e);
                }
                proof {
                    lemma_splice_concat(b0, at as int, seq![tag], data@);
                }
            },
            _ => {},
        }
        Ok(())
    }

    /// Encodes the command at the start of `this`; the result is the number
    /// of bytes written.
    pub fn try_into_ctx(self, this: &mut [u8], ctx: ByteOrder) -> (r: Result<usize, CodecError>)
        ensures
            encoded(r, self.encodable(), self.wire(ctx), old(this)@, final(this)@),
    {
        let mut offset: usize = 0;
        let r = self.encode_at(this, &mut offset, ctx);
        proof {
            if self.wire(ctx).len() <= old(this)@.len() {
                lemma_splice_start(old(this)@, self.wire(ctx));
            }
        }
        match r {
            Ok(()) => Ok(offset),
            Err(e) => Err(e),
        }
    }
}

impl<'a> From<&'a Feature> for u8 {
    fn from(f: &'a Feature) -> (r: u8) {
        f.tag()
    }
}

impl<'a> vstd::std_specs::convert::FromSpecImpl<&'a Feature> for u8 {
    open spec fn obeys_from_spec() -> bool {
        true
    }

    open spec fn from_spec(f: &'a Feature) -> u8 {
        f.spec_tag()
    }
}

/// Encoding a command that has an encoder and decoding the bytes written
/// gives the command back and consumes every byte.
pub proof fn lemma_round_trip(f: Feature, order: ByteOrder)
    requires
        f.encodable(),
    ensures
        parse_feature(f.wire(order), order) == Parse::Value(f@, f.wire(order).len()),
{
    let w = f.wire(order);
    match f {
        Feature::ArDrone3(Some(a)) => {
            assert(w.skip(1) =~= a.wire(order));
            ardrone3::lemma_ardrone3_round_trip(a, order);
        },
        Feature::JumpingSumo(Some(c)) => {
            assert(w.skip(1) =~= c.wire(order));
            jumping_sumo::lemma_class_round_trip(c, order);
        },
        Feature::Unknown { feature, data } => {
            assert(w.skip(1) =~= data@);
        },
        _ => {
            assert(w.skip(1) =~= Seq::<u8>::empty());
        },
    }
}

} // verus!
