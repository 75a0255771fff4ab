use arsdk::ardrone3::{self, ArDrone3};
use arsdk::command::Feature;
use arsdk::common;
use arsdk::jumping_sumo::{self, Anim, Class, PilotState, PilotingID};
use arsdk::{ByteOrder, CodecError};

fn assert_feature(ref f: Feature, v: u8) {
    let as_u8: u8 = f.into();
    assert_eq!(v, as_u8);
}

#[test]
fn test_feature() {
    assert_feature(
        Feature::Common(Some(common::Class::Common(common::Common::AllStates))),
        0,
    );
    assert_feature(
        Feature::ArDrone3(Some(ArDrone3::Piloting(ardrone3::Piloting::TakeOff))),
        1,
    );
    assert_feature(Feature::Minidrone, 2);
    assert_feature(
        Feature::JumpingSumo(Some(jumping_sumo::Class::Piloting(
            jumping_sumo::PilotingID::Pilot(jumping_sumo::PilotState::default()),
        ))),
        3,
    );
    assert_feature(Feature::SkyController, 4);
    assert_feature(Feature::PowerUp, 8);
    assert_feature(Feature::Generic, 133);
    assert_feature(Feature::FollowMe, 134);
    assert_feature(Feature::Wifi, 135);
    assert_feature(Feature::RC, 136);
    assert_feature(Feature::DroneManager, 137);
    assert_feature(Feature::Mapper, 138);
    assert_feature(Feature::Debug, 139);
    assert_feature(Feature::ControllerInfo, 140);
    assert_feature(Feature::MapperMini, 141);
    assert_feature(Feature::ThermalCam, 142);
    assert_feature(Feature::Animation, 144);
    assert_feature(Feature::SequoiaCam, 147);
}

fn encode(f: Feature, order: ByteOrder) -> Vec<u8> {
    let mut buf = [0u8; 32];
    let n = f.try_into_ctx(&mut buf, order).expect("encodable");
    buf[..n].to_vec()
}

fn round_trip(f: Feature, order: ByteOrder) {
    let bytes = encode(f.clone(), order);
    let (back, n) = Feature::try_from_ctx(&bytes, order).expect("decodable");
    assert_eq!(back, f);
    assert_eq!(n, bytes.len());
}

#[test]
fn round_trip_every_feature_tag() {
    let pilot = PilotState { flag: true, speed: -128, turn: 127 };
    let features = vec![
        Feature::Common(None),
        Feature::ArDrone3(None),
        Feature::ArDrone3(Some(ArDrone3::Piloting(ardrone3::Piloting::TakeOff))),
        Feature::ArDrone3(Some(ArDrone3::Piloting(ardrone3::Piloting::Emergency))),
        Feature::Minidrone,
        Feature::JumpingSumo(None),
        Feature::JumpingSumo(Some(Class::Piloting(PilotingID::Pilot(pilot)))),
        Feature::JumpingSumo(Some(Class::Animations(Anim::SimpleAnimation))),
        Feature::SkyController,
        Feature::PowerUp,
        Feature::Generic,
        Feature::FollowMe,
        Feature::Wifi,
        Feature::RC,
        Feature::DroneManager,
        Feature::Mapper,
        Feature::Debug,
        Feature::ControllerInfo,
        Feature::MapperMini,
        Feature::ThermalCam,
        Feature::Animation,
        Feature::SequoiaCam,
        Feature::Unknown { feature: 148, data: vec![0, 6, 0, 0, 2] },
        Feature::Unknown { feature: 200, data: vec![] },
    ];
    for f in features {
        round_trip(f.clone(), ByteOrder::Big);
        round_trip(f, ByteOrder::Little);
    }
}

#[test]
fn unknown_feature_round_trips_byte_exact() {
    let bytes = [149u8, 0, 3, 0, 91, 33];
    let (f, n) = Feature::try_from_ctx(&bytes, ByteOrder::Little).unwrap();
    assert_eq!(f, Feature::Unknown { feature: 149, data: vec![0, 3, 0, 91, 33] });
    assert_eq!(n, 6);
    assert_eq!(encode(f, ByteOrder::Little), bytes.to_vec());
}

#[test]
fn bare_feature_tag_consumes_one_byte() {
    let (f, n) = Feature::try_from_ctx(&[4], ByteOrder::Big).unwrap();
    assert_eq!(f, Feature::SkyController);
    assert_eq!(n, 1);
    let (f, n) = Feature::try_from_ctx(&[147, 9, 9], ByteOrder::Big).unwrap();
    assert_eq!(f, Feature::SequoiaCam);
    assert_eq!(n, 1);
}

#[test]
fn nested_feature_without_payload() {
    assert_eq!(Feature::try_from_ctx(&[0], ByteOrder::Big), Ok((Feature::Common(None), 1)));
    assert_eq!(Feature::try_from_ctx(&[1], ByteOrder::Big), Ok((Feature::ArDrone3(None), 1)));
    assert_eq!(Feature::try_from_ctx(&[3], ByteOrder::Big), Ok((Feature::JumpingSumo(None), 1)));
}

#[test]
fn class_gap_fails() {
    assert_eq!(
        Feature::try_from_ctx(&[3, 4], ByteOrder::Big),
        Err(CodecError::OutOfBound { value: 4, param: "Class".to_string() })
    );
    assert_eq!(
        Feature::try_from_ctx(&[3, 23], ByteOrder::Big),
        Err(CodecError::OutOfBound { value: 23, param: "Class".to_string() })
    );
}

#[test]
fn full_nested_payload() {
    let f = Feature::JumpingSumo(Some(Class::Piloting(PilotingID::Pilot(PilotState {
        flag: true,
        speed: 20,
        turn: -10,
    }))));
    let bytes = encode(f.clone(), ByteOrder::Big);
    assert_eq!(bytes, vec![3, 0, 0, 0, 1, 20, 246]);
    assert_eq!(Feature::try_from_ctx(&bytes, ByteOrder::Big), Ok((f, 7)));
}

#[test]
fn flag_out_of_bound() {
    assert_eq!(
        Feature::try_from_ctx(&[3, 0, 0, 0, 2, 20, 246], ByteOrder::Big),
        Err(CodecError::OutOfBound { value: 2, param: "flag".to_string() })
    );
}

#[test]
fn encode_without_encoder_is_unsupported() {
    let mut buf = [0u8; 16];
    let f = Feature::Common(Some(common::Class::Common(common::Common::AllStates)));
    assert_eq!(f.try_into_ctx(&mut buf, ByteOrder::Big), Err(CodecError::Unsupported));
    let f = Feature::JumpingSumo(Some(Class::PilotingState));
    assert_eq!(f.try_into_ctx(&mut buf, ByteOrder::Big), Err(CodecError::Unsupported));
    let f = Feature::JumpingSumo(Some(Class::Piloting(PilotingID::Posture)));
    assert_eq!(f.try_into_ctx(&mut [], ByteOrder::Big), Err(CodecError::Unsupported));
}

#[test]
fn encode_into_small_buffer_overruns() {
    let f = Feature::JumpingSumo(Some(Class::Piloting(PilotingID::Pilot(PilotState::default()))));
    let mut buf = [0u8; 6];
    assert_eq!(f.try_into_ctx(&mut buf, ByteOrder::Big), Err(CodecError::BufferOverrun));
    let mut empty: [u8; 0] = [];
    assert_eq!(Feature::Wifi.try_into_ctx(&mut empty, ByteOrder::Big), Err(CodecError::BufferOverrun));
    let mut one = [0u8; 1];
    let f = Feature::Unknown { feature: 150, data: vec![1] };
    assert_eq!(f.try_into_ctx(&mut one, ByteOrder::Big), Err(CodecError::BufferOverrun));
}

#[test]
fn encode_leaves_the_rest_of_the_buffer() {
    let mut buf = [7u8; 4];
    assert_eq!(Feature::Wifi.try_into_ctx(&mut buf, ByteOrder::Big), Ok(1));
    assert_eq!(buf, [135, 7, 7, 7]);
    let mut one = [0u8; 1];
    let f = Feature::Unknown { feature: 150, data: vec![] };
    assert_eq!(f.try_into_ctx(&mut one, ByteOrder::Big), Ok(1));
    assert_eq!(one, [150]);
}

#[test]
fn decode_empty_buffer_underruns() {
    assert_eq!(Feature::try_from_ctx(&[], ByteOrder::Big), Err(CodecError::BufferUnderrun));
    assert_eq!(Feature::try_from_ctx(&[3, 0, 0], ByteOrder::Big), Err(CodecError::BufferUnderrun));
    assert_eq!(Feature::try_from_ctx(&[3, 0, 0, 0, 1, 5], ByteOrder::Big), Err(CodecError::BufferUnderrun));
}

#[test]
fn decode_reports_bytes_consumed_within_a_longer_buffer() {
    let bytes = [3u8, 2, 3, 1, 2, 3, 4, 5, 99, 98];
    assert_eq!(
        Feature::try_from_ctx(&bytes, ByteOrder::Big),
        Ok((Feature::JumpingSumo(Some(Class::Animations(Anim::Jump))), 8))
    );
}

#[test]
fn ardrone3_and_common_decode() {
    assert_eq!(
        Feature::try_from_ctx(&[1, 0, 1, 0], ByteOrder::Little),
        Ok((Feature::ArDrone3(Some(ArDrone3::Piloting(ardrone3::Piloting::TakeOff))), 4))
    );
    assert_eq!(
        Feature::try_from_ctx(&[1, 0, 0, 1], ByteOrder::Big),
        Ok((Feature::ArDrone3(Some(ArDrone3::Piloting(ardrone3::Piloting::TakeOff))), 4))
    );
    assert_eq!(
        Feature::try_from_ctx(&[0, 4, 0, 3], ByteOrder::Big),
        Ok((Feature::Common(Some(common::Class::Common(common::Common::Reboot))), 4))
    );
    assert_eq!(
        Feature::try_from_ctx(&[1, 7], ByteOrder::Big),
        Err(CodecError::OutOfBound { value: 7, param: "ArDrone3".to_string() })
    );
    assert_eq!(
        Feature::try_from_ctx(&[1, 0, 0, 2], ByteOrder::Big),
        Err(CodecError::OutOfBound { value: 2, param: "Piloting".to_string() })
    );
    assert_eq!(
        Feature::try_from_ctx(&[0, 5], ByteOrder::Big),
        Err(CodecError::OutOfBound { value: 5, param: "Class".to_string() })
    );
    assert_eq!(
        Feature::try_from_ctx(&[0, 4, 1, 0], ByteOrder::Big),
        Err(CodecError::OutOfBound { value: 256, param: "Common".to_string() })
    );
}

#[test]
fn ardrone3_encodes_in_byte_order() {
    let f = Feature::ArDrone3(Some(ArDrone3::Piloting(ardrone3::Piloting::Landing)));
    assert_eq!(encode(f.clone(), ByteOrder::Big), vec![1, 0, 0, 3]);
    assert_eq!(encode(f, ByteOrder::Little), vec![1, 0, 3, 0]);
}

#[test]
fn unknown_with_a_table_tag_is_unsupported() {
    let mut buf = [0u8; 8];
    let f = Feature::Unknown { feature: 4, data: vec![1] };
    assert_eq!(f.try_into_ctx(&mut buf, ByteOrder::Big), Err(CodecError::Unsupported));
    let f = Feature::Unknown { feature: 0, data: vec![] };
    assert_eq!(f.try_into_ctx(&mut buf, ByteOrder::Big), Err(CodecError::Unsupported));
    assert!(arsdk::command::known_tag(147));
    assert!(!arsdk::command::known_tag(143));
}
