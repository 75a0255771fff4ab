use arsdk::cursor::{read_i8, read_rest, read_u16, read_u8, skip_bytes, write_bytes, write_i8, write_u16, write_u8};
use arsdk::jumping_sumo::{Anim, Class, PilotState, PilotingID};
use arsdk::{ByteOrder, CodecError};
use std::borrow::Borrow;

fn assert_class(dc: impl Borrow<Class>, v: u8) {
    let as_u8: u8 = dc.borrow().into();
    assert_eq!(v, as_u8);
}

fn assert_anim(a: Anim, v: u8) {
    let as_u8: u8 = a.into();
    assert_eq!(v, as_u8);
}

fn assert_piloting(pc: impl Borrow<PilotingID>, v: u16) {
    let as_u8: u16 = pc.borrow().into();
    assert_eq!(v, as_u8);
}

#[test]
fn test_piloting_command() {
    assert_piloting(PilotingID::Pilot(PilotState::default()), 0);
    assert_piloting(PilotingID::Posture, 1);
    assert_piloting(PilotingID::AddCapOffset, 2);
}

#[test]
fn test_anim() {
    assert_anim(Anim::JumpStop, 0);
    assert_anim(Anim::JumpCancel, 1);
    assert_anim(Anim::JumpLoad, 2);
    assert_anim(Anim::Jump, 3);
    assert_anim(Anim::SimpleAnimation, 4);
}

#[test]
fn test_class() {
    assert_class(Class::Piloting(PilotingID::Pilot(PilotState::default())), 0);
    assert_class(Class::PilotingState, 1);
    assert_class(Class::Animations(Anim::Jump), 2);
    assert_class(Class::AnimationsState, 3);
    assert_class(Class::SettingsState, 5);
    assert_class(Class::MediaRecord, 6);
    assert_class(Class::MediaRecordState, 7);
    assert_class(Class::NetworkSettings, 8);
    assert_class(Class::NetworkSettingsState, 9);
    assert_class(Class::Network, 10);
    assert_class(Class::NetworkState, 11);
    assert_class(Class::AutioSettings, 12);
    assert_class(Class::AudioSettingsState, 13);
    assert_class(Class::Roadplan, 14);
    assert_class(Class::RoadplanState, 15);
    assert_class(Class::SpeedSettings, 16);
    assert_class(Class::SpeedSettingsState, 17);
    assert_class(Class::MediaStreaming, 18);
    assert_class(Class::MediaStreamingState, 19);
    assert_class(Class::MediaRecordEvent, 20);
    assert_class(Class::VideoSettings, 21);
    assert_class(Class::VideoSettingsState, 22);
}

#[test]
fn pilot_state_decodes_and_encodes() {
    assert_eq!(
        PilotState::try_from_ctx(&[0, 255, 128], ByteOrder::Big),
        Ok((PilotState { flag: false, speed: -1, turn: -128 }, 3))
    );
    assert_eq!(
        PilotState::try_from_ctx(&[1], ByteOrder::Big),
        Err(CodecError::BufferUnderrun)
    );
    assert_eq!(
        PilotState::try_from_ctx(&[7, 0, 0], ByteOrder::Big),
        Err(CodecError::OutOfBound { value: 7, param: "flag".to_string() })
    );
    let mut buf = [0u8; 3];
    let state = PilotState { flag: true, speed: 20, turn: -10 };
    assert_eq!(state.try_into_ctx(&mut buf, ByteOrder::Little), Ok(3));
    assert_eq!(buf, [1, 20, 246]);
}

#[test]
fn piloting_id_in_both_byte_orders() {
    assert_eq!(
        PilotingID::try_from_ctx(&[1, 0], ByteOrder::Little),
        Ok((PilotingID::Posture, 2))
    );
    assert_eq!(
        PilotingID::try_from_ctx(&[1, 0], ByteOrder::Big),
        Err(CodecError::OutOfBound { value: 256, param: "PilotingId".to_string() })
    );
    assert_eq!(
        PilotingID::try_from_ctx(&[0, 2], ByteOrder::Big),
        Ok((PilotingID::AddCapOffset, 2))
    );
    assert_eq!(PilotingID::try_from_ctx(&[0], ByteOrder::Big), Err(CodecError::BufferUnderrun));
    let mut buf = [0u8; 8];
    assert_eq!(PilotingID::Posture.try_into_ctx(&mut buf, ByteOrder::Big), Err(CodecError::Unsupported));
    assert_eq!(PilotingID::AddCapOffset.try_into_ctx(&mut buf, ByteOrder::Big), Err(CodecError::Unsupported));
}

#[test]
fn anim_reads_past_its_block_and_writes_zeros() {
    assert_eq!(Anim::try_from_ctx(&[3, 9, 9, 9, 9, 9], ByteOrder::Big), Ok((Anim::Jump, 6)));
    assert_eq!(Anim::try_from_ctx(&[3, 9, 9, 9, 9], ByteOrder::Big), Err(CodecError::BufferUnderrun));
    assert_eq!(
        Anim::try_from_ctx(&[5, 0, 0, 0, 0, 0], ByteOrder::Big),
        Err(CodecError::OutOfBound { value: 5, param: "Anim".to_string() })
    );
    let mut buf = [9u8; 7];
    assert_eq!(Anim::JumpLoad.try_into_ctx(&mut buf, ByteOrder::Big), Ok(6));
    assert_eq!(buf, [2, 0, 0, 0, 0, 0, 9]);
}

#[test]
fn class_encodes_only_with_an_encoder() {
    let mut buf = [0u8; 8];
    assert_eq!(Class::Network.try_into_ctx(&mut buf, ByteOrder::Big), Err(CodecError::Unsupported));
    assert_eq!(Class::Animations(Anim::JumpStop).try_into_ctx(&mut buf, ByteOrder::Big), Ok(7));
    assert_eq!(buf[..7], [2, 0, 0, 0, 0, 0, 0]);
    assert_eq!(Class::try_from_ctx(&[22], ByteOrder::Big), Ok((Class::VideoSettingsState, 1)));
    assert_eq!(Class::try_from_ctx(&[], ByteOrder::Big), Err(CodecError::BufferUnderrun));
}

#[test]
fn cursor_reads_move_the_offset() {
    let src = [0x12u8, 0x34, 0xff];
    let mut off = 0usize;
    assert_eq!(read_u16(&src, &mut off, ByteOrder::Big), Ok(0x1234));
    assert_eq!(off, 2);
    assert_eq!(read_i8(&src, &mut off), Ok(-1));
    assert_eq!(off, 3);
    assert_eq!(read_u8(&src, &mut off), Err(CodecError::BufferUnderrun));
    assert_eq!(off, 3);
    let mut off = 0usize;
    assert_eq!(read_u16(&src, &mut off, ByteOrder::Little), Ok(0x3412));
    assert_eq!(read_u8(&src, &mut off), Ok(0xff));
    let mut off = 1usize;
    assert_eq!(skip_bytes(&src, &mut off, 2), Ok(()));
    assert_eq!(off, 3);
    let mut off = 1usize;
    assert_eq!(read_rest(&src, &mut off), vec![0x34, 0xff]);
    assert_eq!(off, 3);
}

#[test]
fn cursor_writes_move_the_offset() {
    let mut dst = [0u8; 6];
    let mut off = 0usize;
    assert_eq!(write_u16(&mut dst, 0x1234, &mut off, ByteOrder::Little), Ok(()));
    assert_eq!(write_i8(&mut dst, -2, &mut off), Ok(()));
    assert_eq!(write_u8(&mut dst, 7, &mut off), Ok(()));
    assert_eq!(write_bytes(&mut dst, &[8, 9], &mut off), Ok(()));
    assert_eq!(dst, [0x34, 0x12, 254, 7, 8, 9]);
    assert_eq!(off, 6);
    assert_eq!(write_u8(&mut dst, 1, &mut off), Err(CodecError::BufferOverrun));
    assert_eq!(write_bytes(&mut dst, &[], &mut off), Ok(()));
    let mut off = 5usize;
    assert_eq!(write_u16(&mut dst, 1, &mut off, ByteOrder::Big), Err(CodecError::BufferOverrun));
}

#[test]
fn skipping_no_bytes() {
    let mut off = 1usize;
    assert_eq!(skip_bytes(&[], &mut off, 0), Err(CodecError::BufferUnderrun));
    let mut off = 1usize;
    assert_eq!(skip_bytes(&[5], &mut off, 0), Ok(()));
    assert_eq!(off, 1);
    let mut off = 0usize;
    assert_eq!(skip_bytes(&[5], &mut off, 2), Err(CodecError::BufferUnderrun));
}
