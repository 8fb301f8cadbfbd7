use azalea::applet::interface::{AppletEvent, AppletRequest, Direction, Limits, Size};
use azalea::applet::payload::{Payload, MAX_PAYLOAD};
use azalea::applet::wire::{get_fixed32, get_i32, get_u32, put_fixed32, put_i32, put_u32};

fn unsigned(value: u32) -> Vec<u8> {
    let mut out = Vec::new();
    put_u32(&mut out, value);
    out
}

fn signed(value: i32) -> Vec<u8> {
    let mut out = Vec::new();
    put_i32(&mut out, value);
    out
}

#[test]
fn small_unsigned_values_take_one_byte() {
    assert_eq!(unsigned(0), vec![0]);
    assert_eq!(unsigned(7), vec![7]);
    assert_eq!(unsigned(250), vec![250]);
}

#[test]
fn medium_unsigned_values_take_a_marker_and_two_bytes() {
    assert_eq!(unsigned(251), vec![251, 251, 0]);
    assert_eq!(unsigned(800), vec![251, 0x20, 0x03]);
    assert_eq!(unsigned(65535), vec![251, 255, 255]);
}

#[test]
fn large_unsigned_values_take_a_marker_and_four_bytes() {
    assert_eq!(unsigned(65536), vec![252, 0, 0, 1, 0]);
    assert_eq!(unsigned(0x0102_0304), vec![252, 4, 3, 2, 1]);
    assert_eq!(unsigned(u32::MAX), vec![252, 255, 255, 255, 255]);
}

#[test]
fn signed_values_alternate_around_zero() {
    assert_eq!(signed(0), vec![0]);
    assert_eq!(signed(-1), vec![1]);
    assert_eq!(signed(1), vec![2]);
    assert_eq!(signed(-2), vec![3]);
    assert_eq!(signed(125), vec![250]);
    assert_eq!(signed(-126), vec![251, 251, 0]);
    assert_eq!(signed(i32::MAX), vec![252, 254, 255, 255, 255]);
    assert_eq!(signed(i32::MIN), vec![252, 255, 255, 255, 255]);
}

#[test]
fn put_appends_behind_what_is_there() {
    let mut out = vec![9, 9];
    put_u32(&mut out, 300);
    put_i32(&mut out, -3);
    put_fixed32(&mut out, 0x3f80_0000);
    assert_eq!(out, vec![9, 9, 251, 44, 1, 5, 0, 0, 0x80, 0x3f]);
}

#[test]
fn integers_have_the_bytes_bincode_gives() {
    let config = bincode::config::standard();
    for value in [0u32, 1, 250, 251, 252, 255, 256, 65535, 65536, 1 << 24, u32::MAX] {
        assert_eq!(unsigned(value), bincode::encode_to_vec(value, config).unwrap());
    }
    for value in [0i32, 1, -1, 125, -125, 126, -126, 32767, -32768, 32768, i32::MAX, i32::MIN] {
        assert_eq!(signed(value), bincode::encode_to_vec(value, config).unwrap());
    }
}

#[test]
fn reading_finds_value_and_next_position() {
    let bytes = [9, 251, 0x20, 0x03, 24, 252, 1, 0, 0, 0, 3];
    assert_eq!(get_u32(&bytes, 0), Some((9, 1)));
    assert_eq!(get_u32(&bytes, 1), Some((800, 4)));
    assert_eq!(get_u32(&bytes, 4), Some((24, 5)));
    assert_eq!(get_u32(&bytes, 5), Some((1, 10)));
    assert_eq!(get_i32(&bytes, 10), Some((-2, 11)));
    assert_eq!(get_i32(&bytes, 4), Some((12, 5)));
    assert_eq!(get_fixed32(&bytes, 1), Some((0x1803_20fb, 5)));
}

#[test]
fn reading_fails_at_the_end_and_beyond() {
    let bytes = [1, 2, 3];
    assert_eq!(get_u32(&bytes, 3), None);
    assert_eq!(get_u32(&bytes, 4), None);
    assert_eq!(get_i32(&bytes, 3), None);
    assert_eq!(get_fixed32(&bytes, 0), None);
    assert_eq!(get_fixed32(&bytes, 7), None);
    assert_eq!(get_fixed32(&[1, 2, 3, 4], 0), Some((0x0403_0201, 4)));
}

#[test]
fn reading_fails_on_cut_off_and_wide_integers() {
    assert_eq!(get_u32(&[251, 1], 0), None);
    assert_eq!(get_u32(&[252, 1, 2, 3], 0), None);
    assert_eq!(get_u32(&[253, 0, 0, 0, 0, 0, 0, 0, 0], 0), None);
    assert_eq!(get_u32(&[254, 0, 0, 0, 0, 0, 0, 0, 0], 0), None);
    assert_eq!(get_u32(&[255, 0, 0, 0, 0], 0), None);
    assert_eq!(get_i32(&[253, 0, 0, 0, 0, 0, 0, 0, 0], 0), None);
}

#[test]
fn a_small_value_behind_a_wide_marker_is_read() {
    assert_eq!(get_u32(&[251, 5, 0], 0), Some((5, 3)));
    assert_eq!(get_u32(&[252, 5, 0, 0, 0], 0), Some((5, 5)));
    assert_eq!(AppletEvent::decode(&[0, 251, 5, 0]), Some(AppletEvent::GridSize(5)));
}

fn every_event() -> Vec<AppletEvent> {
    vec![
        AppletEvent::GridSize(0),
        AppletEvent::GridSize(50),
        AppletEvent::GridSize(u32::MAX),
        AppletEvent::Size(800, 24),
        AppletEvent::Size(0, 70000),
        AppletEvent::Margin { top: 0, right: 0, bottom: 0, left: 0 },
        AppletEvent::Margin { top: -4, right: 300, bottom: i32::MIN, left: i32::MAX },
        AppletEvent::Direction(Direction::Left),
        AppletEvent::Direction(Direction::Right),
        AppletEvent::Direction(Direction::Top),
        AppletEvent::Direction(Direction::Bottom),
        AppletEvent::Show,
        AppletEvent::Hide,
    ]
}

fn every_request() -> Vec<AppletRequest> {
    let unit = 1.0f32.to_bits();
    let wide = 1920.5f32.to_bits();
    let endless = f32::INFINITY.to_bits();
    vec![
        AppletRequest::Limits(Limits {
            min: Size { width: 0, height: 0 },
            max: Size { width: endless, height: endless },
        }),
        AppletRequest::Limits(Limits {
            min: Size { width: unit, height: unit },
            max: Size { width: wide, height: unit },
        }),
        AppletRequest::Intrinsic(Size { width: wide, height: unit }),
        AppletRequest::Intrinsic(Size { width: u32::MAX, height: 0x7fc0_0001 }),
    ]
}

#[test]
fn every_event_is_read_back_as_written() {
    for event in every_event() {
        let bytes = event.encode();
        assert!(bytes.len() <= MAX_PAYLOAD);
        assert_eq!(AppletEvent::decode(&bytes), Some(event));
    }
}

#[test]
fn every_request_is_read_back_as_written() {
    for request in every_request() {
        let bytes = request.encode();
        assert!(bytes.len() <= MAX_PAYLOAD);
        assert_eq!(AppletRequest::decode(&bytes), Some(request));
    }
}

#[test]
fn the_longest_payload_has_the_stated_length() {
    let event = AppletEvent::Margin {
        top: i32::MIN,
        right: i32::MAX,
        bottom: i32::MIN,
        left: i32::MAX,
    };
    assert_eq!(event.encode().len(), MAX_PAYLOAD);
}

#[test]
fn events_have_the_bytes_bincode_gives() {
    let config = bincode::config::standard();
    assert_eq!(
        AppletEvent::GridSize(50).encode(),
        bincode::encode_to_vec((0u32, 50u32), config).unwrap()
    );
    assert_eq!(
        AppletEvent::Size(800, 24).encode(),
        bincode::encode_to_vec((1u32, 800u32, 24u32), config).unwrap()
    );
    assert_eq!(AppletEvent::Size(800, 24).encode(), vec![1, 251, 0x20, 0x03, 24]);
    assert_eq!(
        AppletEvent::Margin { top: -4, right: 300, bottom: 0, left: 70000 }.encode(),
        bincode::encode_to_vec((2u32, -4i32, 300i32, 0i32, 70000i32), config).unwrap()
    );
    assert_eq!(
        AppletEvent::Direction(Direction::Bottom).encode(),
        bincode::encode_to_vec((3u32, 3u32), config).unwrap()
    );
    assert_eq!(AppletEvent::Direction(Direction::Left).encode(), vec![3, 0]);
    assert_eq!(AppletEvent::Direction(Direction::Right).encode(), vec![3, 1]);
    assert_eq!(AppletEvent::Direction(Direction::Top).encode(), vec![3, 2]);
    assert_eq!(AppletEvent::Show.encode(), vec![4]);
    assert_eq!(AppletEvent::Hide.encode(), vec![5]);
}

#[test]
fn requests_have_the_bytes_bincode_gives_for_the_numbers() {
    let config = bincode::config::standard();
    let limits = AppletRequest::Limits(Limits {
        min: Size { width: 1.0f32.to_bits(), height: 2.5f32.to_bits() },
        max: Size { width: 1920.0f32.to_bits(), height: f32::INFINITY.to_bits() },
    });
    assert_eq!(
        limits.encode(),
        bincode::encode_to_vec((0u32, 1.0f32, 2.5f32, 1920.0f32, f32::INFINITY), config).unwrap()
    );
    let intrinsic = AppletRequest::Intrinsic(Size {
        width: 800.0f32.to_bits(),
        height: 24.0f32.to_bits(),
    });
    assert_eq!(
        intrinsic.encode(),
        bincode::encode_to_vec((1u32, 800.0f32, 24.0f32), config).unwrap()
    );
    assert_eq!(intrinsic.encode(), vec![1, 0, 0, 0x48, 0x44, 0, 0, 0xc0, 0x41]);
}

#[test]
fn payloads_with_bytes_left_over_are_refused() {
    assert_eq!(AppletEvent::decode(&[4, 0]), None);
    assert_eq!(AppletEvent::decode(&[5, 5]), None);
    assert_eq!(AppletEvent::decode(&[0, 50, 0]), None);
    assert_eq!(AppletEvent::decode(&[1, 1, 2, 3]), None);
    assert_eq!(AppletEvent::decode(&[2, 0, 0, 0, 0, 0]), None);
    assert_eq!(AppletEvent::decode(&[3, 1, 1]), None);
    assert_eq!(AppletRequest::decode(&[1, 0, 0, 0, 0, 0, 0, 0, 0, 0]), None);
}

#[test]
fn payloads_that_end_early_are_refused() {
    assert_eq!(AppletEvent::decode(&[]), None);
    assert_eq!(AppletEvent::decode(&[0]), None);
    assert_eq!(AppletEvent::decode(&[1, 7]), None);
    assert_eq!(AppletEvent::decode(&[2, 0, 0, 0]), None);
    assert_eq!(AppletEvent::decode(&[3]), None);
    assert_eq!(AppletRequest::decode(&[]), None);
    assert_eq!(AppletRequest::decode(&[0, 0, 0, 0, 0, 0, 0, 0, 0]), None);
    assert_eq!(AppletRequest::decode(&[1, 0, 0, 0, 0, 0, 0, 0]), None);
}

#[test]
fn unknown_variants_are_refused() {
    assert_eq!(AppletEvent::decode(&[6]), None);
    assert_eq!(AppletEvent::decode(&[250]), None);
    assert_eq!(AppletEvent::decode(&[3, 4]), None);
    assert_eq!(AppletRequest::decode(&[2, 0, 0, 0, 0, 0, 0, 0, 0]), None);
}
