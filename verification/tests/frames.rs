use azalea::applet::connection::{
    encode_frame, write_frame, BufConnection, DecodeState, Fill, FrameError,
};
use azalea::applet::frame::MAX_FRAME_LEN;
use azalea::applet::interface::{AppletEvent, AppletRequest, Direction, Size};

fn margin() -> AppletEvent {
    AppletEvent::Margin { top: 1, right: -2, bottom: 300, left: -70000 }
}

#[test]
fn a_frame_is_length_then_payload() {
    assert_eq!(encode_frame(&[]), Ok(vec![0, 0, 0, 0]));
    assert_eq!(encode_frame(&[7, 8, 9]), Ok(vec![3, 0, 0, 0, 7, 8, 9]));
    let long = vec![1u8; 0x0102_03];
    let framed = encode_frame(&long).unwrap();
    assert_eq!(&framed[..4], &[0x03, 0x02, 0x01, 0x00]);
    assert_eq!(&framed[4..], &long[..]);
}

#[test]
fn a_message_is_written_as_the_frame_of_its_payload() {
    assert_eq!(write_frame(&AppletEvent::Show), vec![1, 0, 0, 0, 4]);
    assert_eq!(write_frame(&AppletEvent::Size(800, 24)), vec![5, 0, 0, 0, 1, 251, 0x20, 0x03, 24]);
    assert_eq!(
        write_frame(&AppletRequest::Intrinsic(Size {
            width: 800.0f32.to_bits(),
            height: 24.0f32.to_bits()
        })),
        vec![9, 0, 0, 0, 1, 0, 0, 0x48, 0x44, 0, 0, 0xc0, 0x41]
    );
}

#[test]
fn a_new_reader_holds_nothing() {
    let reader = BufConnection::new();
    assert!(reader.is_empty());
    assert_eq!(reader.buffered(), 0);
    assert_eq!(reader.max_frame_len(), MAX_FRAME_LEN);
    assert_eq!(reader.state(), DecodeState::AwaitingLength);
    let capped = BufConnection::with_max_frame_len(64);
    assert!(capped.is_empty());
    assert_eq!(capped.max_frame_len(), 64);
}

#[test]
fn a_written_message_is_read_back() {
    for event in [
        AppletEvent::GridSize(50),
        AppletEvent::Size(800, 24),
        margin(),
        AppletEvent::Direction(Direction::Right),
        AppletEvent::Show,
        AppletEvent::Hide,
    ] {
        let mut reader = BufConnection::new();
        assert_eq!(reader.fill(&write_frame(&event)), Ok(Fill::More));
        assert_eq!(reader.parse_frame::<AppletEvent>(), Ok(Some(event)));
        assert!(reader.is_empty());
        assert_eq!(reader.parse_frame::<AppletEvent>(), Ok(None));
    }
}

#[test]
fn frames_delivered_in_one_read_come_out_in_order() {
    let events = [AppletEvent::Size(800, 24), AppletEvent::Hide, margin(), AppletEvent::Show];
    let mut stream = Vec::new();
    for event in events {
        stream.extend(write_frame(&event));
    }
    let mut reader = BufConnection::new();
    assert_eq!(reader.fill(&stream), Ok(Fill::More));
    assert_eq!(reader.buffered(), stream.len());
    for event in events {
        assert_eq!(reader.parse_frame::<AppletEvent>(), Ok(Some(event)));
    }
    assert_eq!(reader.parse_frame::<AppletEvent>(), Ok(None));
    assert_eq!(reader.buffered(), 0);
}

#[test]
fn a_frame_split_over_single_bytes_arrives_exactly_once() {
    let bytes = write_frame(&margin());
    let mut reader = BufConnection::new();
    let mut seen = Vec::new();
    for (at, byte) in bytes.iter().enumerate() {
        assert_eq!(reader.fill(&[*byte]), Ok(Fill::More));
        match reader.parse_frame::<AppletEvent>() {
            Ok(Some(event)) => {
                assert_eq!(at, bytes.len() - 1);
                seen.push(event);
            }
            Ok(None) => assert!(at < bytes.len() - 1),
            Err(error) => panic!("{:?}", error),
        }
    }
    assert_eq!(seen, vec![margin()]);
    assert_eq!(reader.parse_frame::<AppletEvent>(), Ok(None));
    assert!(reader.is_empty());
}

#[test]
fn a_frame_split_anywhere_arrives_exactly_once() {
    let bytes = write_frame(&AppletEvent::Size(70000, 3));
    for cut in 0..=bytes.len() {
        let mut reader = BufConnection::new();
        let mut seen = Vec::new();
        for piece in [&bytes[..cut], &bytes[cut..]] {
            if piece.is_empty() {
                continue;
            }
            assert_eq!(reader.fill(piece), Ok(Fill::More));
            while let Some(event) = reader.parse_frame::<AppletEvent>().unwrap() {
                seen.push(event);
            }
        }
        assert_eq!(seen, vec![AppletEvent::Size(70000, 3)]);
        assert!(reader.is_empty());
    }
}

#[test]
fn pieces_that_straddle_frames_change_nothing() {
    let events = [AppletEvent::Show, AppletEvent::GridSize(300), AppletEvent::Hide];
    let mut stream = Vec::new();
    for event in events {
        stream.extend(write_frame(&event));
    }
    for size in 1..=stream.len() {
        let mut reader = BufConnection::new();
        let mut seen = Vec::new();
        for piece in stream.chunks(size) {
            assert_eq!(reader.fill(piece), Ok(Fill::More));
            while let Some(event) = reader.parse_frame::<AppletEvent>().unwrap() {
                seen.push(event);
            }
        }
        assert_eq!(seen, events.to_vec());
        assert_eq!(reader.fill(&[]), Ok(Fill::End));
    }
}

#[test]
fn the_end_after_whole_frames_is_a_clean_close() {
    let mut reader = BufConnection::new();
    assert_eq!(reader.fill(&[]), Ok(Fill::End));
    for count in 1..4 {
        for _ in 0..count {
            assert_eq!(reader.fill(&write_frame(&AppletEvent::Show)), Ok(Fill::More));
        }
        for _ in 0..count {
            assert_eq!(reader.parse_frame::<AppletEvent>(), Ok(Some(AppletEvent::Show)));
        }
        assert_eq!(reader.fill(&[]), Ok(Fill::End));
        assert!(reader.is_empty());
    }
}

#[test]
fn the_end_inside_a_frame_is_a_reset() {
    let bytes = write_frame(&AppletEvent::Direction(Direction::Top));
    for arrived in 1..bytes.len() {
        let mut reader = BufConnection::new();
        assert_eq!(reader.fill(&bytes[..arrived]), Ok(Fill::More));
        assert_eq!(reader.parse_frame::<AppletEvent>(), Ok(None));
        assert_eq!(reader.fill(&[]), Err(FrameError::ConnectionReset));
        assert_eq!(reader.buffered(), arrived);
    }
}

#[test]
fn the_end_before_an_unread_frame_loses_nothing() {
    let mut reader = BufConnection::new();
    assert_eq!(reader.fill(&write_frame(&AppletEvent::Hide)), Ok(Fill::More));
    assert_eq!(reader.fill(&[]), Ok(Fill::More));
    assert_eq!(reader.parse_frame::<AppletEvent>(), Ok(Some(AppletEvent::Hide)));
    assert_eq!(reader.fill(&[]), Ok(Fill::End));
}

#[test]
fn a_length_over_the_limit_is_refused_at_once() {
    let mut reader = BufConnection::with_max_frame_len(8);
    assert_eq!(reader.fill(&[9, 0, 0, 0]), Ok(Fill::More));
    assert_eq!(
        reader.parse_frame::<AppletEvent>(),
        Err(FrameError::TooLong { declared: 9 })
    );
    assert_eq!(reader.buffered(), 4);
    assert_eq!(reader.next_payload(), Err(FrameError::TooLong { declared: 9 }));
    assert_eq!(reader.fill(&[]), Err(FrameError::ConnectionReset));
    let mut huge = BufConnection::with_max_frame_len(1 << 20);
    assert_eq!(huge.fill(&[0xff, 0xff, 0xff, 0xff, 1, 2]), Ok(Fill::More));
    assert_eq!(
        huge.parse_frame::<AppletEvent>(),
        Err(FrameError::TooLong { declared: u32::MAX })
    );
}

#[test]
fn a_length_at_the_limit_is_accepted() {
    let mut reader = BufConnection::with_max_frame_len(5);
    assert_eq!(reader.fill(&write_frame(&AppletEvent::Size(800, 24))), Ok(Fill::More));
    assert_eq!(reader.parse_frame::<AppletEvent>(), Ok(Some(AppletEvent::Size(800, 24))));
    let mut tight = BufConnection::with_max_frame_len(4);
    assert_eq!(tight.fill(&write_frame(&AppletEvent::Size(800, 24))), Ok(Fill::More));
    assert_eq!(
        tight.parse_frame::<AppletEvent>(),
        Err(FrameError::TooLong { declared: 5 })
    );
}

#[test]
fn a_payload_that_stands_for_nothing_is_not_consumed() {
    let mut reader = BufConnection::new();
    assert_eq!(reader.fill(&[2, 0, 0, 0, 9, 9]), Ok(Fill::More));
    assert_eq!(reader.fill(&write_frame(&AppletEvent::Show)), Ok(Fill::More));
    assert_eq!(reader.parse_frame::<AppletEvent>(), Err(FrameError::Malformed));
    assert_eq!(reader.buffered(), 11);
    assert_eq!(reader.parse_frame::<AppletEvent>(), Err(FrameError::Malformed));
    assert_eq!(reader.next_payload(), Ok(Some(vec![9, 9])));
    assert_eq!(reader.parse_frame::<AppletEvent>(), Ok(Some(AppletEvent::Show)));
}

#[test]
fn an_empty_payload_is_a_frame_of_its_own() {
    let mut reader = BufConnection::new();
    assert_eq!(reader.fill(&[0, 0, 0, 0, 1, 0, 0, 0, 4]), Ok(Fill::More));
    assert_eq!(reader.next_payload(), Ok(Some(vec![])));
    assert_eq!(reader.next_payload(), Ok(Some(vec![4])));
    assert_eq!(reader.next_payload(), Ok(None));
}

#[test]
fn raw_payloads_come_out_as_they_went_in() {
    let payloads: Vec<Vec<u8>> = vec![vec![1, 2, 3], vec![], vec![0xff; 300], vec![7]];
    let mut reader = BufConnection::new();
    for payload in &payloads {
        assert_eq!(reader.fill(&encode_frame(payload).unwrap()), Ok(Fill::More));
    }
    for payload in &payloads {
        assert_eq!(reader.next_payload(), Ok(Some(payload.clone())));
    }
    assert_eq!(reader.next_payload(), Ok(None));
    assert!(reader.is_empty());
}

#[test]
fn the_decoder_waits_for_the_length_and_then_for_the_payload() {
    let mut reader = BufConnection::new();
    assert_eq!(reader.state(), DecodeState::AwaitingLength);
    assert_eq!(reader.fill(&[5, 0, 0]), Ok(Fill::More));
    assert_eq!(reader.state(), DecodeState::AwaitingLength);
    assert_eq!(reader.fill(&[0]), Ok(Fill::More));
    assert_eq!(reader.state(), DecodeState::AwaitingPayload { length: 5, missing: 5 });
    assert_eq!(reader.fill(&[1, 251]), Ok(Fill::More));
    assert_eq!(reader.state(), DecodeState::AwaitingPayload { length: 5, missing: 3 });
    assert_eq!(reader.fill(&[0x20, 0x03, 24, 1]), Ok(Fill::More));
    assert_eq!(reader.state(), DecodeState::AwaitingPayload { length: 5, missing: 0 });
    assert_eq!(reader.parse_frame::<AppletEvent>(), Ok(Some(AppletEvent::Size(800, 24))));
    assert_eq!(reader.state(), DecodeState::AwaitingLength);
    assert_eq!(reader.buffered(), 1);
}

#[test]
fn requests_and_events_do_not_read_as_each_other() {
    let mut reader = BufConnection::new();
    assert_eq!(reader.fill(&write_frame(&AppletEvent::Show)), Ok(Fill::More));
    assert_eq!(reader.parse_frame::<AppletRequest>(), Err(FrameError::Malformed));
    assert_eq!(reader.parse_frame::<AppletEvent>(), Ok(Some(AppletEvent::Show)));
}
