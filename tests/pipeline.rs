use youterm::pipeline::{Action, Coordinator, Event, Phase, FRAME_BATCH_LIMIT, FRAME_CHANNEL_CAPACITY};

#[test]
fn zero_capacity_is_refused() {
    assert!(Coordinator::new(0, 10).is_none());
    assert!(Coordinator::new(2, 0).is_none());
    let c = Coordinator::new(FRAME_CHANNEL_CAPACITY, FRAME_BATCH_LIMIT).unwrap();
    assert_eq!(c.phase, Phase::Idle);
    assert_eq!(c.capacity, 64);
    assert_eq!(c.batch_limit, 10);
}

/// Plays a file of `frames` frames in one packet through a coordinator whose
/// render stage is slow: it only finishes a frame when asked to wait.
fn play(capacity: usize, frames: usize, fail_after: Option<usize>) -> (Coordinator, usize, usize) {
    let mut c = Coordinator::new(capacity, 10).unwrap();
    let mut action = c.step(Event::SourceOpened);
    let mut decoded = 0;
    let mut rendered = 0;
    let mut packets = 1;
    let mut max_in_flight = 0;
    loop {
        max_in_flight = max_in_flight.max(c.in_flight);
        let event = match action {
            Action::ReadPacket => {
                if packets > 0 {
                    packets -= 1;
                    Event::VideoPacket
                } else {
                    Event::InputEnded
                }
            }
            Action::Decode | Action::FlushDecoder => {
                if Some(decoded) == fail_after {
                    Event::Failed
                } else if decoded < frames && action == Action::Decode {
                    decoded += 1;
                    Event::FrameDecoded
                } else {
                    Event::DecoderEmpty
                }
            }
            Action::SendFrame => Event::FrameSent,
            Action::AwaitRender => {
                rendered += 1;
                Event::FrameRendered
            }
            Action::CloseChannel => Event::ChannelClosed,
            Action::Finish | Action::Abort => break,
        };
        action = c.step(event);
    }
    (c, rendered, max_in_flight)
}

#[test]
fn in_flight_never_exceeds_tiny_capacity() {
    let (c, rendered, max_in_flight) = play(2, 25, None);
    assert_eq!(c.phase, Phase::Done);
    assert_eq!(rendered, 25);
    assert_eq!(max_in_flight, 2);
    assert_eq!(c.in_flight, 0);
}

#[test]
fn corrupt_file_errors_with_fewer_renders() {
    let (c, rendered, _) = play(2, 25, Some(7));
    assert_eq!(c.phase, Phase::Errored);
    assert!(rendered < 25);
}

#[test]
fn failure_from_each_phase_is_final() {
    let mut c = Coordinator::new(2, 10).unwrap();
    assert_eq!(c.step(Event::Failed), Action::Abort);
    assert_eq!(c.phase, Phase::Errored);
    assert_eq!(c.step(Event::FrameDecoded), Action::Abort);
    assert_eq!(c.step(Event::SourceOpened), Action::Abort);
    assert_eq!(c.phase, Phase::Errored);
}

#[test]
fn batch_is_sent_after_limit() {
    let mut c = Coordinator::new(64, 10).unwrap();
    assert_eq!(c.step(Event::SourceOpened), Action::ReadPacket);
    assert_eq!(c.step(Event::OtherPacket), Action::ReadPacket);
    assert_eq!(c.step(Event::VideoPacket), Action::Decode);
    for _ in 0..9 {
        assert_eq!(c.step(Event::FrameDecoded), Action::Decode);
    }
    assert_eq!(c.step(Event::FrameDecoded), Action::SendFrame);
    assert_eq!(c.batched, 10);
    for _ in 0..9 {
        assert_eq!(c.step(Event::FrameSent), Action::SendFrame);
    }
    assert_eq!(c.step(Event::FrameSent), Action::Decode);
    assert_eq!(c.in_flight, 10);
    assert_eq!(c.step(Event::DecoderEmpty), Action::ReadPacket);
    assert_eq!(c.step(Event::InputEnded), Action::FlushDecoder);
    assert_eq!(c.step(Event::DecoderEmpty), Action::CloseChannel);
    assert_eq!(c.phase, Phase::Draining);
    assert_eq!(c.step(Event::ChannelClosed), Action::AwaitRender);
}

#[test]
fn unexpected_event_is_a_failure() {
    let mut c = Coordinator::new(2, 10).unwrap();
    assert_eq!(c.step(Event::FrameSent), Action::Abort);
    assert_eq!(c.phase, Phase::Errored);
}
