use termvideo::error::PlayerError;
use termvideo::extract::{Action, Event, Extractor, Phase};
use termvideo::frame::RawFrame;

fn frame_of(width: u32, height: u32, stride: usize, seed: u8) -> RawFrame {
    let data = (0..stride * height as usize).map(|i| (i as u8).wrapping_add(seed)).collect();
    RawFrame { data, width, height, stride }
}

fn reading_packets(stream: usize) -> Extractor {
    let mut extractor = Extractor::new();
    assert_eq!(extractor.pending(), Action::Initialize);
    assert_eq!(extractor.step(Event::SubsystemReady), Action::OpenContainer);
    assert_eq!(extractor.step(Event::ContainerOpened), Action::SelectVideoStream);
    assert_eq!(extractor.step(Event::VideoStream { index: stream }), Action::BuildDecoder { stream });
    assert_eq!(extractor.step(Event::DecoderReady), Action::BuildScaler);
    assert_eq!(extractor.step(Event::ScalerReady), Action::ReadPacket);
    extractor
}

#[test]
fn new_extractor_starts_by_initializing() {
    let extractor = Extractor::new();
    assert_eq!(extractor.phase(), Phase::Initializing);
    assert_eq!(extractor.pending(), Action::Initialize);
    assert_eq!(extractor.frame_count(), 0);
    assert_eq!(extractor.failure(), None);
}

#[test]
fn frames_are_collected_in_decode_order() {
    let mut extractor = reading_packets(0);
    assert_eq!(extractor.step(Event::Packet { stream: 0 }), Action::SendPacket);
    assert_eq!(extractor.step(Event::PacketAccepted), Action::ReceiveFrame);
    assert_eq!(extractor.step(Event::FrameDecoded), Action::ScaleFrame);
    assert_eq!(extractor.step(Event::FrameScaled { frame: frame_of(4, 2, 16, 0) }), Action::ReceiveFrame);
    assert_eq!(extractor.step(Event::FrameDecoded), Action::ScaleFrame);
    assert_eq!(extractor.step(Event::FrameScaled { frame: frame_of(4, 2, 16, 100) }), Action::ReceiveFrame);
    assert_eq!(extractor.step(Event::DecoderDrained), Action::ReadPacket);
    assert_eq!(extractor.frame_count(), 2);
    assert_eq!(extractor.step(Event::EndOfPackets), Action::Finish);
    assert_eq!(extractor.phase(), Phase::Finished);
    let frames = extractor.into_frames().unwrap();
    assert_eq!(frames.len(), 2);
    assert_eq!(frames[0].width(), 4);
    assert_eq!(frames[0].height(), 2);
    assert_eq!(frames[0].as_bytes().len(), 24);
    assert_eq!(&frames[0].as_bytes()[..3], &[0u8, 1, 2]);
    assert_eq!(&frames[0].as_bytes()[12..15], &[16u8, 17, 18]);
    assert_eq!(&frames[1].as_bytes()[..3], &[100u8, 101, 102]);
    assert_eq!(&frames[1].as_bytes()[12..15], &[116u8, 117, 118]);
}

#[test]
fn packets_of_other_streams_are_discarded() {
    let mut extractor = reading_packets(1);
    assert_eq!(extractor.step(Event::Packet { stream: 0 }), Action::ReadPacket);
    assert_eq!(extractor.step(Event::Packet { stream: 2 }), Action::ReadPacket);
    assert_eq!(extractor.phase(), Phase::ReadingPacket { stream: 1 });
    assert_eq!(extractor.step(Event::Packet { stream: 1 }), Action::SendPacket);
}

#[test]
fn packet_may_yield_no_frame() {
    let mut extractor = reading_packets(0);
    extractor.step(Event::Packet { stream: 0 });
    extractor.step(Event::PacketAccepted);
    assert_eq!(extractor.step(Event::DecoderDrained), Action::ReadPacket);
    assert_eq!(extractor.frame_count(), 0);
}

#[test]
fn stream_without_frames_gives_an_empty_sequence() {
    let mut extractor = reading_packets(0);
    assert_eq!(extractor.step(Event::EndOfPackets), Action::Finish);
    let frames = extractor.into_frames().unwrap();
    assert!(frames.is_empty());
}

#[test]
fn no_video_stream_fails_at_stream_selection() {
    let mut extractor = Extractor::new();
    extractor.step(Event::SubsystemReady);
    extractor.step(Event::ContainerOpened);
    let fail = Action::Fail { error: PlayerError::NoVideoStream };
    assert_eq!(extractor.step(Event::NoVideoStream), fail);
    assert_eq!(extractor.failure(), Some(PlayerError::NoVideoStream));
    assert_eq!(extractor.step(Event::DecoderReady), fail);
    assert_eq!(extractor.step(Event::Packet { stream: 0 }), fail);
    assert_eq!(extractor.step(Event::FrameScaled { frame: frame_of(1, 1, 3, 0) }), fail);
    assert_eq!(extractor.frame_count(), 0);
    assert!(extractor.into_frames().is_none());
}

#[test]
fn each_stage_fails_with_its_own_error() {
    let mut at_init = Extractor::new();
    assert_eq!(at_init.step(Event::SubsystemFailed), Action::Fail { error: PlayerError::SubsystemInit });

    let mut at_open = Extractor::new();
    at_open.step(Event::SubsystemReady);
    assert_eq!(at_open.step(Event::OpenFailed), Action::Fail { error: PlayerError::Open });

    let mut at_decoder = Extractor::new();
    at_decoder.step(Event::SubsystemReady);
    at_decoder.step(Event::ContainerOpened);
    at_decoder.step(Event::VideoStream { index: 3 });
    assert_eq!(at_decoder.step(Event::DecoderFailed), Action::Fail { error: PlayerError::DecoderInit });

    let mut at_scaler = Extractor::new();
    at_scaler.step(Event::SubsystemReady);
    at_scaler.step(Event::ContainerOpened);
    at_scaler.step(Event::VideoStream { index: 3 });
    at_scaler.step(Event::DecoderReady);
    assert_eq!(at_scaler.step(Event::ScalerFailed), Action::Fail { error: PlayerError::ScalerInit });

    let mut at_send = reading_packets(0);
    at_send.step(Event::Packet { stream: 0 });
    assert_eq!(at_send.step(Event::PacketRejected), Action::Fail { error: PlayerError::PacketDecode });

    let mut at_scale = reading_packets(0);
    at_scale.step(Event::Packet { stream: 0 });
    at_scale.step(Event::PacketAccepted);
    at_scale.step(Event::FrameDecoded);
    assert_eq!(at_scale.step(Event::ScaleFailed), Action::Fail { error: PlayerError::FrameConversion });
}

#[test]
fn inconsistent_frame_fails_the_whole_extraction() {
    let mut extractor = reading_packets(0);
    extractor.step(Event::Packet { stream: 0 });
    extractor.step(Event::PacketAccepted);
    extractor.step(Event::FrameDecoded);
    extractor.step(Event::FrameScaled { frame: frame_of(4, 2, 16, 0) });
    extractor.step(Event::FrameDecoded);
    let short = RawFrame { data: vec![0u8; 20], width: 4, height: 2, stride: 16 };
    assert_eq!(
        extractor.step(Event::FrameScaled { frame: short }),
        Action::Fail { error: PlayerError::FrameConversion }
    );
    assert_eq!(extractor.failure(), Some(PlayerError::FrameConversion));
    assert!(extractor.into_frames().is_none());
}

#[test]
fn unfinished_extraction_hands_out_nothing() {
    let mut extractor = reading_packets(0);
    extractor.step(Event::Packet { stream: 0 });
    extractor.step(Event::PacketAccepted);
    extractor.step(Event::FrameDecoded);
    extractor.step(Event::FrameScaled { frame: frame_of(2, 2, 6, 0) });
    assert_eq!(extractor.failure(), None);
    assert!(extractor.into_frames().is_none());
}

#[test]
fn event_that_answers_no_pending_action_changes_nothing() {
    let mut extractor = Extractor::new();
    assert_eq!(extractor.step(Event::EndOfPackets), Action::Initialize);
    assert_eq!(extractor.step(Event::FrameScaled { frame: frame_of(1, 1, 3, 0) }), Action::Initialize);
    assert_eq!(extractor.phase(), Phase::Initializing);
    assert_eq!(extractor.frame_count(), 0);
    let mut reading = reading_packets(0);
    assert_eq!(reading.step(Event::FrameDecoded), Action::ReadPacket);
    assert_eq!(reading.step(Event::SubsystemFailed), Action::ReadPacket);
}

#[test]
fn finished_extraction_takes_no_more_frames() {
    let mut extractor = reading_packets(0);
    extractor.step(Event::EndOfPackets);
    assert_eq!(extractor.step(Event::Packet { stream: 0 }), Action::Finish);
    assert_eq!(extractor.step(Event::FrameScaled { frame: frame_of(1, 1, 3, 0) }), Action::Finish);
    assert_eq!(extractor.frame_count(), 0);
}

fn run_twice_events() -> Vec<Event> {
    vec![
        Event::SubsystemReady,
        Event::ContainerOpened,
        Event::VideoStream { index: 0 },
        Event::DecoderReady,
        Event::ScalerReady,
        Event::Packet { stream: 1 },
        Event::Packet { stream: 0 },
        Event::PacketAccepted,
        Event::FrameDecoded,
        Event::FrameScaled { frame: frame_of(3, 2, 12, 7) },
        Event::FrameDecoded,
        Event::FrameScaled { frame: frame_of(3, 2, 12, 9) },
        Event::DecoderDrained,
        Event::EndOfPackets,
    ]
}

#[test]
fn same_events_give_the_same_frames() {
    let mut first = Extractor::new();
    for event in run_twice_events() {
        first.step(event);
    }
    let mut second = Extractor::new();
    for event in run_twice_events() {
        second.step(event);
    }
    let a = first.into_frames().unwrap();
    let b = second.into_frames().unwrap();
    assert_eq!(a.len(), 2);
    assert_eq!(a.len(), b.len());
    for (x, y) in a.iter().zip(b.iter()) {
        assert_eq!(x.as_bytes(), y.as_bytes());
    }
}
