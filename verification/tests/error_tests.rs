use termvideo::error::{PlayerError, Stage};

#[test]
fn every_error_names_its_stage() {
    assert_eq!(PlayerError::MissingArgument.stage(), Stage::Usage);
    assert_eq!(PlayerError::SubsystemInit.stage(), Stage::Setup);
    assert_eq!(PlayerError::Open.stage(), Stage::Open);
    assert_eq!(PlayerError::NoVideoStream.stage(), Stage::StreamSelection);
    assert_eq!(PlayerError::DecoderInit.stage(), Stage::Decoder);
    assert_eq!(PlayerError::PacketDecode.stage(), Stage::Decoder);
    assert_eq!(PlayerError::ScalerInit.stage(), Stage::Scaler);
    assert_eq!(PlayerError::FrameConversion.stage(), Stage::Conversion);
    assert_eq!(PlayerError::EmptyFrameSequence.stage(), Stage::Playback);
    assert_eq!(PlayerError::DeferredRenderEncode.stage(), Stage::Render);
}

#[test]
fn every_error_has_its_own_message() {
    let all = [
        PlayerError::MissingArgument,
        PlayerError::SubsystemInit,
        PlayerError::Open,
        PlayerError::NoVideoStream,
        PlayerError::DecoderInit,
        PlayerError::PacketDecode,
        PlayerError::ScalerInit,
        PlayerError::FrameConversion,
        PlayerError::EmptyFrameSequence,
        PlayerError::DeferredRenderEncode,
    ];
    for (i, a) in all.iter().enumerate() {
        assert!(!a.message().is_empty());
        for b in all.iter().skip(i + 1) {
            assert_ne!(a.message(), b.message());
        }
    }
}

#[test]
fn messages_read_as_the_player_prints_them() {
    assert_eq!(
        PlayerError::MissingArgument.message(),
        "Please provide a video file to play (as the 1st argument)!"
    );
    assert_eq!(PlayerError::Open.message(), "Failed to open input file");
    assert_eq!(PlayerError::NoVideoStream.message(), "No video stream found");
    assert_eq!(PlayerError::ScalerInit.message(), "Failed to create scaler");
    assert_eq!(PlayerError::PacketDecode.message(), "Failed to send packet to decoder");
}
