//! The failures of the player and the stage each one belongs to.

use vstd::prelude::*;

verus! {

/// The part of the program in which a failure arose.
#[derive(Clone, Copy, Debug, PartialEq, Eq, Structural)]
pub enum Stage {
    /// Reading the command line.
    Usage,
    /// Setting up the decoding subsystem.
    Setup,
    /// Opening the container.
    Open,
    /// Choosing the video stream.
    StreamSelection,
    /// Building the decoder or feeding it packets.
    Decoder,
    /// Building the colour transform.
    Scaler,
    /// Turning a raw frame into a packed image.
    Conversion,
    /// Starting playback.
    Playback,
    /// Encoding a frame for the terminal.
    Render,
}

/// Every failure the player reports.
#[derive(Clone, Copy, Debug, PartialEq, Eq, Structural)]
pub enum PlayerError {
    /// No video file was named on the command line.
    MissingArgument,
    /// The decoding subsystem could not be initialised.
    SubsystemInit,
    /// The file is unreadable or is not a container.
    Open,
    /// The container holds no video stream.
    NoVideoStream,
    /// No decoder could be built for the stream's codec parameters.
    DecoderInit,
    /// The decoder refused a packet of the selected stream.
    PacketDecode,
    /// The colour transform could not be built.
    ScalerInit,
    /// A raw frame could not be turned into a packed image.
    FrameConversion,
    /// The stream decoded to zero frames.
    EmptyFrameSequence,
    /// A background encode of a displayed frame failed.
    DeferredRenderEncode,
}

impl PlayerError {
    /// The stage at which this failure arises.
    pub open spec fn stage_of(self) -> Stage {
        match self {
            PlayerError::MissingArgument => Stage::Usage,
            PlayerError::SubsystemInit => Stage::Setup,
            PlayerError::Open => Stage::Open,
            PlayerError::NoVideoStream => Stage::StreamSelection,
            PlayerError::DecoderInit => Stage::Decoder,
            PlayerError::PacketDecode => Stage::Decoder,
            PlayerError::ScalerInit => Stage::Scaler,
            PlayerError::FrameConversion => Stage::Conversion,
            PlayerError::EmptyFrameSequence => Stage::Playback,
            PlayerError::DeferredRenderEncode => Stage::Render,
        }
    }

    /// The text shown to the user for this failure.
    pub open spec fn text_of(self) -> Seq<char> {
        match self {
            PlayerError::MissingArgument => "Please provide a video file to play (as the 1st argument)!"@,
            PlayerError::SubsystemInit => "Failed to initialize FFmpeg"@,
            PlayerError::Open => "Failed to open input file"@,
            PlayerError::NoVideoStream => "No video stream found"@,
            PlayerError::DecoderInit => "Failed to create video decoder"@,
            PlayerError::PacketDecode => "Failed to send packet to decoder"@,
            PlayerError::ScalerInit => "Failed to create scaler"@,
            PlayerError::FrameConversion => "Failed to convert frame to a packed RGB image"@,
            PlayerError::EmptyFrameSequence => "The video stream holds no frames"@,
            PlayerError::DeferredRenderEncode => "Failed to encode a frame for the terminal"@,
        }
    }

    /// Returns the stage at which this failure arises.
    pub fn stage(&self) -> (stage: Stage)
        ensures
            stage == self.stage_of(),
    {
        match self {
            PlayerError::MissingArgument => Stage::Usage,
            PlayerError::SubsystemInit => Stage::Setup,
            PlayerError::Open => Stage::Open,
            PlayerError::NoVideoStream => Stage::StreamSelection,
            PlayerError::DecoderInit => Stage::Decoder,
            PlayerError::PacketDecode => Stage::Decoder,
            PlayerError::ScalerInit => Stage::Scaler,
            PlayerError::FrameConversion => Stage::Conversion,
            PlayerError::EmptyFrameSequence => Stage::Playback,
            PlayerError::DeferredRenderEncode => Stage::Render,
        }
    }

    /// Returns the text shown to the user for this failure.
    pub fn message(&self) -> (text: String)
        ensures
            text@ == self.text_of(),
    {
        let text: &str = match self {
            PlayerError::MissingArgument => "Please provide a video file to play (as the 1st argument)!",
            PlayerError::SubsystemInit => "Failed to initialize FFmpeg",
            PlayerError::Open => "Failed to open input file",
            PlayerError::NoVideoStream => "No video stream found",
            PlayerError::DecoderInit => "Failed to create video decoder",
            PlayerError::PacketDecode => "Failed to send packet to decoder",
            PlayerError::ScalerInit => "Failed to create scaler",
            PlayerError::FrameConversion => "Failed to convert frame to a packed RGB image",
            PlayerError::EmptyFrameSequence => "The video stream holds no frames",
            PlayerError::DeferredRenderEncode => "Failed to encode a frame for the terminal",
        };
        text.to_owned()
    }
}

} // verus!
