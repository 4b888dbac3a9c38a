//! The frame extractor: which step of demultiplexing, decoding and scaling
//! comes next, and what each outcome of a step leads to.
//!
//! The extractor does no decoding itself. A driver performs the action the
//! extractor asks for and reports the outcome as an event; the extractor
//! answers with the next action and keeps the frames decoded so far.

use vstd::prelude::*;
use image::DynamicImage;
use crate::error::PlayerError;
use crate::frame::RawFrame;
use crate::packed::{image_view, packed_image, ImageView};

verus! {

/// Where the extraction stands.
#[derive(Clone, Copy, Debug, PartialEq, Eq, Structural)]
pub enum Phase {
    /// The decoding subsystem is being initialised.
    Initializing,
    /// The container is being opened.
    Opening,
    /// The best video stream is being looked for.
    SelectingStream,
    /// A decoder is being built for stream `stream`.
    BuildingDecoder { stream: usize },
    /// The transform to RGB24 is being built.
    BuildingScaler { stream: usize },
    /// The next packet of the container is being read.
    ReadingPacket { stream: usize },
    /// A packet of the selected stream is being sent to the decoder.
    SendingPacket { stream: usize },
    /// The decoder is being asked for its next frame.
    ReceivingFrame { stream: usize },
    /// A decoded frame is being converted to RGB24.
    ScalingFrame { stream: usize },
    /// Every packet was processed: the frame sequence is complete.
    Finished,
    /// The extraction failed; no frame sequence will be handed out.
    Failed { error: PlayerError },
}

/// What the driver is to do next.
#[derive(Clone, Copy, Debug, PartialEq, Eq, Structural)]
pub enum Action {
    /// Initialise the decoding subsystem.
    Initialize,
    /// Open the container at the given path.
    OpenContainer,
    /// Ask the container for its best video stream.
    SelectVideoStream,
    /// Build a decoder from the codec parameters of stream `stream`.
    BuildDecoder { stream: usize },
    /// Build the transform from the decoder's format to RGB24, same size.
    BuildScaler,
    /// Read the next packet.
    ReadPacket,
    /// Send the packet just read to the decoder.
    SendPacket,
    /// Ask the decoder for a frame.
    ReceiveFrame,
    /// Run the transform on the frame just received.
    ScaleFrame,
    /// Take the frames: the extraction is complete.
    Finish,
    /// Report `error`: the extraction has failed.
    Fail { error: PlayerError },
}

/// What the last action led to.
#[derive(Debug, PartialEq, Eq)]
pub enum Event {
    /// The decoding subsystem is ready.
    SubsystemReady,
    /// The decoding subsystem could not be initialised.
    SubsystemFailed,
    /// The container is open.
    ContainerOpened,
    /// The container could not be opened.
    OpenFailed,
    /// The best video stream has index `index`.
    VideoStream { index: usize },
    /// The container has no video stream.
    NoVideoStream,
    /// The decoder is built.
    DecoderReady,
    /// The decoder could not be built.
    DecoderFailed,
    /// The transform is built.
    ScalerReady,
    /// The transform could not be built.
    ScalerFailed,
    /// A packet of stream `stream` was read.
    Packet { stream: usize },
    /// The container has no more packets.
    EndOfPackets,
    /// The decoder took the packet.
    PacketAccepted,
    /// The decoder refused the packet.
    PacketRejected,
    /// The decoder gave out a frame.
    FrameDecoded,
    /// The decoder has no frame to give for now.
    DecoderDrained,
    /// The transform produced `frame`.
    FrameScaled { frame: RawFrame },
    /// The transform failed on the frame.
    ScaleFailed,
}

/// The action that a phase waits for.
pub open spec fn action_for(phase: Phase) -> Action {
    match phase {
        Phase::Initializing => Action::Initialize,
        Phase::Opening => Action::OpenContainer,
        Phase::SelectingStream => Action::SelectVideoStream,
        Phase::BuildingDecoder { stream } => Action::BuildDecoder { stream },
        Phase::BuildingScaler { .. } => Action::BuildScaler,
        Phase::ReadingPacket { .. } => Action::ReadPacket,
        Phase::SendingPacket { .. } => Action::SendPacket,
        Phase::ReceivingFrame { .. } => Action::ReceiveFrame,
        Phase::ScalingFrame { .. } => Action::ScaleFrame,
        Phase::Finished => Action::Finish,
        Phase::Failed { error } => Action::Fail { error },
    }
}

/// The phase that follows `phase` on `event`. An event that does not answer
/// the action of the phase changes nothing.
pub open spec fn next_phase(phase: Phase, event: Event) -> Phase {
    match (phase, event) {
        (Phase::Initializing, Event::SubsystemReady) => Phase::Opening,
        (Phase::Initializing, Event::SubsystemFailed) => Phase::Failed {
            error: PlayerError::SubsystemInit,
        },
        (Phase::Opening, Event::ContainerOpened) => Phase::SelectingStream,
        (Phase::Opening, Event::OpenFailed) => Phase::Failed { error: PlayerError::Open },
        (Phase::SelectingStream, Event::VideoStream { index }) => Phase::BuildingDecoder {
            stream: index,
        },
        (Phase::SelectingStream, Event::NoVideoStream) => Phase::Failed {
            error: PlayerError::NoVideoStream,
        },
        (Phase::BuildingDecoder { stream }, Event::DecoderReady) => Phase::BuildingScaler {
            stream,
        },
        (Phase::BuildingDecoder { .. }, Event::DecoderFailed) => Phase::Failed {
            error: PlayerError::DecoderInit,
        },
        (Phase::BuildingScaler { stream }, Event::ScalerReady) => Phase::ReadingPacket { stream },
        (Phase::BuildingScaler { .. }, Event::ScalerFailed) => Phase::Failed {
            error: PlayerError::ScalerInit,
        },
        (Phase::ReadingPacket { stream }, Event::Packet { stream: of }) => if of == stream {
            Phase::SendingPacket { stream }
        } else {
            Phase::ReadingPacket { stream }
        },
        (Phase::ReadingPacket { .. }, Event::EndOfPackets) => Phase::Finished,
        (Phase::SendingPacket { stream }, Event::PacketAccepted) => Phase::ReceivingFrame {
            stream,
        },
        (Phase::SendingPacket { .. }, Event::PacketRejected) => Phase::Failed {
            error: PlayerError::PacketDecode,
        },
        (Phase::ReceivingFrame { stream }, Event::FrameDecoded) => Phase::ScalingFrame { stream },
        (Phase::ReceivingFrame { stream }, Event::DecoderDrained) => Phase::ReadingPacket {
            stream,
        },
        (Phase::ScalingFrame { stream }, Event::FrameScaled { frame }) => if frame.consistent() {
            Phase::ReceivingFrame { stream }
        } else {
            Phase::Failed { error: PlayerError::FrameConversion }
        },
        (Phase::ScalingFrame { .. }, Event::ScaleFailed) => Phase::Failed {
            error: PlayerError::FrameConversion,
        },
        _ => phase,
    }
}

/// The frame that `event` adds to the sequence in `phase`, if it adds one:
/// a scaled frame that fits its dimensions, arriving while one is awaited.
pub open spec fn frame_added(phase: Phase, event: Event) -> Option<ImageView> {
    match (phase, event) {
        (Phase::ScalingFrame { .. }, Event::FrameScaled { frame }) => if frame.consistent() {
            Some(ImageView { width: frame.width, height: frame.height, bytes: frame.packed() })
        } else {
            None
        },
        _ => None,
    }
}

/// The frame sequence after `event` arrived in `phase`.
pub open spec fn next_frames(phase: Phase, frames: Seq<ImageView>, event: Event) -> Seq<
    ImageView,
> {
    match frame_added(phase, event) {
        Some(image) => frames.push(image),
        None => frames,
    }
}

/// The phase reached from `phase` after all of `events`, in order.
pub open spec fn phase_after(phase: Phase, events: Seq<Event>) -> Phase
    decreases events.len(),
{
    if events.len() == 0 {
        phase
    } else {
        next_phase(phase_after(phase, events.drop_last()), events.last())
    }
}

/// The frame sequence held after all of `events`, in order.
pub open spec fn frames_after(phase: Phase, frames: Seq<ImageView>, events: Seq<Event>) -> Seq<
    ImageView,
>
    decreases events.len(),
{
    if events.len() == 0 {
        frames
    } else {
        next_frames(
            phase_after(phase, events.drop_last()),
            frames_after(phase, frames, events.drop_last()),
            events.last(),
        )
    }
}

/// Two events report the same outcome: they are the same kind of event with
/// the same stream index, or scaled frames with the same dimensions, stride
/// and bytes.
pub open spec fn same_outcome(one: Event, other: Event) -> bool {
    match (one, other) {
        (Event::FrameScaled { frame: a }, Event::FrameScaled { frame: b }) => {
            &&& a.data@ == b.data@
            &&& a.width == b.width
            &&& a.height == b.height
            &&& a.stride == b.stride
        },
        (Event::FrameScaled { .. }, _) => false,
        (_, Event::FrameScaled { .. }) => false,
        _ => one == other,
    }
}

/// A failed extraction stays failed with the same error whatever is
/// reported to it afterwards, and takes in no further frame.
pub proof fn lemma_failure_is_final(error: PlayerError, frames: Seq<ImageView>, events: Seq<Event>)
    ensures
        phase_after(Phase::Failed { error }, events) == (Phase::Failed { error }),
        frames_after(Phase::Failed { error }, frames, events) == frames,
    decreases events.len(),
{
    if events.len() > 0 {
        lemma_failure_is_final(error, frames, events.drop_last());
    }
}

/// A finished extraction stays finished whatever is reported to it
/// afterwards: the frame sequence does not change once it is complete.
pub proof fn lemma_finished_is_final(frames: Seq<ImageView>, events: Seq<Event>)
    ensures
        phase_after(Phase::Finished, events) == Phase::Finished,
        frames_after(Phase::Finished, frames, events) == frames,
    decreases events.len(),
{
    if events.len() > 0 {
        lemma_finished_is_final(frames, events.drop_last());
    }
}

/// A container without a video stream fails the extraction at stream
/// selection: from the report on, whatever follows, the extraction is
/// failed with `NoVideoStream`, so no decoder is ever built or fed, and no
/// frame is taken in.
pub proof fn lemma_no_video_stream_fails_at_selection(
    frames: Seq<ImageView>,
    events: Seq<Event>,
)
    requires
        events.len() > 0,
        events[0] is NoVideoStream,
    ensures
        phase_after(Phase::SelectingStream, events) == (Phase::Failed {
            error: PlayerError::NoVideoStream,
        }),
        action_for(phase_after(Phase::SelectingStream, events)) == (Action::Fail {
            error: PlayerError::NoVideoStream,
        }),
        frames_after(Phase::SelectingStream, frames, events) == frames,
    decreases events.len(),
{
    let rest = events.drop_last();
    if rest.len() == 0 {
        assert(phase_after(Phase::SelectingStream, rest) == Phase::SelectingStream);
        assert(frames_after(Phase::SelectingStream, frames, rest) == frames);
    } else {
        lemma_no_video_stream_fails_at_selection(frames, rest);
    }
}

/// Frames are only ever appended: what was decoded before a run of events
/// is still there after it, at the same positions.
pub proof fn lemma_frames_only_grow(phase: Phase, frames: Seq<ImageView>, events: Seq<Event>)
    ensures
        frames.len() <= frames_after(phase, frames, events).len(),
        frames_after(phase, frames, events).subrange(0, frames.len() as int) == frames,
    decreases events.len(),
{
    if events.len() > 0 {
        lemma_frames_only_grow(phase, frames, events.drop_last());
    }
    assert(frames_after(phase, frames, events).subrange(0, frames.len() as int) =~= frames);
}

/// Extraction is repeatable: two runs from the same state whose events
/// report the same outcomes one by one end in the same phase with the same
/// frames, byte for byte.
pub proof fn lemma_same_outcomes_same_frames(
    phase: Phase,
    frames: Seq<ImageView>,
    first: Seq<Event>,
    second: Seq<Event>,
)
    requires
        first.len() == second.len(),
        forall|i: int| 0 <= i < first.len() ==> same_outcome(first[i], second[i]),
    ensures
        phase_after(phase, first) == phase_after(phase, second),
        frames_after(phase, frames, first) == frames_after(phase, frames, second),
    decreases first.len(),
{
    if first.len() > 0 {
        lemma_same_outcomes_same_frames(phase, frames, first.drop_last(), second.drop_last());
        assert(same_outcome(first.last(), second.last()));
    }
}

/// The extraction of one video: its phase and the frames decoded so far,
/// in display order.
pub struct Extractor {
    phase: Phase,
    frames: Vec<DynamicImage>,
}

impl Extractor {
    /// The phase the extraction is in.
    pub closed spec fn phase_of(&self) -> Phase {
        self.phase
    }

    /// The frames decoded so far, first to last.
    pub closed spec fn frames_of(&self) -> Seq<ImageView> {
        self.frames@.map_values(|img: DynamicImage| image_view(img))
    }

    /// An extraction that has not begun: the first action is `Initialize`.
    pub fn new() -> (extractor: Extractor)
        ensures
            extractor.phase_of() == Phase::Initializing,
            extractor.frames_of() == Seq::<ImageView>::empty(),
    {
        let extractor = Extractor { phase: Phase::Initializing, frames: Vec::new() };
        assert(extractor.frames_of() =~= Seq::<ImageView>::empty());
        extractor
    }

    /// Returns the phase the extraction is in.
    pub fn phase(&self) -> (phase: Phase)
        ensures
            phase == self.phase_of(),
    {
        self.phase
    }

    /// Returns the action the extraction waits for.
    pub fn pending(&self) -> (action: Action)
        ensures
            action == action_for(self.phase_of()),
    {
        match self.phase {
            Phase::Initializing => Action::Initialize,
            Phase::Opening => Action::OpenContainer,
            Phase::SelectingStream => Action::SelectVideoStream,
            Phase::BuildingDecoder { stream } => Action::BuildDecoder { stream },
            Phase::BuildingScaler { .. } => Action::BuildScaler,
            Phase::ReadingPacket { .. } => Action::ReadPacket,
            Phase::SendingPacket { .. } => Action::SendPacket,
            Phase::ReceivingFrame { .. } => Action::ReceiveFrame,
            Phase::ScalingFrame { .. } => Action::ScaleFrame,
            Phase::Finished => Action::Finish,
            Phase::Failed { error } => Action::Fail { error },
        }
    }

    /// Returns how many frames were decoded so far.
    pub fn frame_count(&self) -> (count: usize)
        ensures
            count == self.frames_of().len(),
    {
        self.frames.len()
    }

    /// Takes in the outcome of the pending action and returns the action
    /// that comes next.
    pub fn step(&mut self, event: Event) -> (action: Action)
        ensures
            final(self).phase_of() == next_phase(old(self).phase_of(), event),
            final(self).frames_of() == next_frames(
                old(self).phase_of(),
                old(self).frames_of(),
                event,
            ),
            action == action_for(final(self).phase_of()),
    {
        let phase = self.phase;
        let next = match event {
            Event::SubsystemReady => match phase {
                Phase::Initializing => Phase::Opening,
                _ => phase,
            },
            Event::SubsystemFailed => match phase {
                Phase::Initializing => Phase::Failed { error: PlayerError::SubsystemInit },
                _ => phase,
            },
            Event::ContainerOpened => match phase {
                Phase::Opening => Phase::SelectingStream,
                _ => phase,
            },
            Event::OpenFailed => match phase {
                Phase::Opening => Phase::Failed { error: PlayerError::Open },
                _ => phase,
            },
            Event::VideoStream { index } => match phase {
                Phase::SelectingStream => Phase::BuildingDecoder { stream: index },
                _ => phase,
            },
            Event::NoVideoStream => match phase {
                Phase::SelectingStream => Phase::Failed { error: PlayerError::NoVideoStream },
                _ => phase,
            },
            Event::DecoderReady => match phase {
                Phase::BuildingDecoder { stream } => Phase::BuildingScaler { stream },
                _ => phase,
            },
            Event::DecoderFailed => match phase {
                Phase::BuildingDecoder { .. } => Phase::Failed { error: PlayerError::DecoderInit },
                _ => phase,
            },
            Event::ScalerReady => match phase {
                Phase::BuildingScaler { stream } => Phase::ReadingPacket { stream },
                _ => phase,
            },
            Event::ScalerFailed => match phase {
                Phase::BuildingScaler { .. } => Phase::Failed { error: PlayerError::ScalerInit },
                _ => phase,
            },
            Event::Packet { stream: of } => match phase {
                Phase::ReadingPacket { stream } => if of == stream {
                    Phase::SendingPacket { stream }
                } else {
                    Phase::ReadingPacket { stream }
                },
                _ => phase,
            },
            Event::EndOfPackets => match phase {
                Phase::ReadingPacket { .. } => Phase::Finished,
                _ => phase,
            },
            Event::PacketAccepted => match phase {
                Phase::SendingPacket { stream } => Phase::ReceivingFrame { stream },
                _ => phase,
            },
            Event::PacketRejected => match phase {
                Phase::SendingPacket { .. } => Phase::Failed { error: PlayerError::PacketDecode },
                _ => phase,
            },
            Event::FrameDecoded => match phase {
                Phase::ReceivingFrame { stream } => Phase::ScalingFrame { stream },
                _ => phase,
            },
            Event::DecoderDrained => match phase {
                Phase::ReceivingFrame { stream } => Phase::ReadingPacket { stream },
                _ => phase,
            },
            Event::FrameScaled { frame } => match phase {
                Phase::ScalingFrame { stream } => match packed_image(&frame) {
                    Ok(img) => {
                        let ghost before = self.frames@;
                        self.frames.push(img);
                        assert(self.frames@.map_values(|img: DynamicImage| image_view(img))
                            =~= before.map_values(|img: DynamicImage| image_view(img)).push(
                            image_view(img),
                        ));
                        Phase::ReceivingFrame { stream }
                    },
                    Err(error) => Phase::Failed { error },
                },
                _ => phase,
            },
            Event::ScaleFailed => match phase {
                Phase::ScalingFrame { .. } => Phase::Failed {
                    error: PlayerError::FrameConversion,
                },
                _ => phase,
            },
        };
        self.phase = next;
        self.pending()
    }

    /// Hands out the frame sequence, in display order, if and only if the
    /// extraction is complete. A failed or unfinished extraction gives
    /// nothing: no truncated sequence is ever played.
    pub fn into_frames(self) -> (frames: Option<Vec<DynamicImage>>)
        ensures
            frames is Some <==> self.phase_of() == Phase::Finished,
            frames matches Some(list) ==> list@.map_values(|img: DynamicImage| image_view(img))
                == self.frames_of(),
    {
        match self.phase {
            Phase::Finished => Some(self.frames),
            _ => None,
        }
    }

    /// Returns the failure of the extraction, if it has failed.
    pub fn failure(&self) -> (error: Option<PlayerError>)
        ensures
            error == match self.phase_of() {
                Phase::Failed { error } => Some(error),
                _ => None,
            },
    {
        match self.phase {
            Phase::Failed { error } => Some(error),
            _ => None,
        }
    }
}

} // verus!
