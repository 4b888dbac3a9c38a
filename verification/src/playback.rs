//! The decisions of the render loop: which file to play, when to stop,
//! which frame to draw, and which deferred failure to report at the end.

use vstd::prelude::*;
use crate::error::PlayerError;
use crate::scheduler::{display_index, display_index_at, DisplayOrder};

verus! {

/// Nominal frames per second from which the tick of the render loop is
/// derived.
pub const FPS: u64 = 400;

/// The tick of the render loop in milliseconds: the bounded wait for input,
/// and the time each frame stays on screen.
pub const TICK_RATE_MS: u64 = 1000 / FPS;

/// What the bounded wait for input brought.
#[derive(Clone, Copy, Debug, PartialEq, Eq, Structural)]
pub enum Input {
    /// Nothing arrived within the tick.
    Quiet,
    /// A key was pressed.
    Key,
    /// Something else arrived: a resize, the mouse, a paste.
    Other,
}

/// What the render loop does in one cycle.
#[derive(Clone, Copy, Debug, PartialEq, Eq, Structural)]
pub enum TickAction {
    /// Leave the loop.
    Stop,
    /// Draw the frame at position `index` of the sequence.
    Render { index: usize },
}

/// How the background encode of one frame ended.
#[derive(Clone, Copy, Debug, PartialEq, Eq, Structural)]
pub enum EncodeOutcome {
    /// The frame was never displayed, so nothing was encoded.
    NotDisplayed,
    /// The last encode of the frame succeeded.
    Encoded,
    /// The last encode of the frame failed.
    Failed,
}

/// Position `i` holds the first failed encode of `outcomes`.
pub open spec fn is_first_failure(outcomes: Seq<EncodeOutcome>, i: int) -> bool {
    &&& 0 <= i < outcomes.len()
    &&& outcomes[i] == EncodeOutcome::Failed
    &&& forall|j: int| 0 <= j < i ==> outcomes[j] != EncodeOutcome::Failed
}

/// No encode of `outcomes` failed.
pub open spec fn no_failure(outcomes: Seq<EncodeOutcome>) -> bool {
    forall|j: int| 0 <= j < outcomes.len() ==> outcomes[j] != EncodeOutcome::Failed
}

/// Picks the video file out of the command line: the first argument after
/// the program's name. Fails with `MissingArgument` where there is none.
pub fn video_argument(args: &Vec<String>) -> (result: Result<&String, PlayerError>)
    ensures
        result is Ok <==> args@.len() >= 2,
        result matches Ok(path) ==> *path == args@[1],
        result matches Err(e) ==> e == PlayerError::MissingArgument,
{
    if args.len() >= 2 {
        Ok(&args[1])
    } else {
        Err(PlayerError::MissingArgument)
    }
}

/// Finds the deferred failure to report when the loop has ended: the first
/// frame in sequence order whose last encode failed. Frames that were never
/// displayed have nothing to report.
pub fn first_failed_encode(outcomes: &Vec<EncodeOutcome>) -> (found: Option<usize>)
    ensures
        found matches Some(i) ==> is_first_failure(outcomes@, i as int),
        found is None ==> no_failure(outcomes@),
{
    let mut i: usize = 0;
    while i < outcomes.len()
        invariant
            i <= outcomes@.len(),
            forall|j: int| 0 <= j < i ==> outcomes@[j] != EncodeOutcome::Failed,
        decreases outcomes@.len() - i,
    {
        if outcomes[i] == EncodeOutcome::Failed {
            return Some(i);
        }
        i = i + 1;
    }
    None
}

/// Decides how the program ends once the loop has stopped: with
/// `DeferredRenderEncode` where the encode of any displayed frame failed,
/// and in peace otherwise.
pub fn shutdown_result(outcomes: &Vec<EncodeOutcome>) -> (result: Result<(), PlayerError>)
    ensures
        result is Ok <==> no_failure(outcomes@),
        result matches Err(e) ==> e == PlayerError::DeferredRenderEncode,
{
    match first_failed_encode(outcomes) {
        Some(_) => Err(PlayerError::DeferredRenderEncode),
        None => Ok(()),
    }
}

/// A playback that can be scheduled: a sequence of at least one frame, a
/// positive interval between frames, and the order of display. All indices
/// are derived from the elapsed time; nothing is stored between ticks.
pub struct Playback {
    frame_count: usize,
    interval_ms: u128,
    order: DisplayOrder,
}

impl Playback {
    #[verifier::type_invariant]
    spec fn schedulable(&self) -> bool {
        self.frame_count > 0 && self.interval_ms > 0
    }

    /// The number of frames in the sequence.
    pub closed spec fn frame_count_of(&self) -> nat {
        self.frame_count as nat
    }

    /// The time each frame stays on screen, in milliseconds.
    pub closed spec fn interval_of(&self) -> nat {
        self.interval_ms as nat
    }

    /// The order of display.
    pub closed spec fn order_of(&self) -> DisplayOrder {
        self.order
    }

    /// The position drawn at `elapsed_ms`.
    pub open spec fn index_at(&self, elapsed_ms: nat) -> nat {
        display_index_at(self.order_of(), elapsed_ms, self.interval_of(), self.frame_count_of())
    }

    /// Prepares the playback of `frame_count` frames. Fails with
    /// `EmptyFrameSequence` where there is no frame: an empty sequence is
    /// turned away here, before any index is asked for.
    pub fn new(frame_count: usize, interval_ms: u128, order: DisplayOrder) -> (result: Result<
        Playback,
        PlayerError,
    >)
        requires
            interval_ms > 0,
        ensures
            result is Ok <==> frame_count > 0,
            result matches Ok(playback) ==> playback.frame_count_of() == frame_count
                && playback.interval_of() == interval_ms && playback.order_of() == order,
            result matches Err(e) ==> e == PlayerError::EmptyFrameSequence,
    {
        if frame_count == 0 {
            Err(PlayerError::EmptyFrameSequence)
        } else {
            Ok(Playback { frame_count, interval_ms, order })
        }
    }

    /// Returns the number of frames, which is never zero.
    pub fn frame_count(&self) -> (count: usize)
        ensures
            count == self.frame_count_of(),
            count > 0,
    {
        proof {
            use_type_invariant(self);
        }
        self.frame_count
    }

    /// Returns the time each frame stays on screen, which is never zero.
    pub fn interval_ms(&self) -> (interval: u128)
        ensures
            interval == self.interval_of(),
            interval > 0,
    {
        proof {
            use_type_invariant(self);
        }
        self.interval_ms
    }

    /// Returns the order of display.
    pub fn order(&self) -> (order: DisplayOrder)
        ensures
            order == self.order_of(),
    {
        self.order
    }

    /// Returns the position of the frame to draw at `elapsed_ms`.
    pub fn frame_at(&self, elapsed_ms: u128) -> (index: usize)
        ensures
            index == self.index_at(elapsed_ms as nat),
            index < self.frame_count_of(),
    {
        proof {
            use_type_invariant(self);
        }
        display_index(self.order, elapsed_ms, self.interval_ms, self.frame_count)
    }

    /// Decides one cycle of the render loop: a key press stops it, anything
    /// else draws the frame that is due at `elapsed_ms`.
    pub fn tick(&self, input: Input, elapsed_ms: u128) -> (action: TickAction)
        ensures
            input == Input::Key ==> action == TickAction::Stop,
            input != Input::Key ==> action == (TickAction::Render {
                index: self.index_at(elapsed_ms as nat) as usize,
            }),
            action matches TickAction::Render { index } ==> index < self.frame_count_of(),
    {
        match input {
            Input::Key => TickAction::Stop,
            _ => TickAction::Render { index: self.frame_at(elapsed_ms) },
        }
    }
}

} // verus!
