//! Decisions of the capture worker. The thread that owns the camera reads a
//! frame, hands the result here as an event, and performs the action it gets.
use vstd::prelude::*;
use crate::channel::{FrameSender, PublishOutcome};
use crate::frame::{raw_byte_len, Frame};
use crate::texture::{byte_len, Extent};

verus! {

/// Pause after a failed read, about one frame interval.
pub const READ_BACKOFF_MILLIS: u64 = 16;

/// Whether the worker still captures.
#[derive(Clone, Copy, Debug, PartialEq, Eq, Structural)]
pub enum WorkerState {
    Running,
    Stopped,
}

/// What reading one frame from the camera gave.
pub enum CaptureEvent {
    /// A frame decoded to packed RGB.
    Decoded { rgb: Vec<u8>, width: u32, height: u32 },
    /// A frame was read but could not be decoded.
    DecodeFailed,
    /// No frame could be read.
    ReadFailed,
}

/// What the capture thread does next.
#[derive(Clone, Copy, Debug, PartialEq, Eq, Structural)]
pub enum CaptureAction {
    /// Read the next frame at once.
    ReadNext,
    /// Sleep for `millis` milliseconds, then read again.
    Backoff { millis: u64 },
    /// Leave the loop and release the camera.
    Stop,
}

/// Whether a decoded buffer holds exactly `width` by `height` RGB pixels
/// whose RGBA expansion fits in memory.
pub open spec fn decodable(rgb: Seq<u8>, width: u32, height: u32) -> bool {
    rgb.len() == raw_byte_len(Extent { width, height }) && byte_len(Extent { width, height })
        <= usize::MAX
}

/// The step for an event that publishes nothing, or `None` where the event
/// carries a frame to publish.
pub open spec fn idle_step(state: WorkerState, event: CaptureEvent) -> Option<(WorkerState, CaptureAction)> {
    match (state, event) {
        (WorkerState::Stopped, _) => Some((WorkerState::Stopped, CaptureAction::Stop)),
        (_, CaptureEvent::ReadFailed) => Some(
            (WorkerState::Running, CaptureAction::Backoff { millis: READ_BACKOFF_MILLIS }),
        ),
        (_, CaptureEvent::DecodeFailed) => Some(
            (WorkerState::Running, CaptureAction::Backoff { millis: READ_BACKOFF_MILLIS }),
        ),
        (_, CaptureEvent::Decoded { rgb, width, height }) => if decodable(rgb@, width, height) {
            None
        } else {
            Some((WorkerState::Running, CaptureAction::Backoff { millis: READ_BACKOFF_MILLIS }))
        },
    }
}

/// The step after a frame was published with outcome `o`.
pub open spec fn published_step(o: PublishOutcome) -> (WorkerState, CaptureAction) {
    match o {
        PublishOutcome::Disconnected => (WorkerState::Stopped, CaptureAction::Stop),
        _ => (WorkerState::Running, CaptureAction::ReadNext),
    }
}

/// The step after a frame was published with outcome `o`: stop once the
/// consumer is gone, otherwise read on.
pub fn after_publish(o: PublishOutcome) -> (r: (WorkerState, CaptureAction))
    ensures
        r == published_step(o),
{
    match o {
        PublishOutcome::Disconnected => (WorkerState::Stopped, CaptureAction::Stop),
        _ => (WorkerState::Running, CaptureAction::ReadNext),
    }
}

/// The capture worker: its state and the producing end of the frame channel.
pub struct CaptureWorker {
    state: WorkerState,
    sender: FrameSender,
}

impl CaptureWorker {
    /// Whether the worker still captures.
    pub closed spec fn status(&self) -> WorkerState {
        self.state
    }

    /// Whether the worker still captures.
    pub fn state(&self) -> (s: WorkerState)
        ensures
            s == self.status(),
    {
        self.state
    }

    /// A running worker that publishes through `sender`.
    pub fn new(sender: FrameSender) -> (w: CaptureWorker)
        ensures
            w.status() == WorkerState::Running,
    {
        CaptureWorker { state: WorkerState::Running, sender }
    }

    /// Handles one read result: a decoded frame is converted to RGBA and
    /// published; a failed read, a failed decode or a buffer that does not
    /// match its extent asks for a pause; nothing is fatal but the
    /// consumer going away, after which every event asks to stop.
    pub fn on_event(&mut self, event: CaptureEvent) -> (a: CaptureAction)
        ensures
            idle_step(old(self).status(), event) matches Some(step) ==> final(self).status() == step.0 && a
                == step.1,
            idle_step(old(self).status(), event) is None ==> exists|o: PublishOutcome|
                (final(self).status(), a) == #[trigger] published_step(o),
    {
        if self.state == WorkerState::Stopped {
            return CaptureAction::Stop;
        }
        match event {
            CaptureEvent::Decoded { rgb, width, height } => {
                match Frame::from_rgb(rgb.as_slice(), width, height) {
                    Some(frame) => {
                        let (o, Ghost(_attempts)) = self.sender.publish(frame);
                        let (state, action) = after_publish(o);
                        self.state = state;
                        action
                    },
                    None => CaptureAction::Backoff { millis: READ_BACKOFF_MILLIS },
                }
            },
            CaptureEvent::DecodeFailed => CaptureAction::Backoff { millis: READ_BACKOFF_MILLIS },
            CaptureEvent::ReadFailed => CaptureAction::Backoff { millis: READ_BACKOFF_MILLIS },
        }
    }
}

/// Once a publish finds the consumer gone, the worker stops, and a stopped
/// worker asks to stop on every later event, so the camera is released
/// within one read.
pub proof fn lemma_disconnected_worker_stops(event: CaptureEvent)
    ensures
        published_step(PublishOutcome::Disconnected) == (WorkerState::Stopped, CaptureAction::Stop),
        idle_step(WorkerState::Stopped, event) == Some((WorkerState::Stopped, CaptureAction::Stop)),
{
}

} // verus!
