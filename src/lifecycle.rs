//! Startup configuration and the ordered startup sequence: permission
//! handshake, device open, worker spawn.
use vstd::prelude::*;
use crate::texture::Extent;

verus! {

/// Why the camera could not be brought up or read.
#[derive(Clone, Copy, Debug, PartialEq, Eq, Structural)]
pub enum DeviceError {
    /// No device matches the requested index, or access could not be established.
    Unavailable,
    /// The platform refused camera access.
    PermissionDenied,
    /// The device offers no format that the request accepts.
    FormatNegotiationFailed,
    /// A frame could not be read.
    ReadFailure,
}

/// Which camera to open.
#[derive(Clone, Debug)]
pub enum CameraIndex {
    Index(u32),
    Name(String),
}

/// How the camera's format is chosen among those it offers.
#[derive(Clone, Copy, Debug, PartialEq, Eq, Structural)]
pub enum RequestedFormatType {
    AbsoluteHighestResolution,
    AbsoluteHighestFrameRate,
    HighestResolution(Extent),
    HighestFrameRate(u32),
    Any,
}

/// Settings of the webcam pipeline; fixed once the device is opened.
#[derive(Clone, Debug)]
pub struct BevyWebcamPlugin {
    pub camera_index: CameraIndex,
    pub requested_format_type: RequestedFormatType,
    pub is_srgb: bool,
}

impl Default for BevyWebcamPlugin {
    /// The first camera, at its highest frame rate, gamma-encoded.
    fn default() -> (p: Self)
        ensures
            p.camera_index matches CameraIndex::Index(i) && i == 0,
            p.requested_format_type == RequestedFormatType::AbsoluteHighestFrameRate,
            p.is_srgb,
    {
        BevyWebcamPlugin {
            camera_index: CameraIndex::Index(0),
            requested_format_type: RequestedFormatType::AbsoluteHighestFrameRate,
            is_srgb: true,
        }
    }
}

/// Maps the platform's permission reply: `Some(granted)`, or `None` where the
/// reply never came because the handshake's channel closed.
pub fn permission_outcome(reply: Option<bool>) -> (r: Result<(), DeviceError>)
    ensures
        reply == Some(true) <==> r is Ok,
        reply == Some(false) <==> r == Err::<(), DeviceError>(DeviceError::PermissionDenied),
        reply is None <==> r == Err::<(), DeviceError>(DeviceError::Unavailable),
{
    match reply {
        Some(true) => Ok(()),
        Some(false) => Err(DeviceError::PermissionDenied),
        None => Err(DeviceError::Unavailable),
    }
}

/// Where startup stands. Each phase names the work to do next.
#[derive(Clone, Copy, Debug, PartialEq, Eq, Structural)]
pub enum StartupPhase {
    /// Wait for the platform's permission reply.
    AwaitPermission,
    /// Open the camera with the configuration.
    OpenDevice,
    /// Allocate the frame channel and spawn the capture worker.
    SpawnWorker,
    /// Capture runs; nothing more to do.
    Ready,
    /// Startup failed; the error is fatal.
    Failed(DeviceError),
}

/// What the work of a phase gave.
#[derive(Clone, Copy, Debug, PartialEq, Eq, Structural)]
pub enum StartupEvent {
    Permission(Option<bool>),
    DeviceOpened,
    DeviceFailed(DeviceError),
    WorkerSpawned,
}

/// The first phase: the handshake where the platform asks for one.
pub open spec fn first_phase(needs_permission: bool) -> StartupPhase {
    if needs_permission {
        StartupPhase::AwaitPermission
    } else {
        StartupPhase::OpenDevice
    }
}

/// The phase after `event` in `phase`. An event that does not belong to the
/// phase leaves it as it is.
pub open spec fn next_phase(phase: StartupPhase, event: StartupEvent) -> StartupPhase {
    match (phase, event) {
        (StartupPhase::AwaitPermission, StartupEvent::Permission(reply)) => match reply {
            Some(true) => StartupPhase::OpenDevice,
            Some(false) => StartupPhase::Failed(DeviceError::PermissionDenied),
            None => StartupPhase::Failed(DeviceError::Unavailable),
        },
        (StartupPhase::OpenDevice, StartupEvent::DeviceOpened) => StartupPhase::SpawnWorker,
        (StartupPhase::OpenDevice, StartupEvent::DeviceFailed(e)) => StartupPhase::Failed(e),
        (StartupPhase::SpawnWorker, StartupEvent::WorkerSpawned) => StartupPhase::Ready,
        _ => phase,
    }
}

/// The phase after the events `evs` in order.
pub open spec fn run_phases(phase: StartupPhase, evs: Seq<StartupEvent>) -> StartupPhase
    decreases evs.len(),
{
    if evs.len() == 0 {
        phase
    } else {
        run_phases(next_phase(phase, evs[0]), evs.drop_first())
    }
}

/// The first phase of startup.
pub fn startup_begin(needs_permission: bool) -> (p: StartupPhase)
    ensures
        p == first_phase(needs_permission),
{
    if needs_permission {
        StartupPhase::AwaitPermission
    } else {
        StartupPhase::OpenDevice
    }
}

/// Advances startup by one event.
pub fn startup_step(phase: StartupPhase, event: StartupEvent) -> (p: StartupPhase)
    ensures
        p == next_phase(phase, event),
{
    match (phase, event) {
        (StartupPhase::AwaitPermission, StartupEvent::Permission(reply)) => match permission_outcome(
            reply,
        ) {
            Ok(()) => StartupPhase::OpenDevice,
            Err(e) => StartupPhase::Failed(e),
        },
        (StartupPhase::OpenDevice, StartupEvent::DeviceOpened) => StartupPhase::SpawnWorker,
        (StartupPhase::OpenDevice, StartupEvent::DeviceFailed(e)) => StartupPhase::Failed(e),
        (StartupPhase::SpawnWorker, StartupEvent::WorkerSpawned) => StartupPhase::Ready,
        _ => phase,
    }
}

/// A denied permission handshake fails startup with `PermissionDenied`, and
/// no later event leads out of that failure, so no worker is ever spawned.
pub proof fn lemma_denial_spawns_no_worker(later: Seq<StartupEvent>)
    ensures
        next_phase(StartupPhase::AwaitPermission, StartupEvent::Permission(Some(false)))
            == StartupPhase::Failed(DeviceError::PermissionDenied),
        run_phases(StartupPhase::Failed(DeviceError::PermissionDenied), later)
            == StartupPhase::Failed(DeviceError::PermissionDenied),
    decreases later.len(),
{
    if later.len() > 0 {
        lemma_denial_spawns_no_worker(later.drop_first());
    }
}

} // verus!
