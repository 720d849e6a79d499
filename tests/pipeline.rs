use bevy_webcam::channel::{frame_channel, PublishOutcome};
use bevy_webcam::frame::Frame;
use bevy_webcam::lifecycle::{
    permission_outcome, startup_begin, startup_step, BevyWebcamPlugin, CameraIndex, DeviceError,
    RequestedFormatType, StartupEvent, StartupPhase,
};
use bevy_webcam::pixel::rgb_to_rgba;
use bevy_webcam::sync::{
    frame_input, sync_texture, upload_frame_native, upload_frame_wasm, FrameMailbox, SyncOutcome,
    WebcamState,
};
use bevy_webcam::texture::{
    checked_byte_len, frame_texture_format, write_frame_to_image, Extent, TextureFormat,
    TextureImage,
};
use bevy_webcam::worker::{CaptureAction, CaptureEvent, CaptureWorker, WorkerState};

fn ext(width: u32, height: u32) -> Extent {
    Extent { width, height }
}

fn solid_rgb(width: u32, height: u32, v: u8) -> Vec<u8> {
    vec![v; (width * height * 3) as usize]
}

fn rgba_frame(width: u32, height: u32, v: u8) -> Frame {
    Frame::new(vec![v; (width * height * 4) as usize], ext(width, height)).unwrap()
}

#[test]
fn rgb_to_rgba_appends_opaque_alpha() {
    let out = rgb_to_rgba(&[1, 2, 3, 4, 5, 6]);
    assert_eq!(out, vec![1, 2, 3, 255, 4, 5, 6, 255]);
}

#[test]
fn rgb_to_rgba_empty() {
    assert_eq!(rgb_to_rgba(&[]), Vec::<u8>::new());
}

#[test]
fn rgb_to_rgba_length_is_four_thirds() {
    let rgb: Vec<u8> = (0..30u8).collect();
    let out = rgb_to_rgba(&rgb);
    assert_eq!(out.len(), 40);
    for p in 0..10 {
        assert_eq!(&out[4 * p..4 * p + 4], &[rgb[3 * p], rgb[3 * p + 1], rgb[3 * p + 2], 255]);
    }
}

#[test]
fn frame_from_rgb_checks_length() {
    assert!(Frame::from_rgb(&[0u8; 5], 1, 2).is_none());
    assert!(Frame::from_rgb(&[0u8; 6], 2, 2).is_none());
    let f = Frame::from_rgb(&[9, 8, 7, 6, 5, 4], 2, 1).unwrap();
    assert_eq!(f.size(), ext(2, 1));
    assert_eq!(f.pixels(), &[9, 8, 7, 255, 6, 5, 4, 255]);
}

#[test]
fn frame_new_checks_length() {
    assert!(Frame::new(vec![0u8; 7], ext(1, 2)).is_none());
    let (pixels, size) = Frame::new(vec![1u8; 8], ext(1, 2)).unwrap().into_parts();
    assert_eq!(pixels, vec![1u8; 8]);
    assert_eq!(size, ext(1, 2));
}

#[test]
fn checked_byte_len_values() {
    assert_eq!(checked_byte_len(ext(1280, 720)), Some(1280 * 720 * 4));
    assert_eq!(checked_byte_len(ext(0, 5)), Some(0));
}

#[test]
fn texture_format_follows_flag() {
    assert_eq!(frame_texture_format(true), TextureFormat::Rgba8UnormSrgb);
    assert_eq!(frame_texture_format(false), TextureFormat::Rgba8Unorm);
}

#[test]
fn new_fill_is_zeroed() {
    let t = TextureImage::new_fill(ext(2, 3), TextureFormat::Rgba8Unorm);
    assert_eq!(t.size, ext(2, 3));
    assert_eq!(t.data, Some(vec![0u8; 24]));
}

#[test]
fn resize_cuts_and_zero_extends() {
    let mut t = TextureImage { size: ext(1, 1), format: TextureFormat::Rgba8Unorm, data: Some(vec![7u8; 4]) };
    t.resize(ext(2, 1));
    assert_eq!(t.data, Some(vec![7, 7, 7, 7, 0, 0, 0, 0]));
    t.resize(ext(1, 0));
    assert_eq!(t.data, Some(vec![]));
    assert_eq!(t.size, ext(1, 0));
    let mut gpu_only = TextureImage { size: ext(1, 1), format: TextureFormat::Rgba8Unorm, data: None };
    gpu_only.resize(ext(4, 4));
    assert_eq!(gpu_only.data, None);
}

#[test]
fn write_frame_resizes_and_switches_format() {
    let mut t = TextureImage::new_fill(ext(1, 1), TextureFormat::Rgba8Unorm);
    write_frame_to_image(&mut t, ext(2, 1), vec![3u8; 8], TextureFormat::Rgba8UnormSrgb);
    assert_eq!(t.size, ext(2, 1));
    assert_eq!(t.format, TextureFormat::Rgba8UnormSrgb);
    assert_eq!(t.data, Some(vec![3u8; 8]));
}

#[test]
fn drain_keeps_only_latest_frame() {
    let (tx, rx) = frame_channel();
    for v in 1..=3u8 {
        assert_eq!(tx.publish(rgba_frame(1, 1, v)).0, PublishOutcome::Delivered);
    }
    let latest = rx.drain_latest().0.unwrap();
    assert_eq!(latest.pixels(), &[3u8; 4]);
    assert!(rx.drain_latest().0.is_none());
}

#[test]
fn drain_of_empty_channel_is_none() {
    let (_tx, rx) = frame_channel();
    assert!(rx.drain_latest().0.is_none());
}

#[test]
fn publish_after_consumer_dropped_disconnects() {
    let (tx, rx) = frame_channel();
    drop(rx);
    assert_eq!(tx.publish(rgba_frame(1, 1, 0)).0, PublishOutcome::Disconnected);
}

#[test]
fn sync_without_frame_is_idempotent() {
    let mut state = WebcamState { is_srgb: true, resolution: ext(1, 1) };
    let mut texture = Some(TextureImage::new_fill(ext(1, 1), TextureFormat::Rgba8UnormSrgb));
    let o = sync_texture(&mut state, &mut texture, Some(rgba_frame(2, 2, 5)));
    assert_eq!(o, SyncOutcome::Resized { from: ext(1, 1), to: ext(2, 2) });
    let before = texture.as_ref().unwrap().data.clone();
    assert_eq!(sync_texture(&mut state, &mut texture, None), SyncOutcome::NoFrame);
    assert_eq!(sync_texture(&mut state, &mut texture, None), SyncOutcome::NoFrame);
    let t = texture.unwrap();
    assert_eq!(t.data, before);
    assert_eq!(t.size, ext(2, 2));
}

#[test]
fn sync_resizes_to_incoming_frame() {
    let mut state = WebcamState { is_srgb: true, resolution: ext(640, 480) };
    let mut texture = Some(TextureImage::new_fill(ext(640, 480), TextureFormat::Rgba8UnormSrgb));
    let o = sync_texture(&mut state, &mut texture, Some(rgba_frame(1280, 720, 1)));
    assert_eq!(o, SyncOutcome::Resized { from: ext(640, 480), to: ext(1280, 720) });
    let t = texture.unwrap();
    assert_eq!(t.size, ext(1280, 720));
    assert_eq!(t.data.unwrap().len(), 1280 * 720 * 4);
    assert_eq!(state.resolution, ext(1280, 720));
}

#[test]
fn sync_same_extent_updates_and_switches_format() {
    let mut state = WebcamState { is_srgb: false, resolution: ext(1, 1) };
    let mut texture = Some(TextureImage::new_fill(ext(1, 1), TextureFormat::Rgba8UnormSrgb));
    let o = sync_texture(&mut state, &mut texture, Some(rgba_frame(1, 1, 4)));
    assert_eq!(o, SyncOutcome::Updated);
    let t = texture.unwrap();
    assert_eq!(t.format, TextureFormat::Rgba8Unorm);
    assert_eq!(t.data, Some(vec![4u8; 4]));
}

#[test]
fn sync_with_missing_texture_skips() {
    let mut state = WebcamState { is_srgb: true, resolution: ext(1, 1) };
    let mut texture: Option<TextureImage> = None;
    let o = sync_texture(&mut state, &mut texture, Some(rgba_frame(2, 2, 1)));
    assert_eq!(o, SyncOutcome::MissingTexture);
    assert!(texture.is_none());
    assert_eq!(state.resolution, ext(1, 1));
}

#[test]
fn mailbox_keeps_latest_delivery() {
    let mut mailbox = FrameMailbox::new();
    assert!(frame_input(&mut mailbox, &[1u8; 4], 1, 1));
    assert!(frame_input(&mut mailbox, &[2u8; 4], 1, 1));
    assert!(frame_input(&mut mailbox, &[3u8; 8], 2, 1));
    assert!(!frame_input(&mut mailbox, &[4u8; 5], 1, 1));
    let mut state = WebcamState { is_srgb: true, resolution: ext(1, 1) };
    let mut texture = Some(TextureImage::new_fill(ext(1, 1), TextureFormat::Rgba8UnormSrgb));
    let o = upload_frame_wasm(&mut state, &mut mailbox, &mut texture);
    assert_eq!(o, SyncOutcome::Resized { from: ext(1, 1), to: ext(2, 1) });
    assert_eq!(texture.as_ref().unwrap().data, Some(vec![3u8; 8]));
    assert!(mailbox.take().is_none());
    assert_eq!(upload_frame_wasm(&mut state, &mut mailbox, &mut texture), SyncOutcome::NoFrame);
}

#[test]
fn worker_backs_off_after_failed_reads_and_decodes() {
    let (tx, _rx) = frame_channel();
    let mut worker = CaptureWorker::new(tx);
    assert_eq!(worker.on_event(CaptureEvent::ReadFailed), CaptureAction::Backoff { millis: 16 });
    assert_eq!(worker.on_event(CaptureEvent::DecodeFailed), CaptureAction::Backoff { millis: 16 });
    let bad = CaptureEvent::Decoded { rgb: vec![0u8; 5], width: 1, height: 2 };
    assert_eq!(worker.on_event(bad), CaptureAction::Backoff { millis: 16 });
    assert_eq!(worker.state(), WorkerState::Running);
}

#[test]
fn worker_stops_once_consumer_is_gone() {
    let (tx, rx) = frame_channel();
    let mut worker = CaptureWorker::new(tx);
    let ev = CaptureEvent::Decoded { rgb: solid_rgb(2, 2, 1), width: 2, height: 2 };
    assert_eq!(worker.on_event(ev), CaptureAction::ReadNext);
    drop(rx);
    let ev = CaptureEvent::Decoded { rgb: solid_rgb(2, 2, 1), width: 2, height: 2 };
    assert_eq!(worker.on_event(ev), CaptureAction::Stop);
    assert_eq!(worker.state(), WorkerState::Stopped);
    assert_eq!(worker.on_event(CaptureEvent::ReadFailed), CaptureAction::Stop);
}

#[test]
fn permission_replies_map_to_errors() {
    assert_eq!(permission_outcome(Some(true)), Ok(()));
    assert_eq!(permission_outcome(Some(false)), Err(DeviceError::PermissionDenied));
    assert_eq!(permission_outcome(None), Err(DeviceError::Unavailable));
}

#[test]
fn denied_permission_never_reaches_spawn() {
    let mut phase = startup_begin(true);
    assert_eq!(phase, StartupPhase::AwaitPermission);
    phase = startup_step(phase, StartupEvent::Permission(Some(false)));
    assert_eq!(phase, StartupPhase::Failed(DeviceError::PermissionDenied));
    for ev in [StartupEvent::DeviceOpened, StartupEvent::WorkerSpawned, StartupEvent::Permission(Some(true))] {
        phase = startup_step(phase, ev);
        assert_eq!(phase, StartupPhase::Failed(DeviceError::PermissionDenied));
    }
}

#[test]
fn startup_runs_in_order() {
    let mut phase = startup_begin(false);
    assert_eq!(phase, StartupPhase::OpenDevice);
    assert_eq!(startup_step(phase, StartupEvent::WorkerSpawned), StartupPhase::OpenDevice);
    phase = startup_step(phase, StartupEvent::DeviceOpened);
    assert_eq!(phase, StartupPhase::SpawnWorker);
    phase = startup_step(phase, StartupEvent::WorkerSpawned);
    assert_eq!(phase, StartupPhase::Ready);
    let failed = startup_step(StartupPhase::OpenDevice, StartupEvent::DeviceFailed(DeviceError::FormatNegotiationFailed));
    assert_eq!(failed, StartupPhase::Failed(DeviceError::FormatNegotiationFailed));
}

#[test]
fn default_config() {
    let p = BevyWebcamPlugin::default();
    assert!(matches!(p.camera_index, CameraIndex::Index(0)));
    assert_eq!(p.requested_format_type, RequestedFormatType::AbsoluteHighestFrameRate);
    assert!(p.is_srgb);
}

#[test]
fn end_to_end_three_frames() {
    let config = BevyWebcamPlugin::default();
    let (tx, rx) = frame_channel();
    let mut worker = CaptureWorker::new(tx);
    let mut third: Vec<u8> = Vec::new();
    for k in 0..3u8 {
        let rgb: Vec<u8> = (0..320 * 240 * 3).map(|i| ((i % 251) as u8).wrapping_add(k)).collect();
        if k == 2 {
            third = rgb.clone();
        }
        let ev = CaptureEvent::Decoded { rgb, width: 320, height: 240 };
        assert_eq!(worker.on_event(ev), CaptureAction::ReadNext);
    }
    let mut state = WebcamState { is_srgb: config.is_srgb, resolution: ext(1, 1) };
    let mut texture = Some(TextureImage::new_fill(ext(1, 1), frame_texture_format(config.is_srgb)));
    let (arrived, o) = upload_frame_native(&mut state, &rx, &mut texture);
    assert_eq!(arrived, Some(ext(320, 240)));
    assert_eq!(o, SyncOutcome::Resized { from: ext(1, 1), to: ext(320, 240) });
    let t = texture.unwrap();
    assert_eq!(t.size, ext(320, 240));
    assert_eq!(t.format, TextureFormat::Rgba8UnormSrgb);
    assert_eq!(t.data, Some(rgb_to_rgba(&third)));
}
