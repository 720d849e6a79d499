//! Consumer-side texture synchronisation, run once per render tick.
use vstd::prelude::*;
use crate::channel::FrameReceiver;
use crate::frame::Frame;
use crate::texture::{
    byte_len, format_for, frame_texture_format, write_frame_to_image, Extent, TextureImage,
    TextureModel,
};

verus! {

/// Consumer-side settings and the extent of the last frame written.
#[derive(Clone, Copy, Debug, PartialEq, Eq, Structural)]
pub struct WebcamState {
    pub is_srgb: bool,
    pub resolution: Extent,
}

/// What one sync did.
#[derive(Clone, Copy, Debug, PartialEq, Eq, Structural)]
pub enum SyncOutcome {
    /// No frame arrived; nothing changed.
    NoFrame,
    /// A frame arrived but the texture is gone; nothing changed.
    MissingTexture,
    /// The frame was written at the texture's extent.
    Updated,
    /// The frame was written after resizing the texture from `from` to `to`.
    Resized { from: Extent, to: Extent },
}

/// The texture as a value, `None` where the host has no texture for the handle.
pub open spec fn texture_model(t: Option<TextureImage>) -> Option<TextureModel> {
    match t {
        Some(img) => Some(img@),
        None => None,
    }
}

/// The texture after a sync with `latest`.
pub open spec fn synced(t: Option<TextureModel>, latest: Option<Frame>, is_srgb: bool) -> Option<
    TextureModel,
> {
    match (t, latest) {
        (Some(_), Some(f)) => Some(
            TextureModel { size: f.extent(), format: format_for(is_srgb), data: Some(f.bytes()) },
        ),
        _ => t,
    }
}

/// What a sync with `latest` reports.
pub open spec fn sync_outcome(t: Option<TextureModel>, latest: Option<Frame>) -> SyncOutcome {
    match (t, latest) {
        (_, None) => SyncOutcome::NoFrame,
        (None, Some(_)) => SyncOutcome::MissingTexture,
        (Some(m), Some(f)) => if m.size == f.extent() {
            SyncOutcome::Updated
        } else {
            SyncOutcome::Resized { from: m.size, to: f.extent() }
        },
    }
}

/// The consumer state after a sync with `latest`.
pub open spec fn synced_state(s: WebcamState, t: Option<TextureModel>, latest: Option<Frame>) -> WebcamState {
    match (t, latest) {
        (Some(_), Some(f)) => WebcamState { is_srgb: s.is_srgb, resolution: f.extent() },
        _ => s,
    }
}

/// Writes `latest`, if any, into the texture, resizing it and switching its
/// format to the one `state.is_srgb` selects where they differ.
pub fn sync_texture(state: &mut WebcamState, texture: &mut Option<TextureImage>, latest: Option<Frame>) -> (o: SyncOutcome)
    ensures
        texture_model(*final(texture)) == synced(texture_model(*old(texture)), latest, old(state).is_srgb),
        o == sync_outcome(texture_model(*old(texture)), latest),
        *final(state) == synced_state(*old(state), texture_model(*old(texture)), latest),
{
    let frame = match latest {
        Some(f) => f,
        None => { return SyncOutcome::NoFrame; },
    };
    match texture {
        Some(image) => {
            let format = frame_texture_format(state.is_srgb);
            let from = image.size;
            let (pixels, extent) = frame.into_parts();
            write_frame_to_image(image, extent, pixels, format);
            state.resolution = extent;
            if from == extent {
                SyncOutcome::Updated
            } else {
                SyncOutcome::Resized { from, to: extent }
            }
        },
        None => SyncOutcome::MissingTexture,
    }
}

/// Texture sync with no new frame changes nothing, so syncing again after a
/// sync with no frame in between leaves the texture as the first sync left it.
pub proof fn lemma_sync_idempotent(t: Option<TextureModel>, latest: Option<Frame>, is_srgb: bool)
    ensures
        synced(synced(t, latest, is_srgb), None, is_srgb) == synced(t, latest, is_srgb),
        synced(t, None, is_srgb) == t,
{
}

/// After a sync that writes a frame, the texture has the frame's extent and
/// four bytes per pixel of it, whatever extent it had before.
pub proof fn lemma_sync_resizes(t: TextureModel, f: Frame, is_srgb: bool)
    requires
        f.bytes().len() == byte_len(f.extent()),
    ensures
        ({
            let m = synced(Some(t), Some(f), is_srgb);
            &&& m is Some
            &&& m.unwrap().size == f.extent()
            &&& m.unwrap().data is Some
            &&& m.unwrap().data.unwrap().len() == f.extent().width * f.extent().height * 4
        }),
{
}

/// The single-slot mailbox that frames are delivered to where no capture
/// thread exists: a delivery replaces whatever frame was waiting.
pub struct FrameMailbox {
    pub slot: Option<Frame>,
}

impl FrameMailbox {
    /// An empty mailbox.
    pub fn new() -> (m: FrameMailbox)
        ensures
            m.slot is None,
    {
        FrameMailbox { slot: None }
    }

    /// Takes the waiting frame, leaving the mailbox empty.
    pub fn take(&mut self) -> (r: Option<Frame>)
        ensures
            r == old(self).slot,
            final(self).slot is None,
    {
        self.slot.take()
    }
}

/// Delivers an RGBA frame of `width` by `height` pixels into the mailbox,
/// replacing any waiting frame. A buffer whose length does not match the
/// extent is refused and leaves the mailbox as it was; the result says
/// whether the frame was taken.
pub fn frame_input(mailbox: &mut FrameMailbox, pixel_data: &[u8], width: u32, height: u32) -> (r: bool)
    ensures
        r == (pixel_data@.len() == byte_len(Extent { width, height })),
        r ==> (final(mailbox).slot matches Some(f) && f.bytes() == pixel_data@ && f.extent() == (Extent { width, height })),
        !r ==> final(mailbox).slot == old(mailbox).slot,
{
    let mut pixels: Vec<u8> = Vec::new();
    pixels.extend_from_slice(pixel_data);
    assert(pixels@ =~= pixel_data@);
    match Frame::new(pixels, Extent { width, height }) {
        Some(f) => {
            mailbox.slot = Some(f);
            true
        },
        None => false,
    }
}

/// One render tick with a capture thread: drains the channel to its newest
/// frame and syncs the texture with it. Which frame arrives is up to the
/// capture thread; whatever it is, the texture, the outcome and the state are
/// those of a sync with it, and the extent returned is its extent.
pub fn upload_frame_native(state: &mut WebcamState, receiver: &FrameReceiver, texture: &mut Option<TextureImage>) -> (r: (Option<Extent>, SyncOutcome))
    ensures
        exists|latest: Option<Frame>|
            #![trigger synced(texture_model(*old(texture)), latest, old(state).is_srgb)]
            {
                &&& texture_model(*final(texture)) == synced(texture_model(*old(texture)), latest, old(state).is_srgb)
                &&& r.1 == sync_outcome(texture_model(*old(texture)), latest)
                &&& *final(state) == synced_state(*old(state), texture_model(*old(texture)), latest)
                &&& r.0 == match latest {
                    Some(f) => Some(f.extent()),
                    None => None::<Extent>,
                }
                &&& latest matches Some(f) ==> f.bytes().len() == byte_len(f.extent())
            },
{
    let (latest, Ghost(_got)) = receiver.drain_latest();
    let ghost l = latest;
    let arrived = match &latest {
        Some(f) => Some(f.size()),
        None => None,
    };
    let o = sync_texture(state, texture, latest);
    assert(synced(texture_model(*old(texture)), l, old(state).is_srgb) == texture_model(*texture));
    (arrived, o)
}

/// One render tick without a capture thread: takes the mailbox's frame and
/// syncs the texture with it.
pub fn upload_frame_wasm(state: &mut WebcamState, mailbox: &mut FrameMailbox, texture: &mut Option<TextureImage>) -> (o: SyncOutcome)
    ensures
        final(mailbox).slot is None,
        texture_model(*final(texture)) == synced(texture_model(*old(texture)), old(mailbox).slot, old(state).is_srgb),
        o == sync_outcome(texture_model(*old(texture)), old(mailbox).slot),
        *final(state) == synced_state(*old(state), texture_model(*old(texture)), old(mailbox).slot),
{
    let latest = mailbox.take();
    sync_texture(state, texture, latest)
}

} // verus!
