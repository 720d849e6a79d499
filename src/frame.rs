//! A converted camera frame: RGBA bytes together with their extent.
use vstd::prelude::*;
use crate::pixel::{is_rgba_expansion, rgb_to_rgba};
use crate::texture::{byte_len, checked_byte_len, Extent};

verus! {

/// Bytes per pixel of the raw frames that the camera delivers (packed RGB).
pub const RAW_BYTES_PER_PIXEL: u32 = 3;

/// Number of bytes that a packed RGB image of extent `e` holds.
pub open spec fn raw_byte_len(e: Extent) -> nat {
    e.width as nat * e.height as nat * RAW_BYTES_PER_PIXEL as nat
}

/// An RGBA frame whose byte length always matches its extent.
pub struct Frame {
    pixels: Vec<u8>,
    size: Extent,
}

impl Frame {
    #[verifier::type_invariant]
    spec fn well_sized(self) -> bool {
        self.pixels@.len() == byte_len(self.size)
    }

    /// The frame's extent.
    pub closed spec fn extent(self) -> Extent {
        self.size
    }

    /// The frame's RGBA bytes, row-major.
    pub closed spec fn bytes(self) -> Seq<u8> {
        self.pixels@
    }

    /// A frame of the given RGBA bytes, or `None` where their length does not match `size`.
    pub fn new(pixels: Vec<u8>, size: Extent) -> (r: Option<Frame>)
        ensures
            r is Some <==> pixels@.len() == byte_len(size),
            r matches Some(f) ==> f.bytes() == pixels@ && f.extent() == size,
    {
        let len: usize = pixels.len();
        match checked_byte_len(size) {
            Some(n) => {
                if len == n {
                    Some(Frame { pixels, size })
                } else {
                    None
                }
            },
            None => None,
        }
    }

    /// Converts a packed RGB image of `width` by `height` pixels; `None` where
    /// the buffer does not hold exactly that many pixels or the RGBA result
    /// would not fit in memory.
    pub fn from_rgb(rgb: &[u8], width: u32, height: u32) -> (r: Option<Frame>)
        ensures
            r is Some <==> rgb@.len() == raw_byte_len(Extent { width, height }) && byte_len(
                Extent { width, height },
            ) <= usize::MAX,
            r matches Some(f) ==> f.extent() == (Extent { width, height }) && is_rgba_expansion(
                rgb@,
                f.bytes(),
            ),
    {
        let size = Extent { width, height };
        let n: usize = match checked_byte_len(size) {
            Some(n) => n,
            None => { return None; },
        };
        let w: u128 = width as u128;
        let h: u128 = height as u128;
        assert(w * h * 3 <= 0x3_0000_0000_0000_0000) by (nonlinear_arith)
            requires
                w <= 0xffff_ffff,
                h <= 0xffff_ffff,
        ;
        let raw: u128 = w * h * 3;
        if rgb.len() as u128 != raw {
            return None;
        }
        assert(raw / 3 * 4 == w * h * 4) by (nonlinear_arith)
            requires
                raw == w * h * 3,
        ;
        let pixels = rgb_to_rgba(rgb);
        Some(Frame { pixels, size })
    }

    /// The frame's extent.
    pub fn size(&self) -> (e: Extent)
        ensures
            e == self.extent(),
            self.bytes().len() == byte_len(e),
    {
        proof {
            use_type_invariant(self);
        }
        self.size
    }

    /// The frame's RGBA bytes.
    pub fn pixels(&self) -> (p: &[u8])
        ensures
            p@ == self.bytes(),
    {
        self.pixels.as_slice()
    }

    /// Takes the frame apart into its bytes and its extent.
    pub fn into_parts(self) -> (r: (Vec<u8>, Extent))
        ensures
            r.0@ == self.bytes(),
            r.1 == self.extent(),
            r.0@.len() == byte_len(r.1),
    {
        proof {
            use_type_invariant(&self);
        }
        (self.pixels, self.size)
    }
}

} // verus!
