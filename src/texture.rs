//! The render-visible texture: extent, pixel format and raw byte contents.
use vstd::prelude::*;

verus! {

/// Bytes taken by one pixel in either of the texture formats used here.
pub const BYTES_PER_PIXEL: u32 = 4;

/// Pixel format of a texture: 8-bit RGBA, linear or gamma-encoded.
#[derive(Clone, Copy, Debug, PartialEq, Eq, Structural)]
pub enum TextureFormat {
    Rgba8Unorm,
    Rgba8UnormSrgb,
}

/// Width and height of a two-dimensional texture or frame, in pixels.
#[derive(Clone, Copy, Debug, PartialEq, Eq, Structural)]
pub struct Extent {
    pub width: u32,
    pub height: u32,
}

/// Number of bytes that an RGBA image of extent `e` holds.
pub open spec fn byte_len(e: Extent) -> nat {
    e.width as nat * e.height as nat * BYTES_PER_PIXEL as nat
}

/// The format that the colour-space flag selects.
pub open spec fn format_for(is_srgb: bool) -> TextureFormat {
    if is_srgb {
        TextureFormat::Rgba8UnormSrgb
    } else {
        TextureFormat::Rgba8Unorm
    }
}

/// Texture format for the colour-space flag: gamma-encoded when `is_srgb`.
pub fn frame_texture_format(is_srgb: bool) -> (f: TextureFormat)
    ensures
        f == format_for(is_srgb),
{
    if is_srgb {
        TextureFormat::Rgba8UnormSrgb
    } else {
        TextureFormat::Rgba8Unorm
    }
}

/// Byte length of an RGBA image of extent `e`, or `None` where it does not fit in `usize`.
pub fn checked_byte_len(e: Extent) -> (r: Option<usize>)
    ensures
        r matches Some(n) ==> n as nat == byte_len(e),
        r is None <==> byte_len(e) > usize::MAX,
{
    let w: u128 = e.width as u128;
    let h: u128 = e.height as u128;
    assert(w * h * 4 <= 0x4_0000_0000_0000_0000) by (nonlinear_arith)
        requires
            w <= 0xffff_ffff,
            h <= 0xffff_ffff,
    ;
    let n: u128 = w * h * 4;
    if n <= usize::MAX as u128 {
        Some(n as usize)
    } else {
        None
    }
}

/// A texture resource as the host holds it: `data` is `None` when the host
/// keeps no CPU-side copy of the bytes.
pub struct TextureImage {
    pub size: Extent,
    pub format: TextureFormat,
    pub data: Option<Vec<u8>>,
}

/// What a texture is, as a value.
pub struct TextureModel {
    pub size: Extent,
    pub format: TextureFormat,
    pub data: Option<Seq<u8>>,
}

impl View for TextureImage {
    type V = TextureModel;

    open spec fn view(&self) -> TextureModel {
        TextureModel {
            size: self.size,
            format: self.format,
            data: match self.data {
                Some(d) => Some(d@),
                None => None,
            },
        }
    }
}

/// `d` is the byte buffer of `old_d` after a resize to `len` bytes: kept
/// as far as it reaches, then zero-filled.
pub open spec fn resized_bytes(old_d: Seq<u8>, len: nat, d: Seq<u8>) -> bool {
    &&& d.len() == len
    &&& forall|i: int| 0 <= i < len && i < old_d.len() ==> #[trigger] d[i] == old_d[i]
    &&& forall|i: int| old_d.len() <= i < len ==> #[trigger] d[i] == 0
}

impl TextureImage {
    /// A texture of extent `size` and format `format`, every byte zero.
    pub fn new_fill(size: Extent, format: TextureFormat) -> (t: TextureImage)
        requires
            byte_len(size) <= usize::MAX,
        ensures
            t.size == size,
            t.format == format,
            t.data matches Some(d) && d@ == Seq::new(byte_len(size), |i: int| 0u8),
    {
        let n: usize = match checked_byte_len(size) {
            Some(n) => n,
            None => 0,
        };
        let mut data: Vec<u8> = Vec::with_capacity(n);
        let mut i: usize = 0;
        while i < n
            invariant
                i <= n,
                data@.len() == i,
                forall|j: int| 0 <= j < i ==> #[trigger] data@[j] == 0u8,
            decreases n - i,
        {
            data.push(0u8);
            i = i + 1;
        }
        assert(data@ =~= Seq::new(byte_len(size), |i: int| 0u8));
        TextureImage { size, format, data: Some(data) }
    }

    /// Sets the extent; a CPU-side byte buffer is cut or zero-extended to match it.
    pub fn resize(&mut self, size: Extent)
        requires
            byte_len(size) <= usize::MAX,
        ensures
            final(self).size == size,
            final(self).format == old(self).format,
            old(self).data is None ==> final(self).data is None,
            old(self).data matches Some(od) ==> (final(self).data matches Some(d) && resized_bytes(
                od@,
                byte_len(size),
                d@,
            )),
    {
        self.size = size;
        let n: usize = match checked_byte_len(size) {
            Some(n) => n,
            None => 0,
        };
        match &mut self.data {
            Some(d) => {
                d.resize(n, 0u8);
            },
            None => {},
        }
    }
}

/// Writes an RGBA buffer into the texture, first resizing it to `extent` and
/// switching it to `format` where they differ.
pub fn write_frame_to_image(
    image: &mut TextureImage,
    extent: Extent,
    pixels: Vec<u8>,
    format: TextureFormat,
)
    requires
        pixels@.len() == byte_len(extent),
    ensures
        final(image).size == extent,
        final(image).format == format,
        final(image)@.data == Some(pixels@),
{
    let len: usize = pixels.len();
    assert(byte_len(extent) == len);
    if image.size != extent {
        image.resize(extent);
    }
    if image.format != format {
        image.format = format;
    }
    image.data = Some(pixels);
}

} // verus!
