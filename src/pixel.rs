//! Conversion of packed 3-channel pixels into the renderer's 4-channel layout.
use vstd::prelude::*;

verus! {

/// Alpha value given to every converted pixel: fully opaque.
pub const OPAQUE_ALPHA: u8 = 255;

/// `rgba` is `rgb` with an opaque alpha byte appended after each triplet.
pub open spec fn is_rgba_expansion(rgb: Seq<u8>, rgba: Seq<u8>) -> bool {
    &&& rgba.len() == rgb.len() / 3 * 4
    &&& forall|p: int|
        #![trigger rgba[4 * p]]
        0 <= p < rgb.len() / 3 ==> {
            &&& rgba[4 * p] == rgb[3 * p]
            &&& rgba[4 * p + 1] == rgb[3 * p + 1]
            &&& rgba[4 * p + 2] == rgb[3 * p + 2]
            &&& rgba[4 * p + 3] == OPAQUE_ALPHA
        }
}

/// Expands a packed, row-major RGB buffer to RGBA with full opacity.
/// The input must hold whole pixels only.
pub fn rgb_to_rgba(rgb: &[u8]) -> (rgba: Vec<u8>)
    requires
        rgb@.len() % 3 == 0,
        rgb@.len() / 3 * 4 <= usize::MAX,
    ensures
        is_rgba_expansion(rgb@, rgba@),
{
    let n: usize = rgb.len();
    let pixels: usize = n / 3;
    let mut rgba: Vec<u8> = Vec::with_capacity(pixels * 4);
    let mut p: usize = 0;
    while p < pixels
        invariant
            n == rgb@.len(),
            pixels == rgb@.len() / 3,
            rgb@.len() % 3 == 0,
            p <= pixels,
            rgba@.len() == 4 * p,
            forall|q: int|
                #![trigger rgba@[4 * q]]
                0 <= q < p ==> {
                    &&& rgba@[4 * q] == rgb@[3 * q]
                    &&& rgba@[4 * q + 1] == rgb@[3 * q + 1]
                    &&& rgba@[4 * q + 2] == rgb@[3 * q + 2]
                    &&& rgba@[4 * q + 3] == OPAQUE_ALPHA
                },
        decreases pixels - p,
    {
        assert(3 * p + 3 <= rgb@.len()) by (nonlinear_arith)
            requires
                p < pixels,
                pixels == rgb@.len() / 3,
                rgb@.len() % 3 == 0,
        ;
        let ghost before = rgba@;
        let base: usize = 3 * p;
        rgba.push(rgb[base]);
        rgba.push(rgb[base + 1]);
        rgba.push(rgb[base + 2]);
        rgba.push(OPAQUE_ALPHA);
        proof {
            assert forall|q: int|
                #![trigger rgba@[4 * q]]
                0 <= q < p + 1 implies {
                    &&& rgba@[4 * q] == rgb@[3 * q]
                    &&& rgba@[4 * q + 1] == rgb@[3 * q + 1]
                    &&& rgba@[4 * q + 2] == rgb@[3 * q + 2]
                    &&& rgba@[4 * q + 3] == OPAQUE_ALPHA
                } by {
                if q < p as int {
                    assert(rgba@[4 * q] == before[4 * q]);
                    assert(rgba@[4 * q + 1] == before[4 * q + 1]);
                    assert(rgba@[4 * q + 2] == before[4 * q + 2]);
                    assert(rgba@[4 * q + 3] == before[4 * q + 3]);
                }
            }
        }
        p = p + 1;
    }
    rgba
}

} // verus!
