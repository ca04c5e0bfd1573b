use vstd::prelude::*;
use std::collections::hash_map::DefaultHasher;
use std::hash::{Hash, Hasher};
use vstd::std_specs::hash::DefaultHasherAdditionalSpecFns;

verus! {

/// Pixels in one row of the picture.
pub const FRAME_WIDTH: usize = 256;

/// Rows of the picture.
pub const FRAME_HEIGHT: usize = 240;

/// Bytes of the picture: three for each pixel.
pub const FRAME_BYTES: usize = 184320;

/// A colour as three bytes.
#[derive(Clone, Copy, Debug, PartialEq, Eq, Structural)]
pub struct Color {
    pub r: u8,
    pub g: u8,
    pub b: u8,
}

/// One picture: red, green and blue of each pixel, row after row, and a mark
/// for each pixel.
#[derive(Clone, Copy, Debug)]
pub struct Frame {
    pub image: [u8; 184320],
    pub is_zero: [[bool; 256]; 240],
}

/// The writes that a hasher has received once the picture `image` was fed to
/// one that had received `before`.
pub uninterp spec fn hashed_image(before: Seq<Seq<u8>>, image: Seq<u8>) -> Seq<Seq<u8>>;

/// The hash of a picture: what a fresh hasher gives once the picture was fed to it.
pub open spec fn image_hash(image: Seq<u8>) -> u64 {
    DefaultHasher::spec_finish(hashed_image(Seq::empty(), image))
}

/// Where the three bytes of the pixel in column `x` of row `y` begin.
pub open spec fn pixel_index(x: int, y: int) -> int {
    (y * 256 + x) * 3
}

/// `Hash::hash` of the standard library, on an array of bytes: feeds the
/// picture to the hasher. Which writes that makes is left to the standard
/// library; they depend on the bytes and on what the hasher had received, and
/// on nothing else, which is all that is claimed here.
#[verifier::external_body]
fn hash_image(image: &[u8; 184320], state: &mut DefaultHasher)
    ensures
        final(state)@ == hashed_image(old(state)@, image@),
{
    image.hash(state);
}

impl Frame {
    /// A black picture with no pixel marked.
    pub fn new() -> (f: Frame)
        ensures
            forall|i: int| 0 <= i < 184320 ==> f.image[i] == 0,
            forall|y: int, x: int| 0 <= y < 240 && 0 <= x < 256 ==> !f.is_zero[y][x],
    {
        Frame { image: [0; 184320], is_zero: [[false; 256]; 240] }
    }

    /// Colours the pixel in column `x` of row `y`.
    pub fn set_pixel(&mut self, x: usize, y: usize, color: Color)
        requires
            y * 256 + x < 61440,
        ensures
            final(self).image@ == old(self).image@.update(pixel_index(x as int, y as int), color.r).update(
                pixel_index(x as int, y as int) + 1,
                color.g,
            ).update(pixel_index(x as int, y as int) + 2, color.b),
            final(self).is_zero == old(self).is_zero,
    {
        let index = (y * 256 + x) * 3;
        self.image[index] = color.r;
        self.image[index + 1] = color.g;
        self.image[index + 2] = color.b;
    }

    /// A hash of the picture. Pictures with the same bytes have the same hash.
    pub fn get_hash(&self) -> (h: u64)
        ensures
            h == image_hash(self.image@),
    {
        let mut hasher = DefaultHasher::new();
        hash_image(&self.image, &mut hasher);
        hasher.finish()
    }
}

impl Default for Frame {
    fn default() -> (f: Frame)
        ensures
            forall|i: int| 0 <= i < 184320 ==> f.image[i] == 0,
            forall|y: int, x: int| 0 <= y < 240 && 0 <= x < 256 ==> !f.is_zero[y][x],
    {
        Self::new()
    }
}

} // verus!
