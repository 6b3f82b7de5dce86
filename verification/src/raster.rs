//! The decoded image: an owned RGBA8 pixel buffer with its dimensions.

use vstd::prelude::*;

verus! {

/// Number of bytes that one RGBA8 texel occupies.
pub const CHANNELS: usize = 4;

/// Number of bytes in a row-major RGBA8 buffer of `width` by `height` texels.
pub open spec fn rgba_len(width: int, height: int) -> int {
    width * height * 4
}

/// The mathematical content of an [`Image`].
pub struct ImageView {
    pub pixels: Seq<u8>,
    pub width: nat,
    pub height: nat,
}

impl ImageView {
    /// The buffer holds exactly one RGBA8 texel per position.
    pub open spec fn wf(self) -> bool {
        self.pixels.len() == rgba_len(self.width as int, self.height as int)
    }

    /// Index in `pixels` of channel `ch` of the texel in column `x` of row `y`.
    pub open spec fn offset(self, x: int, y: int, ch: int) -> int {
        (y * self.width + x) * 4 + ch
    }
}

/// A decoded image. Rows are stored top to bottom, texels left to right, each
/// texel as four bytes (red, green, blue, alpha).
///
/// The buffer always holds exactly `width * height * 4` bytes; no value of
/// this type exists for which that fails. Either dimension may be zero: the
/// buffer is then empty.
#[derive(Debug, PartialEq, Eq)]
pub struct Image {
    pixels: Vec<u8>,
    width: usize,
    height: usize,
}

impl View for Image {
    type V = ImageView;

    closed spec fn view(&self) -> ImageView {
        ImageView { pixels: self.pixels@, width: self.width as nat, height: self.height as nat }
    }
}

impl Clone for Image {
    fn clone(&self) -> (copy: Image)
        ensures
            copy@ == self@,
    {
        proof {
            use_type_invariant(self);
        }
        Image { pixels: self.pixels.clone(), width: self.width, height: self.height }
    }
}

impl Image {
    #[verifier::type_invariant]
    spec fn buffer_matches_dimensions(&self) -> bool {
        self.pixels@.len() == rgba_len(self.width as int, self.height as int)
    }

    /// Wraps `pixels` as an image of `width` by `height` texels. Returns `None`
    /// exactly when the buffer's length is not `width * height * 4`.
    pub fn new(pixels: Vec<u8>, width: usize, height: usize) -> (r: Option<Image>)
        ensures
            r is Some <==> pixels@.len() == rgba_len(width as int, height as int),
            r matches Some(img) ==> img@ == (ImageView {
                pixels: pixels@,
                width: width as nat,
                height: height as nat,
            }),
    {
        let len: usize = pixels.len();
        match rgba_bytes(width, height) {
            Some(bytes) => if bytes == len {
                Some(Image { pixels, width, height })
            } else {
                None
            },
            None => None,
        }
    }

    /// The dimensions and the buffer's length of any image are lengths.
    pub proof fn lemma_view_in_bounds(self)
        ensures
            self@.width <= usize::MAX,
            self@.height <= usize::MAX,
            self@.pixels.len() <= usize::MAX,
    {
        assert(self.pixels@.len() == self.pixels.len());
    }

    /// Wraps a buffer that is known to hold `width * height * 4` bytes.
    pub(crate) fn from_parts(pixels: Vec<u8>, width: usize, height: usize) -> (img: Image)
        requires
            pixels@.len() == rgba_len(width as int, height as int),
        ensures
            img@ == (ImageView { pixels: pixels@, width: width as nat, height: height as nat }),
    {
        Image { pixels, width, height }
    }

    /// Width in texels.
    pub fn width(&self) -> (w: usize)
        ensures
            w == self@.width,
            self@.wf(),
    {
        proof {
            use_type_invariant(self);
        }
        self.width
    }

    /// Height in texels.
    pub fn height(&self) -> (h: usize)
        ensures
            h == self@.height,
            self@.wf(),
    {
        proof {
            use_type_invariant(self);
        }
        self.height
    }

    /// The pixel bytes, row-major.
    pub fn pixels(&self) -> (p: &Vec<u8>)
        ensures
            p@ == self@.pixels,
            self@.wf(),
    {
        proof {
            use_type_invariant(self);
        }
        &self.pixels
    }

    /// Gives up the image and hands out its pixel buffer.
    pub fn into_pixels(self) -> (p: Vec<u8>)
        ensures
            p@ == self@.pixels,
            self@.wf(),
    {
        proof {
            use_type_invariant(&self);
        }
        self.pixels
    }
}

/// Number of bytes that a `width` by `height` RGBA8 buffer takes, or `None`
/// where that number is more than a length can be.
pub fn rgba_bytes(width: usize, height: usize) -> (r: Option<usize>)
    ensures
        r == if rgba_len(width as int, height as int) <= usize::MAX {
            Some(rgba_len(width as int, height as int) as usize)
        } else {
            None
        },
{
    proof {
        lemma_rgba_len_grows(width as int, height as int);
    }
    match width.checked_mul(height) {
        None => None,
        Some(texels) => texels.checked_mul(CHANNELS),
    }
}

/// The byte length of a buffer is at least its number of texels.
pub(crate) proof fn lemma_rgba_len_grows(width: int, height: int)
    requires
        0 <= width,
        0 <= height,
    ensures
        0 <= width * height <= rgba_len(width, height),
        rgba_len(width, height) == (width * height) * 4,
{
    assert(0 <= width * height) by (nonlinear_arith)
        requires
            0 <= width,
            0 <= height,
    ;
}

} // verus!
