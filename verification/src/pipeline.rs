//! The whole pipeline: decode every input in order, then pack the decoded
//! images into one atlas.

use vstd::prelude::*;
use crate::atlas::{grid_of, pack_imgs, packed, CompositorError};
use crate::decode::{decode_img, decoded_image, DecodeError, Failure};
use crate::layout::Grid;
use crate::raster::{Image, ImageView};

verus! {

/// Why a sequence of inputs could not be turned into an atlas.
#[derive(Clone, Debug, PartialEq, Eq)]
pub enum PackError {
    /// Input number `index` could not be decoded.
    Decode { index: usize, error: DecodeError },
    /// Every input was decoded, but the images could not be packed.
    Grid(CompositorError),
}

/// The mathematical content of a [`PackError`].
pub enum PackFailure {
    Decode { index: usize, error: Failure },
    Grid(CompositorError),
}

impl View for PackError {
    type V = PackFailure;

    open spec fn view(&self) -> PackFailure {
        match self {
            PackError::Decode { index, error } => PackFailure::Decode {
                index: *index,
                error: error@,
            },
            PackError::Grid(e) => PackFailure::Grid(*e),
        }
    }
}

/// The byte sequences that `encoded` holds.
pub open spec fn inputs_of(encoded: Seq<Vec<u8>>) -> Seq<Seq<u8>> {
    encoded.map_values(|bytes: Vec<u8>| bytes@)
}

/// Index of the first input at or after `from` that cannot be decoded; the
/// number of inputs if there is none.
pub open spec fn first_failure(inputs: Seq<Seq<u8>>, prefer_fast: bool, from: int) -> int
    decreases inputs.len() - from,
{
    if from < 0 || from >= inputs.len() {
        inputs.len() as int
    } else if decoded_image(inputs[from], prefer_fast) is Err {
        from
    } else {
        first_failure(inputs, prefer_fast, from + 1)
    }
}

/// The images that the inputs decode to, in the inputs' order.
pub open spec fn decoded_tiles(inputs: Seq<Seq<u8>>, prefer_fast: bool) -> Seq<ImageView> {
    Seq::new(inputs.len(), |i: int| decoded_image(inputs[i], prefer_fast)->Ok_0)
}

/// What decoding `inputs` and packing the images in `columns` columns gives,
/// where no length may be more than `limit`: the error of the first input
/// that cannot be decoded, with its index; else what packing gives.
pub open spec fn decoded_and_packed(
    inputs: Seq<Seq<u8>>,
    columns: int,
    prefer_fast: bool,
    limit: int,
) -> Result<ImageView, PackFailure> {
    let failed = first_failure(inputs, prefer_fast, 0);
    if failed < inputs.len() {
        Err(
            PackFailure::Decode {
                index: failed as usize,
                error: decoded_image(inputs[failed], prefer_fast)->Err_0,
            },
        )
    } else {
        match packed(Grid { tiles: decoded_tiles(inputs, prefer_fast), columns }, limit) {
            Ok(atlas) => Ok(atlas),
            Err(e) => Err(PackFailure::Grid(e)),
        }
    }
}

/// What `first_failure` finds from `from` on is the first input there that
/// cannot be decoded: every input between `from` and it can, and it cannot,
/// unless it is past the last input.
pub proof fn lemma_first_failure_is_first(inputs: Seq<Seq<u8>>, prefer_fast: bool, from: int)
    requires
        0 <= from <= inputs.len(),
    ensures
        from <= first_failure(inputs, prefer_fast, from) <= inputs.len(),
        forall|i: int|
            from <= i < first_failure(inputs, prefer_fast, from) ==> decoded_image(
                #[trigger] inputs[i],
                prefer_fast,
            ) is Ok,
        first_failure(inputs, prefer_fast, from) < inputs.len() ==> decoded_image(
            inputs[first_failure(inputs, prefer_fast, from)],
            prefer_fast,
        ) is Err,
    decreases inputs.len() - from,
{
    if from < inputs.len() && decoded_image(inputs[from], prefer_fast) is Ok {
        lemma_first_failure_is_first(inputs, prefer_fast, from + 1);
    }
}

/// One input that cannot be decoded fails the whole call: the result is the
/// error of the first such input, and no atlas.
pub proof fn lemma_one_failure_fails_all(
    inputs: Seq<Seq<u8>>,
    columns: int,
    prefer_fast: bool,
    limit: int,
    i: int,
)
    requires
        inputs.len() <= usize::MAX,
        0 <= i < inputs.len(),
        decoded_image(inputs[i], prefer_fast) is Err,
    ensures
        decoded_and_packed(inputs, columns, prefer_fast, limit) matches Err(
            PackFailure::Decode { index, error },
        ) && index <= i && decoded_image(inputs[index as int], prefer_fast) == Err::<
            ImageView,
            Failure,
        >(error),
{
    lemma_first_failure_is_first(inputs, prefer_fast, 0);
}

/// Decodes every input, in order, and packs the images into one atlas of
/// `num_imgs_col` columns. The first input that cannot be decoded ends the
/// call with its error; no part of an atlas is returned then.
pub fn decode_pack_imgs(encoded: &Vec<Vec<u8>>, num_imgs_col: usize, use_fast_jpeg: bool) -> (r:
    Result<Image, PackError>)
    ensures
        match r {
            Ok(atlas) => decoded_and_packed(
                inputs_of(encoded@),
                num_imgs_col as int,
                use_fast_jpeg,
                usize::MAX as int,
            ) == Ok::<ImageView, PackFailure>(atlas@),
            Err(e) => decoded_and_packed(
                inputs_of(encoded@),
                num_imgs_col as int,
                use_fast_jpeg,
                usize::MAX as int,
            ) == Err::<ImageView, PackFailure>(e@),
        },
        r matches Ok(atlas) ==> atlas@.wf(),
{
    let ghost inputs = inputs_of(encoded@);
    let n: usize = encoded.len();
    let mut images: Vec<Image> = Vec::new();
    let mut i: usize = 0;
    while i < n
        invariant
            i <= n,
            n == encoded@.len(),
            inputs == inputs_of(encoded@),
            images@.len() == i,
            first_failure(inputs, use_fast_jpeg, 0) == first_failure(inputs, use_fast_jpeg, i as int),
            forall|j: int|
                0 <= j < i ==> decoded_image(#[trigger] inputs[j], use_fast_jpeg) == Ok::<
                    ImageView,
                    Failure,
                >(images@[j]@),
        decreases n - i,
    {
        match decode_img(&encoded[i], use_fast_jpeg) {
            Ok(img) => {
                images.push(img);
            },
            Err(error) => {
                return Err(PackError::Decode { index: i, error });
            },
        }
        i += 1;
    }
    proof {
        assert(grid_of(images@, num_imgs_col as int).tiles =~= decoded_tiles(inputs, use_fast_jpeg));
    }
    match pack_imgs(images.as_slice(), num_imgs_col) {
        Ok(atlas) => Ok(atlas),
        Err(e) => Err(PackError::Grid(e)),
    }
}

} // verus!
