//! From a picture to the model's input: resampling to the model's square
//! resolution, then normalisation into a channel-first tensor.

use crate::bitmap::{valid_bitmap, Image};
use crate::score::Score;
use crate::tensor::{normalize_pixels, plane_len, planes_of, tensor_is_finite, Tensor};
use vstd::prelude::*;

verus! {

/// The side of the square that the classifier's model takes.
pub const MODEL_SIDE: u32 = 224;

/// The samples of a picture resampled with the triangle filter to a square
/// of side `size`: what `image::imageops::resize` returns for the filter
/// `FilterType::Triangle`.
pub uninterp spec fn resized_pixels(pixels: Seq<u8>, width: u32, height: u32, size: u32) -> Seq<u8>;

/// Whether the buffers for resampling a picture `width` pixels wide to a
/// square of side `size` can be allocated: the intermediate picture, `width`
/// by `size` pixels of four binary32 samples, and the result may each take
/// at most `isize::MAX` bytes.
pub open spec fn fits_memory(width: u32, size: u32) -> bool {
    16 * ((width as int) * (size as int)) <= isize::MAX && 3 * plane_len(size) <= isize::MAX
}

/// The entries of the tensor for a picture: its samples resampled to a square
/// of side `size`, normalised, and laid out channel first.
pub open spec fn preprocessed(image: &Image, size: u32) -> Seq<u32> {
    planes_of(
        resized_pixels(image.spec_pixels(), image.spec_width(), image.spec_height(), size),
        plane_len(size),
    )
}

/// Whether `tensor` is the model input for `image` at side `size`.
pub open spec fn is_preprocessed(image: &Image, size: u32, tensor: &Tensor) -> bool {
    tensor.size == size && tensor.data@ == preprocessed(image, size)
}

/// Calls `image::imageops::resize` with `FilterType::Triangle` on the samples
/// taken as an RGB picture. The result is a function of the arguments; it
/// holds three samples for each pixel of the square, and where the picture
/// already has the requested size, it is a copy of the samples.
#[verifier::external_body]
fn resize_triangle(pixels: &[u8], width: u32, height: u32, size: u32) -> (r: Vec<u8>)
    requires
        valid_bitmap(width, height, pixels@),
        fits_memory(width, size),
    ensures
        r@ == resized_pixels(pixels@, width, height, size),
        r@.len() == 3 * plane_len(size),
        width == size && height == size ==> r@ == pixels@,
{
    let source =
        image::ImageBuffer::<image::Rgb<u8>, &[u8]>::from_raw(width, height, pixels).unwrap();
    image::imageops::resize(&source, size, size, image::imageops::FilterType::Triangle).into_raw()
}

/// Whether `fits_memory(width, size)` holds on this machine.
pub fn can_resize(width: u32, size: u32) -> (r: bool)
    ensures
        r == fits_memory(width, size),
{
    assert((width as int) * (size as int) <= 0xffff_fffe_0000_0001 && plane_len(size)
        <= 0xffff_fffe_0000_0001) by (nonlinear_arith)
        requires
            0 <= width <= 0xffff_ffff,
            0 <= size <= 0xffff_ffff,
            plane_len(size) == (size as int) * (size as int),
    ;
    let limit: u128 = isize::MAX as u128;
    let scratch: u128 = 16 * ((width as u128) * (size as u128));
    let result: u128 = 3 * ((size as u128) * (size as u128));
    scratch <= limit && result <= limit
}

/// Turns a picture into the model's input. The picture is resampled to
/// `target_size` by `target_size` pixels with the triangle filter; every
/// sample is then normalised and placed channel first: one batch element,
/// three channels, `target_size` rows of `target_size` entries.
pub fn preprocess(image: &Image, target_size: u32) -> (tensor: Tensor)
    requires
        fits_memory(image.spec_width(), target_size),
    ensures
        is_preprocessed(image, target_size, &tensor),
        tensor.spec_shape() == (1usize, 3usize, target_size as usize, target_size as usize),
        tensor.wf(),
        forall|i: int|
            0 <= i < tensor.data@.len() ==> (Score { bits: #[trigger] tensor.data@[i] }).is_finite(),
        image.spec_width() == target_size && image.spec_height() == target_size ==> tensor.data@
            == planes_of(image.spec_pixels(), plane_len(target_size)),
{
    let pixels = image.pixels();
    let resized = resize_triangle(pixels.as_slice(), image.width(), image.height(), target_size);
    let tensor = normalize_pixels(resized.as_slice(), target_size).unwrap();
    assert forall|i: int| 0 <= i < tensor.data@.len() implies (Score {
        bits: #[trigger] tensor.data@[i],
    }).is_finite() by {
        tensor_is_finite(resized@, target_size, i);
    }
    tensor
}

/// Turns a picture into the input of the classifier's model, a tensor of
/// shape (1, 3, 224, 224). It fails only where the buffers for resampling
/// cannot be allocated on this machine.
pub fn preprocess_imagenet_224(image: &Image) -> (r: Result<Tensor, String>)
    ensures
        r is Ok <==> fits_memory(image.spec_width(), MODEL_SIDE),
        r matches Ok(tensor) ==> {
            &&& is_preprocessed(image, MODEL_SIDE, &tensor)
            &&& tensor.spec_shape() == (1usize, 3usize, 224usize, 224usize)
            &&& tensor.wf()
            &&& forall|i: int|
                0 <= i < tensor.data@.len() ==> (Score {
                    bits: #[trigger] tensor.data@[i],
                }).is_finite()
        },
        r matches Err(message) ==> message@ == "image is too wide to resample on this machine"@,
{
    if can_resize(image.width(), MODEL_SIDE) {
        Ok(preprocess(image, MODEL_SIDE))
    } else {
        Err("image is too wide to resample on this machine".to_owned())
    }
}

/// Preprocessing is a function of the picture and the size: whenever it is
/// done again on the same picture, the tensor is the same, entry by entry.
pub proof fn preprocess_is_deterministic(image: &Image, size: u32, first: &Tensor, second: &Tensor)
    requires
        is_preprocessed(image, size, first),
        is_preprocessed(image, size, second),
    ensures
        first.size == second.size,
        first.data@ == second.data@,
{
}

} // verus!
