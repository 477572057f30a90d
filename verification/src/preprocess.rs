//! Preparing an image for the encoder: resampled to the network's square
//! input, laid out channel by channel, and normalized with the constants that
//! the pretrained network was trained with.
//!
//! A normalized value is `(pixel - mean) / deviation`. Mean and deviation are
//! given in thousandths, so the value is the exact fraction
//! `(1000 * pixel - mean) / deviation`; the tensor holds the numerators and
//! `deviation_thousandths` gives the denominator of each channel.

use vstd::prelude::*;
use crate::prompt::ValidationError;
use crate::transform::NETWORK_SIDE;

verus! {

/// Red, green and blue.
pub const CHANNELS: usize = 3;

/// Number of values in one channel of the network's input.
pub const PLANE: usize = 1024 * 1024;

/// The per-channel mean of the training images, in thousandths of a pixel value.
pub open spec fn mean_of(channel: int) -> int {
    if channel == 0 {
        123675
    } else if channel == 1 {
        116280
    } else {
        103530
    }
}

/// The per-channel standard deviation of the training images, in thousandths.
pub open spec fn deviation_of(channel: int) -> int {
    if channel == 0 {
        58395
    } else if channel == 1 {
        57120
    } else {
        57375
    }
}

/// Numerator of the normalized value of `pixel` in `channel`.
pub open spec fn numerator_of(channel: int, pixel: u8) -> int {
    1000 * pixel as int - mean_of(channel)
}

/// The normalized tensor of an interleaved RGB image of `PLANE` pixels: all of
/// red, then all of green, then all of blue, each in row order.
pub open spec fn normalized_planes(rgb: Seq<u8>) -> Seq<i32> {
    Seq::new(
        (CHANNELS * PLANE) as nat,
        |i: int| numerator_of(i / PLANE as int, rgb[CHANNELS as int * (i % PLANE as int) + i / PLANE as int]) as i32,
    )
}

/// What `image`'s triangle filter makes of an interleaved RGB image of
/// `width` by `height` pixels when it resamples it to `new_width` by
/// `new_height`.
pub uninterp spec fn triangle_resized(pixels: Seq<u8>, width: u32, height: u32, new_width: u32, new_height: u32) -> Seq<u8>;

/// `RgbImage::from_raw`, `DynamicImage::resize_exact` with
/// `FilterType::Triangle`, `DynamicImage::to_rgb8` and `ImageBuffer::into_raw`:
/// the resampled image, three bytes per pixel in row order. The outside code
/// needs a buffer that holds exactly the source image, and panics where one
/// of its own buffers cannot be allocated: the intermediate image, sixteen
/// bytes per pixel of `width` by `new_height`, or the result.
#[verifier::external_body]
fn resize_triangle(pixels: &Vec<u8>, width: u32, height: u32, new_width: u32, new_height: u32) -> (r: Vec<u8>)
    requires
        pixels@.len() == 3 * width * height,
        16 * width * new_height <= isize::MAX,
        3 * new_width * new_height <= isize::MAX,
    ensures
        r@ == triangle_resized(pixels@, width, height, new_width, new_height),
        r@.len() == 3 * new_width * new_height,
{
    let source = image::RgbImage::from_raw(width, height, pixels.clone()).unwrap();
    image::DynamicImage::ImageRgb8(source)
        .resize_exact(new_width, new_height, image::imageops::FilterType::Triangle)
        .to_rgb8()
        .into_raw()
}

/// An image as interleaved red, green and blue bytes, row by row.
#[derive(Clone, Debug, PartialEq, Eq)]
pub struct RgbImage {
    pub width: u32,
    pub height: u32,
    pub pixels: Vec<u8>,
}

impl RgbImage {
    /// There are three bytes for each pixel, and no others.
    pub open spec fn well_formed(&self) -> bool {
        self.pixels@.len() == 3 * self.width * self.height
    }

    /// Whether the image can be resampled on this machine: the resampler
    /// allocates sixteen bytes per pixel of an image as wide as this one and
    /// as high as the network's input.
    pub open spec fn resamplable(&self) -> bool {
        16 * self.width * NETWORK_SIDE <= isize::MAX
    }
}

/// The encoder's input for one image, with the size that the image had.
#[derive(Debug, PartialEq, Eq)]
pub struct ImageTensor {
    /// Numerators of the normalized values, channel by channel.
    pub values: Vec<i32>,
    /// Height and width of the image before it was resampled.
    pub original_size: (u32, u32),
}

impl ImageTensor {
    pub open spec fn well_formed(&self) -> bool {
        self.values@.len() == CHANNELS * PLANE
    }
}

/// The mean of a channel, in thousandths.
pub fn mean_thousandths(channel: usize) -> (r: u32)
    ensures
        r == mean_of(channel as int),
{
    if channel == 0 {
        123675
    } else if channel == 1 {
        116280
    } else {
        103530
    }
}

/// The standard deviation of a channel, in thousandths: the denominator of
/// every value of that channel.
pub fn deviation_thousandths(channel: usize) -> (r: u32)
    ensures
        r == deviation_of(channel as int),
        r > 0,
{
    if channel == 0 {
        58395
    } else if channel == 1 {
        57120
    } else {
        57375
    }
}

/// Lays an interleaved image of the network's size out in planes and
/// normalizes each value.
pub fn normalize(rgb: &Vec<u8>) -> (r: Vec<i32>)
    requires
        rgb@.len() == CHANNELS * PLANE,
    ensures
        r@ == normalized_planes(rgb@),
{
    let mut values: Vec<i32> = Vec::new();
    let mut channel: usize = 0;
    while channel < CHANNELS
        invariant
            rgb@.len() == CHANNELS * PLANE,
            channel <= CHANNELS,
            values@.len() == channel * PLANE,
            forall|k: int| 0 <= k < values@.len() ==> #[trigger] values@[k] == normalized_planes(rgb@)[k],
        decreases CHANNELS - channel,
    {
        let mean: i32 = mean_thousandths(channel) as i32;
        let mut at: usize = 0;
        while at < PLANE
            invariant
                rgb@.len() == CHANNELS * PLANE,
                channel < CHANNELS,
                at <= PLANE,
                mean == mean_of(channel as int),
                values@.len() == channel * PLANE + at,
                forall|k: int| 0 <= k < values@.len() ==> #[trigger] values@[k] == normalized_planes(rgb@)[k],
            decreases PLANE - at,
        {
            let pixel: u8 = rgb[CHANNELS * at + channel];
            let value: i32 = 1000 * (pixel as i32) - mean;
            proof {
                let i: int = channel * PLANE + at;
                assert(i / PLANE as int == channel && i % PLANE as int == at) by (nonlinear_arith)
                    requires
                        i == channel * PLANE + at,
                        0 <= at < PLANE,
                        0 <= channel,
                        PLANE > 0,
                ;
            }
            values.push(value);
            at = at + 1;
        }
        assert((channel + 1) * PLANE == channel * PLANE + PLANE) by (nonlinear_arith);
        channel = channel + 1;
    }
    values
}

/// Prepares an image for the encoder: resampled with a triangle filter to
/// exactly the network's input size, then normalized plane by plane. The
/// image's own height and width go along with the tensor, since they cannot
/// be read off it afterwards.
pub fn preprocess(img: &RgbImage) -> (r: Result<ImageTensor, ValidationError>)
    ensures
        !(img.well_formed() && img.resamplable()) ==> r == Err::<ImageTensor, ValidationError>(ValidationError::ImageSize),
        img.well_formed() && img.resamplable() ==> (r matches Ok(tensor) && {
            &&& tensor.well_formed()
            &&& tensor.original_size == (img.height, img.width)
            &&& tensor.values@ == normalized_planes(
                triangle_resized(img.pixels@, img.width, img.height, NETWORK_SIDE, NETWORK_SIDE),
            )
        }),
{
    let side: u64 = NETWORK_SIDE as u64;
    let limit: u64 = isize::MAX as u64;
    let across: u128 = img.width as u128;
    let down: u128 = img.height as u128;
    assert(3 * across * down <= u128::MAX) by (nonlinear_arith)
        requires
            across <= u32::MAX,
            down <= u32::MAX,
    ;
    let bytes: u128 = 3 * across * down;
    if img.pixels.len() as u128 != bytes {
        return Err(ValidationError::ImageSize);
    }
    if 16 * (img.width as u64) * side > limit {
        return Err(ValidationError::ImageSize);
    }
    let resized: Vec<u8> = resize_triangle(&img.pixels, img.width, img.height, NETWORK_SIDE, NETWORK_SIDE);
    let values: Vec<i32> = normalize(&resized);
    Ok(ImageTensor { values, original_size: (img.height, img.width) })
}

} // verus!
