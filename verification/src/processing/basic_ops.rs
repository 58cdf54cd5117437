use crate::error::PipelineError;
use crate::image::{ImageShape, PixelType};
use crate::processing::{plan, planned, Border, ColorConversion, Step, Transform};
use vstd::prelude::*;

verus! {

/// Plans the conversion of a colour buffer to gray, from blue-green-red.
/// There is a step exactly for a buffer that is not empty and has three
/// channels of 8-bit unsigned, 16-bit unsigned or 32-bit floating-point
/// samples. The result has to be a single-channel buffer on the same grid,
/// with samples of the same type.
pub fn to_grayscale(img: &ImageShape) -> (result: Result<Step, PipelineError>)
    ensures
        result == planned(Transform::Grayscale { conversion: ColorConversion::BgrToGray }, *img),
        result is Ok <==> !img.is_empty() && img.channels == 3 && (img.pixel == PixelType::U8
            || img.pixel == PixelType::U16 || img.pixel == PixelType::F32),
        result is Err ==> result == Err::<Step, PipelineError>(PipelineError::ProcessingError),
        result matches Ok(step) ==> step.expected.channels == 1 && step.expected.rows == img.rows
            && step.expected.cols == img.cols && step.expected.pixel == img.pixel,
{
    plan(Transform::Grayscale { conversion: ColorConversion::BgrToGray }, img)
}

/// Whatever is passed on as the gray version of a buffer has a single
/// channel and the rows and columns of that buffer.
pub proof fn lemma_grayscale_keeps_the_grid(img: ImageShape, produced: ImageShape)
    requires
        planned(Transform::Grayscale { conversion: ColorConversion::BgrToGray }, img) matches Ok(
            step,
        ) && step.admits(produced),
    ensures
        produced.channels == 1,
        produced.rows == img.rows,
        produced.cols == img.cols,
{
}

/// The blur with a square kernel of side `ksize`, the border handled in
/// the imaging library's default way.
pub open spec fn blur_of(ksize: i32) -> Transform {
    Transform::Blur { kernel_width: ksize, kernel_height: ksize, border: Border::LibraryDefault }
}

/// Plans a Gaussian blur with a square kernel of side `ksize`. There is a
/// step exactly for a buffer that is not empty and has 8-bit unsigned,
/// 16-bit or floating-point samples, and a side that is positive and odd.
/// The result has to have the shape of `img`.
pub fn blur(img: &ImageShape, ksize: i32) -> (result: Result<Step, PipelineError>)
    ensures
        result == planned(blur_of(ksize), *img),
        result is Ok <==> !img.is_empty() && ksize > 0 && ksize % 2 == 1 && (img.pixel
            == PixelType::U8 || img.pixel == PixelType::U16 || img.pixel == PixelType::I16
            || img.pixel == PixelType::F32 || img.pixel == PixelType::F64),
        result is Err ==> result == Err::<Step, PipelineError>(PipelineError::ProcessingError),
        result matches Ok(step) ==> step.expected == *img,
{
    plan(
        Transform::Blur {
            kernel_width: ksize,
            kernel_height: ksize,
            border: Border::LibraryDefault,
        },
        img,
    )
}

/// The edge detection between two thresholds, with an aperture of three
/// and the plain gradient norm.
pub open spec fn canny_of(threshold1: i32, threshold2: i32) -> Transform {
    Transform::EdgeDetect { low: threshold1, high: threshold2, aperture: 3, l2_gradient: false }
}

/// Plans an edge detection between the two thresholds, with an aperture of
/// three and the plain gradient norm. There is a step exactly for a buffer
/// that is not empty and has 8-bit unsigned samples. The result has to be
/// an edge map on the same grid: one channel of 8-bit unsigned samples.
pub fn canny(img: &ImageShape, threshold1: i32, threshold2: i32) -> (result: Result<
    Step,
    PipelineError,
>)
    ensures
        result == planned(canny_of(threshold1, threshold2), *img),
        result is Ok <==> !img.is_empty() && img.pixel == PixelType::U8,
        result is Err ==> result == Err::<Step, PipelineError>(PipelineError::ProcessingError),
        result matches Ok(step) ==> step.expected.channels == 1 && step.expected.pixel
            == PixelType::U8 && step.expected.rows == img.rows && step.expected.cols == img.cols,
{
    plan(
        Transform::EdgeDetect {
            low: threshold1,
            high: threshold2,
            aperture: 3,
            l2_gradient: false,
        },
        img,
    )
}

} // verus!
