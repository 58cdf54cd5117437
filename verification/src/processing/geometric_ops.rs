use crate::error::PipelineError;
use crate::image::ImageShape;
use crate::processing::{plan, planned, Border, Interpolation, Step, Transform};
use vstd::prelude::*;

verus! {

/// Plans the bilinear scaling of `img` to `width` columns and `height`
/// rows, whatever its aspect ratio. There is a step exactly for a buffer
/// that is not empty and a size that is positive both ways. The result has
/// to have exactly that size, with the channels and samples of `img`.
pub fn resize(img: &ImageShape, width: i32, height: i32) -> (result: Result<Step, PipelineError>)
    ensures
        result == planned(
            Transform::Resize { width, height, interpolation: Interpolation::Linear },
            *img,
        ),
        result is Ok <==> !img.is_empty() && width > 0 && height > 0,
        result is Err ==> result == Err::<Step, PipelineError>(PipelineError::ProcessingError),
        result matches Ok(step) ==> step.expected.cols == width && step.expected.rows == height
            && step.expected.channels == img.channels && step.expected.pixel == img.pixel,
{
    plan(Transform::Resize { width, height, interpolation: Interpolation::Linear }, img)
}

/// Whatever is passed on as the scaled version of a buffer has exactly the
/// size that was asked for, whatever the size of that buffer was.
pub proof fn lemma_resize_is_exact(img: ImageShape, width: i32, height: i32, produced: ImageShape)
    requires
        planned(
            Transform::Resize { width, height, interpolation: Interpolation::Linear },
            img,
        ) matches Ok(step) && step.admits(produced),
    ensures
        produced.cols == width,
        produced.rows == height,
{
}

/// The rotation of a buffer of shape `img` about its centre: the centre is
/// at half the columns and half the rows, rounded down, the result keeps
/// the size of `img`, values between pixels are found bilinearly, and what
/// lies beyond the edge counts as zero.
pub open spec fn rotation_of(img: ImageShape) -> Transform {
    Transform::Rotate {
        center_x: (img.cols / 2) as i32,
        center_y: (img.rows / 2) as i32,
        width: img.cols,
        height: img.rows,
        interpolation: Interpolation::Linear,
        border: Border::Constant,
    }
}

/// Plans the rotation of `img` about its centre. Angle and scale are the
/// caller's to choose. There is a step exactly for a buffer that is not
/// empty; the result has to have the shape of `img`.
pub fn rotate(img: &ImageShape) -> (result: Result<Step, PipelineError>)
    ensures
        result == planned(rotation_of(*img), *img),
        result is Ok <==> !img.is_empty(),
        result is Err ==> result == Err::<Step, PipelineError>(PipelineError::ProcessingError),
        result matches Ok(step) ==> step.expected == *img,
{
    if img.is_empty() {
        return Err(PipelineError::ProcessingError);
    }
    plan(
        Transform::Rotate {
            center_x: img.cols / 2,
            center_y: img.rows / 2,
            width: img.cols,
            height: img.rows,
            interpolation: Interpolation::Linear,
            border: Border::Constant,
        },
        img,
    )
}

} // verus!
