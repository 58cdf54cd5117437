use crate::error::PipelineError;
use crate::image::{ImageShape, PixelType};
use crate::processing::{plan, planned, Step, Transform};
use vstd::prelude::*;

verus! {

/// Plans the histogram equalisation of a gray buffer. There is a step
/// exactly for a buffer that is not empty and has one channel of 8-bit
/// unsigned samples. The result has to have the shape of `img`.
pub fn equalize_histogram(img: &ImageShape) -> (result: Result<Step, PipelineError>)
    ensures
        result == planned(Transform::Equalize, *img),
        result is Ok <==> !img.is_empty() && img.channels == 1 && img.pixel == PixelType::U8,
        result is Err ==> result == Err::<Step, PipelineError>(PipelineError::ProcessingError),
        result matches Ok(step) ==> step.expected == *img,
{
    plan(Transform::Equalize, img)
}

} // verus!
