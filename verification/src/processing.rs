//! The transformations of the pipeline, as far as they are decided here.
//!
//! A transformation is carried out by the caller's imaging library. What is
//! fixed on this side is the call to make, with every argument of it that is
//! not a floating-point number, the buffers that the call is made for at
//! all, the shape of the buffer that has to come back, and the rule that an
//! empty buffer is never passed on.

pub mod basic_ops;
pub mod color_ops;
pub mod geometric_ops;

use crate::error::PipelineError;
use crate::image::{ImageShape, PixelType};
use vstd::prelude::*;

verus! {

/// From which colour space to which a buffer is converted.
#[derive(Clone, Copy, Debug, PartialEq, Eq, Structural)]
pub enum ColorConversion {
    /// Blue-green-red to luminance, with the standard channel weights.
    BgrToGray,
}

/// What stands for the pixels beyond the edge of a buffer.
#[derive(Clone, Copy, Debug, PartialEq, Eq, Structural)]
pub enum Border {
    /// The imaging library's default: the buffer mirrored at its edge.
    LibraryDefault,
    /// One constant value, zero in every channel.
    Constant,
}

/// How the value between pixels is found.
#[derive(Clone, Copy, Debug, PartialEq, Eq, Structural)]
pub enum Interpolation {
    /// Bilinear: the weighted mean of the four nearest pixels.
    Linear,
}

/// One call into the imaging library.
#[derive(Clone, Copy, Debug, PartialEq, Eq, Structural)]
pub enum Transform {
    /// Conversion between colour spaces, the number of channels of the
    /// result left to follow from the conversion.
    Grayscale { conversion: ColorConversion },
    /// Histogram equalisation.
    Equalize,
    /// Gaussian smoothing with a kernel of the given size, its deviation
    /// derived from the size.
    Blur { kernel_width: i32, kernel_height: i32, border: Border },
    /// Two-threshold edge detection.
    EdgeDetect { low: i32, high: i32, aperture: i32, l2_gradient: bool },
    /// Scaling to an exact size, the scale factors left to follow from it.
    Resize { width: i32, height: i32, interpolation: Interpolation },
    /// Rotation about a centre, into a buffer of the given size.
    Rotate {
        center_x: i32,
        center_y: i32,
        width: i32,
        height: i32,
        interpolation: Interpolation,
        border: Border,
    },
}

impl Transform {
    /// Whether the call is made for a buffer of shape `input` at all.
    ///
    /// No call is made for an empty buffer. Beyond that, a conversion to
    /// gray takes three channels of 8-bit unsigned, 16-bit unsigned or
    /// 32-bit floating-point samples; an equalisation takes one channel of
    /// 8-bit unsigned samples; a blur takes a kernel whose sides are
    /// positive and odd, and 8-bit unsigned, 16-bit or floating-point
    /// samples; an edge detection takes 8-bit unsigned samples; a scaling
    /// and a rotation take a target size that is positive both ways.
    pub open spec fn takes(self, input: ImageShape) -> bool {
        &&& !input.is_empty()
        &&& match self {
            Transform::Grayscale { .. } => {
                &&& input.channels == 3
                &&& (input.pixel == PixelType::U8 || input.pixel == PixelType::U16 || input.pixel
                    == PixelType::F32)
            },
            Transform::Equalize => input.channels == 1 && input.pixel == PixelType::U8,
            Transform::Blur { kernel_width, kernel_height, .. } => {
                &&& kernel_width > 0 && kernel_width % 2 == 1
                &&& kernel_height > 0 && kernel_height % 2 == 1
                &&& (input.pixel == PixelType::U8 || input.pixel == PixelType::U16 || input.pixel
                    == PixelType::I16 || input.pixel == PixelType::F32 || input.pixel
                    == PixelType::F64)
            },
            Transform::EdgeDetect { .. } => input.pixel == PixelType::U8,
            Transform::Resize { width, height, .. } => width > 0 && height > 0,
            Transform::Rotate { width, height, .. } => width > 0 && height > 0,
        }
    }

    /// The shape that the transformation of a buffer of shape `input` has.
    pub open spec fn output_of(self, input: ImageShape) -> ImageShape {
        match self {
            Transform::Grayscale { .. } => ImageShape { channels: 1, ..input },
            Transform::Equalize => input,
            Transform::Blur { .. } => input,
            Transform::EdgeDetect { .. } => ImageShape {
                channels: 1,
                pixel: PixelType::U8,
                ..input
            },
            Transform::Resize { width, height, .. } => ImageShape {
                rows: height,
                cols: width,
                ..input
            },
            Transform::Rotate { width, height, .. } => ImageShape {
                rows: height,
                cols: width,
                ..input
            },
        }
    }
}

/// A transformation that is about to be made, and the shape that its result
/// must have.
#[derive(Clone, Copy, Debug, PartialEq, Eq, Structural)]
pub struct Step {
    pub transform: Transform,
    pub expected: ImageShape,
}

/// The step that applies `transform` to a buffer of shape `input`. There is
/// none for a buffer that the transformation does not take.
pub open spec fn planned(transform: Transform, input: ImageShape) -> Result<Step, PipelineError> {
    if transform.takes(input) {
        Ok(Step { transform, expected: transform.output_of(input) })
    } else {
        Err(PipelineError::ProcessingError)
    }
}

/// Plans the application of `transform` to a buffer of shape `input`: a
/// step if the transformation takes the buffer, a `ProcessingError` if it
/// does not.
pub fn plan(transform: Transform, input: &ImageShape) -> (result: Result<Step, PipelineError>)
    ensures
        result == planned(transform, *input),
{
    if input.is_empty() {
        return Err(PipelineError::ProcessingError);
    }
    let unsigned_bytes = input.pixel == PixelType::U8;
    let (taken, expected) = match transform {
        Transform::Grayscale { .. } => (
            input.channels == 3 && (unsigned_bytes || input.pixel == PixelType::U16 || input.pixel
                == PixelType::F32),
            ImageShape { rows: input.rows, cols: input.cols, channels: 1, pixel: input.pixel },
        ),
        Transform::Equalize => (input.channels == 1 && unsigned_bytes, *input),
        Transform::Blur { kernel_width, kernel_height, .. } => (
            kernel_width > 0 && kernel_width % 2 == 1 && kernel_height > 0 && kernel_height % 2
                == 1 && (unsigned_bytes || input.pixel == PixelType::U16 || input.pixel
                == PixelType::I16 || input.pixel == PixelType::F32 || input.pixel
                == PixelType::F64),
            *input,
        ),
        Transform::EdgeDetect { .. } => (
            unsigned_bytes,
            ImageShape { rows: input.rows, cols: input.cols, channels: 1, pixel: PixelType::U8 },
        ),
        Transform::Resize { width, height, .. } => (
            width > 0 && height > 0,
            ImageShape { rows: height, cols: width, channels: input.channels, pixel: input.pixel },
        ),
        Transform::Rotate { width, height, .. } => (
            width > 0 && height > 0,
            ImageShape { rows: height, cols: width, channels: input.channels, pixel: input.pixel },
        ),
    };
    if taken {
        Ok(Step { transform, expected })
    } else {
        Err(PipelineError::ProcessingError)
    }
}

impl Step {
    /// Whether a buffer of shape `produced` is what the step had to give:
    /// the expected shape, and not empty.
    pub open spec fn admits(self, produced: ImageShape) -> bool {
        produced == self.expected && !produced.is_empty()
    }

    /// Judges what the imaging library handed back for this step. The
    /// buffer is passed on if it has the expected shape and is not empty;
    /// anything else ends the run.
    pub fn accept(&self, produced: &ImageShape) -> (result: Result<ImageShape, PipelineError>)
        ensures
            self.admits(*produced) ==> result == Ok::<ImageShape, PipelineError>(self.expected),
            !self.admits(*produced) ==> result == Err::<ImageShape, PipelineError>(
                PipelineError::ProcessingError,
            ),
    {
        if *produced == self.expected && !produced.is_empty() {
            Ok(*produced)
        } else {
            Err(PipelineError::ProcessingError)
        }
    }
}

} // verus!
