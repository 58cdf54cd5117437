use vstd::prelude::*;

verus! {

/// The type of one sample of a pixel.
#[derive(Clone, Copy, Debug, PartialEq, Eq, Structural)]
pub enum PixelType {
    U8,
    I8,
    U16,
    I16,
    I32,
    F32,
    F64,
    Other,
}

/// How a picture file is decoded.
#[derive(Clone, Copy, Debug, PartialEq, Eq, Structural)]
pub enum LoadMode {
    /// Always to three channels of 8-bit samples, blue first.
    Color,
}

/// The compressed form that a buffer is written in.
#[derive(Clone, Copy, Debug, PartialEq, Eq, Structural)]
pub enum ImageFormat {
    Jpeg,
}

impl ImageFormat {
    /// The file extension by which the format is known: `.jpg`.
    pub open spec fn extension_spec(&self) -> Seq<char> {
        seq!['.', 'j', 'p', 'g']
    }

    /// The file extension by which the format is asked for.
    pub fn extension(&self) -> (text: &'static str)
        ensures
            text@ == self.extension_spec(),
    {
        proof {
            reveal_strlit(".jpg");
            assert(".jpg"@ =~= seq!['.', 'j', 'p', 'g']);
        }
        ".jpg"
    }
}

/// What the pipeline reads of an image buffer: its grid, its channel count
/// and the type of its samples. The samples themselves stay with whoever
/// owns the buffer.
#[derive(Clone, Copy, Debug, PartialEq, Eq, Structural)]
pub struct ImageShape {
    pub rows: i32,
    pub cols: i32,
    pub channels: i32,
    pub pixel: PixelType,
}

impl ImageShape {
    /// A buffer without a single pixel.
    pub open spec fn is_empty_spec(&self) -> bool {
        self.rows <= 0 || self.cols <= 0
    }

    /// Whether the buffer is empty.
    #[verifier::when_used_as_spec(is_empty_spec)]
    pub fn is_empty(&self) -> (empty: bool)
        ensures
            empty == self.is_empty_spec(),
    {
        self.rows <= 0 || self.cols <= 0
    }
}

} // verus!
