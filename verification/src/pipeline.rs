//! The run of the pipeline, as a machine that is told what happened and
//! answers with what to do next.
//!
//! The caller loads, transforms, compresses and transmits; after each of
//! these it reports the outcome, and `step` decides: go on with the next
//! stage, or end the run with the error of the stage that failed. Stages are
//! never skipped, repeated or retried.

pub mod runs;

use crate::base64_text::{base64_standard, encoded_len, is_encodable};
use crate::error::PipelineError;
use crate::image::{ImageFormat, ImageShape, LoadMode, PixelType};
use crate::network::udp_sender::{local_endpoint, send_data, wire_text, Datagram, Payload};
use crate::processing::basic_ops::{blur, blur_of, canny, canny_of, to_grayscale};
use crate::processing::color_ops::equalize_histogram;
use crate::processing::geometric_ops::resize;
use crate::processing::{planned, ColorConversion, Interpolation, Step, Transform};
use vstd::prelude::*;
use vstd::string::StringExecFns;

verus! {

/// Everything a run is configured with.
#[derive(Debug, PartialEq, Eq)]
pub struct Config {
    /// The file that holds the picture.
    pub image_path: String,
    /// Where the datagram goes, as `host:port`.
    pub udp_addr: String,
    /// The side of the square blur kernel.
    pub blur_kernel: i32,
    /// The lower threshold of the edge detection.
    pub canny_low: i32,
    /// The upper threshold of the edge detection.
    pub canny_high: i32,
    /// The number of columns of the picture that is sent.
    pub target_width: i32,
    /// The number of rows of the picture that is sent.
    pub target_height: i32,
}

impl Default for Config {
    /// `sample.jpg` to `127.0.0.1:8080`: a kernel of five, thresholds of 50
    /// and 150, and a picture of 224 by 224.
    fn default() -> (config: Config)
        ensures
            config.image_path@ == "sample.jpg"@,
            config.udp_addr@ == "127.0.0.1:8080"@,
            config.blur_kernel == 5,
            config.canny_low == 50,
            config.canny_high == 150,
            config.target_width == 224,
            config.target_height == 224,
    {
        Config {
            image_path: String::from_str("sample.jpg"),
            udp_addr: String::from_str("127.0.0.1:8080"),
            blur_kernel: 5,
            canny_low: 50,
            canny_high: 150,
            target_width: 224,
            target_height: 224,
        }
    }
}

impl Config {
    /// The shape of the picture that a run compresses and sends.
    pub open spec fn final_shape(self) -> ImageShape {
        ImageShape {
            rows: self.target_height,
            cols: self.target_width,
            channels: 1,
            pixel: PixelType::U8,
        }
    }
}

/// The five transformations, in the order in which they are applied.
#[derive(Clone, Copy, Debug, PartialEq, Eq, Structural)]
pub enum Stage {
    Grayscale,
    Equalize,
    Blur,
    EdgeDetect,
    Resize,
}

impl Stage {
    /// The call that the stage makes under `config`.
    pub open spec fn transform(self, config: Config) -> Transform {
        match self {
            Stage::Grayscale => Transform::Grayscale { conversion: ColorConversion::BgrToGray },
            Stage::Equalize => Transform::Equalize,
            Stage::Blur => blur_of(config.blur_kernel),
            Stage::EdgeDetect => canny_of(config.canny_low, config.canny_high),
            Stage::Resize => Transform::Resize {
                width: config.target_width,
                height: config.target_height,
                interpolation: Interpolation::Linear,
            },
        }
    }

    /// The stage that comes after this one, if any.
    pub open spec fn following_spec(&self) -> Option<Stage> {
        match *self {
            Stage::Grayscale => Some(Stage::Equalize),
            Stage::Equalize => Some(Stage::Blur),
            Stage::Blur => Some(Stage::EdgeDetect),
            Stage::EdgeDetect => Some(Stage::Resize),
            Stage::Resize => None,
        }
    }

    #[verifier::when_used_as_spec(following_spec)]
    pub fn following(&self) -> (next: Option<Stage>)
        ensures
            next == self.following_spec(),
    {
        match self {
            Stage::Grayscale => Some(Stage::Equalize),
            Stage::Equalize => Some(Stage::Blur),
            Stage::Blur => Some(Stage::EdgeDetect),
            Stage::EdgeDetect => Some(Stage::Resize),
            Stage::Resize => None,
        }
    }

    /// Plans the stage for a buffer of shape `input`.
    pub fn plan(&self, config: &Config, input: &ImageShape) -> (result: Result<Step, PipelineError>)
        ensures
            result == planned(self.transform(*config), *input),
    {
        match self {
            Stage::Grayscale => to_grayscale(input),
            Stage::Equalize => equalize_histogram(input),
            Stage::Blur => blur(input, config.blur_kernel),
            Stage::EdgeDetect => canny(input, config.canny_low, config.canny_high),
            Stage::Resize => resize(input, config.target_width, config.target_height),
        }
    }
}

/// Where a run stands: what the caller has been asked to do and has not
/// yet reported on, or how the run ended.
#[derive(Clone, Copy, Debug, PartialEq, Eq, Structural)]
pub enum State {
    /// The picture is being loaded.
    Loading,
    /// A transformation is being made.
    Transforming { stage: Stage, step: Step },
    /// The transformed picture is being compressed.
    Encoding { image: ImageShape },
    /// The datagram is being transmitted.
    Sending,
    /// The datagram has been handed to the network.
    Finished,
    /// The run was aborted.
    Failed { error: PipelineError },
}

/// What the caller reports.
#[derive(Debug, PartialEq, Eq)]
pub enum Event {
    /// A buffer of this shape was loaded or produced.
    Produced(ImageShape),
    /// The picture was compressed to these bytes.
    Encoded(Vec<u8>),
    /// The datagram was accepted by the socket.
    Sent,
    /// What was asked for could not be done.
    Failed,
}

/// An `Event`, with its bytes as a sequence.
pub enum EventView {
    Produced(ImageShape),
    Encoded(Seq<u8>),
    Sent,
    Failed,
}

impl View for Event {
    type V = EventView;

    open spec fn view(&self) -> EventView {
        match self {
            Event::Produced(shape) => EventView::Produced(*shape),
            Event::Encoded(bytes) => EventView::Encoded(bytes@),
            Event::Sent => EventView::Sent,
            Event::Failed => EventView::Failed,
        }
    }
}

/// What the caller is asked to do.
#[derive(Debug, PartialEq, Eq)]
pub enum Action {
    /// Load the picture at this path, decoded in this way.
    Load { path: String, mode: LoadMode },
    /// Apply this transformation to the current buffer.
    Apply(Transform),
    /// Compress the current buffer in this format.
    Encode { format: ImageFormat },
    /// Transmit this datagram, once.
    Send(Datagram),
    /// Report success: there is nothing left to do.
    Finish,
    /// Give up with this error.
    Abort(PipelineError),
}

/// An `Action`, with its texts as sequences.
pub enum ActionView {
    Load { path: Seq<char>, mode: LoadMode },
    Apply(Transform),
    Encode { format: ImageFormat },
    Send { local: Seq<char>, destination: Seq<char>, body: Seq<char> },
    Finish,
    Abort(PipelineError),
}

impl View for Action {
    type V = ActionView;

    open spec fn view(&self) -> ActionView {
        match self {
            Action::Load { path, mode } => ActionView::Load { path: path@, mode: *mode },
            Action::Apply(transform) => ActionView::Apply(*transform),
            Action::Encode { format } => ActionView::Encode { format: *format },
            Action::Send(datagram) => ActionView::Send {
                local: datagram.local@,
                destination: datagram.destination@,
                body: datagram.body@,
            },
            Action::Finish => ActionView::Finish,
            Action::Abort(error) => ActionView::Abort(*error),
        }
    }
}

/// The end of a run with `error`.
pub open spec fn fail(error: PipelineError) -> (State, ActionView) {
    (State::Failed { error }, ActionView::Abort(error))
}

/// The start of `stage` on a buffer of shape `input`.
pub open spec fn enter(config: Config, stage: Stage, input: ImageShape) -> (State, ActionView) {
    match planned(stage.transform(config), input) {
        Ok(step) => (State::Transforming { stage, step }, ActionView::Apply(step.transform)),
        Err(error) => fail(error),
    }
}

/// The state after `event` was reported in `state`, and what is asked of
/// the caller then.
///
/// Each state waits for one kind of event. A loaded buffer must not be
/// empty; a transformed one must be what its step admits; compressed bytes
/// must be few enough to be written as text. Any other report ends the run
/// with the error of the stage it came in. A buffer that the next
/// transformation does not take ends it with a `ProcessingError`. A run
/// that has ended stays as it is.
pub open spec fn next(config: Config, state: State, event: EventView) -> (State, ActionView) {
    match state {
        State::Loading => match event {
            EventView::Produced(shape) => if shape.is_empty() {
                fail(PipelineError::LoadError)
            } else {
                enter(config, Stage::Grayscale, shape)
            },
            _ => fail(PipelineError::LoadError),
        },
        State::Transforming { stage, step } => match event {
            EventView::Produced(shape) => if step.admits(shape) {
                match stage.following() {
                    Some(following) => enter(config, following, shape),
                    None => (
                        State::Encoding { image: shape },
                        ActionView::Encode { format: ImageFormat::Jpeg },
                    ),
                }
            } else {
                fail(PipelineError::ProcessingError)
            },
            _ => fail(PipelineError::ProcessingError),
        },
        State::Encoding { image } => match event {
            EventView::Encoded(bytes) => if encoded_len(bytes.len()) <= isize::MAX {
                (
                    State::Sending,
                    ActionView::Send {
                        local: local_endpoint(),
                        destination: config.udp_addr@,
                        body: wire_text(base64_standard(bytes)),
                    },
                )
            } else {
                fail(PipelineError::EncodeError)
            },
            _ => fail(PipelineError::EncodeError),
        },
        State::Sending => match event {
            EventView::Sent => (State::Finished, ActionView::Finish),
            _ => fail(PipelineError::TransportError),
        },
        State::Finished => (State::Finished, ActionView::Finish),
        State::Failed { error } => fail(error),
    }
}

/// Begins a run: the picture is to be loaded, in colour.
pub fn start(config: &Config) -> (result: (State, Action))
    ensures
        result.0 == State::Loading,
        result.1@ == (ActionView::Load { path: config.image_path@, mode: LoadMode::Color }),
{
    (State::Loading, Action::Load { path: config.image_path.clone(), mode: LoadMode::Color })
}

fn abort(error: PipelineError) -> (result: (State, Action))
    ensures
        (result.0, result.1@) == fail(error),
{
    (State::Failed { error }, Action::Abort(error))
}

fn begin(config: &Config, stage: Stage, input: &ImageShape) -> (result: (State, Action))
    ensures
        (result.0, result.1@) == enter(*config, stage, *input),
{
    match stage.plan(config, input) {
        Ok(step) => (State::Transforming { stage, step }, Action::Apply(step.transform)),
        Err(error) => abort(error),
    }
}

/// Takes the report of what happened and decides what happens next.
pub fn step(config: &Config, state: State, event: Event) -> (result: (State, Action))
    ensures
        (result.0, result.1@) == next(*config, state, event@),
{
    match state {
        State::Loading => match event {
            Event::Produced(shape) => {
                if shape.is_empty() {
                    abort(PipelineError::LoadError)
                } else {
                    begin(config, Stage::Grayscale, &shape)
                }
            },
            _ => abort(PipelineError::LoadError),
        },
        State::Transforming { stage, step } => match event {
            Event::Produced(shape) => match step.accept(&shape) {
                Ok(accepted) => match stage.following() {
                    Some(following) => begin(config, following, &accepted),
                    None => (
                        State::Encoding { image: accepted },
                        Action::Encode { format: ImageFormat::Jpeg },
                    ),
                },
                Err(error) => abort(error),
            },
            _ => abort(PipelineError::ProcessingError),
        },
        State::Encoding { image } => match event {
            Event::Encoded(bytes) => {
                if is_encodable(bytes.len()) {
                    let payload = Payload::from_image(bytes.as_slice());
                    let datagram = send_data(&payload, config.udp_addr.as_str());
                    (State::Sending, Action::Send(datagram))
                } else {
                    abort(PipelineError::EncodeError)
                }
            },
            _ => abort(PipelineError::EncodeError),
        },
        State::Sending => match event {
            Event::Sent => (State::Finished, Action::Finish),
            _ => abort(PipelineError::TransportError),
        },
        State::Finished => (State::Finished, Action::Finish),
        State::Failed { error } => abort(error),
    }
}

} // verus!
