//! Whole runs of the pipeline, and what holds of all of them.

use crate::base64_text::{base64_standard, encoded_len};
use crate::error::PipelineError;
use crate::image::{ImageFormat, ImageShape, PixelType};
use crate::network::udp_sender::{local_endpoint, wire_text};
use crate::pipeline::{next, ActionView, Config, EventView, Stage, State};
use crate::processing::{ColorConversion, Transform};
use vstd::prelude::*;

verus! {

/// The state after `events` were reported one after the other, beginning
/// in `state`.
pub open spec fn run(config: Config, state: State, events: Seq<EventView>) -> State
    decreases events.len(),
{
    if events.len() == 0 {
        state
    } else {
        next(config, run(config, state, events.drop_last()), events.last()).0
    }
}

/// What the caller was asked to do in answer to the event at `index`.
pub open spec fn answer(
    config: Config,
    state: State,
    events: Seq<EventView>,
    index: int,
) -> ActionView {
    next(config, run(config, state, events.take(index)), events[index]).1
}

/// How far a run has come: the number of stages that lie behind it.
pub open spec fn progress(state: State) -> nat {
    match state {
        State::Loading => 0,
        State::Transforming { stage: Stage::Grayscale, .. } => 1,
        State::Transforming { stage: Stage::Equalize, .. } => 2,
        State::Transforming { stage: Stage::Blur, .. } => 3,
        State::Transforming { stage: Stage::EdgeDetect, .. } => 4,
        State::Transforming { stage: Stage::Resize, .. } => 5,
        State::Encoding { .. } => 6,
        State::Sending => 7,
        State::Finished => 8,
        State::Failed { .. } => 0,
    }
}

/// Whether a run is over.
pub open spec fn is_over(state: State) -> bool {
    state is Finished || state is Failed
}

/// The error that a failure in `state` ends the run with, for a run that
/// is under way.
pub open spec fn error_in(state: State) -> PipelineError
    recommends
        !is_over(state),
{
    match state {
        State::Loading => PipelineError::LoadError,
        State::Transforming { .. } => PipelineError::ProcessingError,
        State::Encoding { .. } => PipelineError::EncodeError,
        _ => PipelineError::TransportError,
    }
}

/// What a state holds if it was reached from the start: the step of a
/// stage is the one that the configuration names, the edges are looked for
/// in, and scaled from, a single channel of 8-bit samples, and what is
/// compressed has the final shape.
pub open spec fn consistent(config: Config, state: State) -> bool {
    match state {
        State::Transforming { stage, step } => {
            &&& step.transform == stage.transform(config)
            &&& stage == Stage::EdgeDetect ==> step.expected.channels == 1 && step.expected.pixel
                == PixelType::U8
            &&& stage == Stage::Resize ==> step.expected == config.final_shape()
        },
        State::Encoding { image } => image == config.final_shape() && !image.is_empty(),
        _ => true,
    }
}

/// The state after the first `count + 1` events is one `next` away from
/// the state after the first `count`.
pub proof fn lemma_run_prefix(config: Config, state: State, events: Seq<EventView>, count: int)
    requires
        0 <= count < events.len(),
    ensures
        run(config, state, events.take(count + 1)) == next(
            config,
            run(config, state, events.take(count)),
            events[count],
        ).0,
{
    assert(events.take(count + 1).drop_last() =~= events.take(count));
}

/// Before anything is reported, a run is where it began.
pub proof fn lemma_run_nothing(config: Config, state: State, events: Seq<EventView>)
    ensures
        run(config, state, events.take(0)) == state,
{
}

/// A run moves one stage at a time, in the fixed order, or it ends. It
/// ends with the error of the stage it was in when what was reported is
/// not what that stage had to give: a failed load is a `LoadError`, a
/// failed transformation a `ProcessingError`, a failed compression an
/// `EncodeError`, a failed transmission a `TransportError`. And it ends
/// with a `ProcessingError` when the buffer is one that the next
/// transformation does not take.
pub proof fn lemma_one_stage_at_a_time(config: Config, state: State, event: EventView)
    requires
        !is_over(state),
    ensures
        ({
            let (after, action) = next(config, state, event);
            ||| (after == State::Failed { error: error_in(state) } && action == ActionView::Abort(
                error_in(state),
            ))
            ||| ((state is Loading || state is Transforming) && after == State::Failed {
                error: PipelineError::ProcessingError,
            } && action == ActionView::Abort(PipelineError::ProcessingError))
            ||| (!(after is Failed) && progress(after) == progress(state) + 1 && !(action is Abort))
        }),
{
}

/// A run that is over stays as it is: after a failure every answer is the
/// same `Abort`, after success every answer is `Finish`.
pub proof fn lemma_over_is_final(config: Config, state: State, events: Seq<EventView>)
    requires
        is_over(state),
    ensures
        run(config, state, events) == state,
        forall|i: int|
            0 <= i < events.len() ==> #[trigger] answer(config, state, events, i) == (match state {
                State::Failed { error } => ActionView::Abort(error),
                _ => ActionView::Finish,
            }),
    decreases events.len(),
{
    if events.len() > 0 {
        lemma_over_is_final(config, state, events.drop_last());
    }
    assert forall|i: int| 0 <= i < events.len() implies #[trigger] answer(config, state, events, i)
        == (match state {
        State::Failed { error } => ActionView::Abort(error),
        _ => ActionView::Finish,
    }) by {
        lemma_over_is_final(config, state, events.take(i));
    }
}

/// When the picture cannot be loaded, or is empty, the run ends with a
/// `LoadError` at once: no transformation is ever asked for, whatever is
/// reported afterwards.
pub proof fn lemma_load_failure_ends_run(config: Config, events: Seq<EventView>)
    requires
        events.len() > 0,
        !(events[0] matches EventView::Produced(shape) && !shape.is_empty()),
    ensures
        run(config, State::Loading, events) == (State::Failed { error: PipelineError::LoadError }),
        forall|i: int|
            0 <= i < events.len() ==> #[trigger] answer(config, State::Loading, events, i)
                == ActionView::Abort(PipelineError::LoadError),
{
    let failed = State::Failed { error: PipelineError::LoadError };
    lemma_run_nothing(config, State::Loading, events);
    lemma_run_prefix(config, State::Loading, events, 0);
    assert(run(config, State::Loading, events.take(1)) == failed);
    assert forall|n: int| 1 <= n <= events.len() implies #[trigger] run(
        config,
        State::Loading,
        events.take(n),
    ) == failed by {
        lemma_run_split(config, State::Loading, events.take(n), 1);
        assert(events.take(n).take(1) =~= events.take(1));
        lemma_over_is_final(config, failed, events.take(n).skip(1));
    }
    assert(events.take(events.len() as int) =~= events);
}

/// A run can be cut in two: the second part begins where the first ended.
pub proof fn lemma_run_split(config: Config, state: State, events: Seq<EventView>, at: int)
    requires
        0 <= at <= events.len(),
    ensures
        run(config, state, events) == run(
            config,
            run(config, state, events.take(at)),
            events.skip(at),
        ),
    decreases events.len(),
{
    if at == events.len() {
        assert(events.take(at) =~= events);
        assert(events.skip(at) =~= Seq::<EventView>::empty());
    } else {
        lemma_run_split(config, state, events.drop_last(), at);
        assert(events.drop_last().take(at) =~= events.take(at));
        assert(events.drop_last().skip(at) =~= events.skip(at).drop_last());
        assert(events.skip(at).last() == events.last());
    }
}

/// Consistency is kept by every report.
pub proof fn lemma_next_consistent(config: Config, state: State, event: EventView)
    requires
        consistent(config, state),
    ensures
        consistent(config, next(config, state, event).0),
{
}

/// Every state of a run from the start is consistent. In particular, what
/// is compressed and sent always has the configured size, one channel and
/// 8-bit samples, whatever the size of the picture that was loaded.
pub proof fn lemma_run_consistent(config: Config, events: Seq<EventView>)
    ensures
        consistent(config, run(config, State::Loading, events)),
        run(config, State::Loading, events) matches State::Encoding { image } ==> image.cols
            == config.target_width && image.rows == config.target_height && image.channels == 1
            && image.pixel == PixelType::U8,
    decreases events.len(),
{
    if events.len() > 0 {
        lemma_run_consistent(config, events.drop_last());
        lemma_next_consistent(
            config,
            run(config, State::Loading, events.drop_last()),
            events.last(),
        );
    }
}

/// With a colour picture that loads, a kernel whose side is positive and
/// odd, a target size that is positive both ways, transformations that
/// give what they should, a compression that succeeds and a socket that
/// takes the datagram, the run goes through its eight stages and finishes.
/// On the way it asks for the five transformations in their order, each
/// with the configured arguments, then for the compression as a JPEG, then
/// for the datagram to be sent: the payload as JSON, from the wildcard
/// address to the configured one.
pub proof fn lemma_complete_run(config: Config, loaded: ImageShape, bytes: Seq<u8>)
    requires
        !loaded.is_empty(),
        loaded.channels == 3,
        loaded.pixel == PixelType::U8,
        config.blur_kernel > 0,
        config.blur_kernel % 2 == 1,
        config.target_width > 0,
        config.target_height > 0,
        encoded_len(bytes.len()) <= isize::MAX,
    ensures
        ({
            let gray = ImageShape { channels: 1, ..loaded };
            let events = seq![
                EventView::Produced(loaded),
                EventView::Produced(gray),
                EventView::Produced(gray),
                EventView::Produced(gray),
                EventView::Produced(gray),
                EventView::Produced(config.final_shape()),
                EventView::Encoded(bytes),
                EventView::Sent,
            ];
            let start = State::Loading;
            &&& run(config, start, events) == State::Finished
            &&& answer(config, start, events, 0) == ActionView::Apply(
                Transform::Grayscale { conversion: ColorConversion::BgrToGray },
            )
            &&& answer(config, start, events, 1) == ActionView::Apply(Transform::Equalize)
            &&& answer(config, start, events, 2) == ActionView::Apply(
                Stage::Blur.transform(config),
            )
            &&& answer(config, start, events, 3) == ActionView::Apply(
                Stage::EdgeDetect.transform(config),
            )
            &&& answer(config, start, events, 4) == ActionView::Apply(
                Stage::Resize.transform(config),
            )
            &&& answer(config, start, events, 5) == (ActionView::Encode {
                format: ImageFormat::Jpeg,
            })
            &&& answer(config, start, events, 6) == (ActionView::Send {
                local: local_endpoint(),
                destination: config.udp_addr@,
                body: wire_text(base64_standard(bytes)),
            })
            &&& answer(config, start, events, 7) == ActionView::Finish
        }),
{
    let gray = ImageShape { channels: 1, ..loaded };
    let events = seq![
        EventView::Produced(loaded),
        EventView::Produced(gray),
        EventView::Produced(gray),
        EventView::Produced(gray),
        EventView::Produced(gray),
        EventView::Produced(config.final_shape()),
        EventView::Encoded(bytes),
        EventView::Sent,
    ];
    let start = State::Loading;
    lemma_run_nothing(config, start, events);
    lemma_run_prefix(config, start, events, 0);
    assert(progress(run(config, start, events.take(1))) == 1);
    lemma_run_prefix(config, start, events, 1);
    assert(progress(run(config, start, events.take(2))) == 2);
    lemma_run_prefix(config, start, events, 2);
    assert(progress(run(config, start, events.take(3))) == 3);
    lemma_run_prefix(config, start, events, 3);
    assert(progress(run(config, start, events.take(4))) == 4);
    lemma_run_prefix(config, start, events, 4);
    assert(progress(run(config, start, events.take(5))) == 5);
    lemma_run_prefix(config, start, events, 5);
    assert(progress(run(config, start, events.take(6))) == 6);
    lemma_run_prefix(config, start, events, 6);
    assert(progress(run(config, start, events.take(7))) == 7);
    lemma_run_prefix(config, start, events, 7);
    assert(progress(run(config, start, events.take(8))) == 8);
    assert(events.take(8) =~= events);
}

} // verus!
