use vstd::prelude::*;

verus! {

/// Why a run ended early. Every failure is terminal: nothing is retried.
#[derive(Clone, Copy, Debug, PartialEq, Eq, Structural)]
pub enum PipelineError {
    /// The picture is missing, unreadable, or decoded to an empty buffer.
    LoadError,
    /// A transformation does not take the buffer it was meant for, failed,
    /// or produced a buffer it must not produce.
    ProcessingError,
    /// The final buffer could not be turned into its compressed form.
    EncodeError,
    /// The datagram could not be handed to the network.
    TransportError,
}

} // verus!
