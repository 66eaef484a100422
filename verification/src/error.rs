//! Error taxonomy of the playback core.

use vstd::prelude::*;

verus! {

/// A fatal playback failure.
///
/// `Open` and `Decode` arise at the media-source boundary (a container that
/// cannot be parsed, a malformed compressed unit) and are raised by the glue
/// that drives the codec. `MissingTimestamp` is raised by the timestamp
/// converter: a unit without a presentation timestamp has no defined
/// presentation order, so playback cannot continue.
#[derive(Clone, Copy, Debug, PartialEq, Eq, Structural)]
pub enum PlaybackError {
    /// The container could not be parsed or a required stream is absent.
    Open,
    /// A compressed unit could not be decoded.
    Decode,
    /// A compressed unit or decoded frame carries no presentation timestamp.
    MissingTimestamp,
}

} // verus!
