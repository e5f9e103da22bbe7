//! The error taxonomy of a check run.

use vstd::prelude::*;

verus! {

/// Why a check run stopped early.
///
/// Every error is terminal for the run: nothing is retried, and no
/// notification is sent once one of these has occurred.
#[derive(Clone, Copy, Debug, PartialEq, Eq, Structural)]
pub enum BotError {
    /// An HTTP call failed in transport or returned a non-success status.
    NetworkError,
    /// A response body did not match the expected JSON shape.
    ParseError,
    /// No stable release tag remained after filtering release candidates.
    NotFoundError,
}

} // verus!
