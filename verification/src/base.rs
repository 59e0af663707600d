use vstd::prelude::*;

verus! {

/// What to do with the buffer once an attempt has returned.
#[derive(Debug, Clone, Copy, PartialEq, Eq, Structural)]
pub enum FillBufferAction {
    /// The attempt succeeded and the buffer holds usable data.
    Commit,
    /// The attempt failed only because the buffer was too small; enlarge it
    /// and try again.
    Grow,
    /// The attempt succeeded but produced nothing.
    NoData,
}

/// Why a negotiation ended without data to hand out.
#[derive(Debug, Clone, Copy, PartialEq, Eq, Structural)]
pub enum FillBufferError {
    /// The attempt returned a status that no handler maps to an action. The
    /// raw status code is carried along unchanged.
    Os(u32),
    /// The outcome of an attempt is one that its handler leaves undefined.
    Undefined,
    /// An attempt claims to have stored more than the buffer can hold.
    Overrun,
    /// The attempt counter can no longer be increased.
    Exhausted,
}

impl FillBufferError {
    /// The raw status code of a terminal error, if this is one.
    pub open spec fn spec_raw_os_error(self) -> Option<u32> {
        match self {
            FillBufferError::Os(code) => Some(code),
            _ => None,
        }
    }

    /// The raw status code of a terminal error, if this is one.
    pub fn raw_os_error(&self) -> (code: Option<u32>)
        ensures
            code == self.spec_raw_os_error(),
    {
        match self {
            FillBufferError::Os(code) => Some(*code),
            _ => None,
        }
    }
}

/// The outcome of classifying one attempt: the action to take, or the
/// terminal error that ends the negotiation.
pub type FillBufferResult = Result<FillBufferAction, FillBufferError>;

} // verus!
