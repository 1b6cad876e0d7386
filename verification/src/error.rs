use vstd::prelude::*;

verus! {

/// The ways in which registering nodes or running a tree can end.
#[derive(Clone, Copy, Debug, PartialEq, Eq, Structural, Hash)]
pub enum TreeError {
    /// `run` was asked of a tree whose loop is already active.
    AlreadyRunning,
    /// The candidate does not descend from the common node base.
    InvalidNodeType,
    /// A lifecycle hook of some behavior layer failed.
    DispatchFailure,
    /// A cancellation request was seen at the polling point.
    Cancelled,
}

impl TreeError {
    /// A short text for the error, fit for showing to a user.
    pub fn message(&self) -> (text: &'static str)
        ensures
            text@ == match *self {
                TreeError::AlreadyRunning => "This NodeTree is already running!"@,
                TreeError::InvalidNodeType => "Only types derived from Node can join a NodeTree"@,
                TreeError::DispatchFailure => "A lifecycle hook failed"@,
                TreeError::Cancelled => "The run loop was cancelled"@,
            },
    {
        match self {
            TreeError::AlreadyRunning => "This NodeTree is already running!",
            TreeError::InvalidNodeType => "Only types derived from Node can join a NodeTree",
            TreeError::DispatchFailure => "A lifecycle hook failed",
            TreeError::Cancelled => "The run loop was cancelled",
        }
    }
}

} // verus!
