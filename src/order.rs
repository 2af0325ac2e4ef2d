//! Why ordering a source into a target stopped.
use crate::move_photos::MovePhotosError;
use vstd::prelude::*;

verus! {

/// Why ordering stopped: the source could not be read, or moving failed.
#[derive(Clone, Debug, PartialEq, Eq)]
pub enum Error {
    ReadSource,
    MoveFailed(MovePhotosError),
}

impl Error {
    /// The error of a failed move.
    pub fn from_move(e: MovePhotosError) -> (r: Error)
        ensures
            r == Error::MoveFailed(e),
    {
        Error::MoveFailed(e)
    }
}

} // verus!
