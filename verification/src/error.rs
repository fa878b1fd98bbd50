//! The ways in which a pipeline run can fail.

use vstd::prelude::*;

verus! {

/// Why a merge or an unmerge did not produce its output.
#[derive(Clone, Copy, Debug, PartialEq, Eq, Structural)]
pub enum StegError {
    /// An input image is missing, unreadable, or in no supported format.
    DecodeError,
    /// The codec could not encode the output image.
    EncodeError,
    /// The output path could not be written.
    WriteError,
    /// The number of merge bits lies outside `0..=7`.
    InvalidConfig,
}

} // verus!
