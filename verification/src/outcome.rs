//! Why the application of one category can fail as a whole.

use vstd::prelude::*;
use crate::text::lines;

verus! {

/// A fault that ends the application of one category. A write that fails later,
/// or a knob that the machine lacks, is no such fault.
#[derive(Debug, Clone, Copy, PartialEq, Eq, Structural)]
pub enum ApplyError {
    /// The devices of the category could not be listed.
    Unlisted,
    /// A listed device lacks what identifies it.
    Unidentified,
    /// The pattern that picks the devices was not accepted.
    PatternRejected,
}

/// `out` is what `model` says: the same fault, or lines that read the same.
pub open spec fn agrees(
    out: Result<Vec<String>, ApplyError>,
    model: Result<Seq<Seq<char>>, ApplyError>,
) -> bool {
    match out {
        Ok(written) => model == Ok::<Seq<Seq<char>>, ApplyError>(lines(written@)),
        Err(fault) => model == Err::<Seq<Seq<char>>, ApplyError>(fault),
    }
}

} // verus!
