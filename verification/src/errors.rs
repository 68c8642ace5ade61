use vstd::prelude::*;

verus! {

/// Failure taxonomy of the parameter core.
///
/// `InvalidArgument` answers a metadata query with an unknown id or a
/// malformed index; `NotFound` a value/string conversion whose id is not
/// registered; `ParseFailure` a string that cannot be read as a number;
/// `ReadFailure` a state stream that is empty or shorter than expected;
/// `InvalidId` a host identifier with no corresponding parameter identity.
#[derive(Clone, Copy, PartialEq, Eq, Structural, Debug)]
pub enum CoreError {
    InvalidArgument,
    NotFound,
    ParseFailure,
    ReadFailure,
    InvalidId,
}

} // verus!
