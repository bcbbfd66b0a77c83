use vstd::prelude::*;

verus! {

/// The error numbers that the library reports.
#[derive(Copy, Clone, Debug, PartialEq, Eq, Structural)]
pub enum Errno {
    /// An argument is invalid.
    EINVAL,
    /// The entry does not exist.
    ENOENT,
    /// The entry exists already.
    EEXIST,
}

} // verus!
