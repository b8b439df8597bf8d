use vstd::prelude::*;

verus! {

/// Why a device refused a read.
#[derive(Clone, Copy, Debug, PartialEq, Eq, Structural)]
pub enum ReadErrorKind {
    Empty,
    NotReady,
    Unmapped,
}

/// Why a device refused a write.
#[derive(Clone, Copy, Debug, PartialEq, Eq, Structural)]
pub enum WriteErrorKind {
    Full,
    NotReady,
    Unmapped,
}

pub type ReadResult<T> = Result<T, ReadErrorKind>;

pub type WriteResult = Result<(), WriteErrorKind>;

} // verus!
