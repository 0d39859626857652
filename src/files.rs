//! Classification of file accesses, for access prediction.
use vstd::prelude::*;

verus! {

#[derive(Debug, Clone, Copy, PartialEq, Eq, Structural)]
pub enum AccessType {
    Read,
    Write,
    Execute,
    Create,
    Delete,
}

#[derive(Debug, Clone, Copy, PartialEq, Eq, Structural)]
pub enum PredictionType {
    /// Files accessed after the current one.
    SequentialAccess,
    /// Files in the same directory or project.
    RelatedAccess,
    /// Files accessed at similar times.
    TemporalPattern,
    /// Files matching the user's usual workflow.
    UserPattern,
}

/// Size class of a file: up to 1 MiB, up to 100 MiB, up to 1 GiB, above.
#[derive(Debug, Clone, Copy, PartialEq, Eq, Structural)]
pub enum FileSizeCategory {
    Small,
    Medium,
    Large,
    XLarge,
}

pub const MIB: u64 = 1048576;
pub const HUNDRED_MIB: u64 = 104857600;
pub const GIB: u64 = 1073741824;

impl FileSizeCategory {
    pub fn from_size(size: u64) -> (r: Self)
        ensures
            size <= MIB ==> r == FileSizeCategory::Small,
            MIB < size <= HUNDRED_MIB ==> r == FileSizeCategory::Medium,
            HUNDRED_MIB < size <= GIB ==> r == FileSizeCategory::Large,
            GIB < size ==> r == FileSizeCategory::XLarge,
    {
        if size <= MIB {
            FileSizeCategory::Small
        } else if size <= HUNDRED_MIB {
            FileSizeCategory::Medium
        } else if size <= GIB {
            FileSizeCategory::Large
        } else {
            FileSizeCategory::XLarge
        }
    }
}

} // verus!
