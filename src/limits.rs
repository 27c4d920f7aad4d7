//! Hard limits of the backend and the defaults of an upload.
use vstd::prelude::*;

verus! {

/// Smallest size in bytes of a part that is not the last of its upload (5 MiB).
pub const AWS_MIN_PART_SIZE: u64 = 5 * 1024 * 1024;

/// Largest size in bytes of one part (5 GiB).
pub const AWS_MAX_PART_SIZE: u64 = 5 * 1024 * 1024 * 1024;

/// Largest size in bytes of one object (5 TiB).
pub const AWS_MAX_OBJECT_SIZE: u64 = 5 * 1024 * 1024 * 1024 * 1024;

/// Largest part number, and so the largest count of parts, of one upload.
pub const AWS_MAX_PART_COUNT: i32 = 10000;

/// Target size of an object when none is configured (5 GiB).
pub const DEFAULT_MAX_OBJECT_SIZE: u64 = 5 * 1024 * 1024 * 1024;

/// Target size of a part when none is configured (10 MiB).
pub const DEFAULT_MAX_PART_SIZE: u64 = 10 * 1024 * 1024;

/// Capacity of the pending pool when none is configured.
pub const DEFAULT_MAX_TASKS: usize = 10;

/// The part size that a requested `limit` is clamped to: at least the minimum
/// part size, at most the maximum part size and what a `usize` can count.
pub open spec fn clamped_part_size(limit: int) -> int {
    let upper = if (usize::MAX as int) < AWS_MAX_PART_SIZE as int {
        usize::MAX as int
    } else {
        AWS_MAX_PART_SIZE as int
    };
    if limit < AWS_MIN_PART_SIZE as int {
        AWS_MIN_PART_SIZE as int
    } else if limit > upper {
        upper
    } else {
        limit
    }
}

/// The object size that a requested `limit` is clamped to.
pub open spec fn clamped_upload_size(limit: int) -> int {
    if limit > AWS_MAX_OBJECT_SIZE as int {
        AWS_MAX_OBJECT_SIZE as int
    } else {
        limit
    }
}

/// Clamps a requested part size into the range that the backend accepts.
pub fn part_size(limit: u64) -> (r: u64)
    ensures
        r as int == clamped_part_size(limit as int),
        AWS_MIN_PART_SIZE <= r <= AWS_MAX_PART_SIZE,
        r as int <= usize::MAX as int,
{
    let upper: u64 = if (usize::MAX as u64) < AWS_MAX_PART_SIZE {
        usize::MAX as u64
    } else {
        AWS_MAX_PART_SIZE
    };
    if limit < AWS_MIN_PART_SIZE {
        AWS_MIN_PART_SIZE
    } else if limit > upper {
        upper
    } else {
        limit
    }
}

/// Clamps a requested object size to the largest object the backend accepts.
pub fn upload_size(limit: u64) -> (r: u64)
    ensures
        r as int == clamped_upload_size(limit as int),
        r <= AWS_MAX_OBJECT_SIZE,
{
    if limit > AWS_MAX_OBJECT_SIZE {
        AWS_MAX_OBJECT_SIZE
    } else {
        limit
    }
}

} // verus!
