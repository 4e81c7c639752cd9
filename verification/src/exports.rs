//! Finding the module's own path: the loader is asked to copy the path
//! into a buffer, and says afterwards whether the buffer was large enough.
//! What to do with its answer is decided here; asking is the caller's part.

use vstd::prelude::*;

verus! {

/// Length, in 16-bit units, of the buffer that is tried first.
pub const MAX_PATH: usize = 260;

/// The error code that reports success.
pub const ERROR_SUCCESS: u32 = 0;

/// The error code that reports a buffer too small for the path.
pub const ERROR_INSUFFICIENT_BUFFER: u32 = 122;

/// What follows an answer of the loader.
#[derive(Clone, Copy, Debug, PartialEq, Eq, Structural)]
pub enum PathQuery {
    /// Ask again, with a buffer of this many units.
    Ask(usize),
    /// The path is the first so many units of the buffer.
    Found(usize),
    /// The path cannot be had.
    Unknown,
}

/// Twice `len`, or the largest length if that cannot be counted.
pub open spec fn doubled(len: usize) -> usize {
    if 2 * len <= usize::MAX {
        (2 * len) as usize
    } else {
        usize::MAX
    }
}

/// What follows when the loader, asked with a buffer of `len` units, wrote
/// `written` units and left the error code `last_error`.
///
/// * Too small a buffer is doubled and tried again, unless the doubled
///   length no longer is below the largest length that the loader can be
///   asked with; then the whole doubled buffer is taken as it is.
/// * On success the path is the `written` units at the front.
/// * Any other error ends the search.
pub open spec fn after_answer(len: usize, written: u32, last_error: u32) -> PathQuery {
    if last_error == ERROR_INSUFFICIENT_BUFFER {
        if doubled(len) < u32::MAX {
            PathQuery::Ask(doubled(len))
        } else {
            PathQuery::Found(doubled(len))
        }
    } else if last_error == ERROR_SUCCESS {
        PathQuery::Found(written as usize)
    } else {
        PathQuery::Unknown
    }
}

/// Decides what follows an answer of the loader.
pub fn get_dll_path(len: usize, written: u32, last_error: u32) -> (next: PathQuery)
    ensures
        next == after_answer(len, written, last_error),
{
    if last_error == ERROR_INSUFFICIENT_BUFFER {
        let grown = if len <= usize::MAX / 2 {
            len * 2
        } else {
            usize::MAX
        };
        if grown < u32::MAX as usize {
            PathQuery::Ask(grown)
        } else {
            PathQuery::Found(grown)
        }
    } else if last_error == ERROR_SUCCESS {
        PathQuery::Found(written as usize)
    } else {
        PathQuery::Unknown
    }
}

/// From the first buffer on, every buffer that is asked with is longer than
/// the one before: the search cannot go round in circles.
pub proof fn lemma_buffer_grows(len: usize, written: u32, last_error: u32)
    requires
        len >= MAX_PATH,
    ensures
        after_answer(len, written, last_error) matches PathQuery::Ask(next) ==> len < next
            < u32::MAX,
{
}

} // verus!
