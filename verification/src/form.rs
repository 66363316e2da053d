pub mod checkbox;
pub mod control;
pub mod field;
pub mod file;
pub mod input;
pub mod radio;
pub mod select;
pub mod textarea;

use vstd::prelude::*;

verus! {

/// What a controlled form component's update step decides: the value to hand
/// to the owner's update callback — at most one per event — and whether the
/// component re-renders of its own accord (it never does: the owner feeds
/// the new value back in as the next render's props).
pub struct UpdateResult<T> {
    pub emit: Option<T>,
    pub rerender: bool,
}

} // verus!
