use vstd::prelude::*;

verus! {

/// One incremental change to an ordered feed.
#[derive(Clone, Debug, PartialEq, Eq)]
pub enum Patch<T> {
    /// Insert `value` at `index`.
    InsertAt { index: usize, value: T },
    /// Remove the element at `index`.
    RemoveAt { index: usize },
    /// Replace the element at `index` by `value`.
    SetAt { index: usize, value: T },
    /// Append an element.
    PushBack(T),
    /// Prepend an element.
    PushFront(T),
    /// Remove the last element.
    PopBack,
    /// Remove the first element.
    PopFront,
    /// Remove every element.
    Clear,
    /// Replace the whole contents.
    Reset(Vec<T>),
}

} // verus!
