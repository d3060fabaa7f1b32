use vstd::prelude::*;

verus! {

/// The result of polling a non-blocking operation once.
#[derive(Debug, PartialEq, Eq)]
pub enum Polled<T> {
    /// The operation finished with this value.
    Ready(T),
    /// The operation cannot finish yet; the caller is woken when it is worth
    /// polling again.
    Pending,
}

} // verus!
