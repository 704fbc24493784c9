use vstd::prelude::*;

verus! {

/// The single failure of every conversion in this crate. It carries no
/// detail: an unknown quarter token, an integer outside `1..=4`, a missing
/// separator and a bad year are all reported alike.
#[derive(Debug, Clone, Copy, PartialEq, Eq, Structural)]
pub struct ParseQuarterError;

} // verus!
