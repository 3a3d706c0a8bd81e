//! Colors with milli-valued channels: 1000 is a full channel.

use vstd::prelude::*;

verus! {

/// A color in milli-channels; the host divides by 1000 for its own scale.
#[derive(Clone, Copy, Debug, PartialEq, Eq, Structural)]
pub struct MilliColor {
    pub red: i64,
    pub green: i64,
    pub blue: i64,
    pub alpha: i64,
}

} // verus!
