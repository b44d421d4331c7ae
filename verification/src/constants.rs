//! Fixed values of the panel.

use vstd::prelude::*;

verus! {

/// The least number of rows on which the panel is drawn.
pub const MIN_SCREEN_HEIGHT: u16 = 5;

} // verus!
