//! The preview's dash: a double tap dashes when the knight is neither
//! attacking nor already dashing (no charges here).

use vstd::prelude::*;
pub use crate::scene::battle_test::sys_dash::{DashTaps, TapDir, TapOutcome};

verus! {

/// Whether taps are read this frame.
pub fn taps_read(attacking: bool, dashing: bool) -> (r: bool)
    ensures
        r == (!attacking && !dashing),
{
    !attacking && !dashing
}

} // verus!
