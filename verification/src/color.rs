//! The fixed palette, as `0xRRGGBB` values, and the background color rule
//! for list entries.

use vstd::prelude::*;

verus! {

/// #1E90FF
pub const DODER_BLUE: u32 = 0x1E90FF;

/// #FFFFFF
pub const WHITE: u32 = 0xFFFFFF;

/// #DC143C
pub const CRIMSON: u32 = 0xDC143C;

/// #87CEFA
pub const LIGHT_SKY_BLUE: u32 = 0x87CEFA;

/// #9E9E9E
pub const GRAY: u32 = 0x9E9E9E;

/// #000000
pub const BLACK: u32 = 0x000000;

/// The background of a request list entry: highlighted while active.
pub fn get_bg_color(is_active: bool) -> (r: u32)
    ensures
        r == if is_active {
            LIGHT_SKY_BLUE
        } else {
            WHITE
        },
{
    if is_active {
        LIGHT_SKY_BLUE
    } else {
        WHITE
    }
}

} // verus!
