//! Platform defaults for the editor's settings.

use vstd::prelude::*;

verus! {

/// The name of the font to prefer when none is configured; empty means no
/// preference, leaving the toolkit's own default in place.
pub fn get_default_font() -> (r: String)
    ensures
        r@.len() == 0,
{
    String::new()
}

} // verus!
