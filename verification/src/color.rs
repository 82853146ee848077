//! Mask color policy: maps an application bundle identifier to an RGBA tint,
//! with a black fully-opaque fallback.
//!
//! Color components are stored in tenths of the unit interval (0 stands for
//! 0.0, 10 for 1.0); every tint of the policy is exact in these units, and the
//! rendering layer divides by ten when it builds a native color.

use crate::text::str_eq;
use vstd::prelude::*;

verus! {

/// One RGBA tint; each component counts tenths of the unit interval.
#[derive(Clone, Copy, Debug, PartialEq, Eq, Structural)]
pub struct Rgba {
    pub red_tenths: u8,
    pub green_tenths: u8,
    pub blue_tenths: u8,
    pub alpha_tenths: u8,
}

impl Rgba {
    /// Every component stays within the unit interval.
    pub open spec fn wf(&self) -> bool {
        self.red_tenths <= 10 && self.green_tenths <= 10 && self.blue_tenths <= 10
            && self.alpha_tenths <= 10
    }
}

/// The tint the policy assigns to a bundle identifier: an exact match on the
/// full identifier string, with black at full opacity for anything else.
pub open spec fn spec_color_for(bundle_id: Seq<char>) -> Rgba {
    if bundle_id == "net.kovidgoyal.kitty"@ {
        Rgba { red_tenths: 5, green_tenths: 0, blue_tenths: 5, alpha_tenths: 7 }
    } else if bundle_id == "com.google.Chrome"@ {
        Rgba { red_tenths: 0, green_tenths: 0, blue_tenths: 0, alpha_tenths: 5 }
    } else if bundle_id == "com.hnc.DiscordPTB"@ {
        Rgba { red_tenths: 0, green_tenths: 0, blue_tenths: 10, alpha_tenths: 9 }
    } else {
        Rgba { red_tenths: 0, green_tenths: 0, blue_tenths: 0, alpha_tenths: 10 }
    }
}

/// Looks the bundle identifier up in the fixed color table.
pub fn get_mask_color(bundle_id: &str) -> (c: Rgba)
    ensures
        c == spec_color_for(bundle_id@),
        c.wf(),
{
    if str_eq(bundle_id, "net.kovidgoyal.kitty") {
        Rgba { red_tenths: 5, green_tenths: 0, blue_tenths: 5, alpha_tenths: 7 }
    } else if str_eq(bundle_id, "com.google.Chrome") {
        Rgba { red_tenths: 0, green_tenths: 0, blue_tenths: 0, alpha_tenths: 5 }
    } else if str_eq(bundle_id, "com.hnc.DiscordPTB") {
        Rgba { red_tenths: 0, green_tenths: 0, blue_tenths: 10, alpha_tenths: 9 }
    } else {
        Rgba { red_tenths: 0, green_tenths: 0, blue_tenths: 0, alpha_tenths: 10 }
    }
}

} // verus!
