//! The tray icon's color rule. Drawing the icon itself is the unverified
//! shell's job; the rule that picks the color from the usage percentage is
//! decided here, over the percentage in tenths.

use vstd::prelude::*;

verus! {

/// The icon's color for a usage percentage given in tenths of a percent: red
/// from 90%, orange from 70%, yellow from 50%, green below.
pub fn get_color_for_usage(percentage_tenths: u64) -> (r: (u8, u8, u8))
    ensures
        percentage_tenths >= 900 ==> r == (230u8, 40u8, 40u8),
        700 <= percentage_tenths < 900 ==> r == (250u8, 150u8, 30u8),
        500 <= percentage_tenths < 700 ==> r == (250u8, 230u8, 30u8),
        percentage_tenths < 500 ==> r == (50u8, 200u8, 100u8),
{
    if percentage_tenths >= 900 {
        (230, 40, 40)
    } else if percentage_tenths >= 700 {
        (250, 150, 30)
    } else if percentage_tenths >= 500 {
        (250, 230, 30)
    } else {
        (50, 200, 100)
    }
}

} // verus!
