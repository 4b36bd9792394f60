//! Colours derived from the two the user picks, so no choice can make the panel
//! unreadable.

use vstd::prelude::*;

verus! {

pub const INK_LIGHT: [u8; 3] = [236, 239, 244];

pub const INK_DARK: [u8; 3] = [18, 22, 28];

/// Perceived brightness, sRGB weighted and scaled by 10 000 so it stays an integer:
/// `0.2126 r + 0.7152 g + 0.0722 b`. Green carries most of it, blue almost none; a plain
/// average would call a saturated blue "light" and pick unreadable dark ink.
pub open spec fn weighted_brightness(colour: Seq<u8>) -> int {
    2126 * colour[0] + 7152 * colour[1] + 722 * colour[2]
}

/// Whether a background counts as light: brightness above 140 of 255. Evaluated in
/// `f32`, the weighted sum of exactly one colour on the threshold, `(205, 123, 117)`,
/// rounds up past it, and that colour counts as light too.
pub open spec fn reads_as_light(colour: Seq<u8>) -> bool {
    weighted_brightness(colour) > 1_400_000 || colour == seq![205u8, 123u8, 117u8]
}

/// Text colour that stays legible on `background`.
pub fn ink_for(background: [u8; 3]) -> (ink: [u8; 3])
    ensures
        ink@ == (if reads_as_light(background@) {
            INK_DARK@
        } else {
            INK_LIGHT@
        }),
{
    let r = background[0] as u32;
    let g = background[1] as u32;
    let b = background[2] as u32;
    let brightness: u32 = 2126 * r + 7152 * g + 722 * b;
    let on_the_rounded_edge = background[0] == 205 && background[1] == 123 && background[2]
        == 117;
    assert(on_the_rounded_edge <==> background@ == seq![205u8, 123u8, 117u8]) by {
        if background@ == seq![205u8, 123u8, 117u8] {
            assert(background@[0] == 205u8);
        }
        if on_the_rounded_edge {
            assert(background@ =~= seq![205u8, 123u8, 117u8]);
        }
    }
    if brightness > 1_400_000 || on_the_rounded_edge {
        INK_DARK
    } else {
        INK_LIGHT
    }
}

/// Whether the panel uses the light visuals: exactly when the background takes dark ink.
pub fn uses_light_visuals(background: [u8; 3]) -> (light: bool)
    ensures
        light == reads_as_light(background@),
{
    let ink = ink_for(background);
    ink[0] == INK_DARK[0]
}

/// Raising any channel never turns a light background dark: the ink only flips once,
/// from light to dark, as the background brightens.
pub proof fn lemma_ink_flips_once(darker: Seq<u8>, lighter: Seq<u8>)
    requires
        darker.len() == 3,
        lighter.len() == 3,
        darker[0] <= lighter[0],
        darker[1] <= lighter[1],
        darker[2] <= lighter[2],
        weighted_brightness(darker) > 1_400_000,
    ensures
        reads_as_light(lighter),
{
}

} // verus!
