//! The four bytes that stand for a colour in a file.

use crate::colors::{premultiplied, premultiplied_color, Color32};
use vstd::prelude::*;

verus! {

/// The bytes kept for a colour: its channels as it holds them, that is
/// multiplied by the opacity, and the opacity.
pub open spec fn bytes_of(color: Color32) -> Seq<u8> {
    seq![color.r, color.g, color.b, color.a]
}

/// The colour made of four kept bytes, which are read as three channels
/// with a separate opacity.
pub open spec fn color_of(rgba: Seq<u8>) -> Color32 {
    premultiplied(rgba[0], rgba[1], rgba[2], rgba[3])
}

/// The four bytes to keep for a colour.
pub fn serialize(color: &Color32) -> (rgba: [u8; 4])
    ensures
        rgba@ == bytes_of(*color),
{
    let rgba = [color.r, color.g, color.b, color.a];
    assert(rgba@ =~= bytes_of(*color));
    rgba
}

/// The colour of four kept bytes.
pub fn deserialize(rgba: [u8; 4]) -> (color: Color32)
    ensures
        color == color_of(rgba@),
{
    premultiplied_color(rgba[0], rgba[1], rgba[2], rgba[3])
}

} // verus!
