//! The colours of the log terminal.
//!
//! A colour is four bytes: red, green and blue, each already multiplied
//! by the opacity, and the opacity itself. This is how `egui::Color32`
//! holds a colour, and the two constructors used here are its own.

use vstd::prelude::*;

pub mod color32_serde;

verus! {

/// A colour with premultiplied alpha.
#[derive(Clone, Copy, Debug, PartialEq, Eq, Structural)]
pub struct Color32 {
    /// Red, multiplied by the opacity.
    pub r: u8,
    /// Green, multiplied by the opacity.
    pub g: u8,
    /// Blue, multiplied by the opacity.
    pub b: u8,
    /// Opacity: 0 is fully transparent, 255 is opaque.
    pub a: u8,
}

/// `value * alpha / 255`, rounded to the nearest integer, in the
/// fixed-point form that needs no division.
pub open spec fn scaled(value: u8, alpha: u8) -> u8 {
    let p = value * alpha + 128;
    ((p + p / 256) / 256) as u8
}

/// The opaque colour of three channels.
pub open spec fn opaque(r: u8, g: u8, b: u8) -> Color32 {
    Color32 { r, g, b, a: 255 }
}

/// The colour of three channels and a separate opacity: nothing at all if
/// the opacity is zero, the channels as they are if it is full, and
/// otherwise each channel scaled by it.
pub open spec fn premultiplied(r: u8, g: u8, b: u8, a: u8) -> Color32 {
    if a == 0 {
        Color32 { r: 0, g: 0, b: 0, a: 0 }
    } else if a == 255 {
        opaque(r, g, b)
    } else {
        Color32 { r: scaled(r, a), g: scaled(g, a), b: scaled(b, a), a }
    }
}

/// Calls `egui::Color32::from_rgb` and copies out the four bytes of what
/// it returns. The contract is that function's body: the three channels as
/// given, and full opacity.
#[verifier::external_body]
pub(crate) fn opaque_color(r: u8, g: u8, b: u8) -> (c: Color32)
    ensures
        c == opaque(r, g, b),
{
    let made = egui::Color32::from_rgb(r, g, b);
    Color32 { r: made.r(), g: made.g(), b: made.b(), a: made.a() }
}

/// Calls `egui::Color32::from_rgba_unmultiplied` and copies out the four
/// bytes of what it returns. The contract restates that function: it
/// gives transparent black for opacity 0, the channels unchanged for
/// opacity 255, and otherwise multiplies each channel by the opacity with
/// the rounding of `scaled`, keeping the opacity.
#[verifier::external_body]
pub(crate) fn premultiplied_color(r: u8, g: u8, b: u8, a: u8) -> (c: Color32)
    ensures
        c == premultiplied(r, g, b, a),
{
    let made = egui::Color32::from_rgba_unmultiplied(r, g, b, a);
    Color32 { r: made.r(), g: made.g(), b: made.b(), a: made.a() }
}

/// The colours in which the log terminal prints each kind of entry.
#[derive(Clone, Copy, Debug, PartialEq, Eq, Structural)]
pub struct LogColors {
    pub slider: Color32,
    pub option_a: Color32,
    pub option_b: Color32,
    pub option_c: Color32,
    pub custom_event: Color32,
    pub run_stop_log: Color32,
    pub timestamp: Color32,
    pub primary: Color32,
    pub secondary: Color32,
}

/// The colours as they are kept in a file: for each entry the four bytes
/// that `color32_serde::serialize` gives.
#[derive(Clone, Copy, Debug, PartialEq, Eq)]
pub struct StoredColors {
    pub slider: [u8; 4],
    pub option_a: [u8; 4],
    pub option_b: [u8; 4],
    pub option_c: [u8; 4],
    pub custom_event: [u8; 4],
    pub run_stop_log: [u8; 4],
    pub timestamp: [u8; 4],
    pub primary: [u8; 4],
    pub secondary: [u8; 4],
}

impl LogColors {
    /// The colours of a terminal that was never configured.
    pub open spec fn initial() -> LogColors {
        LogColors {
            slider: opaque(32, 111, 32),
            option_a: opaque(255, 150, 150),
            option_b: opaque(150, 255, 150),
            option_c: opaque(150, 150, 255),
            custom_event: opaque(255, 255, 0),
            run_stop_log: opaque(255, 128, 0),
            timestamp: opaque(32, 100, 32),
            primary: opaque(32, 111, 32),
            secondary: opaque(255, 255, 255),
        }
    }

    /// `kept` holds, entry by entry, the bytes of these colours.
    pub open spec fn kept_as(self, kept: StoredColors) -> bool {
        &&& kept.slider@ == color32_serde::bytes_of(self.slider)
        &&& kept.option_a@ == color32_serde::bytes_of(self.option_a)
        &&& kept.option_b@ == color32_serde::bytes_of(self.option_b)
        &&& kept.option_c@ == color32_serde::bytes_of(self.option_c)
        &&& kept.custom_event@ == color32_serde::bytes_of(self.custom_event)
        &&& kept.run_stop_log@ == color32_serde::bytes_of(self.run_stop_log)
        &&& kept.timestamp@ == color32_serde::bytes_of(self.timestamp)
        &&& kept.primary@ == color32_serde::bytes_of(self.primary)
        &&& kept.secondary@ == color32_serde::bytes_of(self.secondary)
    }

    /// Every entry is opaque.
    pub open spec fn all_opaque(self) -> bool {
        &&& self.slider.a == 255
        &&& self.option_a.a == 255
        &&& self.option_b.a == 255
        &&& self.option_c.a == 255
        &&& self.custom_event.a == 255
        &&& self.run_stop_log.a == 255
        &&& self.timestamp.a == 255
        &&& self.primary.a == 255
        &&& self.secondary.a == 255
    }

    /// The colours that `load` makes of what was kept.
    pub open spec fn restored(kept: StoredColors) -> LogColors {
        LogColors {
            slider: color32_serde::color_of(kept.slider@),
            option_a: color32_serde::color_of(kept.option_a@),
            option_b: color32_serde::color_of(kept.option_b@),
            option_c: color32_serde::color_of(kept.option_c@),
            custom_event: color32_serde::color_of(kept.custom_event@),
            run_stop_log: color32_serde::color_of(kept.run_stop_log@),
            timestamp: color32_serde::color_of(kept.timestamp@),
            primary: color32_serde::color_of(kept.primary@),
            secondary: color32_serde::color_of(kept.secondary@),
        }
    }

    /// The colours to start with: those that were kept, if any could be
    /// read, and the initial ones otherwise.
    pub fn load(kept: Option<StoredColors>) -> (colors: Self)
        ensures
            colors == match kept {
                Some(k) => Self::restored(k),
                None => Self::initial(),
            },
    {
        match kept {
            Some(k) => LogColors {
                slider: color32_serde::deserialize(k.slider),
                option_a: color32_serde::deserialize(k.option_a),
                option_b: color32_serde::deserialize(k.option_b),
                option_c: color32_serde::deserialize(k.option_c),
                custom_event: color32_serde::deserialize(k.custom_event),
                run_stop_log: color32_serde::deserialize(k.run_stop_log),
                timestamp: color32_serde::deserialize(k.timestamp),
                primary: color32_serde::deserialize(k.primary),
                secondary: color32_serde::deserialize(k.secondary),
            },
            None => LogColors::default(),
        }
    }

    /// What is to be kept of these colours.
    pub fn save(&self) -> (kept: StoredColors)
        ensures
            self.kept_as(kept),
    {
        StoredColors {
            slider: color32_serde::serialize(&self.slider),
            option_a: color32_serde::serialize(&self.option_a),
            option_b: color32_serde::serialize(&self.option_b),
            option_c: color32_serde::serialize(&self.option_c),
            custom_event: color32_serde::serialize(&self.custom_event),
            run_stop_log: color32_serde::serialize(&self.run_stop_log),
            timestamp: color32_serde::serialize(&self.timestamp),
            primary: color32_serde::serialize(&self.primary),
            secondary: color32_serde::serialize(&self.secondary),
        }
    }
}

impl Default for LogColors {
    fn default() -> (colors: Self)
        ensures
            colors == LogColors::initial(),
    {
        LogColors {
            slider: opaque_color(32, 111, 32),
            option_a: opaque_color(255, 150, 150),
            option_b: opaque_color(150, 255, 150),
            option_c: opaque_color(150, 150, 255),
            custom_event: opaque_color(255, 255, 0),
            run_stop_log: opaque_color(255, 128, 0),
            timestamp: opaque_color(32, 100, 32),
            primary: opaque_color(32, 111, 32),
            secondary: opaque_color(255, 255, 255),
        }
    }
}

/// `scaled` rounds `value * alpha / 255` to the nearest integer, and so
/// never exceeds the opacity.
pub proof fn lemma_scaled_rounds(value: u8, alpha: u8)
    ensures
        scaled(value, alpha) == (2 * (value * alpha) + 255) / 510,
        scaled(value, alpha) <= alpha,
        scaled(value, alpha) <= value,
{
    let v = value as u32;
    let a = alpha as u32;
    assert({
        let p = (v * a + 128) as u32;
        let q = ((p + p / 256) / 256) as u32;
        q == (2 * (v * a) + 255) / 510 && q <= a && q <= v
    }) by (bit_vector)
        requires
            v < 256,
            a < 256,
    ;
}

/// A colour made from a separate opacity has no channel above that
/// opacity, and has the opacity it was given.
pub proof fn lemma_premultiplied_is_within_opacity(r: u8, g: u8, b: u8, a: u8)
    ensures
        premultiplied(r, g, b, a).a == a,
        a < 255 ==> premultiplied(r, g, b, a).r <= a,
        a < 255 ==> premultiplied(r, g, b, a).g <= a,
        a < 255 ==> premultiplied(r, g, b, a).b <= a,
{
    lemma_scaled_rounds(r, a);
    lemma_scaled_rounds(g, a);
    lemma_scaled_rounds(b, a);
}

/// Saving and loading gives back an opaque colour, and transparent
/// black, unchanged.
pub proof fn lemma_kept_bytes_give_back_the_color(color: Color32)
    requires
        color.a == 255 || color == (Color32 { r: 0, g: 0, b: 0, a: 0 }),
    ensures
        color32_serde::color_of(color32_serde::bytes_of(color)) == color,
{
}

/// Loading what was saved of opaque colours gives them back. The initial
/// colours are opaque.
pub proof fn lemma_opaque_colors_survive(colors: LogColors, kept: StoredColors)
    requires
        colors.all_opaque(),
        colors.kept_as(kept),
    ensures
        LogColors::restored(kept) == colors,
        LogColors::initial().all_opaque(),
{
    lemma_kept_bytes_give_back_the_color(colors.slider);
    lemma_kept_bytes_give_back_the_color(colors.option_a);
    lemma_kept_bytes_give_back_the_color(colors.option_b);
    lemma_kept_bytes_give_back_the_color(colors.option_c);
    lemma_kept_bytes_give_back_the_color(colors.custom_event);
    lemma_kept_bytes_give_back_the_color(colors.run_stop_log);
    lemma_kept_bytes_give_back_the_color(colors.timestamp);
    lemma_kept_bytes_give_back_the_color(colors.primary);
    lemma_kept_bytes_give_back_the_color(colors.secondary);
}

} // verus!
