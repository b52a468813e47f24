use egui_mobius_template::colors::color32_serde::{deserialize, serialize};
use egui_mobius_template::colors::{Color32, LogColors, StoredColors};

fn rgb(r: u8, g: u8, b: u8) -> Color32 {
    Color32 { r, g, b, a: 255 }
}

fn same(ours: Color32, theirs: egui::Color32) -> bool {
    [ours.r, ours.g, ours.b, ours.a] == theirs.to_array()
}

fn all_black() -> StoredColors {
    StoredColors {
        slider: [0, 0, 0, 255],
        option_a: [0, 0, 0, 255],
        option_b: [0, 0, 0, 255],
        option_c: [0, 0, 0, 255],
        custom_event: [0, 0, 0, 255],
        run_stop_log: [0, 0, 0, 255],
        timestamp: [0, 0, 0, 255],
        primary: [0, 0, 0, 255],
        secondary: [0, 0, 0, 255],
    }
}

#[test]
fn default_colors_are_the_initial_ones() {
    let c = LogColors::default();
    assert_eq!(c.slider, rgb(32, 111, 32));
    assert_eq!(c.option_a, rgb(255, 150, 150));
    assert_eq!(c.option_b, rgb(150, 255, 150));
    assert_eq!(c.option_c, rgb(150, 150, 255));
    assert_eq!(c.custom_event, rgb(255, 255, 0));
    assert_eq!(c.run_stop_log, rgb(255, 128, 0));
    assert_eq!(c.timestamp, rgb(32, 100, 32));
    assert_eq!(c.primary, rgb(32, 111, 32));
    assert_eq!(c.secondary, rgb(255, 255, 255));
}

#[test]
fn default_colors_are_what_the_toolkit_makes_of_them() {
    let c = LogColors::default();
    assert!(same(c.slider, egui::Color32::from_rgb(32, 111, 32)));
    assert!(same(c.custom_event, egui::Color32::YELLOW));
    assert!(same(c.secondary, egui::Color32::WHITE));
}

#[test]
fn serialize_gives_the_four_bytes_as_held() {
    assert_eq!(serialize(&Color32 { r: 1, g: 2, b: 3, a: 4 }), [1, 2, 3, 4]);
    assert_eq!(serialize(&rgb(255, 128, 0)), [255, 128, 0, 255]);
}

#[test]
fn deserialize_keeps_opaque_bytes() {
    assert_eq!(deserialize([255, 128, 0, 255]), rgb(255, 128, 0));
    assert_eq!(deserialize([0, 0, 0, 255]), rgb(0, 0, 0));
}

#[test]
fn deserialize_multiplies_by_the_opacity() {
    assert_eq!(deserialize([200, 100, 50, 128]), Color32 { r: 100, g: 50, b: 25, a: 128 });
    assert_eq!(deserialize([255, 255, 255, 1]), Color32 { r: 1, g: 1, b: 1, a: 1 });
    assert_eq!(deserialize([255, 0, 127, 254]), Color32 { r: 254, g: 0, b: 127, a: 254 });
    assert_eq!(deserialize([3, 2, 1, 100]), Color32 { r: 1, g: 1, b: 0, a: 100 });
}

#[test]
fn deserialize_of_no_opacity_is_transparent_black() {
    assert_eq!(deserialize([200, 100, 50, 0]), Color32 { r: 0, g: 0, b: 0, a: 0 });
}

#[test]
fn deserialize_agrees_with_the_toolkit_and_with_rounding() {
    for value in 0..=255u8 {
        for alpha in 0..=255u8 {
            let ours = deserialize([value, 255 - value, 7, alpha]);
            let theirs = egui::Color32::from_rgba_unmultiplied(value, 255 - value, 7, alpha);
            assert!(same(ours, theirs), "{} {}", value, alpha);
            let rounded = ((2 * (value as u32) * (alpha as u32) + 255) / 510) as u8;
            assert_eq!(ours.r, rounded, "{} {}", value, alpha);
            assert_eq!(ours.a, alpha);
            assert!(ours.r <= alpha && ours.g <= alpha && ours.b <= alpha || alpha == 255);
        }
    }
}

#[test]
fn load_without_kept_colors_gives_the_defaults() {
    assert_eq!(LogColors::load(None), LogColors::default());
}

#[test]
fn load_reads_each_entry_from_its_own_bytes() {
    let mut kept = all_black();
    kept.slider = [1, 0, 0, 255];
    kept.option_a = [2, 0, 0, 255];
    kept.option_b = [3, 0, 0, 255];
    kept.option_c = [4, 0, 0, 255];
    kept.custom_event = [5, 0, 0, 255];
    kept.run_stop_log = [6, 0, 0, 255];
    kept.timestamp = [7, 0, 0, 255];
    kept.primary = [8, 0, 0, 255];
    kept.secondary = [200, 100, 50, 128];
    let c = LogColors::load(Some(kept));
    assert_eq!(c.slider, rgb(1, 0, 0));
    assert_eq!(c.option_a, rgb(2, 0, 0));
    assert_eq!(c.option_b, rgb(3, 0, 0));
    assert_eq!(c.option_c, rgb(4, 0, 0));
    assert_eq!(c.custom_event, rgb(5, 0, 0));
    assert_eq!(c.run_stop_log, rgb(6, 0, 0));
    assert_eq!(c.timestamp, rgb(7, 0, 0));
    assert_eq!(c.primary, rgb(8, 0, 0));
    assert_eq!(c.secondary, Color32 { r: 100, g: 50, b: 25, a: 128 });
}

#[test]
fn save_keeps_each_entry_in_its_own_place() {
    let kept = LogColors::default().save();
    assert_eq!(kept.slider, [32, 111, 32, 255]);
    assert_eq!(kept.option_a, [255, 150, 150, 255]);
    assert_eq!(kept.option_b, [150, 255, 150, 255]);
    assert_eq!(kept.option_c, [150, 150, 255, 255]);
    assert_eq!(kept.custom_event, [255, 255, 0, 255]);
    assert_eq!(kept.run_stop_log, [255, 128, 0, 255]);
    assert_eq!(kept.timestamp, [32, 100, 32, 255]);
    assert_eq!(kept.primary, [32, 111, 32, 255]);
    assert_eq!(kept.secondary, [255, 255, 255, 255]);
}

#[test]
fn opaque_colors_survive_saving_and_loading() {
    let c = LogColors::default();
    assert_eq!(LogColors::load(Some(c.save())), c);
}

#[test]
fn translucent_color_is_multiplied_again_by_saving_and_loading() {
    let mut c = LogColors::default();
    c.primary = Color32 { r: 100, g: 50, b: 25, a: 128 };
    let back = LogColors::load(Some(c.save()));
    assert_eq!(back.primary, Color32 { r: 50, g: 25, b: 13, a: 128 });
    assert_eq!(back.slider, c.slider);
}
