//! Tray presenter update rules.

use power_mode_monitor::icon::{IconAssets, IconCache};
use power_mode_monitor::presenter::{IconChoice, Presenter};
use power_mode_monitor::theme::{bucket_of, Bucket, Theme};

fn png_1x1(rgba: [u8; 4]) -> Vec<u8> {
    let img = image::RgbaImage::from_pixel(1, 1, image::Rgba(rgba));
    let mut out = std::io::Cursor::new(Vec::new());
    img.write_to(&mut out, image::ImageFormat::Png).unwrap();
    out.into_inner()
}

fn cache() -> IconCache {
    IconCache::load(&IconAssets {
        unknown_black: png_1x1([10, 0, 0, 255]),
        saver_black: png_1x1([20, 0, 0, 255]),
        balanced_black: png_1x1([30, 0, 0, 255]),
        best_black: png_1x1([40, 0, 0, 255]),
        unknown_white: png_1x1([50, 0, 0, 255]),
        saver_white: png_1x1([60, 0, 0, 255]),
        balanced_white: png_1x1([70, 0, 0, 255]),
        best_white: png_1x1([80, 0, 0, 255]),
    })
    .unwrap()
}

#[test]
fn theme_buckets_collapse_as_specified() {
    assert_eq!(bucket_of(Theme::Dark), Bucket::White);
    assert_eq!(bucket_of(Theme::Light), Bucket::Black);
    assert_eq!(bucket_of(Theme::Unspecified), Bucket::Black);
}

#[test]
fn initial_state_is_unknown_light_bucket() {
    let p = Presenter::new(cache());
    assert_eq!(p.tooltip.as_str(), "Power mode: Unknown");
    assert_eq!(p.icon, IconChoice { bucket: Bucket::Black, code: 0 });
    assert_eq!(p.displayed_pixels().rgba, vec![10, 0, 0, 255]);
}

#[test]
fn dark_theme_selects_the_white_bucket() {
    let mut p = Presenter::new(cache());
    let u = p.update_with_theme(1, Some(Theme::Dark));
    assert_eq!(p.icon, IconChoice { bucket: Bucket::White, code: 1 });
    assert_eq!(u.icon, Some(IconChoice { bucket: Bucket::White, code: 1 }));
    assert_eq!(p.displayed_pixels().rgba, vec![60, 0, 0, 255]);
    assert_eq!(u.tooltip.as_str(), "Power mode: 1");
}

#[test]
fn light_theme_selects_the_black_bucket() {
    let mut p = Presenter::new(cache());
    let u = p.update_with_theme(1, Some(Theme::Light));
    assert_eq!(p.icon, IconChoice { bucket: Bucket::Black, code: 1 });
    assert_eq!(u.icon, Some(IconChoice { bucket: Bucket::Black, code: 1 }));
    assert_eq!(p.displayed_pixels().rgba, vec![20, 0, 0, 255]);
}

#[test]
fn unspecified_theme_selects_the_black_bucket() {
    let mut p = Presenter::new(cache());
    let u = p.update_with_theme(4, Some(Theme::Unspecified));
    assert_eq!(u.icon, Some(IconChoice { bucket: Bucket::Black, code: 4 }));
    assert_eq!(p.displayed_pixels().rgba, vec![40, 0, 0, 255]);
}

#[test]
fn unknown_code_keeps_the_icon_but_updates_the_tooltip() {
    let mut p = Presenter::new(cache());
    p.update_with_theme(2, Some(Theme::Dark));
    let before = p.icon;
    let u = p.update_with_theme(99, Some(Theme::Dark));
    assert_eq!(p.icon, before);
    assert!(u.icon.is_none());
    assert_eq!(u.tooltip.as_str(), "Power mode: 99");
    assert_eq!(p.tooltip.as_str(), "Power mode: 99");
}

#[test]
fn detection_failure_keeps_the_icon_but_updates_the_tooltip() {
    let mut p = Presenter::new(cache());
    p.update_with_theme(1, Some(Theme::Light));
    let before = p.icon;
    let u = p.update_with_theme(2, None);
    assert_eq!(p.icon, before);
    assert!(u.icon.is_none());
    assert_eq!(u.tooltip.as_str(), "Power mode: 2");
}

#[test]
fn update_resolves_the_theme_without_crashing() {
    // Whatever theme detection answers on this machine, the tooltip takes
    // the code and the icon only ever moves to the new code's entry.
    let mut p = Presenter::new(cache());
    let u = p.update(2);
    assert_eq!(u.tooltip.as_str(), "Power mode: 2");
    if let Some(c) = u.icon {
        assert_eq!(c.code, 2);
        assert_eq!(p.icon, c);
    } else {
        assert_eq!(p.icon, IconChoice { bucket: Bucket::Black, code: 0 });
    }
    let before = p.icon;
    let u = p.update(99);
    assert!(u.icon.is_none());
    assert_eq!(p.icon, before);
    assert_eq!(p.tooltip.as_str(), "Power mode: 99");
}
