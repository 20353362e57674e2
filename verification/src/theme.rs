//! Desktop theme detection and the mapping from a theme to an icon bucket.
//!
//! The desktop is in one of three theme states; for icon selection these
//! collapse to two buckets: a dark desktop gets the white icon set, a light
//! or unspecified desktop gets the black icon set.

use vstd::prelude::*;

verus! {

/// The desktop appearance as the OS reports it.
#[derive(Clone, Copy, PartialEq, Eq, Structural, Debug)]
pub enum Theme {
    Dark,
    Light,
    Unspecified,
}

/// The two icon sets: black glyphs for a light desktop, white glyphs for a
/// dark desktop.
#[derive(Clone, Copy, PartialEq, Eq, Structural, Debug)]
pub enum Bucket {
    Black,
    White,
}

/// Which icon set a theme calls for.
pub open spec fn bucket_of_spec(t: Theme) -> Bucket {
    match t {
        Theme::Dark => Bucket::White,
        Theme::Light => Bucket::Black,
        Theme::Unspecified => Bucket::Black,
    }
}

/// Resolve a theme to its icon bucket.
pub fn bucket_of(t: Theme) -> (b: Bucket)
    ensures
        b == bucket_of_spec(t),
{
    match t {
        Theme::Dark => Bucket::White,
        Theme::Light => Bucket::Black,
        Theme::Unspecified => Bucket::Black,
    }
}

/// Relies on dark_light::detect: it queries the OS for the current theme
/// preference. The answer depends on the machine's state at the moment of the
/// call, so nothing is promised of which variant comes back; a detection
/// failure becomes `None`.
#[verifier::external_body]
pub(crate) fn detect_theme() -> Option<Theme> {
    match dark_light::detect() {
        Ok(dark_light::Mode::Dark) => Some(Theme::Dark),
        Ok(dark_light::Mode::Light) => Some(Theme::Light),
        Ok(dark_light::Mode::Unspecified) => Some(Theme::Unspecified),
        Err(_) => None,
    }
}

} // verus!
