//! The tray presenter: the state of the tray widget (tooltip and displayed
//! icon) and the rules that update it on each power-mode event.
//!
//! An update always rewrites the tooltip to name the new mode code. The icon
//! changes only when the theme could be resolved and the code has a cached
//! icon; otherwise the previously displayed icon stays, deliberately, so that
//! a transient undocumented code or a theme-detection failure never flickers
//! or crashes the widget.

use vstd::prelude::*;

use crate::icon::{is_known_code, known_code, IconCache, RgbaIcon};
use crate::text::{initial_tooltip, initial_tooltip_spec, tooltip_for, tooltip_spec};
use crate::theme::{bucket_of, bucket_of_spec, detect_theme, Bucket, Theme};

verus! {

/// Which cache entry the widget displays: a bucket and a mode code.
#[derive(Clone, Copy, PartialEq, Eq, Structural, Debug)]
pub struct IconChoice {
    pub bucket: Bucket,
    pub code: i32,
}

/// The icon displayed before any power-mode event: the unknown-mode entry of
/// the light desktop's bucket.
pub open spec fn initial_icon() -> IconChoice {
    IconChoice { bucket: Bucket::Black, code: 0 }
}

/// The icon displayed after an update: the resolved bucket's entry for the
/// new code where the theme is known and the code is cached, else the icon
/// already displayed.
pub open spec fn icon_after(cur: IconChoice, code: i32, theme: Option<Theme>) -> IconChoice {
    match theme {
        Some(t) => if is_known_code(code) {
            IconChoice { bucket: bucket_of_spec(t), code }
        } else {
            cur
        },
        None => cur,
    }
}

/// The icon an update asks the widget to switch to, if any.
pub open spec fn icon_directive(code: i32, theme: Option<Theme>) -> Option<IconChoice> {
    match theme {
        Some(t) => if is_known_code(code) {
            Some(IconChoice { bucket: bucket_of_spec(t), code })
        } else {
            None
        },
        None => None,
    }
}

/// What one update asks the widget toolkit to do: always a new tooltip, and
/// possibly a new icon.
pub struct WidgetUpdate {
    pub tooltip: String,
    pub icon: Option<IconChoice>,
}

/// The presenter: the icon cache plus the widget state it maintains.
pub struct Presenter {
    pub cache: IconCache,
    pub tooltip: String,
    pub icon: IconChoice,
}

impl Presenter {
    /// The displayed icon always names a cached entry, and the cache holds
    /// well-formed pixel buffers.
    pub open spec fn wf(self) -> bool {
        is_known_code(self.icon.code) && self.cache.wf()
    }

    /// A fresh presenter: unknown-mode tooltip and the initial icon.
    pub fn new(cache: IconCache) -> (p: Presenter)
        requires
            cache.wf(),
        ensures
            p.wf(),
            p.cache == cache,
            p.tooltip@ == initial_tooltip_spec(),
            p.icon == initial_icon(),
    {
        Presenter { cache, tooltip: initial_tooltip(), icon: initial_icon_value() }
    }

    /// Apply a power-mode change given an already-resolved theme (`None`
    /// where theme detection failed). The tooltip always takes the new code;
    /// the icon follows `icon_after`: it changes exactly when the theme is
    /// known and the code is cached.
    pub fn update_with_theme(&mut self, code: i32, theme: Option<Theme>) -> (u: WidgetUpdate)
        requires
            old(self).wf(),
        ensures
            final(self).wf(),
            final(self).cache == old(self).cache,
            final(self).tooltip@ == tooltip_spec(code as int),
            u.tooltip@ == tooltip_spec(code as int),
            final(self).icon == icon_after(old(self).icon, code, theme),
            u.icon == icon_directive(code, theme),
    {
        let tooltip = tooltip_for(code);
        self.tooltip = tooltip.clone();
        let directive: Option<IconChoice> = match theme {
            Some(t) => if known_code(code) {
                let choice = IconChoice { bucket: bucket_of(t), code };
                self.icon = choice;
                Some(choice)
            } else {
                None
            },
            None => None,
        };
        WidgetUpdate { tooltip, icon: directive }
    }

    /// Apply a power-mode change, resolving the theme at this moment. The
    /// theme is re-detected on every update on purpose: the OS gives no
    /// reliable push notification for theme changes. Whatever detection
    /// answers, the tooltip takes the new code; the icon changes only to the
    /// new code's entry in some bucket, and a code outside the cached set
    /// never changes it.
    pub fn update(&mut self, code: i32) -> (u: WidgetUpdate)
        requires
            old(self).wf(),
        ensures
            final(self).wf(),
            final(self).cache == old(self).cache,
            final(self).tooltip@ == tooltip_spec(code as int),
            u.tooltip@ == tooltip_spec(code as int),
            u.icon matches Some(c) ==> is_known_code(code) && c.code == code && final(self).icon
                == c,
            u.icon is None ==> final(self).icon == old(self).icon,
            !is_known_code(code) ==> final(self).icon == old(self).icon && u.icon is None,
    {
        let theme = detect_theme();
        self.update_with_theme(code, theme)
    }

    /// The pixel data of the icon the presenter currently displays.
    pub fn displayed_pixels(&self) -> (r: &RgbaIcon)
        requires
            self.wf(),
        ensures
            r@ == self.cache.bucket_map(self.icon.bucket)[self.icon.code as int],
    {
        let got = self.cache.select(self.icon.bucket, self.icon.code);
        match got {
            Some(icon) => icon,
            None => unreached(),
        }
    }
}

/// The initial icon choice as a runtime value.
pub fn initial_icon_value() -> (c: IconChoice)
    ensures
        c == initial_icon(),
{
    IconChoice { bucket: Bucket::Black, code: 0 }
}

} // verus!
