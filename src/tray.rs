//! What the status indicator and the window title show for an alert count.
use vstd::prelude::*;
use crate::text::{decimal, decimal_string};

verus! {

/// Which of the three indicator images to show.
#[derive(Clone, Copy, Debug, PartialEq, Eq, Structural)]
pub enum TrayIconKind {
    /// Nothing configured, or the count is not known yet.
    Gray,
    /// No open alerts.
    Green,
    /// At least one open alert.
    Red,
}

/// The image for an alert count (`None`: not fetched yet).
pub open spec fn icon_kind(count: Option<usize>, has_repos: bool) -> TrayIconKind {
    if !has_repos {
        TrayIconKind::Gray
    } else {
        match count {
            None => TrayIconKind::Gray,
            Some(n) => if n == 0 {
                TrayIconKind::Green
            } else {
                TrayIconKind::Red
            },
        }
    }
}

pub fn tray_icon_kind(count: Option<usize>, has_repos: bool) -> (r: TrayIconKind)
    ensures
        r == icon_kind(count, has_repos),
{
    if !has_repos {
        return TrayIconKind::Gray;
    }
    match count {
        None => TrayIconKind::Gray,
        Some(0) => TrayIconKind::Green,
        Some(_) => TrayIconKind::Red,
    }
}

/// The encoded images of the three indicator states.
#[derive(Clone, Debug)]
pub struct TrayIcons {
    pub gray: Vec<u8>,
    pub green: Vec<u8>,
    pub red: Vec<u8>,
}

impl TrayIcons {
    pub open spec fn image(&self, kind: TrayIconKind) -> Seq<u8> {
        match kind {
            TrayIconKind::Gray => self.gray@,
            TrayIconKind::Green => self.green@,
            TrayIconKind::Red => self.red@,
        }
    }
}

/// The image bytes for an alert count: gray without repositories or without
/// a count, green for none, red otherwise.
pub fn generate_tray_icon(count: Option<usize>, has_repos: bool, icons: &TrayIcons) -> (r: Vec<u8>)
    ensures
        r@ == icons.image(icon_kind(count, has_repos)),
{
    match tray_icon_kind(count, has_repos) {
        TrayIconKind::Gray => icons.gray.clone(),
        TrayIconKind::Green => icons.green.clone(),
        TrayIconKind::Red => icons.red.clone(),
    }
}

pub const TOOLTIP_NO_REPOS: &'static str = "GitHub Security Alerts - No repositories configured";

pub const TOOLTIP_NO_ALERTS: &'static str = "GitHub Security Alerts - No alerts";

pub const TOOLTIP_PREFIX: &'static str = "GitHub Security Alerts - ";

pub const TOOLTIP_SUFFIX: &'static str = " alert(s)!";

pub const TITLE_NO_REPOS: &'static str = "GitHub Alerts - Configure repositories";

pub const TITLE_PLAIN: &'static str = "GitHub Alerts";

pub const TITLE_PREFIX: &'static str = "GitHub Alerts - ";

pub const TITLE_SUFFIX: &'static str = " alert(s)";

pub open spec fn tooltip(count: usize, has_repos: bool) -> Seq<char> {
    if !has_repos {
        TOOLTIP_NO_REPOS@
    } else if count == 0 {
        TOOLTIP_NO_ALERTS@
    } else {
        TOOLTIP_PREFIX@ + decimal(count as nat) + TOOLTIP_SUFFIX@
    }
}

pub open spec fn title(count: usize, has_repos: bool) -> Seq<char> {
    if !has_repos {
        TITLE_NO_REPOS@
    } else if count == 0 {
        TITLE_PLAIN@
    } else {
        TITLE_PREFIX@ + decimal(count as nat) + TITLE_SUFFIX@
    }
}

/// The indicator's tooltip for an alert count.
pub fn tray_tooltip(count: usize, has_repos: bool) -> (r: String)
    ensures
        r@ == tooltip(count, has_repos),
{
    if !has_repos {
        String::from_str(TOOLTIP_NO_REPOS)
    } else if count == 0 {
        String::from_str(TOOLTIP_NO_ALERTS)
    } else {
        let mut s = String::from_str(TOOLTIP_PREFIX);
        let n = decimal_string(count as u64);
        s.append(n.as_str());
        s.append(TOOLTIP_SUFFIX);
        s
    }
}

/// The window's title for an alert count.
pub fn window_title(count: usize, has_repos: bool) -> (r: String)
    ensures
        r@ == title(count, has_repos),
{
    if !has_repos {
        String::from_str(TITLE_NO_REPOS)
    } else if count == 0 {
        String::from_str(TITLE_PLAIN)
    } else {
        let mut s = String::from_str(TITLE_PREFIX);
        let n = decimal_string(count as u64);
        s.append(n.as_str());
        s.append(TITLE_SUFFIX);
        s
    }
}

} // verus!
