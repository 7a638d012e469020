//! The process-wide state: the session manager and the visibility
//! coordinator, each its own component, beside the last alert count.
use vstd::prelude::*;
use crate::models::AppConfig;
use crate::session::{SessionManager, SessionModel};
use crate::tray::{generate_tray_icon, icon_kind, title, tooltip, tray_tooltip, window_title, TrayIcons};
use crate::visibility::{VisibilityConfig, VisibilityCoordinator, VisibilityState};

verus! {

/// What `str::trim` leaves of a string.
pub uninterp spec fn trimmed(s: Seq<char>) -> Seq<char>;

/// Relies on `str::trim`: the string without leading and trailing white space.
#[verifier::external_body]
fn trim(s: &str) -> (r: String)
    ensures
        r@ == trimmed(s@),
{
    s.trim().to_string()
}

pub struct AppState {
    pub alert_count: usize,
    pub session: SessionManager,
    pub visibility: VisibilityCoordinator,
}

/// What the indicator and the window show after an alert count came in.
pub struct TrayPresentation {
    pub icon: Vec<u8>,
    pub tooltip: String,
    pub title: String,
}

/// Whether a credential is stored that is more than white space.
pub open spec fn has_credential(m: SessionModel) -> bool {
    m.config.access_token matches Some(t) && trimmed(t).len() > 0
}

impl AppState {
    /// The state at start-up: the loaded configuration, the window hidden.
    pub fn new(config: AppConfig, visibility: VisibilityConfig) -> (r: AppState)
        ensures
            r.alert_count == 0,
            r.session@.config == config@,
            r.session@.obtained_at_ms is None,
            !r.session@.acquiring,
            r.visibility.state == VisibilityState::Hidden,
            !r.visibility.paused,
            r.visibility.shown_at is None,
            r.visibility.pending_hide is None,
            r.visibility.config == visibility,
    {
        AppState {
            alert_count: 0,
            session: SessionManager::new(config),
            visibility: VisibilityCoordinator::new(visibility),
        }
    }

    /// Whether the window is shown at start-up: only for signing in, when no
    /// usable credential is stored.
    pub fn shows_window_at_start(&self) -> (r: bool)
        ensures
            r == !has_credential(self.session@),
    {
        match &self.session.config.access_token {
            Some(t) => {
                let t = trim(t.as_str());
                t.unicode_len() == 0
            },
            None => true,
        }
    }

    /// Whether any repository is selected.
    pub fn has_repos(&self) -> (r: bool)
        ensures
            r == (self.session@.config.selected_repos.len() > 0),
    {
        self.session.config.selected_repos.len() > 0
    }

    /// Records a new alert count and says what to show for it.
    pub fn update_tray_icon(&mut self, alert_count: usize, icons: &TrayIcons) -> (r: TrayPresentation)
        ensures
            final(self).alert_count == alert_count,
            final(self).session@ == old(self).session@,
            final(self).visibility == old(self).visibility,
            ({
                let has = old(self).session@.config.selected_repos.len() > 0;
                &&& r.icon@ == icons.image(icon_kind(Some(alert_count), has))
                &&& r.tooltip@ == tooltip(alert_count, has)
                &&& r.title@ == title(alert_count, has)
            }),
    {
        self.alert_count = alert_count;
        let has = self.has_repos();
        TrayPresentation {
            icon: generate_tray_icon(Some(alert_count), has, icons),
            tooltip: tray_tooltip(alert_count, has),
            title: window_title(alert_count, has),
        }
    }

    /// Whether the window is up in any form.
    pub fn window_displayed(&self) -> (r: bool)
        ensures
            r == (self.visibility.state != VisibilityState::Hidden),
    {
        self.visibility.state != VisibilityState::Hidden
    }
}

} // verus!
