//! The anchored window's visibility state machine.
//!
//! Every input (indicator clicks, menu commands, focus changes, pause and
//! resume requests from popups, hide timers) is an event; `step` is the pure
//! transition table, and `VisibilityCoordinator::handle` executes it, returning
//! the single side effect that the caller must perform on the real window.
use vstd::prelude::*;

verus! {

/// Where the anchored window stands.
#[derive(Clone, Copy, Debug, PartialEq, Eq, Structural)]
pub enum VisibilityState {
    Hidden,
    /// A show was requested and is being carried out by the window layer.
    Showing,
    Visible,
    /// Focus was lost while a pause request was active: the window stays up.
    Suppressed,
}

/// What asked for a visibility change.
#[derive(Clone, Copy, Debug, PartialEq, Eq, Structural)]
pub enum PresentationSource {
    TrayClick,
    MenuShow,
    MenuHide,
    /// A second launch of the program asked the running one to come forward.
    ExternalActivation,
}

/// How a focus loss that is honoured turns into a hide.
#[derive(Clone, Copy, Debug, PartialEq, Eq, Structural)]
pub enum HideStrategy {
    /// Hide at once.
    Immediate,
    /// Schedule a hide after the grace delay, re-checked when it expires.
    Deferred,
}

/// Platform tuning injected into the coordinator.
#[derive(Clone, Copy, Debug, PartialEq, Eq, Structural)]
pub struct VisibilityConfig {
    /// A focus loss this soon (in ms) after the window was shown is ignored.
    pub debounce_floor_ms: u64,
    /// Delay (in ms) between a honoured focus loss and a deferred hide.
    pub grace_delay_ms: u64,
    pub strategy: HideStrategy,
}

/// An input to the state machine; times are milliseconds on a monotonic clock.
#[derive(Clone, Copy, Debug, PartialEq, Eq, Structural)]
pub enum VisibilityEvent {
    Present { source: PresentationSource, now_ms: u64 },
    /// The window layer finished positioning and showing the window.
    Shown { now_ms: u64 },
    Focus { gained: bool, now_ms: u64 },
    Pause,
    Resume,
    /// A timer armed by `ScheduleHide` went off.
    HideTimerExpired { now_ms: u64 },
}

/// The side effect the caller performs after a transition.
#[derive(Clone, Copy, Debug, PartialEq, Eq, Structural)]
pub enum WindowAction {
    Nothing,
    /// Position the window next to the indicator, show and focus it.
    ShowNearIndicator,
    Hide,
    /// Arm (or re-arm, superseding any earlier one) a hide timer for `at_ms`.
    ScheduleHide { at_ms: u64 },
    /// Drop the pending hide timer.
    CancelHide,
}

#[derive(Clone, Copy, Debug, PartialEq, Eq, Structural)]
pub struct VisibilityCoordinator {
    pub state: VisibilityState,
    /// The pause token: set by popups that transiently steal focus.
    pub paused: bool,
    /// When the window last became visible through a show.
    pub shown_at: Option<u64>,
    /// When focus was last lost in a way that scheduled a hide.
    pub focus_lost_at: Option<u64>,
    /// Deadline of the hide timer in flight, if any.
    pub pending_hide: Option<u64>,
    pub config: VisibilityConfig,
}

pub open spec fn saturating_add(a: u64, b: u64) -> u64 {
    if a + b > u64::MAX {
        u64::MAX
    } else {
        (a + b) as u64
    }
}

/// Whether a focus loss at `now` falls inside the debounce floor after a show.
pub open spec fn within_debounce(c: VisibilityCoordinator, now: u64) -> bool {
    match c.shown_at {
        Some(t) => now < t || now - t < c.config.debounce_floor_ms,
        None => false,
    }
}

pub open spec fn is_displayed(s: VisibilityState) -> bool {
    s != VisibilityState::Hidden
}

pub open spec fn cancel_if_pending(c: VisibilityCoordinator) -> WindowAction {
    if c.pending_hide is Some {
        WindowAction::CancelHide
    } else {
        WindowAction::Nothing
    }
}

/// The transition table: next coordinator and the side effect to perform.
pub open spec fn step(c: VisibilityCoordinator, e: VisibilityEvent) -> (VisibilityCoordinator, WindowAction) {
    match e {
        VisibilityEvent::Present { source, now_ms } => {
            let hide = source == PresentationSource::MenuHide || (source
                == PresentationSource::TrayClick && is_displayed(c.state));
            if hide {
                if is_displayed(c.state) {
                    (
                        VisibilityCoordinator {
                            state: VisibilityState::Hidden,
                            pending_hide: None,
                            ..c
                        },
                        WindowAction::Hide,
                    )
                } else {
                    (c, WindowAction::Nothing)
                }
            } else if c.state == VisibilityState::Hidden {
                (
                    VisibilityCoordinator {
                        state: VisibilityState::Showing,
                        pending_hide: None,
                        ..c
                    },
                    WindowAction::ShowNearIndicator,
                )
            } else {
                (VisibilityCoordinator { pending_hide: None, ..c }, WindowAction::ShowNearIndicator)
            }
        },
        VisibilityEvent::Shown { now_ms } => {
            if c.state == VisibilityState::Showing {
                (
                    VisibilityCoordinator {
                        state: VisibilityState::Visible,
                        shown_at: Some(now_ms),
                        ..c
                    },
                    WindowAction::Nothing,
                )
            } else {
                (c, WindowAction::Nothing)
            }
        },
        VisibilityEvent::Focus { gained, now_ms } => {
            if gained {
                (
                    VisibilityCoordinator {
                        state: VisibilityState::Visible,
                        shown_at: None,
                        focus_lost_at: None,
                        pending_hide: None,
                        ..c
                    },
                    cancel_if_pending(c),
                )
            } else if c.state != VisibilityState::Visible {
                (c, WindowAction::Nothing)
            } else if c.paused {
                (
                    VisibilityCoordinator { state: VisibilityState::Suppressed, ..c },
                    WindowAction::Nothing,
                )
            } else if within_debounce(c, now_ms) {
                (c, WindowAction::Nothing)
            } else {
                match c.config.strategy {
                    HideStrategy::Immediate => (
                        VisibilityCoordinator {
                            state: VisibilityState::Hidden,
                            focus_lost_at: Some(now_ms),
                            pending_hide: None,
                            ..c
                        },
                        WindowAction::Hide,
                    ),
                    HideStrategy::Deferred => {
                        let at = saturating_add(now_ms, c.config.grace_delay_ms);
                        (
                            VisibilityCoordinator {
                                focus_lost_at: Some(now_ms),
                                pending_hide: Some(at),
                                ..c
                            },
                            WindowAction::ScheduleHide { at_ms: at },
                        )
                    },
                }
            }
        },
        VisibilityEvent::Pause => (VisibilityCoordinator { paused: true, ..c }, WindowAction::Nothing),
        VisibilityEvent::Resume => {
            let state = if c.state == VisibilityState::Suppressed {
                VisibilityState::Visible
            } else {
                c.state
            };
            (
                VisibilityCoordinator { state, paused: false, pending_hide: None, ..c },
                cancel_if_pending(c),
            )
        },
        VisibilityEvent::HideTimerExpired { now_ms } => {
            match c.pending_hide {
                Some(at) => {
                    if now_ms < at {
                        (c, WindowAction::Nothing)
                    } else if !c.paused && c.state == VisibilityState::Visible {
                        (
                            VisibilityCoordinator {
                                state: VisibilityState::Hidden,
                                pending_hide: None,
                                ..c
                            },
                            WindowAction::Hide,
                        )
                    } else {
                        (VisibilityCoordinator { pending_hide: None, ..c }, WindowAction::Nothing)
                    }
                },
                None => (c, WindowAction::Nothing),
            }
        },
    }
}

/// The state after running a sequence of events from `c`.
pub open spec fn run(c: VisibilityCoordinator, events: Seq<VisibilityEvent>) -> VisibilityCoordinator
    decreases events.len(),
{
    if events.len() == 0 {
        c
    } else {
        run(step(c, events[0]).0, events.drop_first())
    }
}

/// While the pause token is active, a focus loss never hides a displayed
/// window and never arms a hide.
pub proof fn lemma_paused_focus_loss_keeps_window(c: VisibilityCoordinator, now_ms: u64)
    requires
        c.paused,
    ensures
        ({
            let (n, a) = step(c, VisibilityEvent::Focus { gained: false, now_ms });
            &&& is_displayed(c.state) ==> is_displayed(n.state)
            &&& a == WindowAction::Nothing
            &&& n.paused
        }),
{
}

/// Once a hide is scheduled after a focus loss, a resume that comes before the
/// timer fires cancels it: when the timer does fire, the window stays visible.
pub proof fn lemma_resume_cancels_pending_hide(c: VisibilityCoordinator, lost_ms: u64, expiry_ms: u64)
    requires
        step(c, VisibilityEvent::Focus { gained: false, now_ms: lost_ms }).1 is ScheduleHide,
    ensures
        ({
            let (c1, _) = step(c, VisibilityEvent::Focus { gained: false, now_ms: lost_ms });
            let (c2, a2) = step(c1, VisibilityEvent::Resume);
            let (c3, a3) = step(c2, VisibilityEvent::HideTimerExpired { now_ms: expiry_ms });
            &&& a2 == WindowAction::CancelHide
            &&& c3.state == VisibilityState::Visible
            &&& a3 == WindowAction::Nothing
        }),
{
}

/// A focus loss that comes within the debounce floor after a show completed
/// does not hide the window, whatever the strategy.
pub proof fn lemma_focus_loss_debounced_after_show(
    c: VisibilityCoordinator,
    shown_ms: u64,
    lost_ms: u64,
)
    requires
        c.state == VisibilityState::Showing,
        shown_ms <= lost_ms,
        lost_ms - shown_ms < c.config.debounce_floor_ms,
    ensures
        ({
            let (c1, _) = step(c, VisibilityEvent::Shown { now_ms: shown_ms });
            let (c2, a2) = step(c1, VisibilityEvent::Focus { gained: false, now_ms: lost_ms });
            &&& c1.state == VisibilityState::Visible
            &&& is_displayed(c2.state)
            &&& a2 == WindowAction::Nothing
        }),
{
}

/// Across any sequence of events in which the pause token is never released,
/// a displayed window is hidden only by an explicit request (a menu hide or an
/// indicator click), never by focus handling or a hide timer.
pub proof fn lemma_paused_only_explicit_hide(c: VisibilityCoordinator, events: Seq<VisibilityEvent>)
    requires
        c.paused,
        is_displayed(c.state),
        forall|i: int|
            0 <= i < events.len() ==> #[trigger] events[i] != VisibilityEvent::Resume && !(
            events[i] is Present),
    ensures
        is_displayed(run(c, events).state),
        run(c, events).paused,
    decreases events.len(),
{
    if events.len() > 0 {
        let n = step(c, events[0]).0;
        let rest = events.drop_first();
        assert forall|i: int| 0 <= i < rest.len() implies #[trigger] rest[i]
            != VisibilityEvent::Resume && !(rest[i] is Present) by {
            assert(rest[i] == events[i + 1]);
        }
        lemma_paused_only_explicit_hide(n, rest);
    }
}

impl VisibilityConfig {
    /// Tuning for platforms whose focus signals arrive in order: a 500 ms
    /// debounce floor and immediate hiding.
    pub fn immediate() -> (r: VisibilityConfig)
        ensures
            r.debounce_floor_ms == 500,
            r.strategy == HideStrategy::Immediate,
            r.grace_delay_ms == 0,
    {
        VisibilityConfig { debounce_floor_ms: 500, grace_delay_ms: 0, strategy: HideStrategy::Immediate }
    }

    /// Tuning for platforms that may deliver focus loss and regain out of
    /// order (and popups that steal focus): a 1000 ms floor and a 300 ms grace
    /// delay before a re-checked hide.
    pub fn deferred() -> (r: VisibilityConfig)
        ensures
            r.debounce_floor_ms == 1000,
            r.strategy == HideStrategy::Deferred,
            r.grace_delay_ms == 300,
    {
        VisibilityConfig { debounce_floor_ms: 1000, grace_delay_ms: 300, strategy: HideStrategy::Deferred }
    }
}

impl VisibilityCoordinator {
    /// A coordinator with the window hidden, nothing paused or pending.
    pub fn new(config: VisibilityConfig) -> (r: VisibilityCoordinator)
        ensures
            r.state == VisibilityState::Hidden,
            !r.paused,
            r.shown_at is None,
            r.focus_lost_at is None,
            r.pending_hide is None,
            r.config == config,
    {
        VisibilityCoordinator {
            state: VisibilityState::Hidden,
            paused: false,
            shown_at: None,
            focus_lost_at: None,
            pending_hide: None,
            config,
        }
    }

    fn is_displayed(&self) -> (r: bool)
        ensures
            r == is_displayed(self.state),
    {
        match self.state {
            VisibilityState::Hidden => false,
            _ => true,
        }
    }

    fn cancel_if_pending(&self) -> (r: WindowAction)
        ensures
            r == cancel_if_pending(*self),
    {
        match self.pending_hide {
            Some(_) => WindowAction::CancelHide,
            None => WindowAction::Nothing,
        }
    }

    fn within_debounce(&self, now: u64) -> (r: bool)
        ensures
            r == within_debounce(*self, now),
    {
        match self.shown_at {
            Some(t) => now < t || now - t < self.config.debounce_floor_ms,
            None => false,
        }
    }

    /// The window layer finished showing the window at `now_ms`.
    pub fn handle_window_show(&mut self, now_ms: u64) -> (action: WindowAction)
        ensures
            (*final(self), action) == step(*old(self), VisibilityEvent::Shown { now_ms }),
    {
        self.handle(VisibilityEvent::Shown { now_ms })
    }

    /// The window lost focus at `now_ms`.
    pub fn handle_window_focus_lost(&mut self, now_ms: u64) -> (action: WindowAction)
        ensures
            (*final(self), action) == step(*old(self), VisibilityEvent::Focus { gained: false, now_ms }),
    {
        self.handle(VisibilityEvent::Focus { gained: false, now_ms })
    }

    /// A popup inside the window is about to take focus: set the pause token.
    pub fn pause_auto_hide(&mut self) -> (action: WindowAction)
        ensures
            (*final(self), action) == step(*old(self), VisibilityEvent::Pause),
    {
        self.handle(VisibilityEvent::Pause)
    }

    /// The popup is gone: clear the pause token.
    pub fn resume_auto_hide(&mut self) -> (action: WindowAction)
        ensures
            (*final(self), action) == step(*old(self), VisibilityEvent::Resume),
    {
        self.handle(VisibilityEvent::Resume)
    }

    /// Applies one event and returns the side effect to perform.
    pub fn handle(&mut self, event: VisibilityEvent) -> (action: WindowAction)
        ensures
            (*final(self), action) == step(*old(self), event),
    {
        match event {
            VisibilityEvent::Present { source, now_ms: _ } => {
                let displayed = self.is_displayed();
                let hide = match source {
                    PresentationSource::MenuHide => true,
                    PresentationSource::TrayClick => displayed,
                    _ => false,
                };
                if hide {
                    if displayed {
                        self.state = VisibilityState::Hidden;
                        self.pending_hide = None;
                        WindowAction::Hide
                    } else {
                        WindowAction::Nothing
                    }
                } else {
                    if !displayed {
                        self.state = VisibilityState::Showing;
                    }
                    self.pending_hide = None;
                    WindowAction::ShowNearIndicator
                }
            },
            VisibilityEvent::Shown { now_ms } => {
                if self.state == VisibilityState::Showing {
                    self.state = VisibilityState::Visible;
                    self.shown_at = Some(now_ms);
                }
                WindowAction::Nothing
            },
            VisibilityEvent::Focus { gained, now_ms } => {
                if gained {
                    let action = self.cancel_if_pending();
                    self.state = VisibilityState::Visible;
                    self.shown_at = None;
                    self.focus_lost_at = None;
                    self.pending_hide = None;
                    action
                } else if self.state != VisibilityState::Visible {
                    WindowAction::Nothing
                } else if self.paused {
                    self.state = VisibilityState::Suppressed;
                    WindowAction::Nothing
                } else if self.within_debounce(now_ms) {
                    WindowAction::Nothing
                } else {
                    match self.config.strategy {
                        HideStrategy::Immediate => {
                            self.state = VisibilityState::Hidden;
                            self.focus_lost_at = Some(now_ms);
                            self.pending_hide = None;
                            WindowAction::Hide
                        },
                        HideStrategy::Deferred => {
                            let at = now_ms.saturating_add(self.config.grace_delay_ms);
                            self.focus_lost_at = Some(now_ms);
                            self.pending_hide = Some(at);
                            WindowAction::ScheduleHide { at_ms: at }
                        },
                    }
                }
            },
            VisibilityEvent::Pause => {
                self.paused = true;
                WindowAction::Nothing
            },
            VisibilityEvent::Resume => {
                let action = self.cancel_if_pending();
                if self.state == VisibilityState::Suppressed {
                    self.state = VisibilityState::Visible;
                }
                self.paused = false;
                self.pending_hide = None;
                action
            },
            VisibilityEvent::HideTimerExpired { now_ms } => {
                match self.pending_hide {
                    Some(at) => {
                        if now_ms < at {
                            WindowAction::Nothing
                        } else if !self.paused && self.state == VisibilityState::Visible {
                            self.state = VisibilityState::Hidden;
                            self.pending_hide = None;
                            WindowAction::Hide
                        } else {
                            self.pending_hide = None;
                            WindowAction::Nothing
                        }
                    },
                    None => WindowAction::Nothing,
                }
            },
        }
    }
}

} // verus!
