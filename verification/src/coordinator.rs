//! The tray coordinator: the state machine behind the notification-area
//! icon.
//!
//! The coordinator owns the handle slot of the single content window and the
//! checkbox state of the two preference menu items. The unverified shell
//! runs one flat event loop: it turns each platform notification into a
//! [`TrayEvent`], hands it to [`TrayCoordinator::handle_event`], and carries
//! out the [`TrayAction`]s that come back. The coordinator decides; the
//! shell performs.

use crate::settings::spec_toggled_value;
use crate::settings::toggled_value;
use vstd::prelude::*;

verus! {

/// Whether a content window is currently open. Derived from the handle
/// slot: the coordinator is in `WindowOpen` exactly while the slot holds a
/// handle.
#[derive(Clone, Copy, PartialEq, Eq, Debug)]
pub enum WindowState {
    NoWindow,
    WindowOpen,
}

/// An event the shell reports to the coordinator.
#[derive(Clone, Copy, PartialEq, Eq, Debug)]
pub enum TrayEvent {
    /// The tray icon was clicked, or "show" was selected from the menu.
    Activated,
    /// The shell finished constructing the content window the coordinator
    /// asked for, and this is its handle.
    WindowCreated { handle: u64 },
    /// The open content window processed its close notification.
    WindowClosed,
    /// The context menu is about to open; the shell passes what it could
    /// read of the current startup registration and the stored auto-update
    /// flag (`None` where the query failed).
    MenuOpened { startup_query: Option<bool>, stored_update: Option<u32> },
    /// The "run at startup" menu item was selected.
    StartupSelected,
    /// The "auto update" menu item was selected.
    UpdateSelected,
    /// The "exit" menu item was selected.
    ExitSelected,
}

/// An action the coordinator asks the shell to perform.
#[derive(Clone, Copy, PartialEq, Eq, Debug)]
pub enum TrayAction {
    /// Construct the content window and report its handle back as a
    /// `WindowCreated` event.
    CreateWindow,
    /// Ask the platform to bring the window with this handle to the
    /// foreground.
    FocusWindow { handle: u64 },
    /// Enter the nested dispatch scope that services the open window until
    /// it closes.
    RunNestedLoop,
    /// Pop the context menu up at the pointer, with the two preference
    /// items checked as given.
    ShowMenu { startup_checked: bool, update_checked: bool },
    /// Register the current executable to run at login.
    EnableStartup,
    /// Remove the login registration of the current executable.
    DisableStartup,
    /// Store this value under the auto-update key.
    WriteAutoUpdate { value: u32 },
    /// Re-read the stored auto-update flag and run an update check if it is
    /// enabled.
    RunUpdateRoutine,
    /// End the nested dispatch scope of the open window, if one runs.
    EndNestedLoop,
    /// End the outer dispatch loop and with it the process.
    EndOuterLoop,
}

/// The tray coordinator's state: the handle slot of the single content
/// window, and the checkbox state the two preference menu items last
/// showed. The slot is the sole record of an open window; it is filled when
/// a window is created and cleared when that window's close notification is
/// processed, and it never holds a handle of a destroyed window.
#[derive(Clone, Copy, PartialEq, Eq, Debug)]
pub struct TrayCoordinator {
    pub active_window: Option<u64>,
    pub startup_checked: bool,
    pub update_checked: bool,
}

impl TrayCoordinator {
    /// The window state the handle slot encodes.
    pub open spec fn state(self) -> WindowState {
        if self.active_window is Some {
            WindowState::WindowOpen
        } else {
            WindowState::NoWindow
        }
    }

    /// How many content windows are open: the slot holds at most one
    /// handle, so this is zero or one.
    pub open spec fn window_count(self) -> int {
        if self.active_window is Some {
            1
        } else {
            0
        }
    }

    /// A fresh coordinator: no window, both preference items unchecked
    /// until the first menu refresh reads the real values.
    pub fn new() -> (c: Self)
        ensures
            c.active_window is None,
            c.state() is NoWindow,
            !c.startup_checked,
            !c.update_checked,
    {
        TrayCoordinator { active_window: None, startup_checked: false, update_checked: false }
    }

    /// The handle slot as the shell reads it.
    pub fn active_handle(&self) -> (h: Option<u64>)
        ensures
            h == self.active_window,
    {
        self.active_window
    }

    /// Whether a content window is currently open.
    pub fn is_window_open(&self) -> (r: bool)
        ensures
            r == (self.state() is WindowOpen),
    {
        self.active_window.is_some()
    }

    /// The reaction to a tray activation: while no window is open, have one
    /// created; while one is open, never create a second, only ask the
    /// platform to bring the existing one to the foreground.
    pub fn on_tray_activated(&self) -> (a: TrayAction)
        ensures
            self.active_window matches Some(h) ==> a == (TrayAction::FocusWindow { handle: h }),
            self.active_window is None ==> a == TrayAction::CreateWindow,
    {
        match self.active_window {
            Some(h) => TrayAction::FocusWindow { handle: h },
            None => TrayAction::CreateWindow,
        }
    }

    /// Records the handle of the window the shell just constructed, and
    /// asks for it to be focused and its nested dispatch scope entered.
    /// A window is only ever constructed while none is open.
    pub fn on_window_created(&mut self, handle: u64) -> (a: TrayAction)
        requires
            old(self).active_window is None,
        ensures
            final(self).active_window == Some(handle),
            final(self).state() is WindowOpen,
            final(self).startup_checked == old(self).startup_checked,
            final(self).update_checked == old(self).update_checked,
            a == (TrayAction::FocusWindow { handle }),
    {
        self.active_window = Some(handle);
        TrayAction::FocusWindow { handle }
    }

    /// Clears the handle slot when the open window processes its close
    /// notification, and asks for its nested dispatch scope to end.
    /// Immediately after a close is processed the slot is empty.
    pub fn on_window_closed(&mut self) -> (a: TrayAction)
        ensures
            final(self).active_window is None,
            final(self).state() is NoWindow,
            final(self).startup_checked == old(self).startup_checked,
            final(self).update_checked == old(self).update_checked,
            a == TrayAction::EndNestedLoop,
    {
        self.active_window = None;
        TrayAction::EndNestedLoop
    }

    /// Refreshes the two checkboxes from what the shell could read before
    /// the menu opens — a failed query leaves the previous state, which
    /// self-corrects on a later open — and asks for the menu to be shown.
    pub fn on_menu_opened(&mut self, startup_query: Option<bool>, stored_update: Option<u32>) -> (a:
        TrayAction)
        ensures
            final(self).startup_checked == (match startup_query {
                Some(enabled) => enabled,
                None => old(self).startup_checked,
            }),
            final(self).update_checked == (match stored_update {
                Some(v) => v > 0,
                None => old(self).update_checked,
            }),
            final(self).active_window == old(self).active_window,
            a == (TrayAction::ShowMenu {
                startup_checked: final(self).startup_checked,
                update_checked: final(self).update_checked,
            }),
    {
        if let Some(enabled) = startup_query {
            self.startup_checked = enabled;
        }
        if let Some(v) = stored_update {
            self.update_checked = v > 0;
        }
        TrayAction::ShowMenu {
            startup_checked: self.startup_checked,
            update_checked: self.update_checked,
        }
    }

    /// The reaction to the "run at startup" item: a toggle against the
    /// checkbox state the menu showed. The checkbox itself is not updated
    /// here; the next menu open reads the authoritative state back.
    pub fn on_startup_selected(&self) -> (a: TrayAction)
        ensures
            self.startup_checked ==> a == TrayAction::DisableStartup,
            !self.startup_checked ==> a == TrayAction::EnableStartup,
    {
        if self.startup_checked {
            TrayAction::DisableStartup
        } else {
            TrayAction::EnableStartup
        }
    }

    /// The reaction to the "auto update" item: store the inverted flag,
    /// then re-run the auto-update routine against the stored value.
    pub fn on_update_selected(&self) -> (a: TrayAction)
        ensures
            a == (TrayAction::WriteAutoUpdate { value: spec_toggled_value(self.update_checked) }),
    {
        TrayAction::WriteAutoUpdate { value: toggled_value(self.update_checked) }
    }
}

impl Default for TrayCoordinator {
    /// A fresh coordinator, exactly as [`TrayCoordinator::new`] returns it.
    fn default() -> (c: Self)
        ensures
            c.active_window is None,
            !c.startup_checked,
            !c.update_checked,
    {
        TrayCoordinator::new()
    }
}

/// The coordinator after one event. Activation and the menu selections
/// leave the handle slot alone; only window creation fills it and only a
/// processed close clears it.
pub open spec fn spec_next(c: TrayCoordinator, ev: TrayEvent) -> TrayCoordinator {
    match ev {
        TrayEvent::Activated => c,
        TrayEvent::WindowCreated { handle } => TrayCoordinator {
            active_window: Some(handle),
            ..c
        },
        TrayEvent::WindowClosed => TrayCoordinator { active_window: None, ..c },
        TrayEvent::MenuOpened { startup_query, stored_update } => TrayCoordinator {
            startup_checked: match startup_query {
                Some(enabled) => enabled,
                None => c.startup_checked,
            },
            update_checked: match stored_update {
                Some(v) => v > 0,
                None => c.update_checked,
            },
            ..c
        },
        TrayEvent::StartupSelected => c,
        TrayEvent::UpdateSelected => c,
        TrayEvent::ExitSelected => c,
    }
}

/// The actions one event asks of the shell.
pub open spec fn spec_actions(c: TrayCoordinator, ev: TrayEvent) -> Seq<TrayAction> {
    match ev {
        TrayEvent::Activated => match c.active_window {
            Some(h) => seq![TrayAction::FocusWindow { handle: h }],
            None => seq![TrayAction::CreateWindow],
        },
        TrayEvent::WindowCreated { handle } => seq![
            TrayAction::FocusWindow { handle },
            TrayAction::RunNestedLoop,
        ],
        TrayEvent::WindowClosed => seq![TrayAction::EndNestedLoop],
        TrayEvent::MenuOpened { .. } => seq![
            TrayAction::ShowMenu {
                startup_checked: spec_next(c, ev).startup_checked,
                update_checked: spec_next(c, ev).update_checked,
            },
        ],
        TrayEvent::StartupSelected => if c.startup_checked {
            seq![TrayAction::DisableStartup]
        } else {
            seq![TrayAction::EnableStartup]
        },
        TrayEvent::UpdateSelected => seq![
            TrayAction::WriteAutoUpdate { value: spec_toggled_value(c.update_checked) },
            TrayAction::RunUpdateRoutine,
        ],
        TrayEvent::ExitSelected => seq![TrayAction::EndNestedLoop, TrayAction::EndOuterLoop],
    }
}

impl TrayCoordinator {
    /// The flat event loop's single entry point: advances the state and
    /// returns the actions the shell must perform, in order. A
    /// `WindowCreated` event only arrives while no window is open, since
    /// the shell constructs a window only on a `CreateWindow` action.
    pub fn handle_event(&mut self, ev: TrayEvent) -> (actions: Vec<TrayAction>)
        requires
            ev is WindowCreated ==> old(self).active_window is None,
        ensures
            *final(self) == spec_next(*old(self), ev),
            actions@ == spec_actions(*old(self), ev),
    {
        let mut actions: Vec<TrayAction> = Vec::new();
        match ev {
            TrayEvent::Activated => {
                actions.push(self.on_tray_activated());
            },
            TrayEvent::WindowCreated { handle } => {
                let focus = self.on_window_created(handle);
                actions.push(focus);
                actions.push(TrayAction::RunNestedLoop);
            },
            TrayEvent::WindowClosed => {
                let end = self.on_window_closed();
                actions.push(end);
            },
            TrayEvent::MenuOpened { startup_query, stored_update } => {
                let show = self.on_menu_opened(startup_query, stored_update);
                actions.push(show);
            },
            TrayEvent::StartupSelected => {
                actions.push(self.on_startup_selected());
            },
            TrayEvent::UpdateSelected => {
                actions.push(self.on_update_selected());
                actions.push(TrayAction::RunUpdateRoutine);
            },
            TrayEvent::ExitSelected => {
                actions.push(TrayAction::EndNestedLoop);
                actions.push(TrayAction::EndOuterLoop);
            },
        }
        proof {
            assert(actions@ =~= spec_actions(*old(self), ev));
        }
        actions
    }
}

/// The coordinator after a whole event sequence, front to back.
pub open spec fn spec_run(c: TrayCoordinator, evs: Seq<TrayEvent>) -> TrayCoordinator
    decreases evs.len(),
{
    if evs.len() == 0 {
        c
    } else {
        spec_run(spec_next(c, evs.first()), evs.drop_first())
    }
}

/// A well-behaved environment: the shell reports `WindowCreated` only while
/// no window is open (it constructs one only on a `CreateWindow` action,
/// which the coordinator issues only then — see
/// [`lemma_create_only_when_no_window`]), and a close notification only
/// comes from a window that exists.
pub open spec fn spec_valid_events(c: TrayCoordinator, evs: Seq<TrayEvent>) -> bool
    decreases evs.len(),
{
    evs.len() == 0 || {
        &&& evs.first() is WindowCreated ==> c.active_window is None
        &&& evs.first() is WindowClosed ==> c.active_window is Some
        &&& spec_valid_events(spec_next(c, evs.first()), evs.drop_first())
    }
}

/// The net number of windows an event sequence opens: one per creation,
/// minus one per processed close.
pub open spec fn spec_net_open(evs: Seq<TrayEvent>) -> int
    decreases evs.len(),
{
    if evs.len() == 0 {
        0int
    } else {
        (match evs.first() {
            TrayEvent::WindowCreated { .. } => 1int,
            TrayEvent::WindowClosed => -1int,
            _ => 0int,
        }) + spec_net_open(evs.drop_first())
    }
}

/// Law: the coordinator asks for a window to be constructed only while
/// none is open; while one is open, activation only refocuses it.
pub proof fn lemma_create_only_when_no_window(c: TrayCoordinator, ev: TrayEvent)
    ensures
        forall|i: int|
            0 <= i < spec_actions(c, ev).len() && spec_actions(c, ev)[i] is CreateWindow
                ==> c.active_window is None,
{
}

/// Law: at most one window. Along any event sequence from a well-behaved
/// environment, the number of content windows created and not yet closed
/// equals the coordinator's window count, which is always zero or one; no
/// sequence of tray activations ever brings a second window into
/// existence.
pub proof fn lemma_at_most_one_window(c: TrayCoordinator, evs: Seq<TrayEvent>)
    requires
        spec_valid_events(c, evs),
    ensures
        spec_run(c, evs).window_count() == c.window_count() + spec_net_open(evs),
        0 <= spec_run(c, evs).window_count() <= 1,
    decreases evs.len(),
{
    if evs.len() > 0 {
        lemma_at_most_one_window(spec_next(c, evs.first()), evs.drop_first());
    }
}

/// Law: the handle invariant. The handle slot is empty exactly when the
/// state is `NoWindow`, and immediately after a close notification is
/// processed the slot is empty.
pub proof fn lemma_handle_invariant(c: TrayCoordinator, ev: TrayEvent)
    ensures
        (c.active_window is None) <==> (c.state() is NoWindow),
        ev is WindowClosed ==> spec_next(c, ev).active_window is None,
{
}

} // verus!
