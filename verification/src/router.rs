//! The UI event router: the single-threaded loop's state machine.
//!
//! The loop starts in a not-started state; on the initialization cause it
//! builds the tray widget once and is running from then on. While running it
//! receives three event kinds — tray-icon interaction, menu interaction, and
//! power-mode change — and dispatches each synchronously, in delivery order.
//! The router itself performs no OS work: it returns an action for the
//! surrounding loop to carry out (build the widget, exit the process, or
//! apply a widget update).

use vstd::prelude::*;
use vstd::string::*;

use crate::icon::{is_known_code, IconCache};
use crate::presenter::{initial_icon, initial_icon_value, IconChoice, Presenter, WidgetUpdate};
use crate::text::{initial_tooltip, initial_tooltip_spec, tooltip_spec};

verus! {

/// Why the event loop woke up: its first tick, or anything later.
#[derive(Clone, Copy, PartialEq, Eq, Structural, Debug)]
pub enum StartCause {
    Init,
    Other,
}

/// The three external event kinds the loop receives.
pub enum UiEvent {
    /// Interaction with the tray icon itself; reserved, currently ignored.
    TrayInteraction,
    /// A menu entry was activated, carrying the entry's identifier.
    Menu { id: String },
    /// The OS reported a power-mode change, carrying the raw mode code.
    PowerMode { code: i32 },
}

/// One entry of the tray menu.
pub struct MenuItemSpec {
    pub id: String,
    pub label: String,
    pub enabled: bool,
}

/// The menu holds exactly one entry: the enabled "Exit" item.
pub open spec fn is_exit_menu(m: Seq<MenuItemSpec>) -> bool {
    &&& m.len() == 1
    &&& m[0].id@ == "exit"@
    &&& m[0].label@ == "Exit"@
    &&& m[0].enabled
}

/// Everything the widget toolkit needs to build the tray widget.
pub struct WidgetSpec {
    pub tooltip: String,
    pub icon: IconChoice,
    pub menu: Vec<MenuItemSpec>,
    pub title: String,
}

/// What the surrounding loop must do after an event is routed.
pub enum Action {
    /// Nothing; the loop keeps running.
    Nothing,
    /// Terminate the process with exit code 0.
    Exit,
    /// Apply a tooltip/icon update to the tray widget.
    Widget(WidgetUpdate),
}

/// The application state owned by the UI thread: whether the widget has been
/// built, and the presenter behind it.
pub struct Application {
    pub started: bool,
    pub presenter: Presenter,
}

/// The tray menu definition: a single enabled "Exit" entry.
pub fn new_tray_menu() -> (m: Vec<MenuItemSpec>)
    ensures
        is_exit_menu(m@),
{
    let item = MenuItemSpec {
        id: String::from_str("exit"),
        label: String::from_str("Exit"),
        enabled: true,
    };
    let mut m: Vec<MenuItemSpec> = Vec::new();
    m.push(item);
    m
}

/// The widget as first built: unknown-mode tooltip, the initial icon, and
/// the exit menu.
pub fn initial_widget() -> (w: WidgetSpec)
    ensures
        w.tooltip@ == initial_tooltip_spec(),
        w.icon == initial_icon(),
        is_exit_menu(w.menu@),
        w.title@ == "x"@,
{
    WidgetSpec {
        tooltip: initial_tooltip(),
        icon: initial_icon_value(),
        menu: new_tray_menu(),
        title: String::from_str("x"),
    }
}

impl Application {
    /// The widget state is well formed whenever the presenter is.
    pub open spec fn wf(self) -> bool {
        self.presenter.wf()
    }

    /// A fresh application: widget not yet built, presenter in its initial
    /// state over the given cache.
    pub fn new(cache: IconCache) -> (app: Application)
        requires
            cache.wf(),
        ensures
            app.wf(),
            !app.started,
            app.presenter.cache == cache,
            app.presenter.tooltip@ == initial_tooltip_spec(),
            app.presenter.icon == initial_icon(),
    {
        Application { started: false, presenter: Presenter::new(cache) }
    }

    /// The loop's tick cause, before any events of the tick are delivered.
    /// On the initialization cause — and only then — the widget is built:
    /// the not-started state transitions to running exactly once, and the
    /// returned specification describes the widget to construct. Widget
    /// construction is deferred to this first tick because building it
    /// before the loop runs races platform registration.
    pub fn on_new_events(&mut self, cause: StartCause) -> (w: Option<WidgetSpec>)
        requires
            old(self).wf(),
        ensures
            final(self).wf(),
            final(self).presenter == old(self).presenter,
            cause == StartCause::Init ==> final(self).started && (w matches Some(ws)
                && ws.tooltip@ == initial_tooltip_spec() && ws.icon == initial_icon()
                && is_exit_menu(ws.menu@) && ws.title@ == "x"@),
            cause != StartCause::Init ==> final(self).started == old(self).started && w is None,
    {
        if cause == StartCause::Init {
            self.started = true;
            Some(initial_widget())
        } else {
            None
        }
    }

    /// Route one delivered event.
    ///
    /// Tray-icon interaction is ignored. A menu event exits exactly when its
    /// identifier is the exit entry's. A power-mode event, once the widget
    /// is running, updates the presenter exactly once with that code — the
    /// tooltip takes the code, and the icon either moves to that code's
    /// cached entry or stays as it was; before the widget is built it is a
    /// no-op.
    pub fn handle_event(&mut self, ev: UiEvent) -> (a: Action)
        requires
            old(self).wf(),
        ensures
            final(self).wf(),
            final(self).started == old(self).started,
            final(self).presenter.cache == old(self).presenter.cache,
            ev matches UiEvent::TrayInteraction ==> *final(self) == *old(self) && a
                matches Action::Nothing,
            ev matches UiEvent::Menu { id } ==> *final(self) == *old(self) && (if id@ == "exit"@ {
                a matches Action::Exit
            } else {
                a matches Action::Nothing
            }),
            ev matches UiEvent::PowerMode { code } ==> if old(self).started {
                &&& a matches Action::Widget(u)
                &&& final(self).presenter.tooltip@ == tooltip_spec(code as int)
                &&& u.tooltip@ == tooltip_spec(code as int)
                &&& (u.icon matches Some(c) ==> is_known_code(code) && c.code == code
                    && final(self).presenter.icon == c)
                &&& (u.icon is None ==> final(self).presenter.icon == old(self).presenter.icon)
                &&& (!is_known_code(code) ==> final(self).presenter.icon
                    == old(self).presenter.icon && u.icon is None)
            } else {
                *final(self) == *old(self) && a matches Action::Nothing
            },
    {
        match ev {
            UiEvent::TrayInteraction => Action::Nothing,
            UiEvent::Menu { id } => {
                let exit_id = String::from_str("exit");
                if id == exit_id {
                    Action::Exit
                } else {
                    Action::Nothing
                }
            },
            UiEvent::PowerMode { code } => {
                if self.started {
                    let u = self.presenter.update(code);
                    Action::Widget(u)
                } else {
                    Action::Nothing
                }
            },
        }
    }
}

} // verus!
