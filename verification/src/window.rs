//! Decisions of the main-window manager: what state the window is in, and
//! what showing, toggling, hiding, activating, creating and destroying it
//! do. The window system itself is queried and driven by the caller, which
//! passes in what it observed.

use vstd::prelude::*;

verus! {

/// What a window operation did.
#[derive(Debug, Clone, Copy, PartialEq, Eq, Structural)]
pub enum WindowOperationResult {
    /// Shown and focused.
    Shown,
    /// Hidden.
    Hidden,
    /// A new window was made.
    Created,
    /// The window was destroyed.
    Destroyed,
    /// The operation failed.
    Failed,
    /// Nothing was to be done.
    NoAction,
}

/// The state of the main window.
#[derive(Debug, Clone, Copy, PartialEq, Eq, Structural)]
pub enum WindowState {
    VisibleFocused,
    VisibleUnfocused,
    Minimized,
    Hidden,
    NotExist,
}

/// What querying an existing window answered; `None` where a query failed.
#[derive(Debug, Clone, Copy, PartialEq, Eq, Structural)]
pub struct WindowProbe {
    pub is_minimized: Option<bool>,
    pub is_visible: Option<bool>,
    pub is_focused: Option<bool>,
}

/// A failed query counts as `false`.
pub open spec fn flag(b: Option<bool>) -> bool {
    b == Some(true)
}

/// The state a probe shows: no window, minimized, hidden, or visible with or
/// without focus, in that order of precedence.
pub open spec fn state_of(window: Option<WindowProbe>) -> WindowState {
    match window {
        None => WindowState::NotExist,
        Some(w) => if flag(w.is_minimized) {
            WindowState::Minimized
        } else if !flag(w.is_visible) {
            WindowState::Hidden
        } else if flag(w.is_focused) {
            WindowState::VisibleFocused
        } else {
            WindowState::VisibleUnfocused
        },
    }
}

/// The next step of showing the main window.
#[derive(Debug, Clone, Copy, PartialEq, Eq, Structural)]
pub enum ShowStep {
    /// Finished with this result.
    Done(WindowOperationResult),
    /// Check the window again, then activate it.
    RecheckThenActivate,
    /// Create a new window.
    Create,
}

/// The next step of toggling the main window.
#[derive(Debug, Clone, Copy, PartialEq, Eq, Structural)]
pub enum ToggleStep {
    Done(WindowOperationResult),
    Hide,
    Activate,
    Create,
}

fn flag_of(b: Option<bool>) -> (r: bool)
    ensures
        r == flag(b),
{
    match b {
        Some(v) => v,
        None => false,
    }
}

/// Stands for the window manager; every decision is an associated function.
pub struct WindowManager;

impl WindowManager {
    /// The state of the main window.
    pub fn get_main_window_state(window: Option<WindowProbe>) -> (r: WindowState)
        ensures
            r == state_of(window),
    {
        match window {
            Some(w) => {
                if flag_of(w.is_minimized) {
                    return WindowState::Minimized;
                }
                if !flag_of(w.is_visible) {
                    return WindowState::Hidden;
                }
                if flag_of(w.is_focused) {
                    WindowState::VisibleFocused
                } else {
                    WindowState::VisibleUnfocused
                }
            },
            None => WindowState::NotExist,
        }
    }

    /// Whether the main window is visible.
    pub fn is_main_window_visible(window: Option<WindowProbe>) -> (r: bool)
        ensures
            r == (window matches Some(w) && flag(w.is_visible)),
    {
        match window {
            Some(w) => flag_of(w.is_visible),
            None => false,
        }
    }

    /// Whether the main window is minimized.
    pub fn is_main_window_minimized(window: Option<WindowProbe>) -> (r: bool)
        ensures
            r == (window matches Some(w) && flag(w.is_minimized)),
    {
        match window {
            Some(w) => flag_of(w.is_minimized),
            None => false,
        }
    }

    /// Whether the main window has the focus.
    pub fn is_main_window_focused(window: Option<WindowProbe>) -> (r: bool)
        ensures
            r == (window matches Some(w) && flag(w.is_focused)),
    {
        match window {
            Some(w) => flag_of(w.is_focused),
            None => false,
        }
    }

    /// The first step of showing the main window: nothing while the rate
    /// limit holds or when it is visible and focused; a recheck and
    /// activation when it is minimized, hidden or unfocused; creation when
    /// there is none.
    pub fn show_main_window(allowed: bool, state: WindowState) -> (r: ShowStep)
        ensures
            r == if !allowed {
                ShowStep::Done(WindowOperationResult::NoAction)
            } else {
                match state {
                    WindowState::VisibleFocused => ShowStep::Done(WindowOperationResult::NoAction),
                    WindowState::NotExist => ShowStep::Create,
                    _ => ShowStep::RecheckThenActivate,
                }
            },
    {
        if !allowed {
            return ShowStep::Done(WindowOperationResult::NoAction);
        }
        match state {
            WindowState::VisibleFocused => ShowStep::Done(WindowOperationResult::NoAction),
            WindowState::Minimized | WindowState::VisibleUnfocused | WindowState::Hidden => {
                ShowStep::RecheckThenActivate
            },
            WindowState::NotExist => ShowStep::Create,
        }
    }

    /// After the recheck while showing: no window fails; a window found
    /// visible and focused in the meantime is left alone; otherwise it is to
    /// be activated (`None`).
    pub fn after_recheck(window_exists: bool, recheck: WindowState) -> (r: Option<
        WindowOperationResult,
    >)
        ensures
            r == if !window_exists {
                Some(WindowOperationResult::Failed)
            } else if recheck == WindowState::VisibleFocused {
                Some(WindowOperationResult::NoAction)
            } else {
                None
            },
    {
        if !window_exists {
            Some(WindowOperationResult::Failed)
        } else if recheck == WindowState::VisibleFocused {
            Some(WindowOperationResult::NoAction)
        } else {
            None
        }
    }

    /// The first step of toggling the main window: hide a visible window,
    /// activate a minimized or hidden one, create a missing one.
    pub fn toggle_main_window(allowed: bool, state: WindowState) -> (r: ToggleStep)
        ensures
            r == if !allowed {
                ToggleStep::Done(WindowOperationResult::NoAction)
            } else {
                match state {
                    WindowState::VisibleFocused | WindowState::VisibleUnfocused => ToggleStep::Hide,
                    WindowState::Minimized | WindowState::Hidden => ToggleStep::Activate,
                    WindowState::NotExist => ToggleStep::Create,
                }
            },
    {
        if !allowed {
            return ToggleStep::Done(WindowOperationResult::NoAction);
        }
        match state {
            WindowState::VisibleFocused | WindowState::VisibleUnfocused => ToggleStep::Hide,
            WindowState::Minimized | WindowState::Hidden => ToggleStep::Activate,
            WindowState::NotExist => ToggleStep::Create,
        }
    }

    /// The result of creating a window for a toggle or show.
    pub fn handle_not_exist_toggle(created: bool) -> (r: WindowOperationResult)
        ensures
            r == if created {
                WindowOperationResult::Created
            } else {
                WindowOperationResult::Failed
            },
    {
        if created {
            WindowOperationResult::Created
        } else {
            WindowOperationResult::Failed
        }
    }

    /// The result of hiding: `None` when there is no window, else whether
    /// hiding succeeded.
    pub fn hide_main_window(hidden: Option<bool>) -> (r: WindowOperationResult)
        ensures
            r == if hidden == Some(true) {
                WindowOperationResult::Hidden
            } else {
                WindowOperationResult::Failed
            },
    {
        match hidden {
            Some(true) => WindowOperationResult::Hidden,
            _ => WindowOperationResult::Failed,
        }
    }

    /// The result of activating an existing window, `None` when there is
    /// none; otherwise the activation's result.
    pub fn activate_existing_main_window(activation: Option<WindowOperationResult>) -> (r:
        WindowOperationResult)
        ensures
            r == match activation {
                Some(a) => a,
                None => WindowOperationResult::Failed,
            },
    {
        match activation {
            Some(a) => a,
            None => WindowOperationResult::Failed,
        }
    }

    /// Whether activation has to un-minimize first.
    pub fn needs_unminimize(is_minimized: Option<bool>) -> (r: bool)
        ensures
            r == flag(is_minimized),
    {
        flag_of(is_minimized)
    }

    /// The result of activating a window: shown when un-minimizing (if it
    /// was needed), showing and focusing all succeeded.
    pub fn activate_window(unminimized: Option<bool>, shown: bool, focused: bool) -> (r:
        WindowOperationResult)
        ensures
            r == if unminimized != Some(false) && shown && focused {
                WindowOperationResult::Shown
            } else {
                WindowOperationResult::Failed
            },
    {
        let mut ok = true;
        match unminimized {
            Some(false) => {
                ok = false;
            },
            _ => {},
        }
        if !shown {
            ok = false;
        }
        if !focused {
            ok = false;
        }
        if ok {
            WindowOperationResult::Shown
        } else {
            WindowOperationResult::Failed
        }
    }

    /// Whether creating a window succeeded: it must be requested visible,
    /// built, and activated without failure.
    pub fn create_window(is_show: bool, built: bool, activation: WindowOperationResult) -> (r: bool)
        ensures
            r == (is_show && built && activation != WindowOperationResult::Failed),
    {
        if !is_show {
            return false;
        }
        if !built {
            return false;
        }
        activation != WindowOperationResult::Failed
    }

    /// The result of destroying the main window.
    pub fn destroy_main_window(window_exists: bool) -> (r: WindowOperationResult)
        ensures
            r == if window_exists {
                WindowOperationResult::Destroyed
            } else {
                WindowOperationResult::Failed
            },
    {
        if window_exists {
            WindowOperationResult::Destroyed
        } else {
            WindowOperationResult::Failed
        }
    }

    /// A one-line description of the window for the log.
    pub fn get_window_status_info(window: Option<WindowProbe>) -> (r: String)
        ensures
            r@ == "窗口状态: "@ + state_name(state_of(window)) + " | 可见: "@ + bool_text(
                window matches Some(w) && flag(w.is_visible),
            ) + " | 有焦点: "@ + bool_text(window matches Some(w) && flag(w.is_focused))
                + " | 最小化: "@ + bool_text(window matches Some(w) && flag(w.is_minimized)),
    {
        let state = Self::get_main_window_state(window);
        let visible = Self::is_main_window_visible(window);
        let focused = Self::is_main_window_focused(window);
        let minimized = Self::is_main_window_minimized(window);
        let mut s = "窗口状态: ".to_owned();
        s.append(state_text(state));
        s.append(" | 可见: ");
        s.append(bool_str(visible));
        s.append(" | 有焦点: ");
        s.append(bool_str(focused));
        s.append(" | 最小化: ");
        s.append(bool_str(minimized));
        s
    }
}

/// The name of a state as `Debug` prints it.
pub open spec fn state_name(s: WindowState) -> Seq<char> {
    match s {
        WindowState::VisibleFocused => "VisibleFocused"@,
        WindowState::VisibleUnfocused => "VisibleUnfocused"@,
        WindowState::Minimized => "Minimized"@,
        WindowState::Hidden => "Hidden"@,
        WindowState::NotExist => "NotExist"@,
    }
}

/// `true` or `false`.
pub open spec fn bool_text(b: bool) -> Seq<char> {
    if b {
        "true"@
    } else {
        "false"@
    }
}

fn state_text(s: WindowState) -> (r: &'static str)
    ensures
        r@ == state_name(s),
{
    match s {
        WindowState::VisibleFocused => "VisibleFocused",
        WindowState::VisibleUnfocused => "VisibleUnfocused",
        WindowState::Minimized => "Minimized",
        WindowState::Hidden => "Hidden",
        WindowState::NotExist => "NotExist",
    }
}

fn bool_str(b: bool) -> (r: &'static str)
    ensures
        r@ == bool_text(b),
{
    if b {
        "true"
    } else {
        "false"
    }
}

} // verus!
