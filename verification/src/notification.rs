//! System notifications: which translated texts each event shows.

use vstd::prelude::*;
use crate::text::{replace_all, replace_str};

verus! {

/// Events that raise a notification.
pub enum NotificationEvent {
    DashboardToggled,
    ClashModeChanged { mode: String },
    SystemProxyModeToggled,
    TunModeToggled,
    LightweightModeEntered,
    ProfilesReactivated,
    AppQuit,
    AppHidden,
}

/// The translation keys of an event's title and body.
pub open spec fn event_keys(e: NotificationEvent) -> (Seq<char>, Seq<char>) {
    match e {
        NotificationEvent::DashboardToggled => (
            "notifications.dashboardToggled.title"@,
            "notifications.dashboardToggled.body"@,
        ),
        NotificationEvent::ClashModeChanged { .. } => (
            "notifications.clashModeChanged.title"@,
            "notifications.clashModeChanged.body"@,
        ),
        NotificationEvent::SystemProxyModeToggled => (
            "notifications.systemProxyToggled.title"@,
            "notifications.systemProxyToggled.body"@,
        ),
        NotificationEvent::TunModeToggled => (
            "notifications.tunModeToggled.title"@,
            "notifications.tunModeToggled.body"@,
        ),
        NotificationEvent::LightweightModeEntered => (
            "notifications.lightweightModeEntered.title"@,
            "notifications.lightweightModeEntered.body"@,
        ),
        NotificationEvent::ProfilesReactivated => (
            "notifications.profilesReactivated.title"@,
            "notifications.profilesReactivated.body"@,
        ),
        NotificationEvent::AppQuit => ("notifications.appQuit.title"@, "notifications.appQuit.body"@),
        NotificationEvent::AppHidden => (
            "notifications.appHidden.title"@,
            "notifications.appHidden.body"@,
        ),
    }
}

impl NotificationEvent {
    /// The translation keys of the title and the body.
    pub fn message_keys(&self) -> (r: (&'static str, &'static str))
        ensures
            (r.0@, r.1@) == event_keys(*self),
    {
        match self {
            NotificationEvent::DashboardToggled => (
                "notifications.dashboardToggled.title",
                "notifications.dashboardToggled.body",
            ),
            NotificationEvent::ClashModeChanged { .. } => (
                "notifications.clashModeChanged.title",
                "notifications.clashModeChanged.body",
            ),
            NotificationEvent::SystemProxyModeToggled => (
                "notifications.systemProxyToggled.title",
                "notifications.systemProxyToggled.body",
            ),
            NotificationEvent::TunModeToggled => (
                "notifications.tunModeToggled.title",
                "notifications.tunModeToggled.body",
            ),
            NotificationEvent::LightweightModeEntered => (
                "notifications.lightweightModeEntered.title",
                "notifications.lightweightModeEntered.body",
            ),
            NotificationEvent::ProfilesReactivated => (
                "notifications.profilesReactivated.title",
                "notifications.profilesReactivated.body",
            ),
            NotificationEvent::AppQuit => ("notifications.appQuit.title", "notifications.appQuit.body"),
            NotificationEvent::AppHidden => (
                "notifications.appHidden.title",
                "notifications.appHidden.body",
            ),
        }
    }

    /// The body shown, from its translated text: a mode change puts the
    /// mode where the text says `{mode}`; other bodies are shown as they are.
    pub fn body_text(&self, translated: &str) -> (r: String)
        ensures
            r@ == match *self {
                NotificationEvent::ClashModeChanged { mode } => replace_all(
                    translated@,
                    "{mode}"@,
                    mode@,
                ),
                _ => translated@,
            },
    {
        match self {
            NotificationEvent::ClashModeChanged { mode } => {
                proof {
                    reveal_strlit("{mode}");
                }
                replace_str(translated, "{mode}", mode.as_str())
            },
            _ => translated.to_owned(),
        }
    }
}

} // verus!
