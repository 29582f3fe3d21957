//! What the planners read of the running system, gathered by the caller
//! (environment variables, the target platform and the tools found on the
//! search path) and handed over as plain values.

use crate::text::{str_eq, to_lowercase, unicode_lowercase};
use vstd::prelude::*;

verus! {

/// The platform the program was built for.
#[derive(Debug, Clone, Copy, PartialEq, Eq, Structural)]
pub enum TargetOs {
    Linux,
    MacOs,
    Windows,
    Other,
}

/// A snapshot of the session environment.
#[derive(Debug, Clone)]
pub struct EnvironmentProbe {
    /// Value of `XDG_SESSION_TYPE`, when set.
    pub xdg_session_type: Option<String>,
    /// `WAYLAND_DISPLAY` is set.
    pub wayland_display: bool,
    /// `DISPLAY` is set.
    pub display: bool,
    /// Value of `XDG_CURRENT_DESKTOP`, when set.
    pub xdg_current_desktop: Option<String>,
    /// `KDE_SESSION_VERSION` is set.
    pub kde_session_version: bool,
    /// `HYPRLAND_INSTANCE_SIGNATURE` is set.
    pub hyprland_instance_signature: bool,
    /// The platform the program was built for.
    pub target_os: TargetOs,
    /// An xdg-desktop-portal process is running.
    pub xdg_desktop_portal_running: bool,
    /// A `wlr-virtual-keyboard` binary is on the search path.
    pub wlr_virtual_keyboard_available: bool,
    /// An `xdotool` binary is on the search path.
    pub xdotool_available: bool,
}

/// `XDG_SESSION_TYPE` is set to exactly `value`.
pub open spec fn session_type_is(env: EnvironmentProbe, value: Seq<char>) -> bool {
    env.xdg_session_type matches Some(s) && s@ == value
}

/// `XDG_SESSION_TYPE` lowercases to exactly `value`.
pub open spec fn session_type_lowercase_is(env: EnvironmentProbe, value: Seq<char>) -> bool {
    env.xdg_session_type matches Some(s) && unicode_lowercase(s@) == value
}

/// A Wayland session: `XDG_SESSION_TYPE` is exactly "wayland", or
/// `WAYLAND_DISPLAY` is set.
pub open spec fn on_wayland(env: EnvironmentProbe) -> bool {
    session_type_is(env, "wayland"@) || env.wayland_display
}

/// An X11 session: `XDG_SESSION_TYPE` is exactly "x11", or `DISPLAY` is set.
pub open spec fn on_x11(env: EnvironmentProbe) -> bool {
    session_type_is(env, "x11"@) || env.display
}

/// A Wayland session for the injection method order: `XDG_SESSION_TYPE` is
/// "wayland" in any case, or `WAYLAND_DISPLAY` is set.
pub open spec fn on_wayland_any_case(env: EnvironmentProbe) -> bool {
    session_type_lowercase_is(env, "wayland"@) || env.wayland_display
}

/// An X11 session for the injection method order: `XDG_SESSION_TYPE` is
/// "x11" in any case, or `DISPLAY` is set.
pub open spec fn on_x11_any_case(env: EnvironmentProbe) -> bool {
    session_type_lowercase_is(env, "x11"@) || env.display
}

impl EnvironmentProbe {
    /// Whether `XDG_SESSION_TYPE` is set to exactly `value`.
    pub fn session_type_equals(&self, value: &str) -> (r: bool)
        ensures
            r == session_type_is(*self, value@),
    {
        match &self.xdg_session_type {
            Some(s) => str_eq(s.as_str(), value),
            None => false,
        }
    }

    /// Whether `XDG_SESSION_TYPE` lowercases to exactly `value`.
    pub fn session_type_lowercase_equals(&self, value: &str) -> (r: bool)
        ensures
            r == session_type_lowercase_is(*self, value@),
    {
        match &self.xdg_session_type {
            Some(s) => {
                let lower = to_lowercase(s.as_str());
                str_eq(lower.as_str(), value)
            },
            None => false,
        }
    }

    /// Whether the session runs on Wayland.
    pub fn is_wayland(&self) -> (r: bool)
        ensures
            r == on_wayland(*self),
    {
        self.session_type_equals("wayland") || self.wayland_display
    }

    /// Whether the session runs on X11.
    pub fn is_x11(&self) -> (r: bool)
        ensures
            r == on_x11(*self),
    {
        self.session_type_equals("x11") || self.display
    }

    /// Whether the session runs on Wayland, reading `XDG_SESSION_TYPE` in
    /// any case.
    pub fn is_wayland_any_case(&self) -> (r: bool)
        ensures
            r == on_wayland_any_case(*self),
    {
        self.session_type_lowercase_equals("wayland") || self.wayland_display
    }

    /// Whether the session runs on X11, reading `XDG_SESSION_TYPE` in any
    /// case.
    pub fn is_x11_any_case(&self) -> (r: bool)
        ensures
            r == on_x11_any_case(*self),
    {
        self.session_type_lowercase_equals("x11") || self.display
    }
}

} // verus!
