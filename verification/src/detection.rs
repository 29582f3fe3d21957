//! Display protocol detection, preferring `XDG_SESSION_TYPE` over the
//! individual display variables.

use crate::env::{session_type_is, session_type_lowercase_is, EnvironmentProbe};
use crate::text::{str_eq, to_lowercase};
use vstd::prelude::*;

verus! {

/// Display protocol types.
#[derive(Debug, Clone, Copy, PartialEq, Eq, Structural)]
pub enum DisplayProtocol {
    /// Native Wayland session.
    Wayland,
    /// X11 session (including XWayland).
    X11,
    /// Unknown or unsupported protocol.
    Unknown,
}

/// The protocol `detect_display_protocol` reports: `XDG_SESSION_TYPE` when
/// it names Wayland or X11 (in any case), else `WAYLAND_DISPLAY`, else
/// `DISPLAY`, else unknown.
pub open spec fn display_protocol_of(env: EnvironmentProbe) -> DisplayProtocol {
    if session_type_lowercase_is(env, "wayland"@) {
        DisplayProtocol::Wayland
    } else if session_type_lowercase_is(env, "x11"@) {
        DisplayProtocol::X11
    } else if env.wayland_display {
        DisplayProtocol::Wayland
    } else if env.display {
        DisplayProtocol::X11
    } else {
        DisplayProtocol::Unknown
    }
}

impl DisplayProtocol {
    /// Whether this is Wayland.
    pub fn is_wayland(&self) -> (r: bool)
        ensures
            r == (*self == DisplayProtocol::Wayland),
    {
        matches!(self, DisplayProtocol::Wayland)
    }

    /// Whether this is X11.
    pub fn is_x11(&self) -> (r: bool)
        ensures
            r == (*self == DisplayProtocol::X11),
    {
        matches!(self, DisplayProtocol::X11)
    }

    /// Whether this is X11 running inside a Wayland session.
    pub fn is_xwayland(&self, env: &EnvironmentProbe) -> (r: bool)
        ensures
            r == (*self == DisplayProtocol::X11 && (env.wayland_display || session_type_is(
                *env,
                "wayland"@,
            ))),
    {
        if !self.is_x11() {
            return false;
        }
        env.wayland_display || env.session_type_equals("wayland")
    }
}

/// Detects the display protocol of `env`.
pub fn detect_display_protocol(env: &EnvironmentProbe) -> (p: DisplayProtocol)
    ensures
        p == display_protocol_of(*env),
{
    if let Some(session_type) = &env.xdg_session_type {
        let lower = to_lowercase(session_type.as_str());
        if str_eq(lower.as_str(), "wayland") {
            return DisplayProtocol::Wayland;
        }
        if str_eq(lower.as_str(), "x11") {
            return DisplayProtocol::X11;
        }
    }
    if env.wayland_display {
        return DisplayProtocol::Wayland;
    }
    if env.display {
        return DisplayProtocol::X11;
    }
    DisplayProtocol::Unknown
}

} // verus!
