//! Classification of the environment's readiness for injection, from the
//! checks that the caller ran (environment variables, the AT-SPI registry
//! ping and the clipboard tools).

use vstd::prelude::*;

verus! {

/// Identifier of each injection backend.
#[derive(Debug, Clone, Copy, PartialEq, Eq, Hash, Structural)]
pub enum BackendId {
    Atspi,
    ClipboardWayland,
    ClipboardX11,
    Ydotool,
    /// No specific backend could be selected.
    Fallback,
}

/// Readiness of the environment for text injection.
#[derive(Debug)]
pub enum ProbeState {
    /// Everything is in place; these backends are ready.
    FullyAvailable { usable: Vec<BackendId> },
    /// Some backends are ready; the listed components (component, reason) are missing.
    Degraded { usable: Vec<BackendId>, missing: Vec<(&'static str, &'static str)> },
    /// Injection is not possible, for the listed (component, reason) causes.
    Missing { causes: Vec<(&'static str, &'static str)> },
}

/// The results of the individual environment checks.
#[derive(Debug, Clone, Copy)]
pub struct ProbeInputs {
    /// `DISPLAY` is set.
    pub have_x: bool,
    /// `WAYLAND_DISPLAY` is set.
    pub have_wayland: bool,
    /// `DBUS_SESSION_BUS_ADDRESS` is set.
    pub have_dbus: bool,
    /// The AT-SPI registry answered its ping.
    pub atspi_registry_ok: bool,
    /// `wl-paste` could be spawned.
    pub wl_paste_ok: bool,
    /// `xclip` could be spawned.
    pub xclip_ok: bool,
}

/// The usable backends: AT-SPI when D-Bus is there and the registry
/// answers, then the Wayland and X11 clipboards when their display and tool
/// are there.
pub open spec fn usable_spec(p: ProbeInputs) -> Seq<BackendId> {
    (if p.have_dbus && p.atspi_registry_ok { seq![BackendId::Atspi] } else { seq![] })
        + (if p.have_wayland && p.wl_paste_ok { seq![BackendId::ClipboardWayland] } else { seq![] })
        + (if p.have_x && p.xclip_ok { seq![BackendId::ClipboardX11] } else { seq![] })
}

/// The missing components, as (component, reason).
pub open spec fn missing_spec(p: ProbeInputs) -> Seq<(Seq<char>, Seq<char>)> {
    let clipboard = (p.have_wayland && p.wl_paste_ok) || (p.have_x && p.xclip_ok);
    (if !p.have_dbus {
        seq![("dbus"@, "DBUS_SESSION_BUS_ADDRESS not set"@)]
    } else if !p.atspi_registry_ok {
        seq![("at-spi"@, "registry ping failed or timed out"@)]
    } else {
        seq![]
    }) + (if !clipboard {
        seq![("clipboard"@, "no usable clipboard tool found (wl-paste/xclip)"@)]
    } else {
        seq![]
    })
}

/// The views of (component, reason) pairs.
pub open spec fn reason_views(v: Seq<(&'static str, &'static str)>) -> Seq<(Seq<char>, Seq<char>)> {
    v.map_values(|r: (&'static str, &'static str)| (r.0@, r.1@))
}

/// Classifies the environment: no usable backend means missing; usable
/// backends with missing components mean degraded; otherwise fully available.
pub fn classify_probe(p: ProbeInputs) -> (s: ProbeState)
    ensures
        usable_spec(p).len() == 0 ==> (s matches ProbeState::Missing { causes } && reason_views(causes@)
            == missing_spec(p)),
        usable_spec(p).len() > 0 && missing_spec(p).len() > 0 ==> (s matches ProbeState::Degraded {
            usable,
            missing,
        } && usable@ == usable_spec(p) && reason_views(missing@) == missing_spec(p)),
        usable_spec(p).len() > 0 && missing_spec(p).len() == 0 ==> (s matches ProbeState::FullyAvailable {
            usable,
        } && usable@ == usable_spec(p)),
{
    let mut usable: Vec<BackendId> = Vec::new();
    let mut missing: Vec<(&'static str, &'static str)> = Vec::new();
    if p.have_dbus {
        if p.atspi_registry_ok {
            usable.push(BackendId::Atspi);
        } else {
            missing.push(("at-spi", "registry ping failed or timed out"));
        }
    } else {
        missing.push(("dbus", "DBUS_SESSION_BUS_ADDRESS not set"));
    }
    let wayland_clip = p.have_wayland && p.wl_paste_ok;
    let x11_clip = p.have_x && p.xclip_ok;
    if wayland_clip {
        usable.push(BackendId::ClipboardWayland);
    }
    if x11_clip {
        usable.push(BackendId::ClipboardX11);
    }
    if !wayland_clip && !x11_clip {
        missing.push(("clipboard", "no usable clipboard tool found (wl-paste/xclip)"));
    }
    proof {
        assert(usable@ =~= usable_spec(p));
        assert(reason_views(missing@) =~= missing_spec(p));
    }
    if usable.len() == 0 {
        ProbeState::Missing { causes: missing }
    } else if missing.len() > 0 {
        ProbeState::Degraded { usable, missing }
    } else {
        ProbeState::FullyAvailable { usable }
    }
}

} // verus!
