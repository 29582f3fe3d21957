//! Platform injection backends: which are available in a given environment
//! and which one is preferred.

use crate::env::{on_wayland, on_x11, EnvironmentProbe, TargetOs};
use crate::types::InjectionConfig;
use vstd::prelude::*;

verus! {

/// Available text injection backends.
#[derive(Debug, Clone, Copy, PartialEq, Eq, Structural)]
pub enum Backend {
    /// Wayland with a virtual keyboard (wlr-virtual-keyboard).
    WaylandVirtualKeyboard,
    /// Wayland with xdg-desktop-portal's RemoteDesktop/VirtualKeyboard.
    WaylandXdgDesktopPortal,
    /// X11 with xdotool/xtest.
    X11Xdotool,
    /// X11 with a native wrapper.
    X11Native,
    /// macOS with CGEvent/AX.
    MacCgEvent,
    /// macOS with NSPasteboard.
    MacPasteboard,
    /// Windows with SendInput.
    WindowsSendInput,
    /// Windows with the clipboard.
    WindowsClipboard,
}

/// The backends available in `env`, Wayland first, then X11, macOS, Windows.
pub open spec fn available_backends(env: EnvironmentProbe) -> Seq<Backend> {
    let wl = on_wayland(env);
    let x = on_x11(env);
    (if wl && env.xdg_desktop_portal_running { seq![Backend::WaylandXdgDesktopPortal] } else { seq![] })
    + (if wl && env.wlr_virtual_keyboard_available { seq![Backend::WaylandVirtualKeyboard] } else { seq![] })
    + (if x && env.xdotool_available { seq![Backend::X11Xdotool] } else { seq![] })
    + (if x { seq![Backend::X11Native] } else { seq![] })
    + (if env.target_os == TargetOs::MacOs { seq![Backend::MacCgEvent, Backend::MacPasteboard] } else { seq![] })
    + (if env.target_os == TargetOs::Windows { seq![Backend::WindowsSendInput, Backend::WindowsClipboard] } else { seq![] })
}

/// A Wayland or X11 backend.
pub open spec fn is_session_backend(b: Backend) -> bool {
    match b {
        Backend::WaylandXdgDesktopPortal | Backend::WaylandVirtualKeyboard | Backend::X11Xdotool
        | Backend::X11Native => true,
        _ => false,
    }
}

/// Some available backend is a Wayland or X11 one.
pub open spec fn has_session_backend(avail: Seq<Backend>) -> bool {
    exists|i: int| 0 <= i < avail.len() && #[trigger] is_session_backend(avail[i])
}

/// Whether some available backend is a Wayland or X11 one, which is what
/// the unified clipboard injector needs to be offered.
pub fn any_session_backend(avail: &Vec<Backend>) -> (r: bool)
    ensures
        r == has_session_backend(avail@),
{
    let mut i: usize = 0;
    while i < avail.len()
        invariant
            i <= avail@.len(),
            forall|k: int| 0 <= k < i ==> !is_session_backend(#[trigger] avail@[k]),
        decreases avail@.len() - i,
    {
        let session = match avail[i] {
            Backend::WaylandXdgDesktopPortal | Backend::WaylandVirtualKeyboard
            | Backend::X11Xdotool | Backend::X11Native => true,
            _ => false,
        };
        if session {
            assert(is_session_backend(avail@[i as int]));
            return true;
        }
        i += 1;
    }
    false
}

/// The order in which backends are preferred.
pub open spec fn preferred_order_spec() -> Seq<Backend> {
    seq![
        Backend::WaylandXdgDesktopPortal,
        Backend::WaylandVirtualKeyboard,
        Backend::X11Xdotool,
        Backend::X11Native,
        Backend::MacCgEvent,
        Backend::MacPasteboard,
        Backend::WindowsSendInput,
        Backend::WindowsClipboard,
    ]
}

/// The first element of `order` that `avail` contains.
pub open spec fn first_available(order: Seq<Backend>, avail: Seq<Backend>) -> Option<Backend>
    decreases order.len(),
{
    if order.len() == 0 {
        None
    } else if avail.contains(order[0]) {
        Some(order[0])
    } else {
        first_available(order.drop_first(), avail)
    }
}

/// Backend capability detector.
pub struct BackendDetector {
    _config: InjectionConfig,
}

impl BackendDetector {
    /// The configuration the detector was built with.
    pub closed spec fn spec_config(&self) -> InjectionConfig {
        self._config
    }

    /// A detector for the given configuration.
    pub fn new(config: InjectionConfig) -> (d: Self)
        ensures
            d.spec_config() == config,
    {
        BackendDetector { _config: config }
    }

    /// The backends available in `env`.
    pub fn detect_available_backends(&self, env: &EnvironmentProbe) -> (v: Vec<Backend>)
        ensures
            v@ == available_backends(*env),
    {
        let mut available: Vec<Backend> = Vec::new();
        let wl = env.is_wayland();
        let x = env.is_x11();
        if wl {
            if env.xdg_desktop_portal_running {
                available.push(Backend::WaylandXdgDesktopPortal);
            }
            if env.wlr_virtual_keyboard_available {
                available.push(Backend::WaylandVirtualKeyboard);
            }
        }
        if x {
            if env.xdotool_available {
                available.push(Backend::X11Xdotool);
            }
            available.push(Backend::X11Native);
        }
        if env.target_os == TargetOs::MacOs {
            available.push(Backend::MacCgEvent);
            available.push(Backend::MacPasteboard);
        }
        if env.target_os == TargetOs::Windows {
            available.push(Backend::WindowsSendInput);
            available.push(Backend::WindowsClipboard);
        }
        assert(available@ =~= available_backends(*env));
        available
    }

    /// The most preferred available backend, if any.
    pub fn get_preferred_backend(&self, env: &EnvironmentProbe) -> (b: Option<Backend>)
        ensures
            b == first_available(preferred_order_spec(), available_backends(*env)),
            env.target_os == TargetOs::Windows && !on_wayland(*env) && !on_x11(*env) ==> b
                == Some(Backend::WindowsSendInput),
            env.target_os == TargetOs::MacOs && !on_wayland(*env) && !on_x11(*env) ==> b
                == Some(Backend::MacCgEvent),
    {
        proof {
            lemma_input_simulation_preferred(available_backends(*env), *env);
        }
        let available = self.detect_available_backends(env);
        let order = Self::preferred_order();
        let mut i: usize = 0;
        assert(order@.skip(0) =~= order@);
        while i < order.len()
            invariant
                order@ == preferred_order_spec(),
                available@ == available_backends(*env),
                i <= order@.len(),
                first_available(order@, available@) == first_available(order@.skip(i as int), available@),
                env.target_os == TargetOs::Windows && !on_wayland(*env) && !on_x11(*env) ==> first_available(
                    preferred_order_spec(),
                    available_backends(*env),
                ) == Some(Backend::WindowsSendInput),
                env.target_os == TargetOs::MacOs && !on_wayland(*env) && !on_x11(*env) ==> first_available(
                    preferred_order_spec(),
                    available_backends(*env),
                ) == Some(Backend::MacCgEvent),
            decreases order@.len() - i,
        {
            let b = order[i];
            assert(order@.skip(i as int).drop_first() =~= order@.skip(i + 1));
            if contains_backend(&available, b) {
                return Some(b);
            }
            i += 1;
        }
        None
    }

    /// The preferred order of backends: Wayland portal, Wayland virtual
    /// keyboard, xdotool, native X11, then macOS and Windows.
    pub fn preferred_order() -> (v: Vec<Backend>)
        ensures
            v@ == preferred_order_spec(),
    {
        let v = vec![
            Backend::WaylandXdgDesktopPortal,
            Backend::WaylandVirtualKeyboard,
            Backend::X11Xdotool,
            Backend::X11Native,
            Backend::MacCgEvent,
            Backend::MacPasteboard,
            Backend::WindowsSendInput,
            Backend::WindowsClipboard,
        ];
        assert(v@ =~= preferred_order_spec());
        v
    }

    /// Whether the session runs on Wayland.
    pub fn is_wayland(&self, env: &EnvironmentProbe) -> (r: bool)
        ensures
            r == on_wayland(*env),
    {
        env.is_wayland()
    }

    /// Whether the session runs on X11.
    pub fn is_x11(&self, env: &EnvironmentProbe) -> (r: bool)
        ensures
            r == on_x11(*env),
    {
        env.is_x11()
    }

    /// Whether the program runs on macOS.
    pub fn is_macos(&self, env: &EnvironmentProbe) -> (r: bool)
        ensures
            r == (env.target_os == TargetOs::MacOs),
    {
        env.target_os == TargetOs::MacOs
    }

    /// Whether the program runs on Windows.
    pub fn is_windows(&self, env: &EnvironmentProbe) -> (r: bool)
        ensures
            r == (env.target_os == TargetOs::Windows),
    {
        env.target_os == TargetOs::Windows
    }
}

/// Whether `v` holds `b`.
pub fn contains_backend(v: &Vec<Backend>, b: Backend) -> (r: bool)
    ensures
        r == v@.contains(b),
{
    let mut i: usize = 0;
    while i < v.len()
        invariant
            i <= v@.len(),
            forall|k: int| 0 <= k < i ==> v@[k] != b,
        decreases v@.len() - i,
    {
        if v[i] == b {
            return true;
        }
        i += 1;
    }
    false
}

/// The preferred backend is one of the available ones, and some backend is
/// preferred whenever any is available.
/// Within each platform, input simulation is preferred to the clipboard:
/// where `SendInput` is available the clipboard backend of Windows is never
/// the preferred one, likewise CGEvent over the pasteboard on macOS; so a
/// Windows build with no display session prefers `SendInput` and a macOS
/// build with none prefers CGEvent.
pub proof fn lemma_input_simulation_preferred(avail: Seq<Backend>, env: EnvironmentProbe)
    ensures
        avail.contains(Backend::WindowsSendInput) ==> first_available(preferred_order_spec(), avail)
            != Some(Backend::WindowsClipboard),
        avail.contains(Backend::MacCgEvent) ==> first_available(preferred_order_spec(), avail)
            != Some(Backend::MacPasteboard),
        env.target_os == TargetOs::Windows && !on_wayland(env) && !on_x11(env) ==> first_available(
            preferred_order_spec(),
            available_backends(env),
        ) == Some(Backend::WindowsSendInput),
        env.target_os == TargetOs::MacOs && !on_wayland(env) && !on_x11(env) ==> first_available(
            preferred_order_spec(),
            available_backends(env),
        ) == Some(Backend::MacCgEvent),
{
    let p = preferred_order_spec();
    lemma_first_available_unroll(p, avail);
    if env.target_os == TargetOs::Windows && !on_wayland(env) && !on_x11(env) {
        let a = available_backends(env);
        assert(a =~= seq![Backend::WindowsSendInput, Backend::WindowsClipboard]);
        lemma_first_available_unroll(p, a);
        assert(a.contains(Backend::WindowsSendInput)) by {
            assert(a[0] == Backend::WindowsSendInput);
        }
        assert(!a.contains(Backend::WaylandXdgDesktopPortal) && !a.contains(Backend::WaylandVirtualKeyboard)
            && !a.contains(Backend::X11Xdotool) && !a.contains(Backend::X11Native)
            && !a.contains(Backend::MacCgEvent) && !a.contains(Backend::MacPasteboard));
    }
    if env.target_os == TargetOs::MacOs && !on_wayland(env) && !on_x11(env) {
        let a = available_backends(env);
        assert(a =~= seq![Backend::MacCgEvent, Backend::MacPasteboard]);
        lemma_first_available_unroll(p, a);
        assert(a.contains(Backend::MacCgEvent)) by {
            assert(a[0] == Backend::MacCgEvent);
        }
        assert(!a.contains(Backend::WaylandXdgDesktopPortal) && !a.contains(Backend::WaylandVirtualKeyboard)
            && !a.contains(Backend::X11Xdotool) && !a.contains(Backend::X11Native));
    }
}

/// `first_available` over the preferred order, spelled out position by
/// position.
proof fn lemma_first_available_unroll(p: Seq<Backend>, avail: Seq<Backend>)
    requires
        p == preferred_order_spec(),
    ensures
        first_available(p, avail) == (if avail.contains(p[0]) {
            Some(p[0])
        } else if avail.contains(p[1]) {
            Some(p[1])
        } else if avail.contains(p[2]) {
            Some(p[2])
        } else if avail.contains(p[3]) {
            Some(p[3])
        } else if avail.contains(p[4]) {
            Some(p[4])
        } else if avail.contains(p[5]) {
            Some(p[5])
        } else if avail.contains(p[6]) {
            Some(p[6])
        } else if avail.contains(p[7]) {
            Some(p[7])
        } else {
            None
        }),
{
    assert(p.drop_first() =~= p.subrange(1, 8));
    assert(p.subrange(1, 8).drop_first() =~= p.subrange(2, 8));
    assert(p.subrange(2, 8).drop_first() =~= p.subrange(3, 8));
    assert(p.subrange(3, 8).drop_first() =~= p.subrange(4, 8));
    assert(p.subrange(4, 8).drop_first() =~= p.subrange(5, 8));
    assert(p.subrange(5, 8).drop_first() =~= p.subrange(6, 8));
    assert(p.subrange(6, 8).drop_first() =~= p.subrange(7, 8));
    assert(p.subrange(7, 8).drop_first() =~= p.subrange(8, 8));
    reveal_with_fuel(first_available, 9);
}

pub proof fn lemma_preferred_is_available(env: EnvironmentProbe)
    ensures
        first_available(preferred_order_spec(), available_backends(env)) matches Some(b)
            ==> available_backends(env).contains(b),
        available_backends(env).len() > 0 ==> first_available(
            preferred_order_spec(),
            available_backends(env),
        ) is Some,
{
    let avail = available_backends(env);
    lemma_first_available_in(preferred_order_spec(), avail);
    if avail.len() > 0 {
        let b = avail[0];
        assert(avail.contains(b));
        assert(preferred_order_spec().contains(b)) by {
            match b {
                Backend::WaylandXdgDesktopPortal => assert(preferred_order_spec()[0] == b),
                Backend::WaylandVirtualKeyboard => assert(preferred_order_spec()[1] == b),
                Backend::X11Xdotool => assert(preferred_order_spec()[2] == b),
                Backend::X11Native => assert(preferred_order_spec()[3] == b),
                Backend::MacCgEvent => assert(preferred_order_spec()[4] == b),
                Backend::MacPasteboard => assert(preferred_order_spec()[5] == b),
                Backend::WindowsSendInput => assert(preferred_order_spec()[6] == b),
                Backend::WindowsClipboard => assert(preferred_order_spec()[7] == b),
            }
        }
        lemma_first_available_some(preferred_order_spec(), avail, b);
    }
}

proof fn lemma_first_available_in(order: Seq<Backend>, avail: Seq<Backend>)
    ensures
        first_available(order, avail) matches Some(b) ==> avail.contains(b) && order.contains(b),
    decreases order.len(),
{
    if order.len() > 0 && !avail.contains(order[0]) {
        lemma_first_available_in(order.drop_first(), avail);
        if let Some(b) = first_available(order.drop_first(), avail) {
            let k = choose|k: int| 0 <= k < order.drop_first().len() && order.drop_first()[k] == b;
            assert(order[k + 1] == b);
        }
    } else if order.len() > 0 {
        assert(order[0] == order[0]);
    }
}

proof fn lemma_first_available_some(order: Seq<Backend>, avail: Seq<Backend>, b: Backend)
    requires
        order.contains(b),
        avail.contains(b),
    ensures
        first_available(order, avail) is Some,
    decreases order.len(),
{
    if !avail.contains(order[0]) {
        let k = choose|k: int| 0 <= k < order.len() && order[k] == b;
        assert(k != 0);
        assert(order.drop_first()[k - 1] == b);
        lemma_first_available_some(order.drop_first(), avail, b);
    }
}

} // verus!
