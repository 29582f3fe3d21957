//! Pre-warmed injection resources with a time-to-live: the cache of each
//! resource, how the results of one pre-warming round update the caches,
//! and what each injection method needs pre-warmed. The pre-warming itself
//! (AT-SPI, clipboard, portal and keyboard probes) is done by the caller.

use crate::clipboard::ClipboardBackup;
use crate::orchestrator::AtspiContext;
use crate::time::{elapsed_millis, instant_now};
use crate::types::InjectionMethod;
use std::time::Instant;
use vstd::prelude::*;
use vstd::string::StringExecFns;

verus! {

/// How long pre-warmed data stays fresh.
pub const CACHE_TTL_MS: u64 = 3000;

/// Budget of one pre-warming step.
pub const STEP_TIMEOUT_MS: u64 = 50;

/// Data cached `elapsed_ms` ago is still within the time-to-live.
pub open spec fn within_ttl(elapsed_ms: u64) -> bool {
    elapsed_ms < CACHE_TTL_MS
}

/// Pre-warmed data with the time it was cached.
#[derive(Debug)]
pub struct CachedData<T> {
    data: Option<T>,
    cached_at: Instant,
}

impl<T> CachedData<T> {
    pub closed spec fn spec_data(&self) -> Option<T> {
        self.data
    }

    /// An empty cache.
    pub fn new() -> (c: Self)
        ensures
            c.spec_data() is None,
    {
        CachedData { data: None, cached_at: instant_now() }
    }

    /// Data cached `elapsed_ms` ago is there and fresh.
    pub open spec fn fresh_after(&self, elapsed_ms: u64) -> bool {
        self.spec_data() is Some && elapsed_ms < CACHE_TTL_MS
    }

    /// Cached data expires once the time-to-live has passed, and data that
    /// is fresh at some age was fresh at every younger age.
    pub proof fn lemma_freshness_expires(&self, elapsed_ms: u64, younger_ms: u64)
        requires
            younger_ms <= elapsed_ms,
        ensures
            self.fresh_after(elapsed_ms) ==> self.fresh_after(younger_ms),
            elapsed_ms >= CACHE_TTL_MS ==> !self.fresh_after(elapsed_ms),
            self.spec_data() is None ==> !self.fresh_after(elapsed_ms),
    {
    }

    /// Whether data cached `elapsed_ms` ago is fresh.
    pub fn is_valid_after(&self, elapsed_ms: u64) -> (r: bool)
        ensures
            r == self.fresh_after(elapsed_ms),
    {
        self.data.is_some() && elapsed_ms < CACHE_TTL_MS
    }

    /// Milliseconds since the data was cached (read from the clock).
    pub fn age_ms(&self) -> u64 {
        elapsed_millis(&self.cached_at)
    }

    /// Whether the cache holds data younger than the time-to-live (read
    /// from the clock).
    pub fn is_valid(&self) -> (r: bool)
        ensures
            exists|elapsed_ms: u64| r == #[trigger] self.fresh_after(elapsed_ms),
    {
        let elapsed = self.age_ms();
        self.is_valid_after(elapsed)
    }

    /// Caches `data` as of now.
    pub fn update(&mut self, data: T)
        ensures
            final(self).spec_data() == Some(data),
    {
        self.data = Some(data);
        self.cached_at = instant_now();
    }

    /// The data cached `elapsed_ms` ago, when it is still fresh.
    pub fn get_after(&self, elapsed_ms: u64) -> (r: Option<&T>)
        ensures
            r is Some == self.fresh_after(elapsed_ms),
            r matches Some(d) ==> self.spec_data() == Some(*d),
    {
        if self.is_valid_after(elapsed_ms) {
            self.data.as_ref()
        } else {
            None
        }
    }

    /// The cached data while it is fresh (read from the clock).
    pub fn get(&self) -> (r: Option<&T>)
        ensures
            r matches Some(d) ==> self.spec_data() == Some(*d),
            exists|elapsed_ms: u64| (r is Some) == #[trigger] self.fresh_after(elapsed_ms),
    {
        let elapsed = self.age_ms();
        self.get_after(elapsed)
    }
}

/// Pre-warmed AT-SPI data.
#[derive(Debug, Clone)]
pub struct AtspiData {
    /// Connection indicator.
    pub connection: Option<String>,
    /// Focused node indicator.
    pub focused_node: Option<String>,
    pub target_app: Option<String>,
    pub window_id: Option<String>,
    /// The focused element takes text.
    pub has_editable_text: bool,
}

/// The AT-SPI context that pre-warmed data gives: its target application
/// (which also stands for the focused node) and its window.
pub open spec fn context_of(d: AtspiData) -> AtspiContext {
    AtspiContext { focused_node: d.target_app, target_app: d.target_app, window_id: d.window_id }
}

/// The context with nothing known.
pub open spec fn empty_context() -> AtspiContext {
    AtspiContext { focused_node: None, target_app: None, window_id: None }
}

/// A clipboard snapshot.
#[derive(Debug, Clone)]
pub struct ClipboardData {
    pub content: Option<Vec<u8>>,
    pub mime_type: Option<String>,
}

impl ClipboardData {
    /// The snapshot as a clipboard backup, when it has both content and a
    /// MIME type.
    pub fn into_backup(self) -> (b: Option<ClipboardBackup>)
        ensures
            (self.content is Some && self.mime_type is Some) == (b is Some),
            b matches Some(bk) ==> bk.content@ == self.content.unwrap()@ && bk.mime_type@
                == self.mime_type.unwrap()@,
    {
        match (self.content, self.mime_type) {
            (Some(content), Some(mime_type)) => Some(ClipboardBackup::new(content, mime_type)),
            _ => None,
        }
    }
}

/// Portal session data.
#[derive(Debug, Clone, Copy)]
pub struct PortalData {
    pub session_available: bool,
    pub remote_desktop_connected: bool,
}

/// Virtual keyboard data.
#[derive(Debug, Clone)]
pub struct VirtualKeyboardData {
    pub connected: bool,
    pub handle: Option<String>,
}

/// The portal data for a portal that is, or is not, on the session bus:
/// a remote desktop connection is assumed exactly when it is.
pub fn portal_data_for(session_available: bool) -> (p: PortalData)
    ensures
        p.session_available == session_available,
        p.remote_desktop_connected == session_available,
{
    PortalData { session_available, remote_desktop_connected: session_available }
}

/// The virtual keyboard data: connected with the Hyprland handle on
/// Hyprland, not connected elsewhere.
pub fn virtual_keyboard_for(hyprland: bool) -> (v: VirtualKeyboardData)
    ensures
        v.connected == hyprland,
        hyprland ==> (v.handle matches Some(h) && h@ == "hyprland-vkbd"@),
        !hyprland ==> v.handle is None,
{
    if !hyprland {
        return VirtualKeyboardData { connected: false, handle: None };
    }
    VirtualKeyboardData { connected: true, handle: Some(String::from_str("hyprland-vkbd")) }
}

/// The MIME type named by a short clipboard type name.
pub open spec fn mime_spec(mime: Seq<char>) -> Seq<char> {
    if mime == "text"@ {
        "text/plain"@
    } else if mime == "image"@ {
        "image/png"@
    } else {
        mime
    }
}

/// Expands "text" and "image" to their MIME types; anything else is kept.
pub fn mime_to_string(mime: &str) -> (s: String)
    ensures
        s@ == mime_spec(mime@),
{
    if crate::text::str_eq(mime, "text") {
        String::from_str("text/plain")
    } else if crate::text::str_eq(mime, "image") {
        String::from_str("image/png")
    } else {
        String::from_str(mime)
    }
}

/// Which resources to pre-warm before an injection with a method.
#[derive(Debug, Clone, Copy, PartialEq, Eq, Structural)]
pub struct PrewarmPlan {
    pub atspi: bool,
    pub clipboard: bool,
    pub event_listener: bool,
}

/// AT-SPI data for AT-SPI insertion, a clipboard snapshot for the clipboard
/// paste, and the confirmation listener for every method.
pub fn prewarm_plan_for(method: InjectionMethod) -> (p: PrewarmPlan)
    ensures
        p.atspi == (method == InjectionMethod::AtspiInsert),
        p.clipboard == (method == InjectionMethod::ClipboardPasteFallback),
        p.event_listener,
{
    match method {
        InjectionMethod::AtspiInsert => PrewarmPlan { atspi: true, clipboard: false, event_listener: true },
        InjectionMethod::ClipboardPasteFallback => PrewarmPlan { atspi: false, clipboard: true, event_listener: true },
        _ => PrewarmPlan { atspi: false, clipboard: false, event_listener: true },
    }
}

/// Which steps of a pre-warming round succeeded.
#[derive(Debug, Clone, Copy, PartialEq, Eq, Structural)]
pub struct PrewarmSummary {
    pub atspi: bool,
    pub event_listener: bool,
    pub clipboard: bool,
    pub portal: bool,
    pub virtual_keyboard: bool,
}

/// The pre-warmed resources.
pub struct PrewarmController {
    atspi_data: CachedData<AtspiData>,
    clipboard_data: CachedData<ClipboardData>,
    portal_data: CachedData<PortalData>,
    virtual_keyboard_data: CachedData<VirtualKeyboardData>,
    event_listener_armed: bool,
}

impl PrewarmController {
    pub closed spec fn spec_atspi(&self) -> Option<AtspiData> {
        self.atspi_data.spec_data()
    }

    pub closed spec fn spec_clipboard(&self) -> Option<ClipboardData> {
        self.clipboard_data.spec_data()
    }

    pub closed spec fn spec_portal(&self) -> Option<PortalData> {
        self.portal_data.spec_data()
    }

    pub closed spec fn spec_virtual_keyboard(&self) -> Option<VirtualKeyboardData> {
        self.virtual_keyboard_data.spec_data()
    }

    pub closed spec fn spec_armed(&self) -> bool {
        self.event_listener_armed
    }

    /// Nothing pre-warmed, the listener not armed.
    pub fn new() -> (c: Self)
        ensures
            c.spec_atspi() is None,
            c.spec_clipboard() is None,
            c.spec_portal() is None,
            c.spec_virtual_keyboard() is None,
            !c.spec_armed(),
    {
        PrewarmController {
            atspi_data: CachedData::new(),
            clipboard_data: CachedData::new(),
            portal_data: CachedData::new(),
            virtual_keyboard_data: CachedData::new(),
            event_listener_armed: false,
        }
    }

    /// The AT-SPI context from AT-SPI data pre-warmed `elapsed_ms` ago: its
    /// target application (which also stands for the focused node) and
    /// window while the data is fresh, otherwise an empty context.
    pub fn get_atspi_context_after(&self, elapsed_ms: u64) -> (c: AtspiContext)
        ensures
            c == (match self.spec_atspi() {
                Some(d) => if elapsed_ms < CACHE_TTL_MS { context_of(d) } else { empty_context() },
                None => empty_context(),
            }),
    {
        match self.atspi_data.get_after(elapsed_ms) {
            Some(data) => AtspiContext {
                focused_node: crate::types::clone_opt_string(&data.target_app),
                target_app: crate::types::clone_opt_string(&data.target_app),
                window_id: crate::types::clone_opt_string(&data.window_id),
            },
            None => AtspiContext { focused_node: None, target_app: None, window_id: None },
        }
    }

    /// The AT-SPI context from fresh pre-warmed data, or an empty one (the
    /// data's age read from the clock).
    pub fn get_atspi_context(&self) -> (c: AtspiContext)
        ensures
            exists|elapsed_ms: u64| c == (match self.spec_atspi() {
                Some(d) => if #[trigger] within_ttl(elapsed_ms) { context_of(d) } else { empty_context() },
                None => empty_context(),
            }),
            c == empty_context() || (self.spec_atspi() matches Some(d) && c == context_of(d)),
    {
        let elapsed = self.atspi_data.age_ms();
        let c = self.get_atspi_context_after(elapsed);
        assert(within_ttl(elapsed) == (elapsed < CACHE_TTL_MS));
        c
    }

    /// Whether the confirmation listener is armed.
    pub fn is_event_listener_armed(&self) -> (r: bool)
        ensures
            r == self.spec_armed(),
    {
        self.event_listener_armed
    }

    /// Marks the confirmation listener as armed.
    pub fn arm_event_listener(&mut self)
        ensures
            final(self).spec_armed(),
            final(self).spec_atspi() == old(self).spec_atspi(),
            final(self).spec_clipboard() == old(self).spec_clipboard(),
            final(self).spec_portal() == old(self).spec_portal(),
            final(self).spec_virtual_keyboard() == old(self).spec_virtual_keyboard(),
    {
        self.event_listener_armed = true;
    }

    /// The clipboard data pre-warmed `elapsed_ms` ago, while it is fresh.
    pub fn get_clipboard_data_after(&self, elapsed_ms: u64) -> (r: Option<&ClipboardData>)
        ensures
            r is Some == (self.spec_clipboard() is Some && elapsed_ms < CACHE_TTL_MS),
            r matches Some(d) ==> self.spec_clipboard() == Some(*d),
    {
        self.clipboard_data.get_after(elapsed_ms)
    }

    /// Fresh clipboard data, if any (its age read from the clock).
    pub fn get_clipboard_data(&self) -> (r: Option<&ClipboardData>)
        ensures
            exists|elapsed_ms: u64| (r is Some) == (self.spec_clipboard() is Some && #[trigger] within_ttl(elapsed_ms)),
            r matches Some(d) ==> self.spec_clipboard() == Some(*d),
    {
        let elapsed = self.clipboard_data.age_ms();
        let r = self.get_clipboard_data_after(elapsed);
        assert(within_ttl(elapsed) == (elapsed < CACHE_TTL_MS));
        r
    }

    /// The portal data pre-warmed `elapsed_ms` ago, while it is fresh.
    pub fn get_portal_status_after(&self, elapsed_ms: u64) -> (r: Option<&PortalData>)
        ensures
            r is Some == (self.spec_portal() is Some && elapsed_ms < CACHE_TTL_MS),
            r matches Some(d) ==> self.spec_portal() == Some(*d),
    {
        self.portal_data.get_after(elapsed_ms)
    }

    /// Fresh portal data, if any (its age read from the clock).
    pub fn get_portal_status(&self) -> (r: Option<&PortalData>)
        ensures
            exists|elapsed_ms: u64| (r is Some) == (self.spec_portal() is Some && #[trigger] within_ttl(elapsed_ms)),
            r matches Some(d) ==> self.spec_portal() == Some(*d),
    {
        let elapsed = self.portal_data.age_ms();
        let r = self.get_portal_status_after(elapsed);
        assert(within_ttl(elapsed) == (elapsed < CACHE_TTL_MS));
        r
    }

    /// The virtual keyboard data pre-warmed `elapsed_ms` ago, while it is fresh.
    pub fn get_virtual_keyboard_status_after(&self, elapsed_ms: u64) -> (r: Option<&VirtualKeyboardData>)
        ensures
            r is Some == (self.spec_virtual_keyboard() is Some && elapsed_ms < CACHE_TTL_MS),
            r matches Some(d) ==> self.spec_virtual_keyboard() == Some(*d),
    {
        self.virtual_keyboard_data.get_after(elapsed_ms)
    }

    /// Fresh virtual keyboard data, if any (its age read from the clock).
    pub fn get_virtual_keyboard_status(&self) -> (r: Option<&VirtualKeyboardData>)
        ensures
            exists|elapsed_ms: u64| (r is Some) == (self.spec_virtual_keyboard() is Some && #[trigger] within_ttl(elapsed_ms)),
            r matches Some(d) ==> self.spec_virtual_keyboard() == Some(*d),
    {
        let elapsed = self.virtual_keyboard_data.age_ms();
        let r = self.get_virtual_keyboard_status_after(elapsed);
        assert(within_ttl(elapsed) == (elapsed < CACHE_TTL_MS));
        r
    }

    /// Whether some resource is not fresh, given how long ago each was
    /// pre-warmed.
    pub fn is_any_data_expired_after(&self, atspi_ms: u64, clipboard_ms: u64, portal_ms: u64, keyboard_ms: u64) -> (r: bool)
        ensures
            r == !(self.spec_atspi() is Some && atspi_ms < CACHE_TTL_MS && self.spec_clipboard() is Some
                && clipboard_ms < CACHE_TTL_MS && self.spec_portal() is Some && portal_ms < CACHE_TTL_MS
                && self.spec_virtual_keyboard() is Some && keyboard_ms < CACHE_TTL_MS),
    {
        !self.atspi_data.is_valid_after(atspi_ms) || !self.clipboard_data.is_valid_after(clipboard_ms)
            || !self.portal_data.is_valid_after(portal_ms) || !self.virtual_keyboard_data.is_valid_after(keyboard_ms)
    }

    /// Whether some resource is not fresh (each age read from the clock).
    pub fn is_any_data_expired(&self) -> (r: bool)
        ensures
            exists|a: u64, c: u64, p: u64, k: u64| r == !(#[trigger] within_ttl(a) && self.spec_atspi() is Some
                && #[trigger] within_ttl(c) && self.spec_clipboard() is Some
                && #[trigger] within_ttl(p) && self.spec_portal() is Some
                && #[trigger] within_ttl(k) && self.spec_virtual_keyboard() is Some),
            (self.spec_atspi() is None || self.spec_clipboard() is None || self.spec_portal() is None
                || self.spec_virtual_keyboard() is None) ==> r,
    {
        let a = self.atspi_data.age_ms();
        let c = self.clipboard_data.age_ms();
        let p = self.portal_data.age_ms();
        let k = self.virtual_keyboard_data.age_ms();
        let r = self.is_any_data_expired_after(a, c, p, k);
        assert(within_ttl(a) == (a < CACHE_TTL_MS) && within_ttl(c) == (c < CACHE_TTL_MS)
            && within_ttl(p) == (p < CACHE_TTL_MS) && within_ttl(k) == (k < CACHE_TTL_MS));
        r
    }

    /// Takes in the results of one pre-warming round: each successful step
    /// refreshes its cache, a failed one leaves it as it was; the listener
    /// is armed when its step succeeded. Returns which steps succeeded.
    pub fn apply_results(
        &mut self,
        atspi: Result<AtspiData, String>,
        event_listener: Result<bool, String>,
        clipboard: Result<ClipboardData, String>,
        portal: Result<PortalData, String>,
        virtual_keyboard: Result<VirtualKeyboardData, String>,
    ) -> (s: PrewarmSummary)
        ensures
            s.atspi == atspi is Ok,
            s.event_listener == event_listener is Ok,
            s.clipboard == clipboard is Ok,
            s.portal == portal is Ok,
            s.virtual_keyboard == virtual_keyboard is Ok,
            final(self).spec_atspi() == match atspi {
                Ok(d) => Some(d),
                Err(_) => old(self).spec_atspi(),
            },
            final(self).spec_clipboard() == match clipboard {
                Ok(d) => Some(d),
                Err(_) => old(self).spec_clipboard(),
            },
            final(self).spec_portal() == match portal {
                Ok(d) => Some(d),
                Err(_) => old(self).spec_portal(),
            },
            final(self).spec_virtual_keyboard() == match virtual_keyboard {
                Ok(d) => Some(d),
                Err(_) => old(self).spec_virtual_keyboard(),
            },
            final(self).spec_armed() == (old(self).spec_armed() || event_listener is Ok),
    {
        let summary = PrewarmSummary {
            atspi: atspi.is_ok(),
            event_listener: event_listener.is_ok(),
            clipboard: clipboard.is_ok(),
            portal: portal.is_ok(),
            virtual_keyboard: virtual_keyboard.is_ok(),
        };
        if let Ok(d) = atspi {
            self.atspi_data.update(d);
        }
        if event_listener.is_ok() {
            self.event_listener_armed = true;
        }
        if let Ok(d) = clipboard {
            self.clipboard_data.update(d);
        }
        if let Ok(d) = portal {
            self.portal_data.update(d);
        }
        if let Ok(d) = virtual_keyboard {
            self.virtual_keyboard_data.update(d);
        }
        summary
    }
}

} // verus!
