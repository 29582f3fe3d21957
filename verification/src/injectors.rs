//! The injectors' own decisions: which paste action an AT-SPI element
//! offers, whether AT-SPI pastes or types, and the small injectors whose
//! behaviour is fixed (no-op, MKI, kdotool, ydotool). The system calls
//! themselves are made by the platform adapters.

use crate::logging::ascii_lower;
use crate::outcome::InjectionOutcome;
use crate::probe::BackendId;
use crate::text::{seq_contains, str_contains, to_lowercase, unicode_lowercase};
use crate::types::{effective_mode, InjectionConfig, InjectionError, InjectionMode, InjectionResult};
use vstd::prelude::*;
use vstd::string::StringExecFns;

verus! {

/// The synchronous part of an injector's interface: its name and a
/// description of its backend.
pub trait TextInjector {
    /// The backend name.
    fn backend_name(&self) -> &'static str;

    /// Backend-specific configuration, as (key, value) pairs.
    fn backend_info(&self) -> Vec<(&'static str, String)>;
}

/// Whether an AT-SPI action named `name` is a paste action: its lowercased
/// name contains "paste".
pub open spec fn is_paste_action(name: Seq<char>) -> bool {
    seq_contains(unicode_lowercase(name), "paste"@)
}

/// The position of the first paste action among the action names.
pub fn find_paste_action(names: &Vec<String>) -> (r: Option<usize>)
    ensures
        match r {
            Some(i) => i < names@.len() && is_paste_action(names@[i as int]@) && forall|j: int|
                0 <= j < i ==> !is_paste_action(#[trigger] names@[j]@),
            None => forall|j: int| 0 <= j < names@.len() ==> !is_paste_action(#[trigger] names@[j]@),
        },
{
    let n = names.len();
    let mut i: usize = 0;
    while i < n
        invariant
            n == names@.len(),
            i <= n,
            forall|j: int| 0 <= j < i ==> !is_paste_action(#[trigger] names@[j]@),
        decreases n - i,
    {
        let lower = to_lowercase(names[i].as_str());
        if str_contains(lower.as_str(), "paste") {
            return Some(i);
        }
        i += 1;
    }
    None
}

/// Whether the AT-SPI injector pastes a text of `text_bytes` bytes: as the
/// context's mode override says, or else as the configured mode decides.
pub fn atspi_use_paste(mode_override: Option<InjectionMode>, config: &InjectionConfig, text_bytes: usize) -> (r: bool)
    ensures
        r == match mode_override {
            Some(m) => m == InjectionMode::Paste,
            None => effective_mode(config.injection_mode@, text_bytes as nat, config.paste_chunk_chars)
                == InjectionMode::Paste,
        },
{
    match mode_override {
        Some(InjectionMode::Paste) => true,
        Some(InjectionMode::Keystroke) => false,
        None => crate::types::choose_injection_mode(config, text_bytes) == InjectionMode::Paste,
    }
}

/// A fallback injector that does nothing and always succeeds.
pub struct NoOpInjector {
    config: InjectionConfig,
}

impl NoOpInjector {
    /// A no-op injector.
    pub fn new(config: InjectionConfig) -> (i: Self)
        ensures
            i.spec_config() == config,
    {
        NoOpInjector { config }
    }

    pub closed spec fn spec_config(&self) -> InjectionConfig {
        self.config
    }

    /// The backend it stands for.
    pub fn backend_id(&self) -> (b: BackendId)
        ensures
            b == BackendId::Fallback,
    {
        BackendId::Fallback
    }

    /// Always available.
    pub fn is_available(&self) -> (r: bool)
        ensures
            r,
    {
        true
    }

    /// The outcome of a pretended injection that took `latency_ms`.
    pub fn outcome(&self, latency_ms: u32) -> (o: InjectionOutcome)
        ensures
            o.backend == BackendId::Fallback,
            o.latency_ms == latency_ms,
            !o.degraded,
    {
        InjectionOutcome { backend: self.backend_id(), latency_ms, degraded: false }
    }
}

/// Whether a device mode lets the group, or everyone, read and write.
pub open spec fn mode_grants_rw(mode: u32) -> bool {
    mode & 0o060u32 == 0o060u32 || mode & 0o006u32 == 0o006u32
}

/// Mouse-keyboard-input (uinput) injector.
pub struct MkiInjector {
    config: InjectionConfig,
    is_available: bool,
}

impl MkiInjector {
    pub closed spec fn spec_config(&self) -> InjectionConfig {
        self.config
    }

    pub closed spec fn spec_available(&self) -> bool {
        self.is_available
    }

    /// An MKI injector. It can be used when the user is in the `input`
    /// group and `/dev/uinput` (whose mode is given, when it exists) lets
    /// the group or everyone read and write.
    pub fn new(config: InjectionConfig, in_input_group: bool, uinput_mode: Option<u32>) -> (i: Self)
        ensures
            i.spec_config() == config,
            i.spec_available() == (in_input_group && (uinput_mode matches Some(m) && mode_grants_rw(m))),
    {
        let uinput_accessible = match uinput_mode {
            Some(mode) => (mode & 0o060) == 0o060 || (mode & 0o006) == 0o006,
            None => false,
        };
        MkiInjector { config, is_available: in_input_group && uinput_accessible }
    }

    /// Available when usable and allowed by the configuration.
    pub fn is_available(&self) -> (r: bool)
        ensures
            r == (self.spec_available() && self.spec_config().allow_mki),
    {
        self.is_available && self.config.allow_mki
    }

    /// An empty text needs nothing; otherwise MKI must be allowed, and then
    /// the synthetic keyboard is not built into this library.
    pub fn inject_text(&self, text: &str) -> (r: InjectionResult<()>)
        ensures
            text@.len() == 0 ==> r is Ok,
            text@.len() > 0 && !self.spec_config().allow_mki ==> (r matches Err(
                InjectionError::MethodNotAvailable(m),
            ) && m@ == "MKI not allowed"@),
            text@.len() > 0 && self.spec_config().allow_mki ==> (r matches Err(
                InjectionError::MethodUnavailable(m),
            ) && m@ == "MKI feature not enabled"@),
    {
        if text.is_empty() {
            return Ok(());
        }
        if !self.config.allow_mki {
            return Err(InjectionError::MethodNotAvailable(String::from_str("MKI not allowed")));
        }
        Err(InjectionError::MethodUnavailable(String::from_str("MKI feature not enabled")))
    }

    /// The paste trigger, which is not built into this library.
    pub fn trigger_paste(&self) -> (r: InjectionResult<()>)
        ensures
            r matches Err(InjectionError::MethodUnavailable(m)) && m@ == "MKI feature not enabled"@,
    {
        Err(InjectionError::MethodUnavailable(String::from_str("MKI feature not enabled")))
    }
}

impl TextInjector for MkiInjector {
    fn backend_name(&self) -> (s: &'static str)
        ensures
            s@ == "MKI"@,
    {
        "MKI"
    }

    fn backend_info(&self) -> (v: Vec<(&'static str, String)>)
        ensures
            v@.len() == 4,
            v@[0].0@ == "type"@ && v@[0].1@ == "keyboard"@,
            v@[1].0@ == "requires_permissions"@ && v@[1].1@ == "true"@,
            v@[2].0@ == "description"@ && v@[2].1@ == "Mouse-keyboard-input uinput backend"@,
            v@[3].0@ == "allowed"@ && v@[3].1@ == (if self.spec_config().allow_mki { "true"@ } else { "false"@ }),
    {
        let allowed = if self.config.allow_mki {
            String::from_str("true")
        } else {
            String::from_str("false")
        };
        vec![
            ("type", String::from_str("keyboard")),
            ("requires_permissions", String::from_str("true")),
            ("description", String::from_str("Mouse-keyboard-input uinput backend")),
            ("allowed", allowed),
        ]
    }
}

/// KDE window activation and focus assistance through kdotool.
pub struct KdotoolInjector {
    config: InjectionConfig,
    is_available: bool,
}

impl KdotoolInjector {
    pub closed spec fn spec_config(&self) -> InjectionConfig {
        self.config
    }

    pub closed spec fn spec_available(&self) -> bool {
        self.is_available
    }

    /// A kdotool injector; `kdotool_found` tells whether the binary is on
    /// the search path.
    pub fn new(config: InjectionConfig, kdotool_found: bool) -> (i: Self)
        ensures
            i.spec_config() == config,
            i.spec_available() == kdotool_found,
    {
        KdotoolInjector { config, is_available: kdotool_found }
    }

    /// Available when the binary is there and the configuration allows it.
    pub fn is_available(&self) -> (r: bool)
        ensures
            r == (self.spec_available() && self.spec_config().allow_kdotool),
    {
        self.is_available && self.config.allow_kdotool
    }

    /// kdotool does not inject text.
    pub fn inject_text(&self, text: &str) -> (r: InjectionResult<()>)
        ensures
            r matches Err(InjectionError::MethodUnavailable(m)) && m@
                == "Kdotool is only for window activation/focus assistance"@,
    {
        Err(InjectionError::MethodUnavailable(String::from_str("Kdotool is only for window activation/focus assistance")))
    }
}

impl TextInjector for KdotoolInjector {
    fn backend_name(&self) -> (s: &'static str)
        ensures
            s@ == "Kdotool"@,
    {
        "Kdotool"
    }

    fn backend_info(&self) -> (v: Vec<(&'static str, String)>)
        ensures
            v@.len() == 4,
            v@[0].0@ == "type"@ && v@[0].1@ == "window management"@,
            v@[1].0@ == "description"@ && v@[1].1@ == "Provides window activation and focus assistance using kdotool"@,
            v@[2].0@ == "platform"@ && v@[2].1@ == "KDE/X11"@,
            v@[3].0@ == "requires"@ && v@[3].1@ == "kdotool command line tool"@,
    {
        vec![
            ("type", String::from_str("window management")),
            ("description", String::from_str("Provides window activation and focus assistance using kdotool")),
            ("platform", String::from_str("KDE/X11")),
            ("requires", String::from_str("kdotool command line tool")),
        ]
    }
}

/// The ydotool injector of platforms where ydotool is not supported.
pub struct YdotoolInjector {
    config: InjectionConfig,
    platform: String,
}

impl YdotoolInjector {
    /// A ydotool injector. The name of the platform it runs on, which its
    /// backend information reports, is left empty; `on_platform` sets it.
    pub fn new(config: InjectionConfig) -> (i: Self)
        ensures
            i.spec_config() == config,
            i.spec_platform() == Seq::<char>::empty(),
    {
        YdotoolInjector { config, platform: String::new() }
    }

    /// A ydotool injector on the named platform (the build target's
    /// operating system, such as "linux"), which the caller reads.
    pub fn on_platform(config: InjectionConfig, platform: String) -> (i: Self)
        ensures
            i.spec_config() == config,
            i.spec_platform() == platform@,
    {
        YdotoolInjector { config, platform }
    }

    pub closed spec fn spec_config(&self) -> InjectionConfig {
        self.config
    }

    pub closed spec fn spec_platform(&self) -> Seq<char> {
        self.platform@
    }

    /// The ydotool runtime is not available here.
    pub fn ydotool_runtime_available() -> (r: bool)
        ensures
            !r,
    {
        false
    }

    /// Never available here.
    pub fn is_available(&self) -> (r: bool)
        ensures
            !r,
    {
        false
    }

    /// Injection is not available here.
    pub fn inject_text(&self, text: &str) -> (r: InjectionResult<()>)
        ensures
            r matches Err(InjectionError::MethodUnavailable(m)) && m@ == "ydotool is not available on this platform"@,
    {
        Err(InjectionError::MethodUnavailable(String::from_str("ydotool is not available on this platform")))
    }
}

impl TextInjector for YdotoolInjector {
    fn backend_name(&self) -> (s: &'static str)
        ensures
            s@ == "ydotool"@,
    {
        "ydotool"
    }

    fn backend_info(&self) -> (v: Vec<(&'static str, String)>)
        ensures
            v@.len() == 1,
            v@[0].0@ == "platform"@ && v@[0].1@ == self.spec_platform(),
    {
        vec![("platform", self.platform.clone())]
    }
}


/// `s` with ASCII capitals lowercased.
pub open spec fn ascii_lowercase(s: Seq<char>) -> Seq<char> {
    s.map_values(|c: char| ascii_lower(c))
}

/// `str::to_ascii_lowercase`.
pub fn to_ascii_lowercase(s: &str) -> (r: String)
    ensures
        r@ == ascii_lowercase(s@),
{
    let v = crate::text::chars_of(s);
    let mut out: Vec<char> = Vec::new();
    let mut i: usize = 0;
    while i < v.len()
        invariant
            v@ == s@,
            i <= v@.len(),
            out@ == ascii_lowercase(v@.take(i as int)),
        decreases v@.len() - i,
    {
        let c = v[i];
        let l = if 'A' <= c && c <= 'Z' {
            ((c as u8) + 32) as char
        } else {
            c
        };
        proof {
            if 'A' <= c && c <= 'Z' {
                assert((c as u8) as u32 == c as u32);
            }
        }
        out.push(l);
        proof {
            assert(ascii_lowercase(v@.take(i + 1)) =~= ascii_lowercase(v@.take(i as int)).push(ascii_lower(c)));
        }
        i += 1;
    }
    proof {
        assert(v@.take(v@.len() as int) =~= v@);
    }
    crate::text::string_from_chars(&out)
}

/// Whether an action, by name or description, is a paste action (ASCII
/// case-insensitively).
pub open spec fn is_paste_named(name: Seq<char>, description: Seq<char>) -> bool {
    seq_contains(ascii_lowercase(name), "paste"@) || seq_contains(ascii_lowercase(description), "paste"@)
}

/// The position of the first action whose name or description mentions
/// "paste", among (name, description) pairs.
pub fn find_paste_action_described(actions: &Vec<(String, String)>) -> (r: Option<usize>)
    ensures
        match r {
            Some(i) => i < actions@.len() && is_paste_named(actions@[i as int].0@, actions@[i as int].1@) && forall|j: int|
                0 <= j < i ==> !is_paste_named(#[trigger] actions@[j].0@, actions@[j].1@),
            None => forall|j: int| 0 <= j < actions@.len() ==> !is_paste_named(#[trigger] actions@[j].0@, actions@[j].1@),
        },
{
    let n = actions.len();
    let mut i: usize = 0;
    while i < n
        invariant
            n == actions@.len(),
            i <= n,
            forall|j: int| 0 <= j < i ==> !is_paste_named(#[trigger] actions@[j].0@, actions@[j].1@),
        decreases n - i,
    {
        let name = to_ascii_lowercase(actions[i].0.as_str());
        let description = to_ascii_lowercase(actions[i].1.as_str());
        if str_contains(name.as_str(), "paste") || str_contains(description.as_str(), "paste") {
            return Some(i);
        }
        i += 1;
    }
    None
}

} // verus!
