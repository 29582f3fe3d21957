//! The strategy orchestrator: desktop environment detection, the strategy
//! order of each environment, and the fast-fail loop that tries each
//! strategy under strict budgets (the caller runs the injector and the
//! confirmation and reports back).

use crate::confirm::ConfirmationResult;
use crate::env::{on_wayland, on_x11, EnvironmentProbe, TargetOs};
use crate::text::{seq_contains, str_contains, to_lowercase, unicode_lowercase};
use crate::types::{InjectionConfig, InjectionError, InjectionMethod, InjectionResult};
use vstd::prelude::*;
use vstd::string::StringExecFns;

verus! {

/// Context for AT-SPI injection operations.
#[derive(Debug, Clone)]
pub struct AtspiContext {
    /// Pre-warmed path of the focused node.
    pub focused_node: Option<String>,
    /// Target application identifier.
    pub target_app: Option<String>,
    /// Window identifier.
    pub window_id: Option<String>,
}

impl Default for AtspiContext {
    fn default() -> (c: Self)
        ensures
            c.focused_node is None,
            c.target_app is None,
            c.window_id is None,
    {
        AtspiContext { focused_node: None, target_app: None, window_id: None }
    }
}

/// Desktop environment types.
#[derive(Debug, Clone, Copy, PartialEq, Eq, Structural)]
pub enum DesktopEnvironment {
    KdeWayland,
    KdeX11,
    Hyprland,
    GnomeWayland,
    GnomeX11,
    OtherWayland,
    OtherX11,
    Windows,
    MacOS,
    Unknown,
}

/// The display name of a desktop environment.
pub open spec fn desktop_label(d: DesktopEnvironment) -> Seq<char> {
    match d {
        DesktopEnvironment::KdeWayland => "KDE/Wayland"@,
        DesktopEnvironment::KdeX11 => "KDE/X11"@,
        DesktopEnvironment::Hyprland => "Hyprland"@,
        DesktopEnvironment::GnomeWayland => "GNOME/Wayland"@,
        DesktopEnvironment::GnomeX11 => "GNOME/X11"@,
        DesktopEnvironment::OtherWayland => "Other/Wayland"@,
        DesktopEnvironment::OtherX11 => "Other/X11"@,
        DesktopEnvironment::Windows => "Windows"@,
        DesktopEnvironment::MacOS => "macOS"@,
        DesktopEnvironment::Unknown => "Unknown"@,
    }
}

impl DesktopEnvironment {
    /// The display name, as the `Display` text of the environment.
    pub fn label(&self) -> (s: String)
        ensures
            s@ == desktop_label(*self),
    {
        match self {
            DesktopEnvironment::KdeWayland => String::from_str("KDE/Wayland"),
            DesktopEnvironment::KdeX11 => String::from_str("KDE/X11"),
            DesktopEnvironment::Hyprland => String::from_str("Hyprland"),
            DesktopEnvironment::GnomeWayland => String::from_str("GNOME/Wayland"),
            DesktopEnvironment::GnomeX11 => String::from_str("GNOME/X11"),
            DesktopEnvironment::OtherWayland => String::from_str("Other/Wayland"),
            DesktopEnvironment::OtherX11 => String::from_str("Other/X11"),
            DesktopEnvironment::Windows => String::from_str("Windows"),
            DesktopEnvironment::MacOS => String::from_str("macOS"),
            DesktopEnvironment::Unknown => String::from_str("Unknown"),
        }
    }
}

/// The lowercased `XDG_CURRENT_DESKTOP` (empty when unset).
pub open spec fn desktop_name_lower(env: EnvironmentProbe) -> Seq<char> {
    match env.xdg_current_desktop {
        Some(d) => unicode_lowercase(d@),
        None => unicode_lowercase(Seq::empty()),
    }
}

/// The desktop environment of `env`: the build platform first, then the
/// session type, then the desktop (KDE by name or `KDE_SESSION_VERSION`,
/// Hyprland by its instance signature, GNOME by a name holding "gnome" or
/// "ubuntu").
pub open spec fn desktop_of(env: EnvironmentProbe) -> DesktopEnvironment {
    let desktop = desktop_name_lower(env);
    let kde = seq_contains(desktop, "kde"@) || env.kde_session_version;
    let gnome = seq_contains(desktop, "gnome"@) || seq_contains(desktop, "ubuntu"@);
    let hyprland = env.hyprland_instance_signature;
    if env.target_os == TargetOs::Windows {
        DesktopEnvironment::Windows
    } else if env.target_os == TargetOs::MacOs {
        DesktopEnvironment::MacOS
    } else if on_wayland(env) {
        if kde {
            DesktopEnvironment::KdeWayland
        } else if hyprland {
            DesktopEnvironment::Hyprland
        } else if gnome {
            DesktopEnvironment::GnomeWayland
        } else {
            DesktopEnvironment::OtherWayland
        }
    } else if on_x11(env) {
        if kde {
            DesktopEnvironment::KdeX11
        } else if gnome {
            DesktopEnvironment::GnomeX11
        } else {
            DesktopEnvironment::OtherX11
        }
    } else {
        DesktopEnvironment::Unknown
    }
}

/// How the desktop is told apart, case by case. On Linux and other Unix
/// builds a Wayland session is KDE when the desktop name holds "kde" or
/// `KDE_SESSION_VERSION` is set, else Hyprland when its signature is set,
/// else GNOME when the name holds "gnome" or "ubuntu", else another Wayland
/// desktop; a session that is not Wayland but X11 is told apart the same way
/// without Hyprland; a session that is neither is unknown. Windows and macOS
/// builds are recognised by the build target alone.
pub proof fn lemma_desktop_classification(env: EnvironmentProbe)
    ensures
        ({
            let name = desktop_name_lower(env);
            let kde = seq_contains(name, "kde"@) || env.kde_session_version;
            let gnome = seq_contains(name, "gnome"@) || seq_contains(name, "ubuntu"@);
            let hypr = env.hyprland_instance_signature;
            let unix = env.target_os != TargetOs::Windows && env.target_os != TargetOs::MacOs;
            let d = desktop_of(env);
            &&& env.target_os == TargetOs::Windows ==> d == DesktopEnvironment::Windows
            &&& env.target_os == TargetOs::MacOs ==> d == DesktopEnvironment::MacOS
            &&& unix && on_wayland(env) && kde ==> d == DesktopEnvironment::KdeWayland
            &&& unix && on_wayland(env) && !kde && hypr ==> d == DesktopEnvironment::Hyprland
            &&& unix && on_wayland(env) && !kde && !hypr && gnome ==> d == DesktopEnvironment::GnomeWayland
            &&& unix && on_wayland(env) && !kde && !hypr && !gnome ==> d == DesktopEnvironment::OtherWayland
            &&& unix && !on_wayland(env) && on_x11(env) && kde ==> d == DesktopEnvironment::KdeX11
            &&& unix && !on_wayland(env) && on_x11(env) && !kde && gnome ==> d == DesktopEnvironment::GnomeX11
            &&& unix && !on_wayland(env) && on_x11(env) && !kde && !gnome ==> d == DesktopEnvironment::OtherX11
            &&& unix && !on_wayland(env) && !on_x11(env) ==> d == DesktopEnvironment::Unknown
        }),
{
}

/// The strategies of an environment, in order: the clipboard paste alone on
/// Windows, AT-SPI then the clipboard paste everywhere else.
pub open spec fn strategy_order_spec(d: DesktopEnvironment) -> Seq<InjectionMethod> {
    if d == DesktopEnvironment::Windows {
        seq![InjectionMethod::ClipboardPasteFallback]
    } else {
        seq![InjectionMethod::AtspiInsert, InjectionMethod::ClipboardPasteFallback]
    }
}

/// The fast-fail loop tries only strategies it can run: the strategy found
/// by searching from position `i` is runnable, and every strategy passed
/// over on the way is not.
pub proof fn lemma_next_runnable_sound(order: Seq<InjectionMethod>, i: int, has_atspi: bool)
    requires
        0 <= i <= order.len(),
    ensures
        ({
            let k = next_runnable(order, i, has_atspi);
            &&& i <= k <= order.len()
            &&& k < order.len() ==> strategy_runnable(order[k], has_atspi)
            &&& forall|j: int| i <= j < k ==> !strategy_runnable(#[trigger] order[j], has_atspi)
        }),
    decreases order.len() - i,
{
    if i < order.len() && !strategy_runnable(order[i], has_atspi) {
        lemma_next_runnable_sound(order, i + 1, has_atspi);
        let k = next_runnable(order, i + 1, has_atspi);
        assert forall|j: int| i <= j < k implies !strategy_runnable(#[trigger] order[j], has_atspi) by {
            if j > i {
                assert(i + 1 <= j < k);
            }
        }
    }
}

/// Every environment has a strategy, and the clipboard paste is always the
/// last one tried.
pub proof fn lemma_strategy_order_ends_with_paste(d: DesktopEnvironment)
    ensures
        strategy_order_spec(d).len() > 0,
        strategy_order_spec(d).last() == InjectionMethod::ClipboardPasteFallback,
{
}

/// Budget of one strategy stage.
pub const STAGE_BUDGET_MS: u64 = 50;

/// Budget of the confirmation after a stage.
pub const CONFIRM_BUDGET_MS: u64 = 75;

/// A strategy that the fast-fail loop can run: AT-SPI insert and the
/// clipboard paste, both through the AT-SPI injector when there is one.
pub open spec fn strategy_runnable(m: InjectionMethod, has_atspi: bool) -> bool {
    has_atspi && (m == InjectionMethod::AtspiInsert || m == InjectionMethod::ClipboardPasteFallback)
}

/// The first position from `i` on whose strategy is runnable, or the length.
pub open spec fn next_runnable(order: Seq<InjectionMethod>, i: int, has_atspi: bool) -> int
    decreases order.len() - i,
{
    if i >= order.len() || i < 0 {
        order.len() as int
    } else if strategy_runnable(order[i], has_atspi) {
        i
    } else {
        next_runnable(order, i + 1, has_atspi)
    }
}

/// What the caller does next in the fast-fail loop.
#[derive(Debug)]
pub enum FastFailStep {
    /// Run this strategy within `STAGE_BUDGET_MS`, then confirm within `CONFIRM_BUDGET_MS`.
    Attempt(InjectionMethod),
    /// The loop is over with this result.
    Finished(InjectionResult<()>),
}

/// How one stage of the fast-fail loop went.
#[derive(Debug)]
pub enum StageOutcome {
    /// The stage did not finish within its budget.
    TimedOut,
    /// The injector reported an error.
    Failed(InjectionError),
    /// The injector succeeded; the confirmation gave this result (`None`
    /// when it failed or ran out of time).
    Injected(Option<ConfirmationResult>),
}

/// One run of the fast-fail loop.
#[derive(Debug)]
pub struct FastFailRun {
    order: Vec<InjectionMethod>,
    next_index: usize,
    target_app: String,
    window_id: String,
}

impl FastFailRun {
    pub closed spec fn spec_order(&self) -> Seq<InjectionMethod> {
        self.order@
    }

    pub closed spec fn spec_next(&self) -> int {
        self.next_index as int
    }

    pub closed spec fn spec_target_app(&self) -> Seq<char> {
        self.target_app@
    }

    pub closed spec fn spec_window_id(&self) -> Seq<char> {
        self.window_id@
    }

    pub closed spec fn wf(&self) -> bool {
        self.next_index <= self.order@.len()
    }

    /// Application whose text is watched for the confirmation.
    pub fn target_app(&self) -> (s: &str)
        ensures
            s@ == self.spec_target_app(),
    {
        self.target_app.as_str()
    }

    /// Window whose text is watched for the confirmation.
    pub fn window_id(&self) -> (s: &str)
        ensures
            s@ == self.spec_window_id(),
    {
        self.window_id.as_str()
    }
}

/// A value of the context, or "unknown".
pub open spec fn or_unknown(o: Option<String>) -> Seq<char> {
    match o {
        Some(s) => s@,
        None => "unknown"@,
    }
}

fn clone_or_unknown(o: &Option<String>) -> (s: String)
    ensures
        s@ == or_unknown(*o),
{
    match o {
        Some(s) => s.clone(),
        None => String::from_str("unknown"),
    }
}

/// Strategy orchestrator that picks strategies for the desktop environment.
pub struct StrategyOrchestrator {
    config: InjectionConfig,
    desktop_env: DesktopEnvironment,
    has_atspi_injector: bool,
}

impl StrategyOrchestrator {
    pub closed spec fn spec_config(&self) -> InjectionConfig {
        self.config
    }

    pub closed spec fn spec_desktop(&self) -> DesktopEnvironment {
        self.desktop_env
    }

    /// Whether an AT-SPI injector is present.
    pub closed spec fn spec_has_atspi(&self) -> bool {
        self.has_atspi_injector
    }

    /// An orchestrator for the environment `env`; `has_atspi_injector` tells
    /// whether the AT-SPI injector was built.
    pub fn new(config: InjectionConfig, env: &EnvironmentProbe, has_atspi_injector: bool) -> (o: Self)
        ensures
            o.spec_config() == config,
            o.spec_desktop() == desktop_of(*env),
            o.spec_has_atspi() == has_atspi_injector,
    {
        let desktop_env = Self::detect_environment(env);
        StrategyOrchestrator { config, desktop_env, has_atspi_injector }
    }

    /// An orchestrator for a given desktop environment.
    pub fn with_environment(config: InjectionConfig, desktop_env: DesktopEnvironment, has_atspi_injector: bool) -> (o: Self)
        ensures
            o.spec_config() == config,
            o.spec_desktop() == desktop_env,
            o.spec_has_atspi() == has_atspi_injector,
    {
        StrategyOrchestrator { config, desktop_env, has_atspi_injector }
    }

    /// Detects the desktop environment of `env`.
    pub fn detect_environment(env: &EnvironmentProbe) -> (d: DesktopEnvironment)
        ensures
            d == desktop_of(*env),
    {
        if env.target_os == TargetOs::Windows {
            return DesktopEnvironment::Windows;
        }
        if env.target_os == TargetOs::MacOs {
            return DesktopEnvironment::MacOS;
        }
        let is_wayland = env.is_wayland();
        let is_x11 = env.is_x11();
        let desktop = match &env.xdg_current_desktop {
            Some(d) => to_lowercase(d.as_str()),
            None => to_lowercase(""),
        };
        proof {
            reveal_strlit("");
            assert(""@ =~= Seq::<char>::empty());
        }
        let kde = str_contains(desktop.as_str(), "kde") || env.kde_session_version;
        let gnome = str_contains(desktop.as_str(), "gnome") || str_contains(desktop.as_str(), "ubuntu");
        let hyprland = env.hyprland_instance_signature;
        if is_wayland {
            if kde {
                DesktopEnvironment::KdeWayland
            } else if hyprland {
                DesktopEnvironment::Hyprland
            } else if gnome {
                DesktopEnvironment::GnomeWayland
            } else {
                DesktopEnvironment::OtherWayland
            }
        } else if is_x11 {
            if kde {
                DesktopEnvironment::KdeX11
            } else if gnome {
                DesktopEnvironment::GnomeX11
            } else {
                DesktopEnvironment::OtherX11
            }
        } else {
            DesktopEnvironment::Unknown
        }
    }

    /// The strategies for the current environment, in order.
    pub fn get_strategy_order(&self) -> (v: Vec<InjectionMethod>)
        ensures
            v@ == strategy_order_spec(self.spec_desktop()),
    {
        match self.desktop_env {
            DesktopEnvironment::Windows => {
                let v = vec![InjectionMethod::ClipboardPasteFallback];
                assert(v@ =~= strategy_order_spec(self.spec_desktop()));
                v
            },
            _ => {
                let v = vec![InjectionMethod::AtspiInsert, InjectionMethod::ClipboardPasteFallback];
                assert(v@ =~= strategy_order_spec(self.spec_desktop()));
                v
            },
        }
    }

    /// The detected desktop environment.
    pub fn desktop_environment(&self) -> (d: DesktopEnvironment)
        ensures
            d == self.spec_desktop(),
    {
        self.desktop_env
    }

    /// Describes the orchestrator.
    pub fn backend_info(&self) -> (v: Vec<(&'static str, String)>)
        ensures
            v@.len() == 3,
            v@[0].0@ == "type"@ && v@[0].1@ == "Strategy Orchestrator"@,
            v@[1].0@ == "environment"@ && v@[1].1@ == desktop_label(self.spec_desktop()),
            v@[2].0@ == "description"@ && v@[2].1@
                == "Environment-aware injection orchestrator with fast-fail loop"@,
    {
        vec![
            ("type", String::from_str("Strategy Orchestrator")),
            ("environment", self.desktop_env.label()),
            ("description", String::from_str("Environment-aware injection orchestrator with fast-fail loop")),
        ]
    }

    /// Starts injecting `text` with the pre-warmed `context`. An empty text
    /// is done at once (`Err(Ok(()))`); otherwise the run covers the
    /// strategy order, watching the context's target application and window
    /// ("unknown" when absent).
    pub fn begin_inject(&self, text: &str, context: &AtspiContext) -> (r: Result<FastFailRun, InjectionResult<()>>)
        ensures
            text@.len() == 0 ==> r == Err::<FastFailRun, InjectionResult<()>>(Ok(())),
            text@.len() > 0 ==> (r matches Ok(run) && {
                &&& run.wf()
                &&& run.spec_order() == strategy_order_spec(self.spec_desktop())
                &&& run.spec_next() == 0
                &&& run.spec_target_app() == or_unknown(context.target_app)
                &&& run.spec_window_id() == or_unknown(context.window_id)
            }),
    {
        if text.is_empty() {
            return Err(Ok(()));
        }
        let order = self.get_strategy_order();
        let target_app = clone_or_unknown(&context.target_app);
        let window_id = clone_or_unknown(&context.window_id);
        Ok(FastFailRun { order, next_index: 0, target_app, window_id })
    }

    /// The next step of the fast-fail loop, `elapsed_ms` after it started.
    /// While a strategy is left, a spent total budget ends the loop;
    /// strategies that cannot run are skipped; the next runnable one is
    /// attempted. When none is left, every strategy has failed.
    pub fn fast_fail_next(&self, run: &mut FastFailRun, elapsed_ms: u64) -> (step: FastFailStep)
        requires
            old(run).wf(),
        ensures
            final(run).wf(),
            final(run).spec_order() == old(run).spec_order(),
            final(run).spec_target_app() == old(run).spec_target_app(),
            final(run).spec_window_id() == old(run).spec_window_id(),
            ({
                let order = old(run).spec_order();
                let i = old(run).spec_next();
                let k = next_runnable(order, i, self.spec_has_atspi());
                if i < order.len() && elapsed_ms > self.spec_config().max_total_latency_ms {
                    &&& step == FastFailStep::Finished(Err(InjectionError::BudgetExhausted))
                    &&& final(run).spec_next() == order.len()
                } else if k < order.len() {
                    &&& step == FastFailStep::Attempt(order[k])
                    &&& final(run).spec_next() == k + 1
                } else {
                    &&& step matches FastFailStep::Finished(Err(InjectionError::AllMethodsFailed(msg)))
                    &&& msg@ == "All strategies failed in fast-fail loop"@
                    &&& final(run).spec_next() == order.len()
                }
            }),
    {
        let n = run.order.len();
        let ghost i0 = run.next_index as int;
        let ghost order = run.order@;
        let mut i = run.next_index;
        while i < n
            invariant
                *run == *old(run),
                order == run.order@,
                i0 == run.next_index as int,
                n == order.len(),
                i0 <= i <= n,
                i0 < i ==> elapsed_ms <= self.config.max_total_latency_ms,
                next_runnable(order, i0, self.has_atspi_injector) == next_runnable(
                    order,
                    i as int,
                    self.has_atspi_injector,
                ),
            decreases n - i,
        {
            if elapsed_ms > self.config.max_total_latency_ms {
                run.next_index = n;
                return FastFailStep::Finished(Err(InjectionError::BudgetExhausted));
            }
            let m = run.order[i];
            if self.has_atspi_injector && (m == InjectionMethod::AtspiInsert || m == InjectionMethod::ClipboardPasteFallback) {
                run.next_index = i + 1;
                return FastFailStep::Attempt(m);
            }
            i += 1;
        }
        run.next_index = n;
        FastFailStep::Finished(
            Err(InjectionError::AllMethodsFailed(String::from_str("All strategies failed in fast-fail loop"))),
        )
    }

    /// The decision after a stage: a stage that ran out of its budget ends
    /// the loop with a timeout; a confirmed injection ends it with success;
    /// anything else goes on to the next strategy (`None`).
    pub fn fast_fail_after_stage(&self, outcome: &StageOutcome) -> (r: Option<InjectionResult<()>>)
        ensures
            r == match *outcome {
                StageOutcome::TimedOut => Some(Err::<(), InjectionError>(InjectionError::Timeout(STAGE_BUDGET_MS))),
                StageOutcome::Injected(Some(ConfirmationResult::Success)) => Some(Ok::<(), InjectionError>(())),
                _ => None,
            },
    {
        match outcome {
            StageOutcome::TimedOut => Some(Err(InjectionError::Timeout(STAGE_BUDGET_MS))),
            StageOutcome::Injected(Some(ConfirmationResult::Success)) => Some(Ok(())),
            _ => None,
        }
    }
}

} // verus!
