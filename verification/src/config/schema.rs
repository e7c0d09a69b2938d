//! The configuration schema, its defaults, and per-output resolution.
use vstd::prelude::*;
use crate::text::owned;

verus! {

// ── Top-level ────────────────────────────────────────────────────────────────

/// The whole configuration file.
#[derive(Debug, Clone)]
pub struct Config {
    pub general: GeneralConfig,
    /// One entry per physical output; the wildcard `"*"` matches all outputs not covered by
    /// a more specific entry.
    pub outputs: Vec<OutputConfig>,
    pub clock: ClockConfig,
    pub workspaces: WorkspacesConfig,
    pub power_menu: PowerMenuConfig,
    pub notifications: NotificationsConfig,
}

impl Config {
    /// Whether `self` is the default configuration.
    pub open spec fn is_default(&self) -> bool {
        &&& self.general.gap == 0
        &&& self.outputs@.len() == 1
        &&& self.outputs@[0].is_default()
        &&& self.clock.is_default()
        &&& self.workspaces.is_default()
        &&& self.power_menu.is_default()
        &&& self.notifications.is_default()
    }
}

impl Default for Config {
    fn default() -> (r: Self)
        ensures
            r.is_default(),
    {
        let mut outputs: Vec<OutputConfig> = Vec::new();
        outputs.push(OutputConfig::default());
        Config {
            general: GeneralConfig::default(),
            outputs,
            clock: ClockConfig::default(),
            workspaces: WorkspacesConfig::default(),
            power_menu: PowerMenuConfig::default(),
            notifications: NotificationsConfig::default(),
        }
    }
}

// ── General ──────────────────────────────────────────────────────────────────

#[derive(Debug, Clone)]
pub struct GeneralConfig {
    /// Gap in pixels between bar edge and screen edge.
    pub gap: i32,
}

impl Default for GeneralConfig {
    fn default() -> (r: Self)
        ensures
            r.gap == 0,
    {
        GeneralConfig { gap: 0 }
    }
}

// ── Per-output bar config ─────────────────────────────────────────────────────

/// The bar on one output. The opacity is the IEEE-754 bit pattern of an `f64`.
#[derive(Debug, Clone)]
pub struct OutputConfig {
    /// Output name (e.g. "DP-1", "HDMI-A-1") or "*" to match all.
    pub name: String,
    pub height: u32,
    pub layer: BarLayer,
    /// Whether to reserve space (exclusive zone) so windows don't overlap the bar.
    pub exclusive: bool,
    pub opacity_bits: u64,
    pub keyboard: KeyboardMode,
    pub left: RegionConfig,
    pub center: RegionConfig,
    pub right: RegionConfig,
    pub theme: ThemeConfig,
}

/// IEEE-754 bit pattern of the `f64` value 0.95.
pub open spec fn default_opacity_bits() -> u64 {
    0x3FEE_6666_6666_6666
}

/// The single module name `m`.
pub open spec fn only_module(r: RegionConfig, m: &str) -> bool {
    r.modules@.len() == 1 && r.modules@[0]@ == m@
}

impl OutputConfig {
    /// Whether `self` is the default bar: on every output ("*"), 36 px, top layer, exclusive,
    /// 0.95 opaque, no keyboard; workspaces left, clock centre, power menu right.
    pub open spec fn is_default(&self) -> bool {
        &&& self.name@ == "*"@
        &&& self.height == 36
        &&& self.layer == BarLayer::Top
        &&& self.exclusive
        &&& self.opacity_bits == default_opacity_bits()
        &&& self.keyboard == KeyboardMode::NoFocus
        &&& only_module(self.left, "workspaces")
        &&& only_module(self.center, "clock")
        &&& only_module(self.right, "power-menu")
        &&& self.theme.is_default()
    }
}

fn region_of(m: &str) -> (r: RegionConfig)
    ensures
        only_module(r, m),
{
    let mut modules: Vec<String> = Vec::new();
    modules.push(owned(m));
    RegionConfig { modules }
}

impl Default for OutputConfig {
    fn default() -> (r: Self)
        ensures
            r.is_default(),
    {
        OutputConfig {
            name: owned("*"),
            height: 36,
            layer: BarLayer::Top,
            exclusive: true,
            opacity_bits: 0x3FEE_6666_6666_6666u64,
            keyboard: KeyboardMode::NoFocus,
            left: region_of("workspaces"),
            center: region_of("clock"),
            right: region_of("power-menu"),
            theme: ThemeConfig::default(),
        }
    }
}

/// The index of the first config named `name`.
pub open spec fn first_named(configs: Seq<OutputConfig>, name: Seq<char>) -> Option<int>
    decreases configs.len(),
{
    if configs.len() == 0 {
        None
    } else {
        match first_named(configs.drop_last(), name) {
            Some(i) => Some(i),
            None => if configs.last().name@ == name {
                Some(configs.len() - 1)
            } else {
                None
            },
        }
    }
}

/// The config that applies to output `name`: the first one named exactly so, else the first
/// wildcard `"*"`, else the first one.
pub open spec fn resolved_index(configs: Seq<OutputConfig>, name: Seq<char>) -> int {
    match first_named(configs, name) {
        Some(i) => i,
        None => match first_named(configs, "*"@) {
            Some(i) => i,
            None => 0,
        },
    }
}

proof fn lemma_first_named_prefix(configs: Seq<OutputConfig>, name: Seq<char>, k: int)
    requires
        0 <= k <= configs.len(),
        first_named(configs.take(k), name) is Some,
    ensures
        first_named(configs, name) == first_named(configs.take(k), name),
    decreases configs.len(),
{
    if k < configs.len() {
        assert(configs.drop_last().take(k) =~= configs.take(k));
        lemma_first_named_prefix(configs.drop_last(), name, k);
    } else {
        assert(configs.take(k) =~= configs);
    }
}

proof fn lemma_first_named_bounds(configs: Seq<OutputConfig>, name: Seq<char>)
    ensures
        match first_named(configs, name) {
            Some(i) => 0 <= i < configs.len() && configs[i].name@ == name && forall|j: int|
                0 <= j < i ==> configs[j].name@ != name,
            None => forall|j: int| 0 <= j < configs.len() ==> configs[j].name@ != name,
        },
    decreases configs.len(),
{
    if configs.len() > 0 {
        lemma_first_named_bounds(configs.drop_last(), name);
        assert forall|j: int| 0 <= j < configs.len() - 1 implies configs[j]
            == configs.drop_last()[j] by {}
    }
}

fn find_named(configs: &[OutputConfig], name: &str) -> (r: Option<usize>)
    ensures
        match r {
            Some(i) => first_named(configs@, name@) == Some(i as int),
            None => first_named(configs@, name@) is None,
        },
{
    let mut i: usize = 0;
    while i < configs.len()
        invariant
            i <= configs.len(),
            first_named(configs@.take(i as int), name@) is None,
        decreases configs.len() - i,
    {
        proof {
            assert(configs@.take(i + 1).drop_last() =~= configs@.take(i as int));
        }
        if crate::text::str_eq(&configs[i].name, name) {
            proof {
                lemma_first_named_prefix(configs@, name@, i + 1);
            }
            return Some(i);
        }
        i += 1;
    }
    proof {
        assert(configs@.take(configs.len() as int) =~= configs@);
    }
    None
}

impl OutputConfig {
    /// The config entry that applies to output `output_name`: an exact name match is
    /// preferred over the wildcard `"*"`, and with neither the first entry applies.
    pub fn resolve<'a>(configs: &'a [OutputConfig], output_name: &str) -> (r: &'a OutputConfig)
        requires
            configs.len() > 0,
        ensures
            0 <= resolved_index(configs@, output_name@) < configs.len(),
            *r == configs@[resolved_index(configs@, output_name@)],
    {
        proof {
            lemma_first_named_bounds(configs@, output_name@);
            lemma_first_named_bounds(configs@, "*"@);
        }
        match find_named(configs, output_name) {
            Some(i) => &configs[i],
            None => match find_named(configs, "*") {
                Some(i) => &configs[i],
                None => &configs[0],
            },
        }
    }
}

/// Resolution prefers an exact name, then the wildcard, then the first entry: the entry
/// chosen for `name` is named `name` whenever any entry is; otherwise it is the first
/// wildcard when there is one; otherwise it is the first entry.
pub proof fn lemma_resolve_preference(configs: Seq<OutputConfig>, name: Seq<char>)
    requires
        configs.len() > 0,
    ensures
        (exists|j: int| 0 <= j < configs.len() && configs[j].name@ == name) ==> configs[resolved_index(
            configs,
            name,
        )].name@ == name,
        (!exists|j: int| 0 <= j < configs.len() && configs[j].name@ == name) && (exists|j: int|
            0 <= j < configs.len() && configs[j].name@ == "*"@) ==> configs[resolved_index(
            configs,
            name,
        )].name@ == "*"@,
        (!exists|j: int| 0 <= j < configs.len() && configs[j].name@ == name) && (!exists|j: int|
            0 <= j < configs.len() && configs[j].name@ == "*"@) ==> resolved_index(configs, name)
            == 0,
{
    lemma_first_named_bounds(configs, name);
    lemma_first_named_bounds(configs, "*"@);
}

// ── Module region ─────────────────────────────────────────────────────────────

/// The modules shown in one region of the bar, in order.
#[derive(Debug, Clone)]
pub struct RegionConfig {
    pub modules: Vec<String>,
}

impl Default for RegionConfig {
    fn default() -> (r: Self)
        ensures
            r.modules@.len() == 0,
    {
        RegionConfig { modules: Vec::new() }
    }
}

// ── Theme ─────────────────────────────────────────────────────────────────────

#[derive(Debug, Clone)]
pub struct ThemeConfig {
    pub background: String,
    pub foreground: String,
    pub border_radius: u32,
    pub font: String,
    pub font_size: u32,
    pub module_background: String,
    pub module_padding: String,
}

impl ThemeConfig {
    /// Whether `self` is the default theme.
    pub open spec fn is_default(&self) -> bool {
        &&& self.background@ == "#1e1e2e"@
        &&& self.foreground@ == "#cdd6f4"@
        &&& self.border_radius == 8
        &&& self.font@ == "sans-serif"@
        &&& self.font_size == 13
        &&& self.module_background@ == "transparent"@
        &&& self.module_padding@ == "0 8px"@
    }
}

impl Default for ThemeConfig {
    fn default() -> (r: Self)
        ensures
            r.is_default(),
    {
        ThemeConfig {
            background: owned("#1e1e2e"),
            foreground: owned("#cdd6f4"),
            border_radius: 8,
            font: owned("sans-serif"),
            font_size: 13,
            module_background: owned("transparent"),
            module_padding: owned("0 8px"),
        }
    }
}

// ── Enums ─────────────────────────────────────────────────────────────────────

/// The layer-shell layer the bar sits on.
#[derive(Debug, Clone, Copy, PartialEq, Eq, Structural)]
pub enum BarLayer {
    Background,
    Bottom,
    Top,
    Overlay,
}

impl Default for BarLayer {
    fn default() -> (r: Self)
        ensures
            r == BarLayer::Top,
    {
        BarLayer::Top
    }
}

/// Whether the bar takes keyboard focus.
#[derive(Debug, Clone, Copy, PartialEq, Eq, Structural)]
pub enum KeyboardMode {
    /// No keyboard interaction.
    NoFocus,
    OnDemand,
    Exclusive,
}

impl Default for KeyboardMode {
    fn default() -> (r: Self)
        ensures
            r == KeyboardMode::NoFocus,
    {
        KeyboardMode::NoFocus
    }
}

// ── Module configs ─────────────────────────────────────────────────────────────

#[derive(Debug, Clone)]
pub struct ClockConfig {
    pub format: String,
    /// Update interval in milliseconds.
    pub interval: u64,
    pub timezone: Option<String>,
}

impl ClockConfig {
    /// Whether `self` is the default clock: `%H:%M`, every second, local time.
    pub open spec fn is_default(&self) -> bool {
        &&& self.format@ == "%H:%M"@
        &&& self.interval == 1000
        &&& self.timezone is None
    }
}

impl Default for ClockConfig {
    fn default() -> (r: Self)
        ensures
            r.is_default(),
    {
        ClockConfig { format: owned("%H:%M"), interval: 1000, timezone: None }
    }
}

#[derive(Debug, Clone)]
pub struct WorkspacesConfig {
    pub show_empty: bool,
    pub show_names: bool,
    pub show_icons: bool,
    pub persistent: Vec<String>,
}

impl WorkspacesConfig {
    /// Whether `self` is the default: names shown, empty workspaces and icons hidden, none
    /// persistent.
    pub open spec fn is_default(&self) -> bool {
        &&& !self.show_empty
        &&& self.show_names
        &&& !self.show_icons
        &&& self.persistent@.len() == 0
    }
}

impl Default for WorkspacesConfig {
    fn default() -> (r: Self)
        ensures
            r.is_default(),
    {
        WorkspacesConfig {
            show_empty: false,
            show_names: true,
            show_icons: false,
            persistent: Vec::new(),
        }
    }
}

#[derive(Debug, Clone)]
pub struct PowerMenuConfig {
    pub actions: Vec<PowerAction>,
}

/// The actions of the default power menu, in order.
pub open spec fn default_power_actions() -> Seq<PowerAction> {
    seq![
        PowerAction::Lock,
        PowerAction::Logout,
        PowerAction::Suspend,
        PowerAction::Hibernate,
        PowerAction::Reboot,
        PowerAction::Poweroff,
    ]
}

impl PowerMenuConfig {
    /// Whether `self` is the default menu.
    pub open spec fn is_default(&self) -> bool {
        self.actions@ == default_power_actions()
    }
}

impl Default for PowerMenuConfig {
    fn default() -> (r: Self)
        ensures
            r.is_default(),
    {
        let mut actions: Vec<PowerAction> = Vec::new();
        actions.push(PowerAction::Lock);
        actions.push(PowerAction::Logout);
        actions.push(PowerAction::Suspend);
        actions.push(PowerAction::Hibernate);
        actions.push(PowerAction::Reboot);
        actions.push(PowerAction::Poweroff);
        proof {
            assert(actions@ =~= default_power_actions());
        }
        PowerMenuConfig { actions }
    }
}

/// An entry of the power menu.
#[derive(Debug, Clone, Copy, PartialEq, Eq, Structural)]
pub enum PowerAction {
    Lock,
    Logout,
    Suspend,
    Hibernate,
    HybridSleep,
    Reboot,
    Poweroff,
}

#[derive(Debug, Clone)]
pub struct NotificationsConfig {
    pub position: NotificationPosition,
    pub max_visible: u32,
    /// Dismiss timeout in milliseconds; 0 = never auto-dismiss.
    pub timeout: u64,
}

impl NotificationsConfig {
    /// Whether `self` is the default: top right, five visible, five seconds.
    pub open spec fn is_default(&self) -> bool {
        &&& self.position == NotificationPosition::TopRight
        &&& self.max_visible == 5
        &&& self.timeout == 5000
    }
}

impl Default for NotificationsConfig {
    fn default() -> (r: Self)
        ensures
            r.is_default(),
    {
        NotificationsConfig {
            position: NotificationPosition::TopRight,
            max_visible: 5,
            timeout: 5000,
        }
    }
}

// ── Compositor event payloads ─────────────────────────────────────────────────

/// A workspace as the bar shows it.
#[derive(Debug, Clone)]
pub struct Workspace {
    pub id: i32,
    pub name: String,
    pub output: String,
    pub focused: bool,
    pub urgent: bool,
    pub empty: bool,
    pub representation: Option<String>,
}

impl Default for Workspace {
    fn default() -> (r: Self)
        ensures
            r.id == 0,
            r.name@.len() == 0,
            r.output@.len() == 0,
            !r.focused,
            !r.urgent,
            !r.empty,
            r.representation is None,
    {
        Workspace {
            id: 0,
            name: String::new(),
            output: String::new(),
            focused: false,
            urgent: false,
            empty: false,
            representation: None,
        }
    }
}

/// The workspaces and the focused output.
#[derive(Debug, Clone)]
pub struct WorkspaceState {
    pub workspaces: Vec<Workspace>,
    pub focused_output: Option<String>,
}

impl Default for WorkspaceState {
    fn default() -> (r: Self)
        ensures
            r.workspaces@.len() == 0,
            r.focused_output is None,
    {
        WorkspaceState { workspaces: Vec::new(), focused_output: None }
    }
}

/// The focused window's title and application id.
#[derive(Debug, Clone)]
pub struct FocusedWindow {
    pub title: Option<String>,
    pub app_id: Option<String>,
}

impl Default for FocusedWindow {
    fn default() -> (r: Self)
        ensures
            r.title is None,
            r.app_id is None,
    {
        FocusedWindow { title: None, app_id: None }
    }
}

/// Where notification popups appear.
#[derive(Debug, Clone, Copy, PartialEq, Eq, Structural)]
pub enum NotificationPosition {
    TopRight,
    TopLeft,
    BottomRight,
    BottomLeft,
    TopCenter,
    BottomCenter,
}

impl Default for NotificationPosition {
    fn default() -> (r: Self)
        ensures
            r == NotificationPosition::TopRight,
    {
        NotificationPosition::TopRight
    }
}

} // verus!
