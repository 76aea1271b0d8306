//! The tactical mini-map: an overlay for spatial awareness that stays
//! passive, letting input through, until it is activated.
//!
//! Activation: hovering (dwell time), a keyboard shortcut, a modifier with a
//! click, a double tap, a controller button or a voice command. What it
//! shows depends on the level: all sectors at the global overview, the
//! current sector and its mode in a hub, the focused application and the
//! viewports above that.
//!
//! Positions are in thousandths: of a pixel for hovering, of the map's width
//! and height for clicks. Sizes and opacities are thousandths too.
use vstd::prelude::*;
use crate::model::{CommandHubMode, HierarchyLevel, HubView, StateView, TosState, SectorView};
use crate::text::{dec, milli_text, push_milli, push_str, push_u64, string_of};

verus! {

/// Position of the mini-map on screen
#[derive(Debug, Clone, Copy, PartialEq, Eq, Structural)]
pub enum MiniMapPosition {
    TopLeft,
    TopRight,
    BottomLeft,
    BottomRight,
    Center,
}

/// Activation method for the mini-map
#[derive(Debug, Clone, PartialEq, Eq)]
pub enum ActivationMethod {
    /// Hover with dwell time in milliseconds
    Hover(u64),
    /// Keyboard shortcut (e.g., "Ctrl+M")
    KeyboardShortcut(String),
    /// Modifier key + click, e.g. "Alt"
    ModifierClick(String),
    /// Double-tap for touch
    DoubleTap,
    /// Game controller button
    GamepadButton(String),
    /// Voice command
    Voice(String),
}

/// Configuration for the mini-map
#[derive(Debug, Clone, PartialEq, Eq)]
pub struct MiniMapConfig {
    /// Position on screen
    pub position: MiniMapPosition,
    /// Width, in thousandths of the screen
    pub width_milli: u32,
    /// Height, in thousandths of the screen
    pub height_milli: u32,
    /// Opacity when passive, in thousandths
    pub passive_opacity_milli: u32,
    /// Opacity when active, in thousandths
    pub active_opacity_milli: u32,
    /// Activation methods
    pub activation_methods: Vec<ActivationMethod>,
    /// Whether to show other sectors
    pub show_other_sectors: bool,
    /// Whether to show viewport dividers
    pub show_viewports: bool,
    /// Dwell time for hover activation (ms)
    pub hover_dwell_ms: u64,
}

impl MiniMapConfig {
    /// Bottom right, a fifth of the width and a quarter of the height,
    /// 0.3 opaque when passive and 0.9 when active, activated by a second's
    /// hover, Ctrl+M or "activate mini-map".
    pub fn default() -> (c: MiniMapConfig)
        ensures
            c.position == MiniMapPosition::BottomRight,
            c.width_milli == 200,
            c.height_milli == 250,
            c.passive_opacity_milli == 300,
            c.active_opacity_milli == 900,
            c.activation_methods@.len() == 3,
            c.activation_methods@[0] == ActivationMethod::Hover(1000),
            c.activation_methods@[1] matches ActivationMethod::KeyboardShortcut(k) && k@ == "Ctrl+M"@,
            c.activation_methods@[2] matches ActivationMethod::Voice(v) && v@ == "activate mini-map"@,
            c.show_other_sectors,
            c.show_viewports,
            c.hover_dwell_ms == 1000,
    {
        let mut methods: Vec<ActivationMethod> = Vec::new();
        methods.push(ActivationMethod::Hover(1000));
        methods.push(ActivationMethod::KeyboardShortcut(String::from_str("Ctrl+M")));
        methods.push(ActivationMethod::Voice(String::from_str("activate mini-map")));
        MiniMapConfig {
            position: MiniMapPosition::BottomRight,
            width_milli: 200,
            height_milli: 250,
            passive_opacity_milli: 300,
            active_opacity_milli: 900,
            activation_methods: methods,
            show_other_sectors: true,
            show_viewports: true,
            hover_dwell_ms: 1000,
        }
    }
}

/// State of the mini-map
#[derive(Debug, Clone, Copy, PartialEq, Eq, Structural)]
pub enum MiniMapState {
    /// Passive state - input passes through
    Passive,
    /// Active state - captures input
    Active,
    /// Hovered since `start_ms` (for dwell activation)
    Hovering { start_ms: u64 },
}

/// Navigation target from mini-map click
#[derive(Debug, Clone, Copy, PartialEq, Eq)]
pub struct NavigationTarget {
    pub sector_index: usize,
    pub viewport_index: Option<usize>,
}

/// The tactical mini-map
#[derive(Debug)]
pub struct MiniMap {
    /// Configuration
    pub config: MiniMapConfig,
    /// Current state
    pub state: MiniMapState,
    /// Last hover position, in thousandths of a pixel (for dwell tracking)
    pub last_hover_pos: Option<(i64, i64)>,
    /// Selected sector index (when active)
    pub selected_sector: Option<usize>,
    /// Selected viewport index (when active)
    pub selected_viewport: Option<usize>,
}

/// Whether the pointer moved more than five pixels since `last`, or has
/// just arrived.
pub open spec fn moved(last: Option<(i64, i64)>, x: i64, y: i64) -> bool {
    match last {
        Some((lx, ly)) => x - lx > 5000 || lx - x > 5000 || y - ly > 5000 || ly - y > 5000,
        None => true,
    }
}

/// The state after a hover at `now`: where the pointer arrives or moves, a
/// passive or hovering map starts its dwell there (and is active at once if
/// no dwell is needed); a hovering map whose pointer has stayed still for
/// the dwell time becomes active; a passive map whose pointer stays still
/// stays passive, and an active map stays active.
pub open spec fn hover_next(s: MiniMapState, last: Option<(i64, i64)>, x: i64, y: i64, now: u64, dwell: u64) -> MiniMapState {
    match s {
        MiniMapState::Passive => if moved(last, x, y) {
            if dwell == 0 {
                MiniMapState::Active
            } else {
                MiniMapState::Hovering { start_ms: now }
            }
        } else {
            MiniMapState::Passive
        },
        MiniMapState::Hovering { start_ms } => if moved(last, x, y) {
            if dwell == 0 {
                MiniMapState::Active
            } else {
                MiniMapState::Hovering { start_ms: now }
            }
        } else if (if now >= start_ms { now - start_ms } else { 0 }) >= dwell {
            MiniMapState::Active
        } else {
            s
        },
        _ => s,
    }
}

/// The smallest `c` from `c` up whose square reaches `n`.
pub open spec fn ceil_sqrt_from(n: nat, c: nat) -> nat
    decreases n - c,
{
    if c * c >= n {
        c
    } else {
        proof {
            assert(c < n) by (nonlinear_arith)
                requires
                    c * c < n,
            ;
        }
        ceil_sqrt_from(n, c + 1)
    }
}

/// The smallest number whose square is at least `n`: the columns of a
/// square grid of `n` cells.
pub open spec fn ceil_sqrt(n: nat) -> nat {
    ceil_sqrt_from(n, 0)
}

/// The cell of `k` along an axis at position `p` thousandths; positions
/// before the start fall in the first cell.
pub open spec fn cell_of(p: i64, k: nat) -> nat {
    if p <= 0 {
        0
    } else {
        ((p * k) / 1000) as nat
    }
}

/// The cell of a grid of `n` cells in `ceil_sqrt(n)` columns under
/// `(x, y)`, if there is one.
pub open spec fn grid_cell(x: i64, y: i64, n: nat) -> Option<nat> {
    let cols = ceil_sqrt(n);
    let rows = ((n + cols - 1) / cols as int) as nat;
    let idx = cell_of(y, rows) * cols + cell_of(x, cols);
    if idx < n {
        Some(idx)
    } else {
        None
    }
}

/// What a click at `(x, y)` selects: a sector at the global overview, else
/// the active viewport's sector and, where viewports are shown, the
/// viewport under the click.
pub open spec fn click_target(s: StateView, show_viewports: bool, x: i64, y: i64) -> Option<(nat, Option<nat>)> {
    if s.sectors.len() == 0 {
        None
    } else if s.current_level == HierarchyLevel::GlobalOverview {
        match grid_cell(x, y, s.sectors.len()) {
            Some(i) => Some((i, None)),
            None => None,
        }
    } else {
        let si = s.active_viewport().sector_index as nat;
        if s.viewports.len() > 1 && show_viewports {
            Some((si, grid_cell(x, y, s.viewports.len())))
        } else {
            Some((si, None))
        }
    }
}

/// The map after a toggle: an active map turns passive and forgets its
/// selection; any other turns active.
pub open spec fn toggled(m: MiniMap) -> MiniMap {
    if m.state == MiniMapState::Active {
        MiniMap { state: MiniMapState::Passive, selected_sector: None, selected_viewport: None, ..m }
    } else {
        MiniMap { state: MiniMapState::Active, ..m }
    }
}

/// Toggling a passive or active map twice gives back its state.
pub proof fn law_toggle_twice(m: MiniMap)
    requires
        m.state == MiniMapState::Passive || m.state == MiniMapState::Active,
    ensures
        toggled(toggled(m)).state == m.state,
        toggled(toggled(m)).config == m.config,
{
}

/// A click that selects something selects an existing sector and, if any,
/// an existing viewport.
pub proof fn law_click_lands_on_a_sector(s: StateView, show_viewports: bool, x: i64, y: i64)
    requires
        s.wf(),
    ensures
        click_target(s, show_viewports, x, y) matches Some((si, vi)) ==> si < s.sectors.len()
            && (vi matches Some(v) ==> v < s.viewports.len()),
{
}

/// The class that places the map.
pub open spec fn position_class(p: MiniMapPosition) -> Seq<char> {
    match p {
        MiniMapPosition::TopLeft => "minimap-topleft"@,
        MiniMapPosition::TopRight => "minimap-topright"@,
        MiniMapPosition::BottomLeft => "minimap-bottomleft"@,
        MiniMapPosition::BottomRight => "minimap-bottomright"@,
        MiniMapPosition::Center => "minimap-center"@,
    }
}

/// The name of a level as the footer gives it.
pub open spec fn level_label(l: HierarchyLevel) -> Seq<char> {
    match l {
        HierarchyLevel::GlobalOverview => "Level 1: Global"@,
        HierarchyLevel::CommandHub => "Level 2: Hub"@,
        HierarchyLevel::ApplicationFocus => "Level 3: App"@,
        HierarchyLevel::DetailInspector => "Level 3+: Detail"@,
        HierarchyLevel::BufferInspector => "Level 3+: Buffer"@,
        HierarchyLevel::SplitView => "Split View"@,
    }
}

/// The footer: the level and how to use the map.
pub open spec fn legend(l: HierarchyLevel, active: bool) -> Seq<char> {
    level_label(l) + if active {
        " | Click to navigate | Press Ctrl+M to close"@
    } else {
        " | Hover or Ctrl+M to activate"@
    }
}

/// The debugging name of a level.
pub open spec fn level_name(l: HierarchyLevel) -> Seq<char> {
    match l {
        HierarchyLevel::GlobalOverview => "GlobalOverview"@,
        HierarchyLevel::CommandHub => "CommandHub"@,
        HierarchyLevel::ApplicationFocus => "ApplicationFocus"@,
        HierarchyLevel::DetailInspector => "DetailInspector"@,
        HierarchyLevel::BufferInspector => "BufferInspector"@,
        HierarchyLevel::SplitView => "SplitView"@,
    }
}

/// The class of a selected tile.
pub open spec fn selected_class(sel: Option<usize>, i: int) -> Seq<char> {
    if sel == Some(i as usize) {
        "minimap-selected"@
    } else {
        Seq::<char>::empty()
    }
}

/// A sector's tile at the global overview.
pub open spec fn sector_tile(sec: SectorView, i: int, active: bool, sel: Option<usize>) -> Seq<char> {
    "<div class=\"minimap-sector "@ + (if active { "minimap-sector-active"@ } else { "minimap-sector-dimmed"@ })
        + " "@ + selected_class(sel, i) + "\" data-sector=\""@ + dec(i as nat)
        + "\" style=\"border-color: "@ + sec.color
        + ";\">\n                    <div class=\"sector-name\">"@ + sec.name
        + "</div>\n                    <div class=\"sector-host\">"@ + sec.host
        + "</div>\n                    <div class=\"sector-hubs\">"@ + dec(sec.hubs.len())
        + " hubs</div>\n                </div>"@
}

/// The tiles of the first `n` sectors.
pub open spec fn sector_tiles(ss: Seq<SectorView>, active_si: usize, sel: Option<usize>, n: nat) -> Seq<char>
    decreases n,
{
    if n == 0 {
        Seq::<char>::empty()
    } else {
        let i = n - 1;
        sector_tiles(ss, active_si, sel, i as nat) + sector_tile(ss[i], i, i == active_si, sel)
    }
}

/// Level 1: all sectors.
pub open spec fn global_overview(s: StateView, sel: Option<usize>) -> Seq<char> {
    "<div class=\"minimap-sectors-grid\">"@ + sector_tiles(
        s.sectors,
        s.active_viewport().sector_index,
        sel,
        s.sectors.len(),
    ) + "</div>"@
}

/// The icon of a hub mode.
pub open spec fn mode_icon(m: CommandHubMode) -> Seq<char> {
    match m {
        CommandHubMode::Command => "\u{2318}"@,
        CommandHubMode::Directory => "\u{1f4c1}"@,
        CommandHubMode::Activity => "\u{26a1}"@,
        CommandHubMode::Search => "\u{1f50d}"@,
        CommandHubMode::Ai => "\u{2728}"@,
    }
}

/// The name of a hub mode.
pub open spec fn mode_name(m: CommandHubMode) -> Seq<char> {
    match m {
        CommandHubMode::Command => "Command"@,
        CommandHubMode::Directory => "Directory"@,
        CommandHubMode::Activity => "Activity"@,
        CommandHubMode::Search => "Search"@,
        CommandHubMode::Ai => "AI"@,
    }
}

/// The current sector with its hub's mode.
pub open spec fn hub_card(sec: SectorView, hub: HubView) -> Seq<char> {
    "<div class=\"minimap-current-sector\">\n                <div class=\"sector-header\" style=\"border-color: "@
        + sec.color
        + ";\">\n                    <span class=\"sector-indicator\">\u{25c9}</span>\n                    <span class=\"sector-name\">"@
        + sec.name
        + "</span>\n                </div>\n                <div class=\"hub-info\">\n                    <div class=\"hub-mode\">"@
        + mode_icon(hub.mode) + " "@ + mode_name(hub.mode)
        + " Mode</div>\n                    <div class=\"hub-apps\">"@ + dec(hub.applications.len())
        + " applications</div>\n                </div>\n            </div>"@
}

/// Another sector, dimmed.
pub open spec fn dimmed_sector(sec: SectorView, i: int) -> Seq<char> {
    "<div class=\"minimap-sector-dimmed\" data-sector=\""@ + dec(i as nat)
        + "\">\n                            <span style=\"color: "@ + sec.color
        + ";\">\u{25c9}</span> "@ + sec.name + "\n                        </div>"@
}

/// The first `n` sectors but `skip`, dimmed.
pub open spec fn dimmed_sectors(ss: Seq<SectorView>, skip: usize, n: nat) -> Seq<char>
    decreases n,
{
    if n == 0 {
        Seq::<char>::empty()
    } else {
        let i = n - 1;
        dimmed_sectors(ss, skip, i as nat) + if i == skip {
            Seq::<char>::empty()
        } else {
            dimmed_sector(ss[i], i)
        }
    }
}

/// Level 2: the current sector and hub, and the other sectors dimmed.
pub open spec fn command_hub_view(s: StateView, show_others: bool) -> Seq<char> {
    let si = s.active_viewport().sector_index;
    hub_card(s.active_sector(), s.active_hub()) + if show_others {
        "<div class=\"minimap-other-sectors\">"@ + dimmed_sectors(s.sectors, si, s.sectors.len()) + "</div>"@
    } else {
        Seq::<char>::empty()
    }
}

/// The title of the focused application, if there is one.
pub open spec fn focused_title(hub: HubView, app: Option<usize>) -> Seq<char> {
    match app {
        Some(i) => if i < hub.applications.len() {
            hub.applications[i as int].title
        } else {
            "No Application"@
        },
        None => "No Application"@,
    }
}

/// The class of the focused application, if there is one.
pub open spec fn focused_class(hub: HubView, app: Option<usize>) -> Seq<char> {
    match app {
        Some(i) => if i < hub.applications.len() {
            hub.applications[i as int].app_class
        } else {
            Seq::<char>::empty()
        },
        None => Seq::<char>::empty(),
    }
}

/// The path to the focused application.
pub open spec fn focus_card(sec: SectorView, hub: HubView, app: Option<usize>) -> Seq<char> {
    let title = focused_title(hub, app);
    "<div class=\"minimap-app-focus\">\n                <div class=\"app-path\">\n                    <span style=\"color: "@
        + sec.color + ";\">"@ + sec.name + "</span> \u{2192} "@ + mode_name(hub.mode)
        + " \u{2192} <strong>"@ + title
        + "</strong>\n                </div>\n                <div class=\"active-app\">\n                    <div class=\"app-title\">"@
        + title + "</div>\n                    <div class=\"app-class\">"@ + focused_class(hub, app)
        + "</div>\n                </div>\n            </div>"@
}

/// A viewport's tile: its number and sector.
pub open spec fn viewport_tile(s: StateView, i: int, sel: Option<usize>) -> Seq<char> {
    "<div class=\"minimap-viewport "@ + (if i == s.active_viewport_index {
        "viewport-active"@
    } else {
        "viewport-inactive"@
    }) + " "@ + selected_class(sel, i) + "\" data-viewport=\""@ + dec(i as nat)
        + "\">\n                        <div class=\"viewport-id\">VP"@ + dec((i + 1) as nat)
        + "</div>\n                        <div class=\"viewport-sector\">"@
        + s.sectors[s.viewports[i].sector_index as int].name + "</div>\n                    </div>"@
}

/// The tiles of the first `n` viewports.
pub open spec fn viewport_tiles(s: StateView, sel: Option<usize>, n: nat) -> Seq<char>
    decreases n,
{
    if n == 0 {
        Seq::<char>::empty()
    } else {
        viewport_tiles(s, sel, (n - 1) as nat) + viewport_tile(s, n - 1, sel)
    }
}

/// Level 3: the focused application, and the viewports where there are
/// several.
pub open spec fn focus_view(s: StateView, show_viewports: bool, sel: Option<usize>) -> Seq<char> {
    focus_card(s.active_sector(), s.active_hub(), s.active_viewport().active_app_index)
        + if s.viewports.len() > 1 && show_viewports {
        "<div class=\"minimap-viewports\">"@ + viewport_tiles(s, sel, s.viewports.len()) + "</div>"@
    } else {
        Seq::<char>::empty()
    }
}

/// A viewport in the split view.
pub open spec fn split_tile(s: StateView, i: int) -> Seq<char> {
    let active = i == s.active_viewport_index;
    let vp = s.viewports[i];
    "<div class=\"split-viewport "@ + (if active { "active"@ } else { Seq::<char>::empty() })
        + "\">\n                    <div class=\"vp-header\" style=\"background: "@
        + s.sectors[vp.sector_index as int].color + ";\">VP"@ + dec((i + 1) as nat) + " "@
        + (if active { "\u{25c9}"@ } else { Seq::<char>::empty() })
        + "</div>\n                    <div class=\"vp-level\">"@ + level_name(vp.current_level)
        + "</div>\n                </div>"@
}

/// The first `n` viewports of the split view.
pub open spec fn split_tiles(s: StateView, n: nat) -> Seq<char>
    decreases n,
{
    if n == 0 {
        Seq::<char>::empty()
    } else {
        split_tiles(s, (n - 1) as nat) + split_tile(s, n - 1)
    }
}

/// The split view: every viewport with its level.
pub open spec fn split_view(s: StateView) -> Seq<char> {
    "<div class=\"minimap-split-view\">\n            <div class=\"split-indicator\">SPLIT VIEW MODE</div>\n            <div class=\"viewport-grid\">"@
        + split_tiles(s, s.viewports.len()) + "</div></div>"@
}

/// What the map shows at the state's level.
pub open spec fn map_content(s: StateView, m: MiniMap) -> Seq<char> {
    match s.current_level {
        HierarchyLevel::GlobalOverview => global_overview(s, m.selected_sector),
        HierarchyLevel::CommandHub => command_hub_view(s, m.config.show_other_sectors),
        HierarchyLevel::SplitView => split_view(s),
        _ => focus_view(s, m.config.show_viewports, m.selected_viewport),
    }
}

/// The whole map.
pub open spec fn map_html(s: StateView, m: MiniMap) -> Seq<char> {
    let active = m.state == MiniMapState::Active;
    "<div class=\"tactical-minimap "@ + position_class(m.config.position) + " "@
        + (if active { "minimap-active"@ } else { "minimap-passive"@ }) + "\" style=\"opacity: "@
        + milli_text((if active { m.config.active_opacity_milli } else { m.config.passive_opacity_milli }) as nat)
        + ";\">\n                <div class=\"minimap-header\">TACTICAL MINI-MAP</div>\n                <div class=\"minimap-content\">\n                    "@
        + map_content(s, m) + "\n                </div>\n                <div class=\"minimap-footer\">"@
        + legend(s.current_level, active) + "</div>\n            </div>"@
}

/// Every viewport shows an existing sector.
pub open spec fn viewports_valid(s: StateView) -> bool {
    forall|i: int| 0 <= i < s.viewports.len() ==> (#[trigger] s.viewports[i]).sector_index < s.sectors.len()
}

/// What the map reads exists at the state's level.
pub open spec fn renderable(s: StateView, show_viewports: bool) -> bool {
    match s.current_level {
        HierarchyLevel::GlobalOverview => s.active_viewport_index < s.viewports.len(),
        HierarchyLevel::CommandHub => s.wf(),
        HierarchyLevel::SplitView => viewports_valid(s),
        _ => s.wf() && (s.viewports.len() > 1 && show_viewports ==> viewports_valid(s)),
    }
}

proof fn lemma_ceil_sqrt_from(n: nat, c: nat)
    requires
        n >= 1,
        c == 0 || (c - 1) * (c - 1) < n,
    ensures
        ({
            let r = ceil_sqrt_from(n, c);
            &&& r >= 1
            &&& r <= n
            &&& r * r >= n
            &&& r >= c
        }),
    decreases n - c,
{
    if c * c >= n {
        if c == 0 {
        } else {
            assert(c <= n) by (nonlinear_arith)
                requires
                    c >= 1,
                    (c - 1) * (c - 1) < n,
            ;
        }
    } else {
        assert(c < n) by (nonlinear_arith)
            requires
                c * c < n,
        ;
        lemma_ceil_sqrt_from(n, c + 1);
    }
}

/// The columns of a grid of `n` cells.
fn grid_columns(n: usize) -> (c: usize)
    requires
        n >= 1,
    ensures
        c == ceil_sqrt(n as nat),
        1 <= c <= n,
{
    let mut c: usize = 0;
    proof {
        lemma_ceil_sqrt_from(n as nat, 0);
    }
    loop
        invariant
            c <= n,
            c == 0 || (c - 1) * (c - 1) < n,
            ceil_sqrt_from(n as nat, c as nat) == ceil_sqrt(n as nat),
        ensures
            c * c >= n,
        decreases n - c,
    {
        assert((c as u128) * (c as u128) < 0x1_0000_0000_0000_0000_0000_0000_0000_0000) by (nonlinear_arith)
            requires
                (c as u128) < 0x1_0000_0000_0000_0000,
        ;
        if (c as u128) * (c as u128) >= n as u128 {
            break;
        }
        assert(c < n) by (nonlinear_arith)
            requires
                c * c < n,
        ;
        c = c + 1;
    }
    proof {
        lemma_ceil_sqrt_from(n as nat, c as nat);
    }
    c
}

/// The cell along an axis of `k` cells, where it is below `n`.
fn cell_index(p: i64, k: usize, n: usize) -> (r: Option<usize>)
    ensures
        match r {
            Some(i) => i == cell_of(p, k as nat) && i < n,
            None => cell_of(p, k as nat) >= n,
        },
{
    if p <= 0 {
        if n > 0 {
            Some(0)
        } else {
            None
        }
    } else {
        assert((p as u128) * (k as u128) < 0x1_0000_0000_0000_0000_0000_0000_0000_0000) by (nonlinear_arith)
            requires
                (p as u128) < 0x8000_0000_0000_0000,
                (k as u128) < 0x1_0000_0000_0000_0000,
        ;
        let c: u128 = (p as u128) * (k as u128) / 1000;
        if c < n as u128 {
            Some(c as usize)
        } else {
            None
        }
    }
}

/// The cell of a grid of `n` cells under `(x, y)`, if there is one.
fn grid_cell_exec(x: i64, y: i64, n: usize) -> (r: Option<usize>)
    requires
        n >= 1,
    ensures
        match r {
            Some(i) => grid_cell(x, y, n as nat) == Some(i as nat),
            None => grid_cell(x, y, n as nat) is None,
        },
{
    let cols = grid_columns(n);
    let rows_wide: u128 = ((n as u128) + (cols as u128) - 1) / (cols as u128);
    assert(rows_wide <= n) by (nonlinear_arith)
        requires
            rows_wide == (n + cols - 1) / (cols as int),
            1 <= cols <= n,
    ;
    let rows = rows_wide as usize;
    let ghost cols_n = cols as nat;
    let ghost rows_n = ((n + cols - 1) / cols as int) as nat;
    assert(rows as nat == rows_n);
    match (cell_index(y, rows, n), cell_index(x, cols, n)) {
        (Some(row), Some(col)) => {
            assert((row as u128) * (cols as u128) + (col as u128) < 0x1_0000_0000_0000_0000_0000_0000_0000_0000)
                by (nonlinear_arith)
                requires
                    (row as u128) < 0x1_0000_0000_0000_0000,
                    (col as u128) < 0x1_0000_0000_0000_0000,
                    (cols as u128) < 0x1_0000_0000_0000_0000,
            ;
            let idx: u128 = (row as u128) * (cols as u128) + (col as u128);
            if idx < n as u128 {
                Some(idx as usize)
            } else {
                None
            }
        },
        (None, _) => {
            assert(cell_of(y, rows_n) * cols_n + cell_of(x, cols_n) >= n) by (nonlinear_arith)
                requires
                    cell_of(y, rows_n) >= n,
                    cols_n >= 1,
            ;
            None
        },
        (_, None) => {
            assert(cell_of(y, rows_n) * cols_n + cell_of(x, cols_n) >= n) by (nonlinear_arith)
                requires
                    cell_of(x, cols_n) >= n,
            ;
            None
        },
    }
}

impl MiniMap {
    /// A passive mini-map with the default configuration.
    pub fn new() -> (m: MiniMap)
        ensures
            m.state == MiniMapState::Passive,
            m.config.position == MiniMapPosition::BottomRight,
            m.config.hover_dwell_ms == 1000,
            m.last_hover_pos is None,
            m.selected_sector is None,
            m.selected_viewport is None,
    {
        Self::with_config(MiniMapConfig::default())
    }

    /// A passive mini-map.
    pub fn with_config(config: MiniMapConfig) -> (m: MiniMap)
        ensures
            m.config == config,
            m.state == MiniMapState::Passive,
            m.last_hover_pos is None,
            m.selected_sector is None,
            m.selected_viewport is None,
    {
        MiniMap {
            config,
            state: MiniMapState::Passive,
            last_hover_pos: None,
            selected_sector: None,
            selected_viewport: None,
        }
    }

    /// Whether the mini-map captures input.
    pub fn is_active(&self) -> (b: bool)
        ensures
            b == (self.state == MiniMapState::Active),
    {
        match self.state {
            MiniMapState::Active => true,
            _ => false,
        }
    }

    /// Activates the mini-map.
    pub fn activate(&mut self)
        ensures
            final(self).state == MiniMapState::Active,
            final(self).config == old(self).config,
            final(self).last_hover_pos == old(self).last_hover_pos,
            final(self).selected_sector == old(self).selected_sector,
            final(self).selected_viewport == old(self).selected_viewport,
    {
        self.state = MiniMapState::Active;
    }

    /// Returns the mini-map to passive, clearing the selection.
    pub fn deactivate(&mut self)
        ensures
            final(self).state == MiniMapState::Passive,
            final(self).selected_sector is None,
            final(self).selected_viewport is None,
            final(self).config == old(self).config,
            final(self).last_hover_pos == old(self).last_hover_pos,
    {
        self.state = MiniMapState::Passive;
        self.selected_sector = None;
        self.selected_viewport = None;
    }

    /// Switches between active and passive.
    pub fn toggle(&mut self)
        ensures
            *final(self) == toggled(*old(self)),
            old(self).state == MiniMapState::Active ==> final(self).state == MiniMapState::Passive
                && final(self).selected_sector is None && final(self).selected_viewport is None,
            old(self).state != MiniMapState::Active ==> final(self).state == MiniMapState::Active
                && final(self).selected_sector == old(self).selected_sector
                && final(self).selected_viewport == old(self).selected_viewport,
            final(self).config == old(self).config,
            final(self).last_hover_pos == old(self).last_hover_pos,
    {
        if self.is_active() {
            self.deactivate();
        } else {
            self.activate();
        }
    }

    /// The pointer is at `(x, y)` at `now`: the map starts its dwell where
    /// the pointer arrives or moves more than five pixels, and activates
    /// once the pointer has stayed still for the dwell time.
    pub fn handle_hover(&mut self, x: i64, y: i64, now: u64)
        ensures
            final(self).state == hover_next(old(self).state, old(self).last_hover_pos, x, y, now, old(self).config.hover_dwell_ms),
            final(self).last_hover_pos == Some((x, y)),
            final(self).config == old(self).config,
            final(self).selected_sector == old(self).selected_sector,
            final(self).selected_viewport == old(self).selected_viewport,
    {
        let dwelling = match self.state {
            MiniMapState::Passive => true,
            MiniMapState::Hovering { .. } => true,
            _ => false,
        };
        if dwelling {
            let start_dwell = match self.last_hover_pos {
                Some((lx, ly)) => {
                    let dx: i128 = x as i128 - lx as i128;
                    let dy: i128 = y as i128 - ly as i128;
                    dx > 5000 || dx < -5000 || dy > 5000 || dy < -5000
                },
                None => true,
            };
            if start_dwell {
                self.state = MiniMapState::Hovering { start_ms: now };
            }
            match self.state {
                MiniMapState::Hovering { start_ms } => {
                    let elapsed = if now >= start_ms { now - start_ms } else { 0 };
                    if elapsed >= self.config.hover_dwell_ms {
                        self.activate();
                    }
                },
                _ => {},
            }
        }
        self.last_hover_pos = Some((x, y));
    }

    /// The pointer left: a dwell in progress ends.
    pub fn handle_hover_exit(&mut self)
        ensures
            final(self).last_hover_pos is None,
            old(self).state is Hovering ==> final(self).state == MiniMapState::Passive,
            !(old(self).state is Hovering) ==> final(self).state == old(self).state,
            final(self).config == old(self).config,
            final(self).selected_sector == old(self).selected_sector,
            final(self).selected_viewport == old(self).selected_viewport,
    {
        self.last_hover_pos = None;
        match self.state {
            MiniMapState::Hovering { .. } => {
                self.state = MiniMapState::Passive;
            },
            _ => {},
        }
    }

    /// A click at `(x, y)`, in thousandths of the map: what an active map
    /// navigates to.
    pub fn handle_click(&self, x: i64, y: i64, state: &TosState) -> (r: Option<NavigationTarget>)
        requires
            self.state == MiniMapState::Active && state.sectors@.len() > 0
                && state.current_level != HierarchyLevel::GlobalOverview
                ==> state.active_viewport_index < state.viewports@.len(),
        ensures
            match r {
                Some(t) => self.state == MiniMapState::Active && click_target(
                    state@,
                    self.config.show_viewports,
                    x,
                    y,
                ) == Some((t.sector_index as nat, match t.viewport_index {
                    Some(v) => Some(v as nat),
                    None => None,
                })),
                None => self.state != MiniMapState::Active || click_target(
                    state@,
                    self.config.show_viewports,
                    x,
                    y,
                ) is None,
            },
    {
        if !self.is_active() {
            return None;
        }
        let n = state.sectors.len();
        if n == 0 {
            return None;
        }
        match state.current_level {
            HierarchyLevel::GlobalOverview => {
                match grid_cell_exec(x, y, n) {
                    Some(i) => Some(NavigationTarget { sector_index: i, viewport_index: None }),
                    None => None,
                }
            },
            _ => {
                let si = state.viewports[state.active_viewport_index].sector_index;
                let nv = state.viewports.len();
                if nv > 1 && self.config.show_viewports {
                    Some(NavigationTarget { sector_index: si, viewport_index: grid_cell_exec(x, y, nv) })
                } else {
                    Some(NavigationTarget { sector_index: si, viewport_index: None })
                }
            },
        }
    }
}

fn push_selected(out: &mut Vec<char>, sel: Option<usize>, i: usize)
    ensures
        final(out)@ == old(out)@ + selected_class(sel, i as int),
{
    match sel {
        Some(j) => {
            if j == i {
                push_str(out, "minimap-selected");
            } else {
                assert(old(out)@ + Seq::<char>::empty() =~= old(out)@);
            }
        },
        None => {
            assert(old(out)@ + Seq::<char>::empty() =~= old(out)@);
        },
    }
}

fn push_sector_tile(out: &mut Vec<char>, state: &TosState, i: usize, active_si: usize, sel: Option<usize>)
    requires
        i < state.sectors.len(),
    ensures
        final(out)@ == old(out)@ + sector_tile(state@.sectors[i as int], i as int, i == active_si, sel),
{
    let sector = &state.sectors[i];
    assert(sector@ == state@.sectors[i as int]);
    push_str(out, "<div class=\"minimap-sector ");
    if i == active_si {
        push_str(out, "minimap-sector-active");
    } else {
        push_str(out, "minimap-sector-dimmed");
    }
    push_str(out, " ");
    push_selected(out, sel, i);
    push_str(out, "\" data-sector=\"");
    push_u64(out, i as u64);
    push_str(out, "\" style=\"border-color: ");
    push_str(out, sector.color.as_str());
    push_str(out, ";\">\n                    <div class=\"sector-name\">");
    push_str(out, sector.name.as_str());
    push_str(out, "</div>\n                    <div class=\"sector-host\">");
    push_str(out, sector.host.as_str());
    push_str(out, "</div>\n                    <div class=\"sector-hubs\">");
    push_u64(out, sector.hubs.len() as u64);
    push_str(out, " hubs</div>\n                </div>");
    assert(out@ =~= old(out)@ + sector_tile(state@.sectors[i as int], i as int, i == active_si, sel));
}

fn push_sector_tiles(out: &mut Vec<char>, state: &TosState, sel: Option<usize>)
    requires
        state.active_viewport_index < state.viewports@.len(),
    ensures
        final(out)@ == old(out)@ + sector_tiles(
            state@.sectors,
            state@.active_viewport().sector_index,
            sel,
            state@.sectors.len(),
        ),
{
    let active_si = state.viewports[state.active_viewport_index].sector_index;
    let mut i: usize = 0;
    while i < state.sectors.len()
        invariant
            i <= state.sectors@.len(),
            active_si == state@.active_viewport().sector_index,
            out@ == old(out)@ + sector_tiles(state@.sectors, active_si, sel, i as nat),
        decreases state.sectors@.len() - i,
    {
        push_sector_tile(out, state, i, active_si, sel);
        assert(out@ =~= old(out)@ + sector_tiles(state@.sectors, active_si, sel, (i + 1) as nat));
        i = i + 1;
    }
}

fn push_dimmed_sectors(out: &mut Vec<char>, state: &TosState, skip: usize)
    ensures
        final(out)@ == old(out)@ + dimmed_sectors(state@.sectors, skip, state@.sectors.len()),
{
    let ghost ss = state@.sectors;
    let mut i: usize = 0;
    while i < state.sectors.len()
        invariant
            i <= state.sectors@.len(),
            ss == state@.sectors,
            out@ == old(out)@ + dimmed_sectors(ss, skip, i as nat),
        decreases state.sectors@.len() - i,
    {
        let ghost before = out@;
        if i != skip {
            let other = &state.sectors[i];
            assert(other@ == ss[i as int]);
            push_str(out, "<div class=\"minimap-sector-dimmed\" data-sector=\"");
            push_u64(out, i as u64);
            push_str(out, "\">\n                            <span style=\"color: ");
            push_str(out, other.color.as_str());
            push_str(out, ";\">\u{25c9}</span> ");
            push_str(out, other.name.as_str());
            push_str(out, "\n                        </div>");
            assert(out@ =~= before + dimmed_sector(ss[i as int], i as int));
        } else {
            assert(before + Seq::<char>::empty() =~= before);
        }
        i = i + 1;
    }
}

fn push_viewport_tile(out: &mut Vec<char>, state: &TosState, i: usize, sel: Option<usize>)
    requires
        i < state.viewports.len(),
        viewports_valid(state@),
    ensures
        final(out)@ == old(out)@ + viewport_tile(state@, i as int, sel),
{
    let vp = state.viewports[i];
    assert(state@.viewports[i as int] == vp);
    let sector = &state.sectors[vp.sector_index];
    assert(sector@ == state@.sectors[vp.sector_index as int]);
    push_str(out, "<div class=\"minimap-viewport ");
    if i == state.active_viewport_index {
        push_str(out, "viewport-active");
    } else {
        push_str(out, "viewport-inactive");
    }
    push_str(out, " ");
    push_selected(out, sel, i);
    push_str(out, "\" data-viewport=\"");
    push_u64(out, i as u64);
    push_str(out, "\">\n                        <div class=\"viewport-id\">VP");
    push_u64(out, (i + 1) as u64);
    push_str(out, "</div>\n                        <div class=\"viewport-sector\">");
    push_str(out, sector.name.as_str());
    push_str(out, "</div>\n                    </div>");
    assert(out@ =~= old(out)@ + viewport_tile(state@, i as int, sel));
}

fn push_viewport_tiles(out: &mut Vec<char>, state: &TosState, sel: Option<usize>)
    requires
        viewports_valid(state@),
    ensures
        final(out)@ == old(out)@ + viewport_tiles(state@, sel, state@.viewports.len()),
{
    let mut i: usize = 0;
    while i < state.viewports.len()
        invariant
            i <= state.viewports@.len(),
            viewports_valid(state@),
            out@ == old(out)@ + viewport_tiles(state@, sel, i as nat),
        decreases state.viewports@.len() - i,
    {
        push_viewport_tile(out, state, i, sel);
        assert(out@ =~= old(out)@ + viewport_tiles(state@, sel, (i + 1) as nat));
        i = i + 1;
    }
}

fn push_split_tile(out: &mut Vec<char>, state: &TosState, i: usize)
    requires
        i < state.viewports.len(),
        viewports_valid(state@),
    ensures
        final(out)@ == old(out)@ + split_tile(state@, i as int),
{
    let vp = state.viewports[i];
    assert(state@.viewports[i as int] == vp);
    let sector = &state.sectors[vp.sector_index];
    assert(sector@ == state@.sectors[vp.sector_index as int]);
    let active = i == state.active_viewport_index;
    push_str(out, "<div class=\"split-viewport ");
    if active {
        push_str(out, "active");
    }
    push_str(out, "\">\n                    <div class=\"vp-header\" style=\"background: ");
    push_str(out, sector.color.as_str());
    push_str(out, ";\">VP");
    push_u64(out, (i + 1) as u64);
    push_str(out, " ");
    if active {
        push_str(out, "\u{25c9}");
    }
    push_str(out, "</div>\n                    <div class=\"vp-level\">");
    push_str(out, level_name_str(vp.current_level));
    push_str(out, "</div>\n                </div>");
    assert(out@ =~= old(out)@ + split_tile(state@, i as int));
}

fn push_split_tiles(out: &mut Vec<char>, state: &TosState)
    requires
        viewports_valid(state@),
    ensures
        final(out)@ == old(out)@ + split_tiles(state@, state@.viewports.len()),
{
    let mut i: usize = 0;
    while i < state.viewports.len()
        invariant
            i <= state.viewports@.len(),
            viewports_valid(state@),
            out@ == old(out)@ + split_tiles(state@, i as nat),
        decreases state.viewports@.len() - i,
    {
        push_split_tile(out, state, i);
        assert(out@ =~= old(out)@ + split_tiles(state@, (i + 1) as nat));
        i = i + 1;
    }
}

/// The title and class of the focused application of a hub.
fn focused_texts(hub: &crate::model::CommandHub, app_index: Option<usize>) -> (r: (Vec<char>, Vec<char>))
    ensures
        r.0@ == focused_title(hub@, app_index),
        r.1@ == focused_class(hub@, app_index),
{
    let mut title: Vec<char> = Vec::new();
    let mut class: Vec<char> = Vec::new();
    match app_index {
        Some(i) => {
            if i < hub.applications.len() {
                let a = &hub.applications[i];
                assert(a@ == hub@.applications[i as int]);
                push_str(&mut title, a.title.as_str());
                push_str(&mut class, a.app_class.as_str());
            } else {
                push_str(&mut title, "No Application");
            }
        },
        None => {
            push_str(&mut title, "No Application");
        },
    }
    assert(title@ =~= focused_title(hub@, app_index));
    assert(class@ =~= focused_class(hub@, app_index));
    (title, class)
}

#[verifier::rlimit(30)]
fn push_focus_card(out: &mut Vec<char>, sector: &crate::model::Sector, hub: &crate::model::CommandHub, app_index: Option<usize>)
    ensures
        final(out)@ == old(out)@ + focus_card(sector@, hub@, app_index),
{
    let (title, class) = focused_texts(hub, app_index);
    let ghost t = title@;
    let ghost c = class@;
    let ghost m = mode_name(hub@.mode);
    push_str(out, "<div class=\"minimap-app-focus\">\n                <div class=\"app-path\">\n                    <span style=\"color: ");
    push_str(out, sector.color.as_str());
    push_str(out, ";\">");
    push_str(out, sector.name.as_str());
    push_str(out, "</span> \u{2192} ");
    push_str(out, mode_name_str(hub.mode));
    push_str(out, " \u{2192} <strong>");
    crate::text::push_chars(out, &title);
    push_str(out, "</strong>\n                </div>\n                <div class=\"active-app\">\n                    <div class=\"app-title\">");
    crate::text::push_chars(out, &title);
    push_str(out, "</div>\n                    <div class=\"app-class\">");
    crate::text::push_chars(out, &class);
    push_str(out, "</div>\n                </div>\n            </div>");
    assert(out@ =~= old(out)@ + focus_card(sector@, hub@, app_index));
}

fn level_name_str(l: HierarchyLevel) -> (s: &'static str)
    ensures
        s@ == level_name(l),
{
    match l {
        HierarchyLevel::GlobalOverview => "GlobalOverview",
        HierarchyLevel::CommandHub => "CommandHub",
        HierarchyLevel::ApplicationFocus => "ApplicationFocus",
        HierarchyLevel::DetailInspector => "DetailInspector",
        HierarchyLevel::BufferInspector => "BufferInspector",
        HierarchyLevel::SplitView => "SplitView",
    }
}

fn mode_name_str(m: CommandHubMode) -> (s: &'static str)
    ensures
        s@ == mode_name(m),
{
    match m {
        CommandHubMode::Command => "Command",
        CommandHubMode::Directory => "Directory",
        CommandHubMode::Activity => "Activity",
        CommandHubMode::Search => "Search",
        CommandHubMode::Ai => "AI",
    }
}

impl MiniMap {
    fn push_global_overview(&self, out: &mut Vec<char>, state: &TosState)
        requires
            state.active_viewport_index < state.viewports@.len(),
        ensures
            final(out)@ == old(out)@ + global_overview(state@, self.selected_sector),
    {
        push_str(out, "<div class=\"minimap-sectors-grid\">");
        push_sector_tiles(out, state, self.selected_sector);
        push_str(out, "</div>");
        assert(out@ =~= old(out)@ + global_overview(state@, self.selected_sector));
    }

    fn push_command_hub(&self, out: &mut Vec<char>, state: &TosState)
        requires
            state@.wf(),
        ensures
            final(out)@ == old(out)@ + command_hub_view(state@, self.config.show_other_sectors),
    {
        let viewport = state.viewports[state.active_viewport_index];
        let sector = &state.sectors[viewport.sector_index];
        let hub = &sector.hubs[viewport.hub_index];
        assert(sector@ == state@.active_sector());
        assert(hub@ == state@.active_hub());
        let (icon, name) = match hub.mode {
            CommandHubMode::Command => ("\u{2318}", "Command"),
            CommandHubMode::Directory => ("\u{1f4c1}", "Directory"),
            CommandHubMode::Activity => ("\u{26a1}", "Activity"),
            CommandHubMode::Search => ("\u{1f50d}", "Search"),
            CommandHubMode::Ai => ("\u{2728}", "AI"),
        };
        push_str(out, "<div class=\"minimap-current-sector\">\n                <div class=\"sector-header\" style=\"border-color: ");
        push_str(out, sector.color.as_str());
        push_str(out, ";\">\n                    <span class=\"sector-indicator\">\u{25c9}</span>\n                    <span class=\"sector-name\">");
        push_str(out, sector.name.as_str());
        push_str(out, "</span>\n                </div>\n                <div class=\"hub-info\">\n                    <div class=\"hub-mode\">");
        push_str(out, icon);
        push_str(out, " ");
        push_str(out, name);
        push_str(out, " Mode</div>\n                    <div class=\"hub-apps\">");
        push_u64(out, hub.applications.len() as u64);
        push_str(out, " applications</div>\n                </div>\n            </div>");
        assert(out@ =~= old(out)@ + hub_card(state@.active_sector(), state@.active_hub()));
        let ghost mid = out@;
        if self.config.show_other_sectors {
            push_str(out, "<div class=\"minimap-other-sectors\">");
            push_dimmed_sectors(out, state, viewport.sector_index);
            push_str(out, "</div>");
        }
        assert(out@ =~= old(out)@ + command_hub_view(state@, self.config.show_other_sectors));
    }

    fn push_application_focus(&self, out: &mut Vec<char>, state: &TosState)
        requires
            state@.wf(),
            state@.viewports.len() > 1 && self.config.show_viewports ==> viewports_valid(state@),
        ensures
            final(out)@ == old(out)@ + focus_view(state@, self.config.show_viewports, self.selected_viewport),
    {
        let viewport = state.viewports[state.active_viewport_index];
        let sector = &state.sectors[viewport.sector_index];
        let hub = &sector.hubs[viewport.hub_index];
        assert(sector@ == state@.active_sector());
        assert(hub@ == state@.active_hub());
        push_focus_card(out, sector, hub, viewport.active_app_index);
        let ghost mid = out@;
        if state.viewports.len() > 1 && self.config.show_viewports {
            push_str(out, "<div class=\"minimap-viewports\">");
            push_viewport_tiles(out, state, self.selected_viewport);
            push_str(out, "</div>");
        }
        assert(out@ =~= old(out)@ + focus_view(state@, self.config.show_viewports, self.selected_viewport));
    }

    fn push_split_view(&self, out: &mut Vec<char>, state: &TosState)
        requires
            viewports_valid(state@),
        ensures
            final(out)@ == old(out)@ + split_view(state@),
    {
        push_str(out, "<div class=\"minimap-split-view\">\n            <div class=\"split-indicator\">SPLIT VIEW MODE</div>\n            <div class=\"viewport-grid\">");
        push_split_tiles(out, state);
        push_str(out, "</div></div>");
        assert(out@ =~= old(out)@ + split_view(state@));
    }

    /// The footer.
    fn push_legend(&self, out: &mut Vec<char>, level: HierarchyLevel)
        ensures
            final(out)@ == old(out)@ + legend(level, self.state == MiniMapState::Active),
    {
        let label = match level {
            HierarchyLevel::GlobalOverview => "Level 1: Global",
            HierarchyLevel::CommandHub => "Level 2: Hub",
            HierarchyLevel::ApplicationFocus => "Level 3: App",
            HierarchyLevel::DetailInspector => "Level 3+: Detail",
            HierarchyLevel::BufferInspector => "Level 3+: Buffer",
            HierarchyLevel::SplitView => "Split View",
        };
        push_str(out, label);
        if self.is_active() {
            push_str(out, " | Click to navigate | Press Ctrl+M to close");
        } else {
            push_str(out, " | Hover or Ctrl+M to activate");
        }
        assert(out@ =~= old(out)@ + legend(level, self.state == MiniMapState::Active));
    }

    /// The mini-map as HTML.
    pub fn render(&self, state: &TosState) -> (html: String)
        requires
            renderable(state@, self.config.show_viewports),
        ensures
            html@ == map_html(state@, *self),
    {
        let active = self.is_active();
        let mut out: Vec<char> = Vec::new();
        push_str(&mut out, "<div class=\"tactical-minimap ");
        push_str(&mut out, match self.config.position {
            MiniMapPosition::TopLeft => "minimap-topleft",
            MiniMapPosition::TopRight => "minimap-topright",
            MiniMapPosition::BottomLeft => "minimap-bottomleft",
            MiniMapPosition::BottomRight => "minimap-bottomright",
            MiniMapPosition::Center => "minimap-center",
        });
        push_str(&mut out, " ");
        push_str(&mut out, if active { "minimap-active" } else { "minimap-passive" });
        push_str(&mut out, "\" style=\"opacity: ");
        push_milli(&mut out, if active { self.config.active_opacity_milli } else { self.config.passive_opacity_milli });
        push_str(&mut out, ";\">\n                <div class=\"minimap-header\">TACTICAL MINI-MAP</div>\n                <div class=\"minimap-content\">\n                    ");
        let ghost head = out@;
        match state.current_level {
            HierarchyLevel::GlobalOverview => self.push_global_overview(&mut out, state),
            HierarchyLevel::CommandHub => self.push_command_hub(&mut out, state),
            HierarchyLevel::SplitView => self.push_split_view(&mut out, state),
            _ => self.push_application_focus(&mut out, state),
        }
        assert(out@ == head + map_content(state@, *self));
        push_str(&mut out, "\n                </div>\n                <div class=\"minimap-footer\">");
        self.push_legend(&mut out, state.current_level);
        push_str(&mut out, "</div>\n            </div>");
        assert(out@ =~= map_html(state@, *self));
        string_of(&out)
    }
}

/// Holding the pointer still activates the map: a hovering map whose
/// pointer has not moved is active once the dwell time has passed since the
/// dwell began.
pub proof fn law_dwell_activates(start_ms: u64, x: i64, y: i64, now: u64, dwell: u64)
    requires
        now >= start_ms,
        now - start_ms >= dwell,
    ensures
        hover_next(MiniMapState::Hovering { start_ms }, Some((x, y)), x, y, now, dwell) == MiniMapState::Active,
{
}

} // verus!
