//! The compositor state that the shell integration and the collaboration
//! layer read and update: sectors of command hubs, the viewports that show
//! them, and the level of the navigation hierarchy.
use vstd::prelude::*;
use crate::shell_api::{DirectoryListing, ListingView, opt_view};
use crate::remote::ConnectionType;
use crate::collaboration::Participant;

verus! {

/// Level of the navigation hierarchy.
#[derive(Debug, Clone, Copy, PartialEq, Eq, Structural)]
pub enum HierarchyLevel {
    GlobalOverview,
    CommandHub,
    ApplicationFocus,
    DetailInspector,
    BufferInspector,
    SplitView,
}

/// Mode of a command hub.
#[derive(Debug, Clone, Copy, PartialEq, Eq, Structural)]
pub enum CommandHubMode {
    Command,
    Directory,
    Activity,
    /// Searching the system's domains
    Search,
    /// Talking with the assistant
    Ai,
}

/// An application window of a hub.
#[derive(Debug, Clone, PartialEq, Eq)]
pub struct Application {
    pub id: u128,
    pub title: String,
    pub app_class: String,
    /// Process of the application, if known
    pub pid: Option<u32>,
}

pub struct AppView {
    pub id: u128,
    pub title: Seq<char>,
    pub app_class: Seq<char>,
    pub pid: Option<u32>,
}

impl View for Application {
    type V = AppView;

    open spec fn view(&self) -> AppView {
        AppView { id: self.id, title: self.title@, app_class: self.app_class@, pid: self.pid }
    }
}

/// A context menu opened on a directory entry.
#[derive(Debug, Clone, PartialEq, Eq)]
pub struct ContextMenu {
    pub target: String,
    pub x: i32,
    pub y: i32,
    pub actions: Vec<String>,
}

pub struct MenuView {
    pub target: Seq<char>,
    pub x: i32,
    pub y: i32,
    pub actions: Seq<Seq<char>>,
}

impl View for ContextMenu {
    type V = MenuView;

    open spec fn view(&self) -> MenuView {
        MenuView { target: self.target@, x: self.x, y: self.y, actions: string_views(self.actions@) }
    }
}

/// A message on the direct comms channel.
#[derive(Debug, Clone, PartialEq, Eq)]
pub struct CommsMessage {
    pub from: String,
    pub body: String,
    /// Time of day it was sent, as text
    pub timestamp: String,
}

/// A command hub: the prompt, its output and what the shell reported.
#[derive(Debug, Clone)]
pub struct CommandHub {
    pub id: u128,
    pub mode: CommandHubMode,
    pub prompt: String,
    pub applications: Vec<Application>,
    pub active_app_index: Option<usize>,
    pub terminal_output: Vec<String>,
    pub confirmation_required: Option<String>,
    pub current_directory: String,
    pub show_hidden_files: bool,
    /// Selected entries, in the order they were selected, each once
    pub selected_files: Vec<String>,
    pub context_menu: Option<ContextMenu>,
    pub shell_listing: Option<DirectoryListing>,
    pub output_mode_centered: bool,
    pub left_region_visible: bool,
}

pub struct HubView {
    pub id: u128,
    pub mode: CommandHubMode,
    pub prompt: Seq<char>,
    pub applications: Seq<AppView>,
    pub active_app_index: Option<usize>,
    pub terminal_output: Seq<Seq<char>>,
    pub confirmation_required: Option<Seq<char>>,
    pub current_directory: Seq<char>,
    pub show_hidden_files: bool,
    pub selected_files: Seq<Seq<char>>,
    pub context_menu: Option<MenuView>,
    pub shell_listing: Option<ListingView>,
    pub output_mode_centered: bool,
    pub left_region_visible: bool,
}

/// The views of a sequence of strings.
pub open spec fn string_views(v: Seq<String>) -> Seq<Seq<char>> {
    v.map_values(|s: String| s@)
}

impl View for CommandHub {
    type V = HubView;

    open spec fn view(&self) -> HubView {
        HubView {
            id: self.id,
            mode: self.mode,
            prompt: self.prompt@,
            applications: self.applications@.map_values(|a: Application| a@),
            active_app_index: self.active_app_index,
            terminal_output: string_views(self.terminal_output@),
            confirmation_required: opt_view(self.confirmation_required),
            current_directory: self.current_directory@,
            show_hidden_files: self.show_hidden_files,
            selected_files: string_views(self.selected_files@),
            context_menu: match self.context_menu {
                Some(m) => Some(m@),
                None => None,
            },
            shell_listing: match self.shell_listing {
                Some(l) => Some(l@),
                None => None,
            },
            output_mode_centered: self.output_mode_centered,
            left_region_visible: self.left_region_visible,
        }
    }
}

/// A sector: a named group of command hubs.
#[derive(Debug, Clone)]
pub struct Sector {
    pub id: u128,
    pub name: String,
    /// Accent colour, as CSS text
    pub color: String,
    /// Host the sector runs on
    pub host: String,
    /// How the sector is reached
    pub connection_type: ConnectionType,
    pub hubs: Vec<CommandHub>,
    /// Who takes part in the sector's session
    pub participants: Vec<Participant>,
    /// The hub the sector shows when entered
    pub active_hub_index: usize,
    pub icon: String,
    /// Whether the sector's web portal is open, and its address
    pub portal_active: bool,
    pub portal_url: Option<String>,
    pub description: String,
    /// The name of the sector's type
    pub sector_type_name: String,
}

pub struct SectorView {
    pub id: u128,
    pub name: Seq<char>,
    pub color: Seq<char>,
    pub host: Seq<char>,
    pub connection_type: ConnectionType,
    pub hubs: Seq<HubView>,
    pub participants: Seq<Participant>,
    pub active_hub_index: usize,
    pub icon: Seq<char>,
    pub portal_active: bool,
    pub portal_url: Option<Seq<char>>,
    pub description: Seq<char>,
    pub sector_type_name: Seq<char>,
}

impl View for Sector {
    type V = SectorView;

    open spec fn view(&self) -> SectorView {
        SectorView {
            id: self.id,
            name: self.name@,
            color: self.color@,
            host: self.host@,
            connection_type: self.connection_type,
            hubs: self.hubs@.map_values(|h: CommandHub| h@),
            participants: self.participants@,
            active_hub_index: self.active_hub_index,
            icon: self.icon@,
            portal_active: self.portal_active,
            portal_url: opt_view(self.portal_url),
            description: self.description@,
            sector_type_name: self.sector_type_name@,
        }
    }
}

/// What a viewport shows: a hub of a sector, and maybe one application.
#[derive(Debug, Clone, Copy, PartialEq, Eq)]
pub struct Viewport {
    pub sector_index: usize,
    pub hub_index: usize,
    pub active_app_index: Option<usize>,
    pub current_level: HierarchyLevel,
    pub bezel_expanded: bool,
}

/// The part of the compositor state that the shell integration and the
/// collaboration layer work on.
#[derive(Debug, Clone)]
pub struct TosState {
    pub current_level: HierarchyLevel,
    pub sectors: Vec<Sector>,
    pub viewports: Vec<Viewport>,
    pub active_viewport_index: usize,
    /// Whether the security layer holds the system in tactical lockdown.
    pub tactical_lockdown: bool,
    /// Consecutive escape presses
    pub escape_count: u32,
    pub settings_open: bool,
    pub performance_alert: bool,
    /// Frame rate, in thousandths of a frame per second
    pub fps_milli: u32,
    pub comms_visible: bool,
    pub comms_messages: Vec<CommsMessage>,
}

pub struct StateView {
    pub current_level: HierarchyLevel,
    pub sectors: Seq<SectorView>,
    pub viewports: Seq<Viewport>,
    pub active_viewport_index: usize,
    pub tactical_lockdown: bool,
    pub escape_count: u32,
    pub settings_open: bool,
    pub performance_alert: bool,
    pub fps_milli: u32,
    pub comms_visible: bool,
    pub comms_messages: Seq<CommsMessage>,
}

impl View for TosState {
    type V = StateView;

    open spec fn view(&self) -> StateView {
        StateView {
            current_level: self.current_level,
            sectors: self.sectors@.map_values(|s: Sector| s@),
            viewports: self.viewports@,
            active_viewport_index: self.active_viewport_index,
            tactical_lockdown: self.tactical_lockdown,
            escape_count: self.escape_count,
            settings_open: self.settings_open,
            performance_alert: self.performance_alert,
            fps_milli: self.fps_milli,
            comms_visible: self.comms_visible,
            comms_messages: self.comms_messages@,
        }
    }
}

impl StateView {
    /// The active viewport points at an existing hub.
    pub open spec fn wf(self) -> bool {
        &&& self.active_viewport_index < self.viewports.len()
        &&& self.active_viewport().sector_index < self.sectors.len()
        &&& self.active_viewport().hub_index
            < self.sectors[self.active_viewport().sector_index as int].hubs.len()
    }

    pub open spec fn active_viewport(self) -> Viewport {
        self.viewports[self.active_viewport_index as int]
    }

    pub open spec fn active_sector(self) -> SectorView {
        self.sectors[self.active_viewport().sector_index as int]
    }

    /// The hub shown by the active viewport.
    pub open spec fn active_hub(self) -> HubView {
        self.active_sector().hubs[self.active_viewport().hub_index as int]
    }

    /// This state with the active hub replaced by `h`.
    pub open spec fn with_active_hub(self, h: HubView) -> StateView {
        let si = self.active_viewport().sector_index as int;
        let hi = self.active_viewport().hub_index as int;
        let s = self.sectors[si];
        StateView {
            sectors: self.sectors.update(si, SectorView { hubs: s.hubs.update(hi, h), ..s }),
            ..self
        }
    }
}

/// A hub with nothing in it, to stand in while another is edited.
pub open spec fn blank_hub_view() -> HubView {
    HubView {
        id: 0,
        mode: CommandHubMode::Command,
        prompt: Seq::empty(),
        applications: Seq::empty(),
        active_app_index: None,
        terminal_output: Seq::empty(),
        confirmation_required: None,
        current_directory: Seq::empty(),
        show_hidden_files: false,
        selected_files: Seq::empty(),
        context_menu: None,
        shell_listing: None,
        output_mode_centered: false,
        left_region_visible: false,
    }
}

impl CommandHub {
    /// A hub with nothing in it.
    pub fn blank() -> (h: CommandHub)
        ensures
            h@ == blank_hub_view(),
    {
        let h = CommandHub {
            id: 0,
            mode: CommandHubMode::Command,
            prompt: String::new(),
            applications: Vec::new(),
            active_app_index: None,
            terminal_output: Vec::new(),
            confirmation_required: None,
            current_directory: String::new(),
            show_hidden_files: false,
            selected_files: Vec::new(),
            context_menu: None,
            shell_listing: None,
            output_mode_centered: false,
            left_region_visible: false,
        };
        assert(h@.applications =~= Seq::<AppView>::empty());
        assert(h@.terminal_output =~= Seq::<Seq<char>>::empty());
        assert(h@.selected_files =~= Seq::<Seq<char>>::empty());
        h
    }
}

/// Replacing the active hub keeps the state well formed, and a second
/// replacement undoes the first.
pub proof fn lemma_with_active_hub(s: StateView, a: HubView, b: HubView)
    requires
        s.wf(),
    ensures
        s.with_active_hub(a).wf(),
        s.with_active_hub(a).active_hub() == a,
        s.with_active_hub(a).with_active_hub(b) == s.with_active_hub(b),
        s.with_active_hub(a).active_viewport() == s.active_viewport(),
{
    let si = s.active_viewport().sector_index as int;
    let hi = s.active_viewport().hub_index as int;
    let t = s.with_active_hub(a);
    assert(t.sectors[si].hubs.update(hi, b) =~= s.sectors[si].hubs.update(hi, b));
    assert(t.with_active_hub(b).sectors =~= s.with_active_hub(b).sectors);
}

impl TosState {
    /// Exchanges the active hub with `h`.
    pub fn swap_active_hub(&mut self, h: &mut CommandHub)
        requires
            old(self)@.wf(),
        ensures
            final(self)@ == old(self)@.with_active_hub(old(h)@),
            final(h)@ == old(self)@.active_hub(),
            final(self)@.wf(),
    {
        let vp = self.viewports[self.active_viewport_index];
        let ghost s0 = self@;
        let ghost si = vp.sector_index as int;
        let ghost hi = vp.hub_index as int;
        let mut sector = Sector {
            id: 0,
            name: String::new(),
            color: String::new(),
            host: String::new(),
            connection_type: ConnectionType::Local,
            hubs: Vec::new(),
            participants: Vec::new(),
            active_hub_index: 0,
            icon: String::new(),
            portal_active: false,
            portal_url: None,
            description: String::new(),
            sector_type_name: String::new(),
        };
        std::mem::swap(&mut sector, &mut self.sectors[vp.sector_index]);
        assert(sector@ == s0.sectors[si]);
        std::mem::swap(h, &mut sector.hubs[vp.hub_index]);
        std::mem::swap(&mut sector, &mut self.sectors[vp.sector_index]);
        assert(self@.sectors[si].hubs =~= s0.sectors[si].hubs.update(hi, old(h)@));
        assert(self@.sectors =~= s0.with_active_hub(old(h)@).sectors);
        proof {
            lemma_with_active_hub(s0, old(h)@, old(h)@);
        }
    }
}

/// The state with application `ai` of hub `hi` of sector `si` removed.
pub open spec fn app_removed(s: StateView, si: int, hi: int, ai: int) -> StateView {
    let sec = s.sectors[si];
    let h = sec.hubs[hi];
    StateView {
        sectors: s.sectors.update(
            si,
            SectorView { hubs: sec.hubs.update(hi, HubView { applications: h.applications.remove(ai), ..h }), ..sec },
        ),
        ..s
    }
}

impl TosState {
    /// Removes application `ai` of hub `hi` of sector `si`.
    pub fn remove_app(&mut self, si: usize, hi: usize, ai: usize) -> (app: Application)
        requires
            si < old(self)@.sectors.len(),
            hi < old(self)@.sectors[si as int].hubs.len(),
            ai < old(self)@.sectors[si as int].hubs[hi as int].applications.len(),
        ensures
            final(self)@ == app_removed(old(self)@, si as int, hi as int, ai as int),
            app@ == old(self)@.sectors[si as int].hubs[hi as int].applications[ai as int],
    {
        let ghost s0 = self@;
        let mut sector = Sector {
            id: 0,
            name: String::new(),
            color: String::new(),
            host: String::new(),
            connection_type: ConnectionType::Local,
            hubs: Vec::new(),
            participants: Vec::new(),
            active_hub_index: 0,
            icon: String::new(),
            portal_active: false,
            portal_url: None,
            description: String::new(),
            sector_type_name: String::new(),
        };
        std::mem::swap(&mut sector, &mut self.sectors[si]);
        assert(sector@ == s0.sectors[si as int]);
        let mut hub = CommandHub::blank();
        std::mem::swap(&mut hub, &mut sector.hubs[hi]);
        assert(hub@ == s0.sectors[si as int].hubs[hi as int]);
        let app = hub.applications.remove(ai);
        assert(hub@.applications =~= s0.sectors[si as int].hubs[hi as int].applications.remove(ai as int));
        std::mem::swap(&mut hub, &mut sector.hubs[hi]);
        std::mem::swap(&mut sector, &mut self.sectors[si]);
        assert(self@.sectors[si as int].hubs =~= app_removed(s0, si as int, hi as int, ai as int).sectors[si as int].hubs);
        assert(self@.sectors =~= app_removed(s0, si as int, hi as int, ai as int).sectors);
        app
    }
}

} // verus!
