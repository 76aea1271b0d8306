//! Tactical reset: the two-level emergency recovery.
//!
//! Level 1, sector reset: the processes of the current sector are asked to
//! terminate, its hubs give way to one fresh command hub, and an undo stays
//! available for a while. Level 2, system reset: a dialog offers restarting
//! the compositor, logging out or cancelling; the choice is confirmed by a
//! tactile gesture and carried out after a countdown.
//!
//! Times are milliseconds supplied by the caller; confirmation progress is
//! in thousandths.
use vstd::prelude::*;
use crate::text::{push_str, push_u64, string_of, dec};
use crate::ids::{uuid_text, id_to_string};
use crate::model::{TosState, StateView, Sector, CommandHub, CommandHubMode, HierarchyLevel, Viewport};

verus! {

/// Kind of reset.
#[derive(Debug, Clone, Copy, PartialEq, Eq)]
pub enum ResetLevel {
    /// Level 1: reset the current sector only
    Sector,
    /// Level 2: system-wide reset (compositor or logout)
    System,
}

/// Option of the system reset dialog.
#[derive(Debug, Clone, Copy, PartialEq, Eq, Structural)]
pub enum SystemResetOption {
    /// Restart the TOS compositor
    RestartCompositor,
    /// Log out and return to the login manager
    LogOut,
    /// Cancel the reset
    Cancel,
}

/// How a system reset is confirmed.
#[derive(Debug, Clone, PartialEq, Eq)]
pub enum TactileMethod {
    /// Hold a button or key
    Hold { duration_ms: u64 },
    /// Slide a control across the screen
    Slider,
    /// Say a phrase
    Voice(String),
    /// Press several buttons at once
    MultiButton { buttons: usize },
}

/// Reset behaviour.
#[derive(Debug, Clone, PartialEq, Eq)]
pub struct ResetConfig {
    /// Offer an undo after a sector reset
    pub enable_sector_undo: bool,
    /// How long the undo is offered, in seconds
    pub undo_duration_secs: u64,
    /// Confirmation method of system resets
    pub default_tactile_method: TactileMethod,
    /// Countdown before a system reset runs, in seconds
    pub countdown_secs: u64,
    /// Ask before a sector reset
    pub confirm_sector_reset: bool,
    /// Keep the sector before resetting it, for the undo
    pub save_state_before_reset: bool,
}

/// The default configuration: undo for five seconds, confirmation by a
/// two-second hold, a three-second countdown, no question before a sector
/// reset, and the sector kept for the undo.
pub open spec fn default_reset_config() -> ResetConfig {
    ResetConfig {
        enable_sector_undo: true,
        undo_duration_secs: 5,
        default_tactile_method: TactileMethod::Hold { duration_ms: 2000 },
        countdown_secs: 3,
        confirm_sector_reset: false,
        save_state_before_reset: true,
    }
}

impl ResetConfig {
    /// Undo for five seconds, confirmation by a two-second hold, a
    /// three-second countdown, and the sector kept for the undo.
    pub fn default() -> (c: ResetConfig)
        ensures
            c == default_reset_config(),
            c.enable_sector_undo,
            c.undo_duration_secs == 5,
            c.default_tactile_method == (TactileMethod::Hold { duration_ms: 2000 }),
            c.countdown_secs == 3,
            !c.confirm_sector_reset,
            c.save_state_before_reset,
    {
        ResetConfig {
            enable_sector_undo: true,
            undo_duration_secs: 5,
            default_tactile_method: TactileMethod::Hold { duration_ms: 2000 },
            countdown_secs: 3,
            confirm_sector_reset: false,
            save_state_before_reset: true,
        }
    }
}

/// Where a reset stands.
#[derive(Debug, Clone, PartialEq, Eq)]
pub enum ResetOperationState {
    /// No reset in progress
    Idle,
    /// A sector was reset at `start_ms`; the undo may be available
    SectorResetting { sector_id: u128, start_ms: u64 },
    /// The system reset dialog is shown
    SystemDialogShown,
    /// A system reset option awaits its tactile confirmation
    TactileConfirming { option: SystemResetOption, method: TactileMethod, progress_milli: u32 },
    /// Counting down before the option runs
    Countdown { option: SystemResetOption, remaining_secs: u64 },
    /// The reset runs
    Executing,
}

/// Errors of reset operations.
#[derive(Debug, Clone, PartialEq, Eq)]
pub enum ResetError {
    /// A reset is already in progress
    ResetInProgress,
    /// No reset in progress to undo
    NoResetInProgress,
    /// Undo time has expired
    UndoExpired,
    /// No saved state to restore
    NoSavedState,
    /// Invalid operation for current state
    InvalidState,
    /// System command execution failed
    ExecutionFailed(String),
}

impl ResetError {
    pub open spec fn message(self) -> Seq<char> {
        match self {
            ResetError::ResetInProgress => "A reset is already in progress"@,
            ResetError::NoResetInProgress => "No reset in progress"@,
            ResetError::UndoExpired => "Undo time has expired"@,
            ResetError::NoSavedState => "No saved state available"@,
            ResetError::InvalidState => "Invalid operation for current state"@,
            ResetError::ExecutionFailed(e) => "Execution failed: "@ + e@,
        }
    }

    /// The error message.
    pub fn to_string(&self) -> (s: String)
        ensures
            s@ == self.message(),
    {
        match self {
            ResetError::ResetInProgress => String::from_str("A reset is already in progress"),
            ResetError::NoResetInProgress => String::from_str("No reset in progress"),
            ResetError::UndoExpired => String::from_str("Undo time has expired"),
            ResetError::NoSavedState => String::from_str("No saved state available"),
            ResetError::InvalidState => String::from_str("Invalid operation for current state"),
            ResetError::ExecutionFailed(e) => {
                let mut v: Vec<char> = Vec::new();
                push_str(&mut v, "Execution failed: ");
                push_str(&mut v, e.as_str());
                assert(v@ =~= self.message());
                string_of(&v)
            },
        }
    }
}

/// The tactical reset manager. The commands of a system reset are run by
/// the caller.
#[derive(Debug)]
pub struct TacticalReset {
    pub config: ResetConfig,
    pub state: ResetOperationState,
    /// The sector kept for an undo
    pub saved_sector: Option<Sector>,
}

/// Elapsed time from `then` to `now`, never negative.
pub open spec fn since(now: u64, then: u64) -> int {
    if now >= then {
        now - then
    } else {
        0
    }
}

/// The progress a confirmation needs, in thousandths.
pub open spec fn required_milli(m: TactileMethod) -> int {
    match m {
        TactileMethod::MultiButton { buttons } => buttons * 1000,
        _ => 1000,
    }
}

/// The system command that carries out an option.
pub open spec fn option_command(o: SystemResetOption) -> Option<Seq<char>> {
    match o {
        SystemResetOption::RestartCompositor => Some("systemctl restart tos-compositor"@),
        SystemResetOption::LogOut => Some("pkill -u $USER tos"@),
        SystemResetOption::Cancel => None,
    }
}

impl TacticalReset {
    /// An idle manager with the default configuration.
    pub fn new() -> (r: TacticalReset)
        ensures
            r.state == ResetOperationState::Idle,
            r.saved_sector is None,
            r.config == default_reset_config(),
            r.config.undo_duration_secs == 5 && r.config.countdown_secs == 3,
            r.config.enable_sector_undo && r.config.save_state_before_reset,
    {
        Self::with_config(ResetConfig::default())
    }

    /// An idle manager.
    pub fn with_config(config: ResetConfig) -> (r: TacticalReset)
        ensures
            r.state == ResetOperationState::Idle,
            r.saved_sector is None,
            r.config == config,
    {
        TacticalReset { config, state: ResetOperationState::Idle, saved_sector: None }
    }

    pub open spec fn resetting(self) -> bool {
        self.state != ResetOperationState::Idle
    }

    /// Whether a reset is in progress.
    pub fn is_resetting(&self) -> (b: bool)
        ensures
            b == self.resetting(),
    {
        match self.state {
            ResetOperationState::Idle => false,
            _ => true,
        }
    }

    /// Ends any reset: back to idle, nothing kept.
    pub fn cancel_reset(&mut self)
        ensures
            final(self).state == ResetOperationState::Idle,
            final(self).saved_sector is None,
            final(self).config == old(self).config,
    {
        self.state = ResetOperationState::Idle;
        self.saved_sector = None;
    }

    /// Completes the reset: back to idle, nothing kept.
    pub fn complete_reset(&mut self)
        ensures
            final(self).state == ResetOperationState::Idle,
            final(self).saved_sector is None,
            final(self).config == old(self).config,
    {
        self.state = ResetOperationState::Idle;
        self.saved_sector = None;
    }

    /// Opens the system reset dialog.
    pub fn initiate_system_reset(&mut self) -> (r: Result<(), ResetError>)
        ensures
            old(self).resetting() ==> r == Err::<(), ResetError>(ResetError::ResetInProgress)
                && *final(self) == *old(self),
            !old(self).resetting() ==> r is Ok && final(self).state == ResetOperationState::SystemDialogShown
                && final(self).config == old(self).config && final(self).saved_sector == old(self).saved_sector,
    {
        if self.is_resetting() {
            return Err(ResetError::ResetInProgress);
        }
        self.state = ResetOperationState::SystemDialogShown;
        Ok(())
    }

    /// Chooses an option of the dialog: cancelling ends the reset, the other
    /// options await their confirmation.
    pub fn select_system_option(&mut self, option: SystemResetOption) -> (r: Result<(), ResetError>)
        ensures
            old(self).state != ResetOperationState::SystemDialogShown ==> r == Err::<(), ResetError>(
                ResetError::InvalidState,
            ) && *final(self) == *old(self),
            old(self).state == ResetOperationState::SystemDialogShown ==> r is Ok && final(self).config
                == old(self).config && if option == SystemResetOption::Cancel {
                final(self).state == ResetOperationState::Idle && final(self).saved_sector is None
            } else {
                final(self).state == (ResetOperationState::TactileConfirming {
                    option,
                    method: old(self).config.default_tactile_method,
                    progress_milli: 0,
                }) && final(self).saved_sector == old(self).saved_sector
            },
    {
        match self.state {
            ResetOperationState::SystemDialogShown => {
                if option == SystemResetOption::Cancel {
                    self.cancel_reset();
                } else {
                    let method = match &self.config.default_tactile_method {
                        TactileMethod::Hold { duration_ms } => TactileMethod::Hold { duration_ms: *duration_ms },
                        TactileMethod::Slider => TactileMethod::Slider,
                        TactileMethod::Voice(p) => TactileMethod::Voice(p.clone()),
                        TactileMethod::MultiButton { buttons } => TactileMethod::MultiButton { buttons: *buttons },
                    };
                    self.state = ResetOperationState::TactileConfirming { option, method, progress_milli: 0 };
                }
                Ok(())
            },
            _ => Err(ResetError::InvalidState),
        }
    }

    /// Records confirmation progress (clamped to a thousand thousandths);
    /// once it reaches what the method needs, the countdown starts and the
    /// option is returned.
    pub fn update_tactile_progress(&mut self, progress_milli: u32) -> (r: Result<Option<SystemResetOption>, ResetError>)
        ensures
            !(old(self).state is TactileConfirming) ==> r == Err::<Option<SystemResetOption>, ResetError>(
                ResetError::InvalidState,
            ) && *final(self) == *old(self),
            old(self).state matches ResetOperationState::TactileConfirming { option, method, .. } ==> {
                let p: u32 = if progress_milli > 1000 { 1000 } else { progress_milli };
                &&& final(self).config == old(self).config
                &&& final(self).saved_sector == old(self).saved_sector
                &&& if p >= required_milli(method) {
                    r == Ok::<Option<SystemResetOption>, ResetError>(Some(option)) && final(self).state
                        == (ResetOperationState::Countdown { option, remaining_secs: old(self).config.countdown_secs })
                } else {
                    r == Ok::<Option<SystemResetOption>, ResetError>(None) && final(self).state
                        == (ResetOperationState::TactileConfirming { option, method, progress_milli: p })
                }
            },
    {
        let p: u32 = if progress_milli > 1000 { 1000 } else { progress_milli };
        match &self.state {
            ResetOperationState::TactileConfirming { option, method, .. } => {
                let opt = *option;
                let required: u64 = match method {
                    TactileMethod::MultiButton { buttons } => {
                        if *buttons as u64 > u64::MAX / 1000 {
                            u64::MAX
                        } else {
                            *buttons as u64 * 1000
                        }
                    },
                    _ => 1000,
                };
                if p as u64 >= required {
                    self.state = ResetOperationState::Countdown { option: opt, remaining_secs: self.config.countdown_secs };
                    Ok(Some(opt))
                } else {
                    let m = match method {
                        TactileMethod::Hold { duration_ms } => TactileMethod::Hold { duration_ms: *duration_ms },
                        TactileMethod::Slider => TactileMethod::Slider,
                        TactileMethod::Voice(ph) => TactileMethod::Voice(ph.clone()),
                        TactileMethod::MultiButton { buttons } => TactileMethod::MultiButton { buttons: *buttons },
                    };
                    self.state = ResetOperationState::TactileConfirming { option: opt, method: m, progress_milli: p };
                    Ok(None)
                }
            },
            _ => Err(ResetError::InvalidState),
        }
    }

    /// One second of countdown: at zero the reset runs and its option is
    /// returned.
    pub fn tick_countdown(&mut self) -> (r: Option<SystemResetOption>)
        ensures
            old(self).state matches ResetOperationState::Countdown { option, remaining_secs } ==> if remaining_secs
                == 0 {
                r == Some(option) && final(self).state == ResetOperationState::Executing
            } else {
                r is None && final(self).state == (ResetOperationState::Countdown {
                    option,
                    remaining_secs: (remaining_secs - 1) as u64,
                })
            },
            !(old(self).state is Countdown) ==> r is None && final(self).state == old(self).state,
            final(self).state == tick_state(old(self).state),
            final(self).config == old(self).config,
            final(self).saved_sector == old(self).saved_sector,
    {
        match self.state {
            ResetOperationState::Countdown { option, remaining_secs } => {
                if remaining_secs == 0 {
                    self.state = ResetOperationState::Executing;
                    Some(option)
                } else {
                    self.state = ResetOperationState::Countdown { option, remaining_secs: remaining_secs - 1 };
                    None
                }
            },
            _ => None,
        }
    }

    /// The seconds left in the countdown.
    pub fn countdown_remaining(&self) -> (r: Option<u64>)
        ensures
            r == match self.state {
                ResetOperationState::Countdown { remaining_secs, .. } => Some(remaining_secs),
                _ => None::<u64>,
            },
    {
        match self.state {
            ResetOperationState::Countdown { remaining_secs, .. } => Some(remaining_secs),
            _ => None,
        }
    }

    /// Carries out a system reset option: the command the caller must run,
    /// or, for cancel, the end of the reset.
    pub fn execute_system_reset(&mut self, option: SystemResetOption) -> (cmd: Option<&'static str>)
        ensures
            match cmd {
                Some(c) => option_command(option) == Some(c@),
                None => option_command(option) is None,
            },
            option == SystemResetOption::Cancel ==> final(self).state == ResetOperationState::Idle
                && final(self).saved_sector is None,
            option != SystemResetOption::Cancel ==> *final(self) == *old(self),
    {
        match option {
            SystemResetOption::RestartCompositor => Some("systemctl restart tos-compositor"),
            SystemResetOption::LogOut => Some("pkill -u $USER tos"),
            SystemResetOption::Cancel => {
                self.cancel_reset();
                None
            },
        }
    }

    pub open spec fn undo_open(self, now: u64) -> bool {
        match self.state {
            ResetOperationState::SectorResetting { start_ms, .. } => since(now, start_ms)
                < self.config.undo_duration_secs * 1000,
            _ => false,
        }
    }

    /// Whether the undo of a sector reset is still offered at `now`.
    pub fn can_undo(&self, now: u64) -> (b: bool)
        ensures
            b == self.undo_open(now),
    {
        match self.state {
            ResetOperationState::SectorResetting { start_ms, .. } => {
                let e: u128 = if now >= start_ms { (now - start_ms) as u128 } else { 0 };
                e < self.config.undo_duration_secs as u128 * 1000
            },
            _ => false,
        }
    }

    /// Whole seconds of undo left at `now`.
    pub fn undo_remaining_secs(&self, now: u64) -> (r: Option<u64>)
        ensures
            r == match self.state {
                ResetOperationState::SectorResetting { start_ms, .. } => {
                    let e = since(now, start_ms) / 1000;
                    if e < self.config.undo_duration_secs {
                        Some((self.config.undo_duration_secs - e) as u64)
                    } else {
                        None::<u64>
                    }
                },
                _ => None::<u64>,
            },
    {
        match self.state {
            ResetOperationState::SectorResetting { start_ms, .. } => {
                let e: u64 = if now >= start_ms { (now - start_ms) / 1000 } else { 0 };
                if e < self.config.undo_duration_secs {
                    Some(self.config.undo_duration_secs - e)
                } else {
                    None
                }
            },
            _ => None,
        }
    }
}


/// The fresh hub a reset sector gets.
pub open spec fn fresh_hub(id: u128, home: Seq<char>) -> crate::model::HubView {
    crate::model::HubView {
        id,
        mode: CommandHubMode::Command,
        prompt: seq![],
        applications: seq![],
        active_app_index: None,
        terminal_output: seq![],
        confirmation_required: None,
        current_directory: home,
        show_hidden_files: false,
        selected_files: seq![],
        context_menu: None,
        shell_listing: None,
        output_mode_centered: false,
        left_region_visible: true,
    }
}

/// The processes of a sector's applications, hub by hub.
pub open spec fn sector_pids(hubs: Seq<crate::model::HubView>) -> Seq<u32>
    decreases hubs.len(),
{
    if hubs.len() == 0 {
        seq![]
    } else {
        sector_pids(hubs.drop_last()) + hubs.last().applications.filter_map(
            |a: crate::model::AppView| a.pid,
        )
    }
}

/// The state after sector `si` is reset: one fresh hub, its viewports back
/// at that hub's command level, and the state at command-hub level.
pub open spec fn after_sector_reset(s: StateView, si: int, hub: crate::model::HubView) -> StateView {
    StateView {
        current_level: HierarchyLevel::CommandHub,
        sectors: s.sectors.update(si, crate::model::SectorView { hubs: seq![hub], active_hub_index: 0, ..s.sectors[si] }),
        viewports: s.viewports.map_values(|v: Viewport| viewport_after_reset(v, si)),
        escape_count: 0,
        ..s
    }
}

fn collect_pids(hubs: &Vec<CommandHub>) -> (v: Vec<u32>)
    ensures
        v@ == sector_pids(hubs@.map_values(|h: CommandHub| h@)),
{
    let ghost hv = hubs@.map_values(|h: CommandHub| h@);
    let mut out: Vec<u32> = Vec::new();
    let mut i: usize = 0;
    while i < hubs.len()
        invariant
            0 <= i <= hubs@.len(),
            hv == hubs@.map_values(|h: CommandHub| h@),
            out@ == sector_pids(hv.take(i as int)),
        decreases hubs@.len() - i,
    {
        assert(hv.take(i + 1).drop_last() =~= hv.take(i as int));
        let apps = &hubs[i].applications;
        let ghost av = apps@.map_values(|a: crate::model::Application| a@);
        assert(av == hv[i as int].applications);
        let ghost start = out@;
        let mut j: usize = 0;
        while j < apps.len()
            invariant
                0 <= j <= apps@.len(),
                av == apps@.map_values(|a: crate::model::Application| a@),
                out@ == start + av.take(j as int).filter_map(|a: crate::model::AppView| a.pid),
            decreases apps@.len() - j,
        {
            assert(av.take(j + 1).drop_last() =~= av.take(j as int));
            match apps[j].pid {
                Some(p) => out.push(p),
                None => {},
            }
            assert(out@ =~= start + av.take(j + 1).filter_map(|a: crate::model::AppView| a.pid));
            j = j + 1;
        }
        assert(av.take(j as int) =~= av);
        assert(out@ =~= sector_pids(hv.take(i + 1)));
        i = i + 1;
    }
    assert(hv.take(i as int) =~= hv);
    out
}

/// Viewports of a reset sector return to its first hub at command level.
pub open spec fn viewport_after_reset(v: Viewport, si: int) -> Viewport {
    if v.sector_index == si {
        Viewport {
            hub_index: 0,
            current_level: HierarchyLevel::CommandHub,
            active_app_index: None,
            bezel_expanded: false,
            ..v
        }
    } else {
        v
    }
}

fn reset_viewports(vps: &mut Vec<Viewport>, si: usize)
    ensures
        final(vps)@ == old(vps)@.map_values(|v: Viewport| viewport_after_reset(v, si as int)),
{
    let ghost v0 = vps@;
    let mut k: usize = 0;
    while k < vps.len()
        invariant
            0 <= k <= vps@.len(),
            vps@.len() == v0.len(),
            forall|j: int| k <= j < v0.len() ==> vps@[j] == v0[j],
            forall|j: int| 0 <= j < k ==> vps@[j] == viewport_after_reset(v0[j], si as int),
        decreases vps@.len() - k,
    {
        let mut v = vps[k];
        if v.sector_index == si {
            v.hub_index = 0;
            v.current_level = HierarchyLevel::CommandHub;
            v.active_app_index = None;
            v.bezel_expanded = false;
        }
        vps.set(k, v);
        k = k + 1;
    }
    assert(vps@ =~= v0.map_values(|v: Viewport| viewport_after_reset(v, si as int)));
}

impl TacticalReset {
    /// Resets the sector of the active viewport at `now`: its hubs give way
    /// to one fresh hub `new_hub_id` in `home`, the sector is kept for an
    /// undo when configured, and its viewports return to that hub. Returns
    /// the processes of the sector's applications, which the caller asks to
    /// terminate.
    pub fn initiate_sector_reset_at(&mut self, state: &mut TosState, new_hub_id: u128, home: String, now: u64) -> (r: Result<Vec<u32>, ResetError>)
        requires
            old(state)@.active_viewport_index < old(state)@.viewports.len(),
            old(state)@.active_viewport().sector_index < old(state)@.sectors.len(),
        ensures
            old(self).resetting() ==> r == Err::<Vec<u32>, ResetError>(ResetError::ResetInProgress)
                && *final(self) == *old(self) && final(state)@ == old(state)@,
            !old(self).resetting() ==> {
                let si = old(state)@.active_viewport().sector_index as int;
                &&& r is Ok
                &&& r->Ok_0@ == sector_pids(old(state)@.sectors[si].hubs)
                &&& final(state)@ == after_sector_reset(old(state)@, si, fresh_hub(new_hub_id, home@))
                &&& final(self).config == old(self).config
                &&& if old(self).config.enable_sector_undo {
                    &&& final(self).state == (ResetOperationState::SectorResetting {
                        sector_id: old(state)@.sectors[si].id,
                        start_ms: now,
                    })
                    &&& if old(self).config.save_state_before_reset {
                        final(self).saved_sector matches Some(sv) && sv@ == old(state)@.sectors[si]
                    } else {
                        final(self).saved_sector == old(self).saved_sector
                    }
                } else {
                    final(self).state == ResetOperationState::Idle && final(self).saved_sector is None
                }
            },
    {
        if self.is_resetting() {
            return Err(ResetError::ResetInProgress);
        }
        let si = state.viewports[state.active_viewport_index].sector_index;
        let ghost s0 = state@;
        let sector_id = state.sectors[si].id;
        let pids = collect_pids(&state.sectors[si].hubs);
        let h = CommandHub {
            id: new_hub_id,
            mode: CommandHubMode::Command,
            prompt: String::new(),
            applications: Vec::new(),
            active_app_index: None,
            terminal_output: Vec::new(),
            confirmation_required: None,
            current_directory: home,
            show_hidden_files: false,
            selected_files: Vec::new(),
            context_menu: None,
            shell_listing: None,
            output_mode_centered: false,
            left_region_visible: true,
        };
        assert(h@.applications =~= Seq::<crate::model::AppView>::empty());
        assert(h@.terminal_output =~= Seq::<Seq<char>>::empty());
        assert(h@.prompt =~= Seq::<char>::empty());
        assert(h@.selected_files =~= Seq::<Seq<char>>::empty());
        assert(h@ == fresh_hub(new_hub_id, home@));
        let mut hubs: Vec<CommandHub> = Vec::new();
        hubs.push(h);
        let mut fresh = Sector {
            id: sector_id,
            name: state.sectors[si].name.clone(),
            color: state.sectors[si].color.clone(),
            host: state.sectors[si].host.clone(),
            connection_type: state.sectors[si].connection_type,
            hubs,
            participants: crate::collaboration::duplicate_participants(&state.sectors[si].participants),
            active_hub_index: 0,
            icon: state.sectors[si].icon.clone(),
            portal_active: state.sectors[si].portal_active,
            portal_url: match &state.sectors[si].portal_url {
                Some(u) => Some(u.clone()),
                None => None,
            },
            description: state.sectors[si].description.clone(),
            sector_type_name: state.sectors[si].sector_type_name.clone(),
        };
        assert(fresh@.hubs =~= seq![fresh_hub(new_hub_id, home@)]);
        std::mem::swap(&mut fresh, &mut state.sectors[si]);
        if self.config.save_state_before_reset {
            self.saved_sector = Some(fresh);
        }
        reset_viewports(&mut state.viewports, si);
        state.current_level = HierarchyLevel::CommandHub;
        state.escape_count = 0;
        assert(state@.sectors[si as int] == crate::model::SectorView {
            hubs: seq![fresh_hub(new_hub_id, home@)],
            active_hub_index: 0,
            ..s0.sectors[si as int]
        });
        assert(state@.sectors =~= after_sector_reset(s0, si as int, fresh_hub(new_hub_id, home@)).sectors);
        assert(state@.viewports =~= after_sector_reset(s0, si as int, fresh_hub(new_hub_id, home@)).viewports);
        self.state = ResetOperationState::SectorResetting { sector_id, start_ms: now };
        if !self.config.enable_sector_undo {
            self.complete_reset();
        }
        Ok(pids)
    }

    /// Resets the sector of the active viewport now, with a fresh hub in
    /// the user's home directory (or `/`).
    pub fn initiate_sector_reset(&mut self, state: &mut TosState, now: u64) -> (r: Result<Vec<u32>, ResetError>)
        requires
            old(state)@.active_viewport_index < old(state)@.viewports.len(),
            old(state)@.active_viewport().sector_index < old(state)@.sectors.len(),
        ensures
            old(self).resetting() ==> r == Err::<Vec<u32>, ResetError>(ResetError::ResetInProgress)
                && *final(self) == *old(self) && final(state)@ == old(state)@,
            !old(self).resetting() ==> {
                let si = old(state)@.active_viewport().sector_index as int;
                let h = final(state)@.sectors[si].hubs[0];
                &&& r is Ok
                &&& r->Ok_0@ == sector_pids(old(state)@.sectors[si].hubs)
                &&& final(state)@ == after_sector_reset(old(state)@, si, fresh_hub(h.id, h.current_directory))
            },
    {
        let id = crate::ids::new_id();
        let home = crate::clock::home_or_root();
        self.initiate_sector_reset_at(state, id, home, now)
    }

    /// Undoes a sector reset at `now`, within the undo window: the kept
    /// sector returns in place of the active viewport's sector.
    pub fn undo_sector_reset(&mut self, state: &mut TosState, now: u64) -> (r: Result<(), ResetError>)
        requires
            (old(self).state matches ResetOperationState::SectorResetting { start_ms, .. } && since(now, start_ms)
                <= old(self).config.undo_duration_secs * 1000 && old(self).saved_sector is Some) ==> (
            old(state)@.active_viewport_index < old(state)@.viewports.len()
                && old(state)@.active_viewport().sector_index < old(state)@.sectors.len()),
        ensures
            !(old(self).state is SectorResetting) ==> r == Err::<(), ResetError>(ResetError::NoResetInProgress)
                && *final(self) == *old(self) && final(state)@ == old(state)@,
            old(self).state matches ResetOperationState::SectorResetting { start_ms, .. } ==> if since(now, start_ms)
                > old(self).config.undo_duration_secs * 1000 {
                r == Err::<(), ResetError>(ResetError::UndoExpired) && *final(self) == *old(self) && final(state)@
                    == old(state)@
            } else if old(self).saved_sector is None {
                r == Err::<(), ResetError>(ResetError::NoSavedState) && final(state)@ == old(state)@
                    && final(self).state == old(self).state
            } else {
                &&& r is Ok
                &&& final(self).state == ResetOperationState::Idle
                &&& final(self).saved_sector is None
                &&& final(state)@ == (StateView {
                    sectors: old(state)@.sectors.update(
                        old(state)@.active_viewport().sector_index as int,
                        old(self).saved_sector->0@,
                    ),
                    ..old(state)@
                })
            },
    {
        match self.state {
            ResetOperationState::SectorResetting { start_ms, .. } => {
                let e: u128 = if now >= start_ms { (now - start_ms) as u128 } else { 0 };
                if e > self.config.undo_duration_secs as u128 * 1000 {
                    return Err(ResetError::UndoExpired);
                }
                let ghost s0 = state@;
                match self.saved_sector.take() {
                    Some(saved) => {
                        let si = state.viewports[state.active_viewport_index].sector_index;
                        state.sectors.set(si, saved);
                        assert(state@.sectors =~= s0.sectors.update(si as int, old(self).saved_sector->0@));
                        self.complete_reset();
                        Ok(())
                    },
                    None => Err(ResetError::NoSavedState),
                }
            },
            _ => Err(ResetError::NoResetInProgress),
        }
    }
}

/// Display name of an option in the confirmation.
pub open spec fn option_label(o: SystemResetOption) -> Seq<char> {
    match o {
        SystemResetOption::RestartCompositor => "Restart Compositor"@,
        SystemResetOption::LogOut => "Log Out"@,
        SystemResetOption::Cancel => "Cancel"@,
    }
}

/// Display name of an option in the countdown.
pub open spec fn option_progressive(o: SystemResetOption) -> Seq<char> {
    match o {
        SystemResetOption::RestartCompositor => "Restarting Compositor"@,
        SystemResetOption::LogOut => "Logging Out"@,
        SystemResetOption::Cancel => "Cancelling"@,
    }
}

/// Title and instruction of a confirmation method.
pub open spec fn method_text(m: TactileMethod) -> (Seq<char>, Seq<char>) {
    match m {
        TactileMethod::Hold { duration_ms } => ("HOLD TO CONFIRM"@, "Hold for "@ + dec((duration_ms / 1000) as nat) + " seconds"@),
        TactileMethod::Slider => ("SLIDE TO CONFIRM"@, "Drag slider to the right"@),
        TactileMethod::Voice(phrase) => ("VOICE CONFIRMATION"@, "Say: \""@ + phrase@ + "\""@),
        TactileMethod::MultiButton { buttons } => ("MULTI-BUTTON CONFIRM"@, "Press "@ + dec(buttons as nat) + " buttons simultaneously"@),
    }
}

impl TacticalReset {
    /// The HTML of the reset overlay at `now` (empty when idle).
    pub open spec fn rendered(self, now: u64) -> Seq<char> {
        match self.state {
            ResetOperationState::Idle => seq![],
            ResetOperationState::SectorResetting { sector_id, start_ms } => {
                let undo = if self.config.enable_sector_undo && self.undo_open(now) {
                    let e = since(now, start_ms) / 1000;
                    let left: nat = if e < self.config.undo_duration_secs { (self.config.undo_duration_secs - e) as nat } else { 0 };
                    "<button class=\"reset-undo\" onclick=\"undoSectorReset()\">\n                            UNDO RESET ("@ + dec(left) + "s)\n                        </button>"@
                } else {
                    seq![]
                };
                "<div class=\"tactical-reset-overlay sector-reset\">\n                        <div class=\"reset-message\">SECTOR RESET COMPLETE</div>\n                        <div class=\"reset-details\">Sector "@ + uuid_text(sector_id).take(8) + " has been reset to default state</div>\n                        "@ + undo + "\n                    </div>"@
            },
            ResetOperationState::SystemDialogShown => "<div class=\"tactical-reset-overlay system-dialog\">\n                    <div class=\"reset-title\">SYSTEM RESET</div>\n                    <div class=\"reset-options\">\n                        <button class=\"reset-option\" onclick=\"selectResetOption('restart')\">\n                            <div class=\"option-icon\">\u{21bb}</div>\n                            <div class=\"option-label\">Restart Compositor</div>\n                            <div class=\"option-desc\">Restart TOS, keep session</div>\n                        </button>\n                        <button class=\"reset-option\" onclick=\"selectResetOption('logout')\">\n                            <div class=\"option-icon\">\u{23fb}</div>\n                            <div class=\"option-label\">Log Out</div>\n                            <div class=\"option-desc\">End session, return to login</div>\n                        </button>\n                        <button class=\"reset-option cancel\" onclick=\"selectResetOption('cancel')\">\n                            <div class=\"option-icon\">\u{2715}</div>\n                            <div class=\"option-label\">Cancel</div>\n                            <div class=\"option-desc\">Return to normal operation</div>\n                        </button>\n                    </div>\n                </div>"@,
            ResetOperationState::TactileConfirming { option, method, progress_milli } => "<div class=\"tactical-reset-overlay tactile-confirm\">\n                        <div class=\"reset-title\">CONFIRM "@ + option_label(option) + "</div>\n                        <div class=\"tactile-method\">"@
                + method_text(method).0 + "</div>\n                        <div class=\"tactile-desc\">"@ + method_text(method).1 + "</div>\n                        <div class=\"tactile-progress\">\n                            <div class=\"progress-bar\" style=\"width: "@ + dec((progress_milli / 10) as nat) + "%\"></div>\n                        </div>\n                        <button class=\"reset-cancel\" onclick=\"cancelReset()\">CANCEL</button>\n                    </div>"@,
            ResetOperationState::Countdown { option, remaining_secs } => "<div class=\"tactical-reset-overlay countdown\">\n                        <div class=\"reset-title\">"@ + option_progressive(option) + " IN...</div>\n                        <div class=\"countdown-number\">"@ + dec(
                remaining_secs as nat,
            ) + "</div>\n                        <button class=\"reset-cancel\" onclick=\"cancelReset()\">CANCEL</button>\n                    </div>"@,
            ResetOperationState::Executing => "<div class=\"tactical-reset-overlay executing\">\n                    <div class=\"reset-spinner\">\u{25d0}</div>\n                    <div class=\"reset-message\">EXECUTING RESET...</div>\n                </div>"@,
        }
    }

    /// Renders the reset overlay at `now`.
    pub fn render(&self, now: u64) -> (html: String)
        ensures
            html@ == self.rendered(now),
    {
        let mut out: Vec<char> = Vec::new();
        match &self.state {
            ResetOperationState::Idle => {},
            ResetOperationState::SectorResetting { sector_id, start_ms } => {
                push_str(&mut out, "<div class=\"tactical-reset-overlay sector-reset\">\n                        <div class=\"reset-message\">SECTOR RESET COMPLETE</div>\n                        <div class=\"reset-details\">Sector ");
                let idt = id_to_string(*sector_id);
                let idc = crate::text::chars_of(idt.as_str());
                let prefix = crate::text::slice_vec(&idc, 0, 8);
                crate::text::push_chars(&mut out, &prefix);
                push_str(&mut out, " has been reset to default state</div>\n                        ");
                if self.config.enable_sector_undo && self.can_undo(now) {
                    let left = match self.undo_remaining_secs(now) {
                        Some(l) => l,
                        None => 0,
                    };
                    push_str(&mut out, "<button class=\"reset-undo\" onclick=\"undoSectorReset()\">\n                            UNDO RESET (");
                    push_u64(&mut out, left);
                    push_str(&mut out, "s)\n                        </button>");
                }
                push_str(&mut out, "\n                    </div>");
                assert(prefix@ =~= uuid_text(*sector_id).take(8));
            },
            ResetOperationState::SystemDialogShown => {
                push_str(&mut out, "<div class=\"tactical-reset-overlay system-dialog\">\n                    <div class=\"reset-title\">SYSTEM RESET</div>\n                    <div class=\"reset-options\">\n                        <button class=\"reset-option\" onclick=\"selectResetOption('restart')\">\n                            <div class=\"option-icon\">\u{21bb}</div>\n                            <div class=\"option-label\">Restart Compositor</div>\n                            <div class=\"option-desc\">Restart TOS, keep session</div>\n                        </button>\n                        <button class=\"reset-option\" onclick=\"selectResetOption('logout')\">\n                            <div class=\"option-icon\">\u{23fb}</div>\n                            <div class=\"option-label\">Log Out</div>\n                            <div class=\"option-desc\">End session, return to login</div>\n                        </button>\n                        <button class=\"reset-option cancel\" onclick=\"selectResetOption('cancel')\">\n                            <div class=\"option-icon\">\u{2715}</div>\n                            <div class=\"option-label\">Cancel</div>\n                            <div class=\"option-desc\">Return to normal operation</div>\n                        </button>\n                    </div>\n                </div>");
            },
            ResetOperationState::TactileConfirming { option, method, progress_milli } => {
                push_str(&mut out, "<div class=\"tactical-reset-overlay tactile-confirm\">\n                        <div class=\"reset-title\">CONFIRM ");
                match option {
                    SystemResetOption::RestartCompositor => push_str(&mut out, "Restart Compositor"),
                    SystemResetOption::LogOut => push_str(&mut out, "Log Out"),
                    SystemResetOption::Cancel => push_str(&mut out, "Cancel"),
                }
                push_str(&mut out, "</div>\n                        <div class=\"tactile-method\">");
                let mut desc: Vec<char> = Vec::new();
                match method {
                    TactileMethod::Hold { duration_ms } => {
                        push_str(&mut out, "HOLD TO CONFIRM");
                        push_str(&mut desc, "Hold for ");
                        push_u64(&mut desc, *duration_ms / 1000);
                        push_str(&mut desc, " seconds");
                    },
                    TactileMethod::Slider => {
                        push_str(&mut out, "SLIDE TO CONFIRM");
                        push_str(&mut desc, "Drag slider to the right");
                    },
                    TactileMethod::Voice(phrase) => {
                        push_str(&mut out, "VOICE CONFIRMATION");
                        push_str(&mut desc, "Say: \"");
                        push_str(&mut desc, phrase.as_str());
                        push_str(&mut desc, "\"");
                    },
                    TactileMethod::MultiButton { buttons } => {
                        push_str(&mut out, "MULTI-BUTTON CONFIRM");
                        push_str(&mut desc, "Press ");
                        push_u64(&mut desc, *buttons as u64);
                        push_str(&mut desc, " buttons simultaneously");
                    },
                }
                assert(desc@ =~= method_text(*method).1);
                push_str(&mut out, "</div>\n                        <div class=\"tactile-desc\">");
                crate::text::push_chars(&mut out, &desc);
                push_str(&mut out, "</div>\n                        <div class=\"tactile-progress\">\n                            <div class=\"progress-bar\" style=\"width: ");
                push_u64(&mut out, (*progress_milli / 10) as u64);
                push_str(&mut out, "%\"></div>\n                        </div>\n                        <button class=\"reset-cancel\" onclick=\"cancelReset()\">CANCEL</button>\n                    </div>");
            },
            ResetOperationState::Countdown { option, remaining_secs } => {
                push_str(&mut out, "<div class=\"tactical-reset-overlay countdown\">\n                        <div class=\"reset-title\">");
                match option {
                    SystemResetOption::RestartCompositor => push_str(&mut out, "Restarting Compositor"),
                    SystemResetOption::LogOut => push_str(&mut out, "Logging Out"),
                    SystemResetOption::Cancel => push_str(&mut out, "Cancelling"),
                }
                push_str(&mut out, " IN...</div>\n                        <div class=\"countdown-number\">");
                push_u64(&mut out, *remaining_secs);
                push_str(&mut out, "</div>\n                        <button class=\"reset-cancel\" onclick=\"cancelReset()\">CANCEL</button>\n                    </div>");
            },
            ResetOperationState::Executing => {
                push_str(&mut out, "<div class=\"tactical-reset-overlay executing\">\n                    <div class=\"reset-spinner\">\u{25d0}</div>\n                    <div class=\"reset-message\">EXECUTING RESET...</div>\n                </div>");
            },
        }
        assert(out@ =~= self.rendered(now));
        string_of(&out)
    }
}

/// One second of countdown.
pub open spec fn tick_state(s: ResetOperationState) -> ResetOperationState {
    match s {
        ResetOperationState::Countdown { option, remaining_secs } => if remaining_secs == 0 {
            ResetOperationState::Executing
        } else {
            ResetOperationState::Countdown { option, remaining_secs: (remaining_secs - 1) as u64 }
        },
        _ => s,
    }
}

/// `k` seconds of countdown.
pub open spec fn ticks(s: ResetOperationState, k: nat) -> ResetOperationState
    decreases k,
{
    if k == 0 {
        s
    } else {
        tick_state(ticks(s, (k - 1) as nat))
    }
}

proof fn lemma_countdown_prefix(option: SystemResetOption, n: u64, k: nat)
    requires
        k <= n,
    ensures
        ticks(ResetOperationState::Countdown { option, remaining_secs: n }, k)
            == (ResetOperationState::Countdown { option, remaining_secs: (n - k) as u64 }),
    decreases k,
{
    if k > 0 {
        lemma_countdown_prefix(option, n, (k - 1) as nat);
    }
}

/// A countdown from `n` seconds shows `n - k` after `k` ticks, and the
/// reset runs at tick `n + 1`.
pub proof fn law_countdown_runs_after_its_seconds(option: SystemResetOption, n: u64, k: nat)
    requires
        k <= n,
    ensures
        ticks(ResetOperationState::Countdown { option, remaining_secs: n }, k)
            == (ResetOperationState::Countdown { option, remaining_secs: (n - k) as u64 }),
        ticks(ResetOperationState::Countdown { option, remaining_secs: n }, (n + 1) as nat)
            == ResetOperationState::Executing,
{
    lemma_countdown_prefix(option, n, k);
    lemma_countdown_prefix(option, n, n as nat);
    assert(ticks(ResetOperationState::Countdown { option, remaining_secs: n }, (n + 1) as nat)
        == tick_state(ticks(ResetOperationState::Countdown { option, remaining_secs: n }, n as nat)));
}

} // verus!
