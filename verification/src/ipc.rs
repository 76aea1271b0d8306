//! Requests from the interface to the compositor: the grammar of the
//! messages the web view posts, and what each does to the compositor state.
use vstd::prelude::*;
use crate::ids::{parse_id, uuid_parsed};
use crate::scan::{parse_i32, parse_signed, parse_u8, parse_unsigned, parse_usize, split_char, split_on, views};
use crate::text::{chars_of, eq_str, slice_vec, starts_with, starts_with_seq, string_of};

verus! {

/// A hub mode named in a request.
#[derive(Debug, Clone, Copy, PartialEq, Eq, Structural)]
pub enum ModeRequest {
    Command,
    Directory,
    Activity,
    Search,
    Ai,
}

/// A level that a request zooms to directly.
#[derive(Debug, Clone, Copy, PartialEq, Eq, Structural)]
pub enum ZoomTarget {
    GlobalOverview,
    CommandHub,
    ApplicationFocus,
    DetailInspector,
    BufferInspector,
}

/// A request posted by the interface.
#[derive(Debug, Clone, PartialEq, Eq)]
pub enum IpcRequest {
    SetMode(ModeRequest),
    SelectSector(usize),
    PromptSubmit(String),
    PromptInput(String),
    StageCommand(String),
    FocusApp(u128),
    AddRemoteSector,
    ToggleBezel,
    TogglePortal,
    ApprovePortal,
    DenyPortal,
    SplitViewport,
    CreateSector,
    ZoomIn,
    ZoomOut,
    ZoomTo(ZoomTarget),
    ToggleOutputMode,
    ToggleLeftRegion,
    /// Kill the focused application
    KillActiveApp,
    ToggleComms,
    OptimizeSystem,
    TacticalReset,
    OpenSettings,
    CloseSettings,
    FollowParticipant(u128),
    SemanticEvent(String),
    ConnectRemote(String),
    InviteParticipant(String),
    SaveTemplate(String),
    LoadTemplate(String),
    /// Kill the application with this id (as text)
    KillApp(String),
    KillSector(usize),
    PlayAudio(String),
    SendComms(String),
    /// Signal an application: its id and the signal's name
    SignalApp(String, String),
    TerminateRemoteLink,
    SetStreamQuality(u8),
    CollaborationInvite,
    DirNavigate(String),
    DirToggleHidden,
    DirPickFile(String),
    DirToggleSelect(String),
    /// A context menu on an entry, at a position
    DirContext(String, i32, i32),
    DirCloseContext,
    DirClearSelect,
    AppToggleSelect(String),
    AppBatchKill,
    AppBatchSignal(String),
    DirActionCopy,
    DirActionPaste,
    DirActionDelete,
    /// A confirmation session and its progress, as text
    UpdateConfirmationProgress(u128, String),
    ConfirmCommand(u128),
    CancelConfirmation(u128),
    IncrementHold(u128),
    ResetHold(u128),
    /// A setting of the focused application and its value, as text
    UpdateSetting(String, String),
    MarketplaceSearch(String),
    MarketplaceInstall(String),
    /// A repository's name and address
    MarketplaceAddRepo(String, String),
    MarketplaceDiscover,
    UiReady,
    /// Nothing to do: an unknown request, or one whose arguments do not parse
    Ignored,
}

/// A request, with its texts as character sequences.
pub enum RequestView {
    SetMode(ModeRequest),
    SelectSector(usize),
    PromptSubmit(Seq<char>),
    PromptInput(Seq<char>),
    StageCommand(Seq<char>),
    FocusApp(u128),
    AddRemoteSector,
    ToggleBezel,
    TogglePortal,
    ApprovePortal,
    DenyPortal,
    SplitViewport,
    CreateSector,
    ZoomIn,
    ZoomOut,
    ZoomTo(ZoomTarget),
    ToggleOutputMode,
    ToggleLeftRegion,
    KillActiveApp,
    ToggleComms,
    OptimizeSystem,
    TacticalReset,
    OpenSettings,
    CloseSettings,
    FollowParticipant(u128),
    SemanticEvent(Seq<char>),
    ConnectRemote(Seq<char>),
    InviteParticipant(Seq<char>),
    SaveTemplate(Seq<char>),
    LoadTemplate(Seq<char>),
    KillApp(Seq<char>),
    KillSector(usize),
    PlayAudio(Seq<char>),
    SendComms(Seq<char>),
    SignalApp(Seq<char>, Seq<char>),
    TerminateRemoteLink,
    SetStreamQuality(u8),
    CollaborationInvite,
    DirNavigate(Seq<char>),
    DirToggleHidden,
    DirPickFile(Seq<char>),
    DirToggleSelect(Seq<char>),
    DirContext(Seq<char>, i32, i32),
    DirCloseContext,
    DirClearSelect,
    AppToggleSelect(Seq<char>),
    AppBatchKill,
    AppBatchSignal(Seq<char>),
    DirActionCopy,
    DirActionPaste,
    DirActionDelete,
    UpdateConfirmationProgress(u128, Seq<char>),
    ConfirmCommand(u128),
    CancelConfirmation(u128),
    IncrementHold(u128),
    ResetHold(u128),
    UpdateSetting(Seq<char>, Seq<char>),
    MarketplaceSearch(Seq<char>),
    MarketplaceInstall(Seq<char>),
    MarketplaceAddRepo(Seq<char>, Seq<char>),
    MarketplaceDiscover,
    UiReady,
    Ignored,
}

impl View for IpcRequest {
    type V = RequestView;

    open spec fn view(&self) -> RequestView {
        match self {
            IpcRequest::SetMode(m) => RequestView::SetMode(*m),
            IpcRequest::SelectSector(n) => RequestView::SelectSector(*n),
            IpcRequest::PromptSubmit(s) => RequestView::PromptSubmit(s@),
            IpcRequest::PromptInput(s) => RequestView::PromptInput(s@),
            IpcRequest::StageCommand(s) => RequestView::StageCommand(s@),
            IpcRequest::FocusApp(id) => RequestView::FocusApp(*id),
            IpcRequest::AddRemoteSector => RequestView::AddRemoteSector,
            IpcRequest::ToggleBezel => RequestView::ToggleBezel,
            IpcRequest::TogglePortal => RequestView::TogglePortal,
            IpcRequest::ApprovePortal => RequestView::ApprovePortal,
            IpcRequest::DenyPortal => RequestView::DenyPortal,
            IpcRequest::SplitViewport => RequestView::SplitViewport,
            IpcRequest::CreateSector => RequestView::CreateSector,
            IpcRequest::ZoomIn => RequestView::ZoomIn,
            IpcRequest::ZoomOut => RequestView::ZoomOut,
            IpcRequest::ZoomTo(t) => RequestView::ZoomTo(*t),
            IpcRequest::ToggleOutputMode => RequestView::ToggleOutputMode,
            IpcRequest::ToggleLeftRegion => RequestView::ToggleLeftRegion,
            IpcRequest::KillActiveApp => RequestView::KillActiveApp,
            IpcRequest::ToggleComms => RequestView::ToggleComms,
            IpcRequest::OptimizeSystem => RequestView::OptimizeSystem,
            IpcRequest::TacticalReset => RequestView::TacticalReset,
            IpcRequest::OpenSettings => RequestView::OpenSettings,
            IpcRequest::CloseSettings => RequestView::CloseSettings,
            IpcRequest::FollowParticipant(id) => RequestView::FollowParticipant(*id),
            IpcRequest::SemanticEvent(s) => RequestView::SemanticEvent(s@),
            IpcRequest::ConnectRemote(s) => RequestView::ConnectRemote(s@),
            IpcRequest::InviteParticipant(s) => RequestView::InviteParticipant(s@),
            IpcRequest::SaveTemplate(s) => RequestView::SaveTemplate(s@),
            IpcRequest::LoadTemplate(s) => RequestView::LoadTemplate(s@),
            IpcRequest::KillApp(s) => RequestView::KillApp(s@),
            IpcRequest::KillSector(n) => RequestView::KillSector(*n),
            IpcRequest::PlayAudio(s) => RequestView::PlayAudio(s@),
            IpcRequest::SendComms(s) => RequestView::SendComms(s@),
            IpcRequest::SignalApp(a, b) => RequestView::SignalApp(a@, b@),
            IpcRequest::TerminateRemoteLink => RequestView::TerminateRemoteLink,
            IpcRequest::SetStreamQuality(q) => RequestView::SetStreamQuality(*q),
            IpcRequest::CollaborationInvite => RequestView::CollaborationInvite,
            IpcRequest::DirNavigate(s) => RequestView::DirNavigate(s@),
            IpcRequest::DirToggleHidden => RequestView::DirToggleHidden,
            IpcRequest::DirPickFile(s) => RequestView::DirPickFile(s@),
            IpcRequest::DirToggleSelect(s) => RequestView::DirToggleSelect(s@),
            IpcRequest::DirContext(s, x, y) => RequestView::DirContext(s@, *x, *y),
            IpcRequest::DirCloseContext => RequestView::DirCloseContext,
            IpcRequest::DirClearSelect => RequestView::DirClearSelect,
            IpcRequest::AppToggleSelect(s) => RequestView::AppToggleSelect(s@),
            IpcRequest::AppBatchKill => RequestView::AppBatchKill,
            IpcRequest::AppBatchSignal(s) => RequestView::AppBatchSignal(s@),
            IpcRequest::DirActionCopy => RequestView::DirActionCopy,
            IpcRequest::DirActionPaste => RequestView::DirActionPaste,
            IpcRequest::DirActionDelete => RequestView::DirActionDelete,
            IpcRequest::UpdateConfirmationProgress(id, s) => RequestView::UpdateConfirmationProgress(*id, s@),
            IpcRequest::ConfirmCommand(id) => RequestView::ConfirmCommand(*id),
            IpcRequest::CancelConfirmation(id) => RequestView::CancelConfirmation(*id),
            IpcRequest::IncrementHold(id) => RequestView::IncrementHold(*id),
            IpcRequest::ResetHold(id) => RequestView::ResetHold(*id),
            IpcRequest::UpdateSetting(a, b) => RequestView::UpdateSetting(a@, b@),
            IpcRequest::MarketplaceSearch(s) => RequestView::MarketplaceSearch(s@),
            IpcRequest::MarketplaceInstall(s) => RequestView::MarketplaceInstall(s@),
            IpcRequest::MarketplaceAddRepo(a, b) => RequestView::MarketplaceAddRepo(a@, b@),
            IpcRequest::MarketplaceDiscover => RequestView::MarketplaceDiscover,
            IpcRequest::UiReady => RequestView::UiReady,
            IpcRequest::Ignored => RequestView::Ignored,
        }
    }
}

/// The view of an optional request.
pub open spec fn request_view_opt(o: Option<IpcRequest>) -> Option<RequestView> {
    match o {
        Some(q) => Some(q@),
        None => None,
    }
}

/// What follows the prefix `p` in `r`.
pub open spec fn after(r: Seq<char>, p: Seq<char>) -> Seq<char> {
    r.skip(p.len() as int)
}

/// The hub mode of a name.
pub open spec fn mode_named(s: Seq<char>) -> Option<ModeRequest> {
    if s == "Command"@ {
        Some(ModeRequest::Command)
    } else if s == "Directory"@ {
        Some(ModeRequest::Directory)
    } else if s == "Activity"@ {
        Some(ModeRequest::Activity)
    } else if s == "Search"@ {
        Some(ModeRequest::Search)
    } else if s == "Ai"@ {
        Some(ModeRequest::Ai)
    } else {
        None
    }
}

/// The zoom target of a level's name.
pub open spec fn zoom_target_named(s: Seq<char>) -> Option<ZoomTarget> {
    if s == "GlobalOverview"@ {
        Some(ZoomTarget::GlobalOverview)
    } else if s == "CommandHub"@ {
        Some(ZoomTarget::CommandHub)
    } else if s == "ApplicationFocus"@ {
        Some(ZoomTarget::ApplicationFocus)
    } else if s == "DetailInspector"@ {
        Some(ZoomTarget::DetailInspector)
    } else if s == "BufferInspector"@ {
        Some(ZoomTarget::BufferInspector)
    } else {
        None
    }
}

/// `s` with each `\'` read as `'`, left to right.
pub open spec fn unescape_quotes(s: Seq<char>) -> Seq<char>
    decreases s.len(),
{
    if s.len() == 0 {
        s
    } else if s.len() >= 2 && s[0] == '\\' && s[1] == '\'' {
        seq!['\''] + unescape_quotes(s.skip(2))
    } else {
        seq![s[0]] + unescape_quotes(s.skip(1))
    }
}

/// A signal request: exactly an id and a signal name.
pub open spec fn signal_request(parts: Seq<Seq<char>>) -> RequestView {
    if parts.len() == 2 {
        RequestView::SignalApp(parts[0], parts[1])
    } else {
        RequestView::Ignored
    }
}

/// A stream quality: the percentage after the first colon.
pub open spec fn quality_request(r: Seq<char>) -> RequestView {
    let parts = split_on(r, ':');
    if parts.len() > 1 {
        match parse_unsigned(parts[1], u8::MAX as nat) {
            Some(q) => RequestView::SetStreamQuality(q as u8),
            None => RequestView::Ignored,
        }
    } else {
        RequestView::Ignored
    }
}

/// A coordinate: a number, or zero where there is none.
pub open spec fn coordinate(s: Seq<char>) -> i32 {
    match parse_signed(s, 0x8000_0000, i32::MAX as nat) {
        Some(v) => v as i32,
        None => 0,
    }
}

/// A context menu request: an entry and a position.
pub open spec fn context_request(parts: Seq<Seq<char>>) -> RequestView {
    if parts.len() >= 3 {
        RequestView::DirContext(unescape_quotes(parts[0]), coordinate(parts[1]), coordinate(parts[2]))
    } else {
        RequestView::Ignored
    }
}

/// A confirmation progress request: a session and a progress.
pub open spec fn progress_request(parts: Seq<Seq<char>>) -> RequestView {
    if parts.len() == 2 {
        match uuid_parsed(parts[0]) {
            Some(id) => RequestView::UpdateConfirmationProgress(id, parts[1]),
            None => RequestView::Ignored,
        }
    } else {
        RequestView::Ignored
    }
}

/// A setting request: a key and a value.
pub open spec fn setting_request(parts: Seq<Seq<char>>) -> RequestView {
    if parts.len() >= 2 {
        RequestView::UpdateSetting(parts[0], parts[1])
    } else {
        RequestView::Ignored
    }
}

/// A repository request: a name and an address.
pub open spec fn repo_request(parts: Seq<Seq<char>>) -> RequestView {
    if parts.len() >= 2 {
        RequestView::MarketplaceAddRepo(parts[0], parts[1])
    } else {
        RequestView::Ignored
    }
}

/// The navigation requests.
pub open spec fn navigation_request(r: Seq<char>) -> Option<RequestView> {
    if starts_with_seq(r, "set_mode:"@) {
        Some(match mode_named(after(r, "set_mode:"@)) { Some(m) => RequestView::SetMode(m), None => RequestView::Ignored })
    } else if starts_with_seq(r, "select_sector:"@) {
        Some(match parse_unsigned(after(r, "select_sector:"@), usize::MAX as nat) { Some(n) => RequestView::SelectSector(n as usize), None => RequestView::Ignored })
    } else if starts_with_seq(r, "prompt_submit:"@) {
        Some(RequestView::PromptSubmit(after(r, "prompt_submit:"@)))
    } else if starts_with_seq(r, "prompt_input:"@) {
        Some(RequestView::PromptInput(after(r, "prompt_input:"@)))
    } else if starts_with_seq(r, "stage_command:"@) {
        Some(RequestView::StageCommand(after(r, "stage_command:"@)))
    } else if starts_with_seq(r, "focus_app:"@) {
        Some(match uuid_parsed(after(r, "focus_app:"@)) { Some(id) => RequestView::FocusApp(id), None => RequestView::Ignored })
    } else if r == "add_remote_sector"@ {
        Some(RequestView::AddRemoteSector)
    } else if r == "toggle_bezel"@ {
        Some(RequestView::ToggleBezel)
    } else if r == "toggle_portal"@ {
        Some(RequestView::TogglePortal)
    } else if r == "approve_portal"@ {
        Some(RequestView::ApprovePortal)
    } else if r == "deny_portal"@ {
        Some(RequestView::DenyPortal)
    } else if r == "split_viewport"@ {
        Some(RequestView::SplitViewport)
    } else if r == "create_sector"@ {
        Some(RequestView::CreateSector)
    } else if r == "zoom_in"@ {
        Some(RequestView::ZoomIn)
    } else if r == "zoom_out"@ {
        Some(RequestView::ZoomOut)
    } else {
        None
    }
}

/// The display requests.
pub open spec fn display_request(r: Seq<char>) -> Option<RequestView> {
    if starts_with_seq(r, "zoom_to:"@) {
        Some(match zoom_target_named(after(r, "zoom_to:"@)) { Some(t) => RequestView::ZoomTo(t), None => RequestView::Ignored })
    } else if r == "toggle_output_mode"@ {
        Some(RequestView::ToggleOutputMode)
    } else if r == "toggle_left_region"@ {
        Some(RequestView::ToggleLeftRegion)
    } else if r == "kill_app"@ {
        Some(RequestView::KillActiveApp)
    } else if r == "toggle_comms"@ {
        Some(RequestView::ToggleComms)
    } else if r == "optimize_system"@ {
        Some(RequestView::OptimizeSystem)
    } else if r == "tactical_reset"@ {
        Some(RequestView::TacticalReset)
    } else if r == "open_settings"@ {
        Some(RequestView::OpenSettings)
    } else if r == "close_settings"@ {
        Some(RequestView::CloseSettings)
    } else if starts_with_seq(r, "follow_participant:"@) {
        Some(match uuid_parsed(after(r, "follow_participant:"@)) { Some(id) => RequestView::FollowParticipant(id), None => RequestView::Ignored })
    } else if starts_with_seq(r, "semantic_event:"@) {
        Some(RequestView::SemanticEvent(after(r, "semantic_event:"@)))
    } else if starts_with_seq(r, "connect_remote:"@) {
        Some(RequestView::ConnectRemote(after(r, "connect_remote:"@)))
    } else if starts_with_seq(r, "invite_participant:"@) {
        Some(RequestView::InviteParticipant(after(r, "invite_participant:"@)))
    } else {
        None
    }
}

/// The records requests.
pub open spec fn records_request(r: Seq<char>) -> Option<RequestView> {
    if starts_with_seq(r, "save_template:"@) {
        Some(RequestView::SaveTemplate(after(r, "save_template:"@)))
    } else if starts_with_seq(r, "load_template:"@) {
        Some(RequestView::LoadTemplate(after(r, "load_template:"@)))
    } else if starts_with_seq(r, "kill_app:"@) {
        Some(RequestView::KillApp(after(r, "kill_app:"@)))
    } else if starts_with_seq(r, "kill_sector:"@) {
        Some(match parse_unsigned(after(r, "kill_sector:"@), usize::MAX as nat) { Some(n) => RequestView::KillSector(n as usize), None => RequestView::Ignored })
    } else if starts_with_seq(r, "play_audio:"@) {
        Some(RequestView::PlayAudio(after(r, "play_audio:"@)))
    } else if starts_with_seq(r, "send_comms:"@) {
        Some(RequestView::SendComms(after(r, "send_comms:"@)))
    } else if starts_with_seq(r, "signal_app:"@) {
        Some(signal_request(split_on(after(r, "signal_app:"@), ';')))
    } else if r == "terminate_remote_link"@ {
        Some(RequestView::TerminateRemoteLink)
    } else if starts_with_seq(r, "set_stream_quality:"@) {
        Some(quality_request(r))
    } else if r == "collaboration_invite"@ {
        Some(RequestView::CollaborationInvite)
    } else if starts_with_seq(r, "dir_navigate:"@) {
        Some(RequestView::DirNavigate(after(r, "dir_navigate:"@)))
    } else if r == "dir_toggle_hidden"@ {
        Some(RequestView::DirToggleHidden)
    } else {
        None
    }
}

/// The directory requests.
pub open spec fn directory_request(r: Seq<char>) -> Option<RequestView> {
    if starts_with_seq(r, "dir_pick_file:"@) {
        Some(RequestView::DirPickFile(unescape_quotes(after(r, "dir_pick_file:"@))))
    } else if starts_with_seq(r, "dir_toggle_select:"@) {
        Some(RequestView::DirToggleSelect(unescape_quotes(after(r, "dir_toggle_select:"@))))
    } else if starts_with_seq(r, "dir_context:"@) {
        Some(context_request(split_on(after(r, "dir_context:"@), ';')))
    } else if r == "dir_close_context"@ {
        Some(RequestView::DirCloseContext)
    } else if r == "dir_clear_select"@ {
        Some(RequestView::DirClearSelect)
    } else if starts_with_seq(r, "app_toggle_select:"@) {
        Some(RequestView::AppToggleSelect(after(r, "app_toggle_select:"@)))
    } else if r == "app_batch_kill"@ {
        Some(RequestView::AppBatchKill)
    } else if starts_with_seq(r, "app_batch_signal:"@) {
        Some(RequestView::AppBatchSignal(after(r, "app_batch_signal:"@)))
    } else if r == "dir_action_copy"@ {
        Some(RequestView::DirActionCopy)
    } else if r == "dir_action_paste"@ {
        Some(RequestView::DirActionPaste)
    } else if r == "dir_action_delete"@ {
        Some(RequestView::DirActionDelete)
    } else {
        None
    }
}

/// The confirmation requests.
pub open spec fn confirmation_request(r: Seq<char>) -> Option<RequestView> {
    if starts_with_seq(r, "update_confirmation_progress:"@) {
        Some(progress_request(split_on(after(r, "update_confirmation_progress:"@), ':')))
    } else if starts_with_seq(r, "confirm_command:"@) {
        Some(match uuid_parsed(after(r, "confirm_command:"@)) { Some(id) => RequestView::ConfirmCommand(id), None => RequestView::Ignored })
    } else if starts_with_seq(r, "cancel_confirmation:"@) {
        Some(match uuid_parsed(after(r, "cancel_confirmation:"@)) { Some(id) => RequestView::CancelConfirmation(id), None => RequestView::Ignored })
    } else if starts_with_seq(r, "increment_hold:"@) {
        Some(match uuid_parsed(after(r, "increment_hold:"@)) { Some(id) => RequestView::IncrementHold(id), None => RequestView::Ignored })
    } else if starts_with_seq(r, "reset_hold:"@) {
        Some(match uuid_parsed(after(r, "reset_hold:"@)) { Some(id) => RequestView::ResetHold(id), None => RequestView::Ignored })
    } else if starts_with_seq(r, "update_setting:"@) {
        Some(setting_request(split_on(after(r, "update_setting:"@), ':')))
    } else if starts_with_seq(r, "marketplace_search:"@) {
        Some(RequestView::MarketplaceSearch(after(r, "marketplace_search:"@)))
    } else if starts_with_seq(r, "marketplace_install:"@) {
        Some(RequestView::MarketplaceInstall(after(r, "marketplace_install:"@)))
    } else if starts_with_seq(r, "marketplace_add_repo:"@) {
        Some(repo_request(split_on(after(r, "marketplace_add_repo:"@), '|')))
    } else if r == "marketplace_discover"@ {
        Some(RequestView::MarketplaceDiscover)
    } else if r == "ui_ready"@ {
        Some(RequestView::UiReady)
    } else {
        None
    }
}

fn parse_navigation(r: &Vec<char>) -> (o: Option<IpcRequest>)
    ensures
        request_view_opt(o) == navigation_request(r@),
{
    if let Some(rest) = strip(r, "set_mode:") {
        return Some(match mode_of(&rest) {
            Some(m) => IpcRequest::SetMode(m),
            None => IpcRequest::Ignored,
        });
    }
    if let Some(rest) = strip(r, "select_sector:") {
        return Some(match parse_usize(&rest) {
            Some(n) => IpcRequest::SelectSector(n),
            None => IpcRequest::Ignored,
        });
    }
    if let Some(rest) = strip(r, "prompt_submit:") {
        return Some(IpcRequest::PromptSubmit(string_of(&rest)));
    }
    if let Some(rest) = strip(r, "prompt_input:") {
        return Some(IpcRequest::PromptInput(string_of(&rest)));
    }
    if let Some(rest) = strip(r, "stage_command:") {
        return Some(IpcRequest::StageCommand(string_of(&rest)));
    }
    if let Some(rest) = strip(r, "focus_app:") {
        return Some(match uuid_of(&rest) {
            Some(id) => IpcRequest::FocusApp(id),
            None => IpcRequest::Ignored,
        });
    }
    if eq_str(r, "add_remote_sector") {
        return Some(IpcRequest::AddRemoteSector);
    }
    if eq_str(r, "toggle_bezel") {
        return Some(IpcRequest::ToggleBezel);
    }
    if eq_str(r, "toggle_portal") {
        return Some(IpcRequest::TogglePortal);
    }
    if eq_str(r, "approve_portal") {
        return Some(IpcRequest::ApprovePortal);
    }
    if eq_str(r, "deny_portal") {
        return Some(IpcRequest::DenyPortal);
    }
    if eq_str(r, "split_viewport") {
        return Some(IpcRequest::SplitViewport);
    }
    if eq_str(r, "create_sector") {
        return Some(IpcRequest::CreateSector);
    }
    if eq_str(r, "zoom_in") {
        return Some(IpcRequest::ZoomIn);
    }
    if eq_str(r, "zoom_out") {
        return Some(IpcRequest::ZoomOut);
    }
    None
}

fn parse_display(r: &Vec<char>) -> (o: Option<IpcRequest>)
    ensures
        request_view_opt(o) == display_request(r@),
{
    if let Some(rest) = strip(r, "zoom_to:") {
        return Some(match zoom_target_of(&rest) {
            Some(t) => IpcRequest::ZoomTo(t),
            None => IpcRequest::Ignored,
        });
    }
    if eq_str(r, "toggle_output_mode") {
        return Some(IpcRequest::ToggleOutputMode);
    }
    if eq_str(r, "toggle_left_region") {
        return Some(IpcRequest::ToggleLeftRegion);
    }
    if eq_str(r, "kill_app") {
        return Some(IpcRequest::KillActiveApp);
    }
    if eq_str(r, "toggle_comms") {
        return Some(IpcRequest::ToggleComms);
    }
    if eq_str(r, "optimize_system") {
        return Some(IpcRequest::OptimizeSystem);
    }
    if eq_str(r, "tactical_reset") {
        return Some(IpcRequest::TacticalReset);
    }
    if eq_str(r, "open_settings") {
        return Some(IpcRequest::OpenSettings);
    }
    if eq_str(r, "close_settings") {
        return Some(IpcRequest::CloseSettings);
    }
    if let Some(rest) = strip(r, "follow_participant:") {
        return Some(match uuid_of(&rest) {
            Some(id) => IpcRequest::FollowParticipant(id),
            None => IpcRequest::Ignored,
        });
    }
    if let Some(rest) = strip(r, "semantic_event:") {
        return Some(IpcRequest::SemanticEvent(string_of(&rest)));
    }
    if let Some(rest) = strip(r, "connect_remote:") {
        return Some(IpcRequest::ConnectRemote(string_of(&rest)));
    }
    if let Some(rest) = strip(r, "invite_participant:") {
        return Some(IpcRequest::InviteParticipant(string_of(&rest)));
    }
    None
}

fn parse_records(r: &Vec<char>) -> (o: Option<IpcRequest>)
    ensures
        request_view_opt(o) == records_request(r@),
{
    if let Some(rest) = strip(r, "save_template:") {
        return Some(IpcRequest::SaveTemplate(string_of(&rest)));
    }
    if let Some(rest) = strip(r, "load_template:") {
        return Some(IpcRequest::LoadTemplate(string_of(&rest)));
    }
    if let Some(rest) = strip(r, "kill_app:") {
        return Some(IpcRequest::KillApp(string_of(&rest)));
    }
    if let Some(rest) = strip(r, "kill_sector:") {
        return Some(match parse_usize(&rest) {
            Some(n) => IpcRequest::KillSector(n),
            None => IpcRequest::Ignored,
        });
    }
    if let Some(rest) = strip(r, "play_audio:") {
        return Some(IpcRequest::PlayAudio(string_of(&rest)));
    }
    if let Some(rest) = strip(r, "send_comms:") {
        return Some(IpcRequest::SendComms(string_of(&rest)));
    }
    if let Some(rest) = strip(r, "signal_app:") {
        return Some(signal_of(&split_char(&rest, ';')));
    }
    if eq_str(r, "terminate_remote_link") {
        return Some(IpcRequest::TerminateRemoteLink);
    }
    if let Some(rest) = strip(r, "set_stream_quality:") {
        return Some(quality_of(r));
    }
    if eq_str(r, "collaboration_invite") {
        return Some(IpcRequest::CollaborationInvite);
    }
    if let Some(rest) = strip(r, "dir_navigate:") {
        return Some(IpcRequest::DirNavigate(string_of(&rest)));
    }
    if eq_str(r, "dir_toggle_hidden") {
        return Some(IpcRequest::DirToggleHidden);
    }
    None
}

fn parse_directory(r: &Vec<char>) -> (o: Option<IpcRequest>)
    ensures
        request_view_opt(o) == directory_request(r@),
{
    if let Some(rest) = strip(r, "dir_pick_file:") {
        return Some(IpcRequest::DirPickFile(string_of(&unescape_quotes_exec(&rest))));
    }
    if let Some(rest) = strip(r, "dir_toggle_select:") {
        return Some(IpcRequest::DirToggleSelect(string_of(&unescape_quotes_exec(&rest))));
    }
    if let Some(rest) = strip(r, "dir_context:") {
        return Some(context_of(&split_char(&rest, ';')));
    }
    if eq_str(r, "dir_close_context") {
        return Some(IpcRequest::DirCloseContext);
    }
    if eq_str(r, "dir_clear_select") {
        return Some(IpcRequest::DirClearSelect);
    }
    if let Some(rest) = strip(r, "app_toggle_select:") {
        return Some(IpcRequest::AppToggleSelect(string_of(&rest)));
    }
    if eq_str(r, "app_batch_kill") {
        return Some(IpcRequest::AppBatchKill);
    }
    if let Some(rest) = strip(r, "app_batch_signal:") {
        return Some(IpcRequest::AppBatchSignal(string_of(&rest)));
    }
    if eq_str(r, "dir_action_copy") {
        return Some(IpcRequest::DirActionCopy);
    }
    if eq_str(r, "dir_action_paste") {
        return Some(IpcRequest::DirActionPaste);
    }
    if eq_str(r, "dir_action_delete") {
        return Some(IpcRequest::DirActionDelete);
    }
    None
}

fn parse_confirmation(r: &Vec<char>) -> (o: Option<IpcRequest>)
    ensures
        request_view_opt(o) == confirmation_request(r@),
{
    if let Some(rest) = strip(r, "update_confirmation_progress:") {
        return Some(progress_of(&split_char(&rest, ':')));
    }
    if let Some(rest) = strip(r, "confirm_command:") {
        return Some(match uuid_of(&rest) {
            Some(id) => IpcRequest::ConfirmCommand(id),
            None => IpcRequest::Ignored,
        });
    }
    if let Some(rest) = strip(r, "cancel_confirmation:") {
        return Some(match uuid_of(&rest) {
            Some(id) => IpcRequest::CancelConfirmation(id),
            None => IpcRequest::Ignored,
        });
    }
    if let Some(rest) = strip(r, "increment_hold:") {
        return Some(match uuid_of(&rest) {
            Some(id) => IpcRequest::IncrementHold(id),
            None => IpcRequest::Ignored,
        });
    }
    if let Some(rest) = strip(r, "reset_hold:") {
        return Some(match uuid_of(&rest) {
            Some(id) => IpcRequest::ResetHold(id),
            None => IpcRequest::Ignored,
        });
    }
    if let Some(rest) = strip(r, "update_setting:") {
        return Some(setting_of(&split_char(&rest, ':')));
    }
    if let Some(rest) = strip(r, "marketplace_search:") {
        return Some(IpcRequest::MarketplaceSearch(string_of(&rest)));
    }
    if let Some(rest) = strip(r, "marketplace_install:") {
        return Some(IpcRequest::MarketplaceInstall(string_of(&rest)));
    }
    if let Some(rest) = strip(r, "marketplace_add_repo:") {
        return Some(repo_of(&split_char(&rest, '|')));
    }
    if eq_str(r, "marketplace_discover") {
        return Some(IpcRequest::MarketplaceDiscover);
    }
    if eq_str(r, "ui_ready") {
        return Some(IpcRequest::UiReady);
    }
    None
}

/// What a request asks for.
pub open spec fn request_of(r: Seq<char>) -> RequestView {
    match navigation_request(r) {
        Some(q) => q,
        None => match display_request(r) {
            Some(q) => q,
            None => match records_request(r) {
                Some(q) => q,
                None => match directory_request(r) {
                    Some(q) => q,
                    None => match confirmation_request(r) {
                        Some(q) => q,
                        None => RequestView::Ignored,
                    },
                },
            },
        },
    }
}

/// What follows `p` in `r`, if `r` starts with it.
fn strip(r: &Vec<char>, p: &str) -> (o: Option<Vec<char>>)
    ensures
        match o {
            Some(v) => starts_with_seq(r@, p@) && v@ == after(r@, p@),
            None => !starts_with_seq(r@, p@),
        },
{
    let pc = chars_of(p);
    if starts_with(r, &pc) {
        let v = slice_vec(r, pc.len(), r.len());
        assert(v@ =~= after(r@, p@));
        Some(v)
    } else {
        None
    }
}

fn uuid_of(s: &Vec<char>) -> (r: Option<u128>)
    ensures
        r == uuid_parsed(s@),
{
    let text = string_of(s);
    parse_id(text.as_str())
}

fn mode_of(s: &Vec<char>) -> (r: Option<ModeRequest>)
    ensures
        r == mode_named(s@),
{
    if eq_str(s, "Command") {
        Some(ModeRequest::Command)
    } else if eq_str(s, "Directory") {
        Some(ModeRequest::Directory)
    } else if eq_str(s, "Activity") {
        Some(ModeRequest::Activity)
    } else if eq_str(s, "Search") {
        Some(ModeRequest::Search)
    } else if eq_str(s, "Ai") {
        Some(ModeRequest::Ai)
    } else {
        None
    }
}

fn zoom_target_of(s: &Vec<char>) -> (r: Option<ZoomTarget>)
    ensures
        r == zoom_target_named(s@),
{
    if eq_str(s, "GlobalOverview") {
        Some(ZoomTarget::GlobalOverview)
    } else if eq_str(s, "CommandHub") {
        Some(ZoomTarget::CommandHub)
    } else if eq_str(s, "ApplicationFocus") {
        Some(ZoomTarget::ApplicationFocus)
    } else if eq_str(s, "DetailInspector") {
        Some(ZoomTarget::DetailInspector)
    } else if eq_str(s, "BufferInspector") {
        Some(ZoomTarget::BufferInspector)
    } else {
        None
    }
}

fn unescape_quotes_exec(s: &Vec<char>) -> (out: Vec<char>)
    ensures
        out@ == unescape_quotes(s@),
{
    let mut out: Vec<char> = Vec::new();
    let mut i: usize = 0;
    assert(s@.skip(0) =~= s@);
    assert(out@ + unescape_quotes(s@) =~= unescape_quotes(s@));
    while i < s.len()
        invariant
            i <= s@.len(),
            out@ + unescape_quotes(s@.skip(i as int)) == unescape_quotes(s@),
        decreases s@.len() - i,
    {
        let ghost t = s@.skip(i as int);
        if i + 1 < s.len() && s[i] == '\\' && s[i + 1] == '\'' {
            out.push('\'');
            assert(t.skip(2) =~= s@.skip(i + 2));
            assert(out@ + unescape_quotes(s@.skip(i + 2)) =~= unescape_quotes(s@));
            i = i + 2;
        } else {
            out.push(s[i]);
            assert(t.skip(1) =~= s@.skip(i + 1));
            assert(out@ + unescape_quotes(s@.skip(i + 1)) =~= unescape_quotes(s@));
            i = i + 1;
        }
    }
    assert(s@.skip(i as int) =~= Seq::<char>::empty());
    assert(out@ + Seq::<char>::empty() =~= out@);
    out
}

fn signal_of(parts: &Vec<Vec<char>>) -> (r: IpcRequest)
    ensures
        r@ == signal_request(views(parts@)),
{
    if parts.len() == 2 {
        IpcRequest::SignalApp(string_of(&parts[0]), string_of(&parts[1]))
    } else {
        IpcRequest::Ignored
    }
}

fn quality_of(r: &Vec<char>) -> (q: IpcRequest)
    ensures
        q@ == quality_request(r@),
{
    let parts = split_char(r, ':');
    if parts.len() > 1 {
        match parse_u8(&parts[1]) {
            Some(v) => IpcRequest::SetStreamQuality(v),
            None => IpcRequest::Ignored,
        }
    } else {
        IpcRequest::Ignored
    }
}

fn coordinate_of(s: &Vec<char>) -> (v: i32)
    ensures
        v == coordinate(s@),
{
    match parse_i32(s) {
        Some(v) => v,
        None => 0,
    }
}

fn context_of(parts: &Vec<Vec<char>>) -> (r: IpcRequest)
    ensures
        r@ == context_request(views(parts@)),
{
    if parts.len() >= 3 {
        IpcRequest::DirContext(
            string_of(&unescape_quotes_exec(&parts[0])),
            coordinate_of(&parts[1]),
            coordinate_of(&parts[2]),
        )
    } else {
        IpcRequest::Ignored
    }
}

fn progress_of(parts: &Vec<Vec<char>>) -> (r: IpcRequest)
    ensures
        r@ == progress_request(views(parts@)),
{
    if parts.len() == 2 {
        match uuid_of(&parts[0]) {
            Some(id) => IpcRequest::UpdateConfirmationProgress(id, string_of(&parts[1])),
            None => IpcRequest::Ignored,
        }
    } else {
        IpcRequest::Ignored
    }
}

fn setting_of(parts: &Vec<Vec<char>>) -> (r: IpcRequest)
    ensures
        r@ == setting_request(views(parts@)),
{
    if parts.len() >= 2 {
        IpcRequest::UpdateSetting(string_of(&parts[0]), string_of(&parts[1]))
    } else {
        IpcRequest::Ignored
    }
}

fn repo_of(parts: &Vec<Vec<char>>) -> (r: IpcRequest)
    ensures
        r@ == repo_request(views(parts@)),
{
    if parts.len() >= 2 {
        IpcRequest::MarketplaceAddRepo(string_of(&parts[0]), string_of(&parts[1]))
    } else {
        IpcRequest::Ignored
    }
}


/// Reads a request posted by the interface.
pub fn parse_request(request: &str) -> (q: IpcRequest)
    ensures
        q@ == request_of(request@),
{
    let r = chars_of(request);
    if let Some(q) = parse_navigation(&r) {
        return q;
    }
    if let Some(q) = parse_display(&r) {
        return q;
    }
    if let Some(q) = parse_records(&r) {
        return q;
    }
    if let Some(q) = parse_directory(&r) {
        return q;
    }
    if let Some(q) = parse_confirmation(&r) {
        return q;
    }
    IpcRequest::Ignored
}

} // verus!
