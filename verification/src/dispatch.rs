//! What the compositor does for each request of the interface: the edits
//! of its own state, and the effects that it hands to the caller (terminal
//! writes, signals, sounds, and the operations of the compositor's shell).
use vstd::prelude::*;
use crate::audio::{audio_event_named, audio_event_of, AudioEvent};
use crate::collaboration::CollaborationRole;
use crate::earcons::EarconEvent;
use crate::events::SemanticEvent;
use crate::ids::{parse_id, uuid_parsed};
use crate::ipc::{parse_request, request_of, IpcRequest, ModeRequest, RequestView, ZoomTarget};
use crate::model::{blank_hub_view, CommandHub, CommandHubMode, ContextMenu, HubView, MenuView, StateView, TosState};
use crate::paths::{join_path, joined_path};
use crate::remote::RemoteManager;
use crate::scan::words;
use crate::security::SecurityManager;
use crate::text::{chars_of, dec, eq_str, push_str, push_u64, string_of};

verus! {

/// A signal for a process.
#[derive(Debug, Clone, Copy, PartialEq, Eq, Structural)]
pub enum SignalKind {
    Int,
    Term,
    Kill,
}

/// The signal a name asks for; an unknown name terminates.
pub open spec fn signal_named(s: Seq<char>) -> SignalKind {
    if s == "INT"@ {
        SignalKind::Int
    } else if s == "TERM"@ {
        SignalKind::Term
    } else if s == "KILL"@ {
        SignalKind::Kill
    } else {
        SignalKind::Term
    }
}

/// What the caller does after a request.
#[derive(Debug, Clone, PartialEq, Eq)]
pub enum Effect {
    /// Write text to the terminal of a hub
    PtyWrite { hub_id: u128, text: String },
    /// Send a signal to a process
    Signal { pid: u32, signal: SignalKind },
    /// A semantic event for the compositor
    Semantic(SemanticEvent),
    /// Play an earcon
    Earcon(EarconEvent),
    /// Play an audio event
    PlayAudio(AudioEvent),
    /// Switch the active hub's mode
    ToggleMode(ModeRequest),
    SelectSector(usize),
    /// Set the active prompt and offer completions for it
    SetPrompt(String),
    StageCommand(String),
    FocusApp(u128),
    ZoomIn,
    ZoomOut,
    /// Start shells for hubs that have none
    SpawnMissingPtys,
    AddRemoteSector,
    ConnectRemote(String),
    InviteParticipant(CollaborationRole),
    FollowParticipant(u128),
    ToggleBezel,
    TogglePortal,
    ApprovePortal,
    DenyPortal,
    CreateSector,
    ToggleComms,
    /// Enter `path` in the hub, if it is a directory
    EnterIfDirectory { hub_id: u128, path: String },
    /// Progress of a confirmation session, as text
    ConfirmationProgress { session: u128, progress: String },
    /// A setting of the focused application, both as text
    UpdateSetting { key: String, value: String },
    DeepInspection(bool),
    MarketplaceSearch(String),
    MarketplaceInstall(String),
    MarketplaceAddRepo { name: String, url: String },
    MarketplaceDiscover,
    /// Search the system's domains for a query
    Search(String),
    Redraw,
}

/// An effect, with its texts as character sequences.
pub enum EffectView {
    PtyWrite { hub_id: u128, text: Seq<char> },
    Signal { pid: u32, signal: SignalKind },
    Semantic(SemanticEvent),
    Earcon(EarconEvent),
    PlayAudio(AudioEvent),
    ToggleMode(ModeRequest),
    SelectSector(usize),
    SetPrompt(Seq<char>),
    StageCommand(Seq<char>),
    FocusApp(u128),
    ZoomIn,
    ZoomOut,
    SpawnMissingPtys,
    AddRemoteSector,
    ConnectRemote(Seq<char>),
    InviteParticipant(CollaborationRole),
    FollowParticipant(u128),
    ToggleBezel,
    TogglePortal,
    ApprovePortal,
    DenyPortal,
    CreateSector,
    ToggleComms,
    EnterIfDirectory { hub_id: u128, path: Seq<char> },
    ConfirmationProgress { session: u128, progress: Seq<char> },
    UpdateSetting { key: Seq<char>, value: Seq<char> },
    DeepInspection(bool),
    MarketplaceSearch(Seq<char>),
    MarketplaceInstall(Seq<char>),
    MarketplaceAddRepo { name: Seq<char>, url: Seq<char> },
    MarketplaceDiscover,
    Search(Seq<char>),
    Redraw,
}

impl View for Effect {
    type V = EffectView;

    open spec fn view(&self) -> EffectView {
        match self {
            Effect::PtyWrite { hub_id, text } => EffectView::PtyWrite { hub_id: *hub_id, text: text@ },
            Effect::Signal { pid, signal } => EffectView::Signal { pid: *pid, signal: *signal },
            Effect::Semantic(e) => EffectView::Semantic(*e),
            Effect::Earcon(e) => EffectView::Earcon(*e),
            Effect::PlayAudio(e) => EffectView::PlayAudio(*e),
            Effect::ToggleMode(m) => EffectView::ToggleMode(*m),
            Effect::SelectSector(i) => EffectView::SelectSector(*i),
            Effect::SetPrompt(s) => EffectView::SetPrompt(s@),
            Effect::StageCommand(s) => EffectView::StageCommand(s@),
            Effect::FocusApp(id) => EffectView::FocusApp(*id),
            Effect::ZoomIn => EffectView::ZoomIn,
            Effect::ZoomOut => EffectView::ZoomOut,
            Effect::SpawnMissingPtys => EffectView::SpawnMissingPtys,
            Effect::AddRemoteSector => EffectView::AddRemoteSector,
            Effect::ConnectRemote(s) => EffectView::ConnectRemote(s@),
            Effect::InviteParticipant(r) => EffectView::InviteParticipant(*r),
            Effect::FollowParticipant(id) => EffectView::FollowParticipant(*id),
            Effect::ToggleBezel => EffectView::ToggleBezel,
            Effect::TogglePortal => EffectView::TogglePortal,
            Effect::ApprovePortal => EffectView::ApprovePortal,
            Effect::DenyPortal => EffectView::DenyPortal,
            Effect::CreateSector => EffectView::CreateSector,
            Effect::ToggleComms => EffectView::ToggleComms,
            Effect::EnterIfDirectory { hub_id, path } => EffectView::EnterIfDirectory { hub_id: *hub_id, path: path@ },
            Effect::ConfirmationProgress { session, progress } => EffectView::ConfirmationProgress {
                session: *session,
                progress: progress@,
            },
            Effect::UpdateSetting { key, value } => EffectView::UpdateSetting { key: key@, value: value@ },
            Effect::DeepInspection(b) => EffectView::DeepInspection(*b),
            Effect::MarketplaceSearch(s) => EffectView::MarketplaceSearch(s@),
            Effect::MarketplaceInstall(s) => EffectView::MarketplaceInstall(s@),
            Effect::MarketplaceAddRepo { name, url } => EffectView::MarketplaceAddRepo { name: name@, url: url@ },
            Effect::MarketplaceDiscover => EffectView::MarketplaceDiscover,
            Effect::Search(q) => EffectView::Search(q@),
            Effect::Redraw => EffectView::Redraw,
        }
    }
}

/// The views of a sequence of effects.
pub open spec fn effect_views(v: Seq<Effect>) -> Seq<EffectView> {
    v.map_values(|e: Effect| e@)
}

/// The words of `parts` with `sep` between them.
pub open spec fn joined_words(parts: Seq<Seq<char>>, sep: Seq<char>) -> Seq<char>
    decreases parts.len(),
{
    if parts.len() == 0 {
        Seq::empty()
    } else if parts.len() == 1 {
        parts[0]
    } else {
        joined_words(parts.drop_last(), sep) + sep + parts.last()
    }
}

/// The first word of `s`, or `default` if it has none.
pub open spec fn first_word_or(s: Seq<char>, default: Seq<char>) -> Seq<char> {
    if words(s).len() > 0 {
        words(s)[0]
    } else {
        default
    }
}

/// `sel` without `name`.
pub open spec fn without(sel: Seq<Seq<char>>, name: Seq<char>) -> Seq<Seq<char>>
    decreases sel.len(),
{
    if sel.len() == 0 {
        sel
    } else if sel.last() == name {
        without(sel.drop_last(), name)
    } else {
        without(sel.drop_last(), name).push(sel.last())
    }
}

/// The selection after `name` is toggled: removed if it was selected,
/// added at the end if not.
pub open spec fn toggled_selection(sel: Seq<Seq<char>>, name: Seq<char>) -> Seq<Seq<char>> {
    if sel.contains(name) {
        without(sel, name)
    } else {
        sel.push(name)
    }
}

/// The prompt after a file is picked: `view` and the path on an empty
/// prompt, else the path appended after a space.
pub open spec fn picked_prompt(prompt: Seq<char>, path: Seq<char>) -> Seq<char> {
    if prompt.len() == 0 {
        "view "@ + path + " "@
    } else if prompt.last() == ' ' {
        prompt + path
    } else {
        prompt + " "@ + path
    }
}

/// The paths of the selected entries of a directory.
pub open spec fn selection_paths(dir: Seq<char>, sel: Seq<Seq<char>>) -> Seq<Seq<char>> {
    sel.map_values(|f: Seq<char>| joined_path(dir, f))
}

/// A hub after its entry `name` is picked.
pub open spec fn hub_picked(h: HubView, name: Seq<char>) -> HubView {
    HubView { prompt: picked_prompt(h.prompt, joined_path(h.current_directory, name)), ..h }
}

/// A hub after its entry `name` is toggled: a selection puts its paths on
/// the prompt after the prompt's command (`view` by default).
pub open spec fn hub_entry_toggled(h: HubView, name: Seq<char>) -> HubView {
    let sel = toggled_selection(h.selected_files, name);
    HubView {
        selected_files: sel,
        prompt: if sel.len() > 0 {
            first_word_or(h.prompt, "view"@) + " "@ + joined_words(selection_paths(h.current_directory, sel), " "@)
        } else {
            h.prompt
        },
        ..h
    }
}

/// A hub after a copy or delete action `verb`: the selected entries are
/// staged on the prompt.
pub open spec fn hub_staged(h: HubView, verb: Seq<char>) -> HubView {
    if h.selected_files.len() > 0 {
        HubView { prompt: verb + " "@ + joined_words(h.selected_files, " "@) + " "@, ..h }
    } else {
        h
    }
}

/// The menu of a directory entry.
pub open spec fn entry_menu(target: Seq<char>, x: i32, y: i32) -> MenuView {
    MenuView { target, x, y, actions: seq!["OPEN"@, "COPY"@, "RENAME"@, "DELETE"@] }
}

pub(crate) fn push_joined(out: &mut Vec<char>, parts: &Vec<String>, sep: &str)
    ensures
        final(out)@ == old(out)@ + joined_words(crate::model::string_views(parts@), sep@),
{
    let ghost ps = crate::model::string_views(parts@);
    let mut i: usize = 0;
    while i < parts.len()
        invariant
            i <= parts@.len(),
            ps == crate::model::string_views(parts@),
            out@ == old(out)@ + joined_words(ps.take(i as int), sep@),
        decreases parts@.len() - i,
    {
        if i > 0 {
            push_str(out, sep);
        }
        push_str(out, parts[i].as_str());
        proof {
            let t = ps.take(i + 1);
            assert(t.drop_last() =~= ps.take(i as int));
            assert(t.last() == parts@[i as int]@);
            if i == 0 {
                assert(joined_words(ps.take(0), sep@) =~= Seq::<char>::empty());
            }
        }
        assert(out@ =~= old(out)@ + joined_words(ps.take(i + 1), sep@));
        i = i + 1;
    }
    assert(ps.take(parts@.len() as int) =~= ps);
}

proof fn lemma_without_absent(sel: Seq<Seq<char>>, name: Seq<char>)
    requires
        !sel.contains(name),
    ensures
        without(sel, name) == sel,
    decreases sel.len(),
{
    if sel.len() > 0 {
        assert(sel.last() == sel[sel.len() - 1]);
        assert(!sel.drop_last().contains(name)) by {
            if sel.drop_last().contains(name) {
                let k = choose|k: int| 0 <= k < sel.len() - 1 && sel.drop_last()[k] == name;
                assert(sel[k] == name);
            }
        }
        lemma_without_absent(sel.drop_last(), name);
        assert(sel.drop_last().push(sel.last()) =~= sel);
    }
}

/// Whether `name` is selected, and the selection without it.
fn remove_selected(sel: &Vec<String>, name: &String) -> (r: (bool, Vec<String>))
    ensures
        r.0 == crate::model::string_views(sel@).contains(name@),
        crate::model::string_views(r.1@) == without(crate::model::string_views(sel@), name@),
{
    let ghost ss = crate::model::string_views(sel@);
    let mut found = false;
    let mut kept: Vec<String> = Vec::new();
    let mut i: usize = 0;
    while i < sel.len()
        invariant
            i <= sel@.len(),
            ss == crate::model::string_views(sel@),
            found == ss.take(i as int).contains(name@),
            crate::model::string_views(kept@) == without(ss.take(i as int), name@),
        decreases sel@.len() - i,
    {
        let ghost t = ss.take(i + 1);
        assert(t.drop_last() =~= ss.take(i as int));
        assert(t.last() == sel@[i as int]@);
        if sel[i] == *name {
            found = true;
            assert(t.contains(name@)) by {
                assert(t[i as int] == name@);
            }
        } else {
            kept.push(sel[i].clone());
            assert(crate::model::string_views(kept@) =~= without(ss.take(i as int), name@).push(sel@[i as int]@));
            assert(t.contains(name@) == ss.take(i as int).contains(name@)) by {
                if t.contains(name@) {
                    let k = choose|k: int| 0 <= k < t.len() && t[k] == name@;
                    assert(k < i);
                    assert(ss.take(i as int)[k] == name@);
                }
                if ss.take(i as int).contains(name@) {
                    let k = choose|k: int| 0 <= k < i && ss.take(i as int)[k] == name@;
                    assert(t[k] == name@);
                }
            }
        }
        i = i + 1;
    }
    assert(ss.take(sel@.len() as int) =~= ss);
    (found, kept)
}

/// Picks the entry `name` of the hub's directory.
fn pick_file(hub: &mut CommandHub, name: &str)
    ensures
        final(hub)@ == hub_picked(old(hub)@, name@),
{
    let path = join_path(hub.current_directory.as_str(), name);
    let p = chars_of(hub.prompt.as_str());
    let mut out: Vec<char> = Vec::new();
    if p.len() == 0 {
        push_str(&mut out, "view ");
        push_str(&mut out, path.as_str());
        push_str(&mut out, " ");
    } else {
        push_str(&mut out, hub.prompt.as_str());
        if p[p.len() - 1] != ' ' {
            push_str(&mut out, " ");
        }
        push_str(&mut out, path.as_str());
    }
    assert(out@ =~= picked_prompt(old(hub)@.prompt, path@));
    hub.prompt = string_of(&out);
}

/// Toggles the selection of the entry `name`, putting the selected paths
/// on the prompt.
fn toggle_entry(hub: &mut CommandHub, name: &str)
    ensures
        final(hub)@ == hub_entry_toggled(old(hub)@, name@),
{
    let n = String::from_str(name);
    let (found, mut kept) = remove_selected(&hub.selected_files, &n);
    if !found {
        proof {
            lemma_without_absent(crate::model::string_views(hub.selected_files@), name@);
        }
        kept.push(n);
        assert(crate::model::string_views(kept@) =~= crate::model::string_views(hub.selected_files@).push(name@));
    }
    hub.selected_files = kept;
    if hub.selected_files.len() > 0 {
        let ghost sel = crate::model::string_views(hub.selected_files@);
        let mut paths: Vec<String> = Vec::new();
        let mut i: usize = 0;
        while i < hub.selected_files.len()
            invariant
                i <= hub.selected_files@.len(),
                sel == crate::model::string_views(hub.selected_files@),
                crate::model::string_views(paths@) == selection_paths(hub.current_directory@, sel.take(i as int)),
            decreases hub.selected_files@.len() - i,
        {
            paths.push(join_path(hub.current_directory.as_str(), hub.selected_files[i].as_str()));
            assert(sel[i as int] == hub.selected_files@[i as int]@);
            assert(sel.take(i + 1) =~= sel.take(i as int).push(sel[i as int]));
            assert(selection_paths(hub.current_directory@, sel.take(i + 1)) =~= selection_paths(
                hub.current_directory@,
                sel.take(i as int),
            ).push(joined_path(hub.current_directory@, sel[i as int])));
            assert(crate::model::string_views(paths@) =~= selection_paths(hub.current_directory@, sel.take(i + 1)));
            i = i + 1;
        }
        assert(sel.take(sel.len() as int) =~= sel);
        let pw = chars_of(hub.prompt.as_str());
        let ws = crate::scan::split_whitespace(&pw);
        let mut out: Vec<char> = Vec::new();
        if ws.len() > 0 {
            crate::text::push_chars(&mut out, &ws[0]);
            assert(crate::scan::views(ws@)[0] == ws@[0]@);
        } else {
            push_str(&mut out, "view");
        }
        assert(out@ == first_word_or(old(hub)@.prompt, "view"@));
        push_str(&mut out, " ");
        push_joined(&mut out, &paths, " ");
        hub.prompt = string_of(&out);
    }
}

/// Stages the selected entries after `verb` on the prompt.
fn stage_selection(hub: &mut CommandHub, verb: &str)
    ensures
        final(hub)@ == hub_staged(old(hub)@, verb@),
{
    if hub.selected_files.len() > 0 {
        let mut out: Vec<char> = Vec::new();
        push_str(&mut out, verb);
        push_str(&mut out, " ");
        push_joined(&mut out, &hub.selected_files, " ");
        push_str(&mut out, " ");
        hub.prompt = string_of(&out);
    }
}

/// Opens the menu of an entry at a position.
fn open_menu(hub: &mut CommandHub, target: &str, x: i32, y: i32)
    ensures
        final(hub)@ == (HubView { context_menu: Some(entry_menu(target@, x, y)), ..old(hub)@ }),
{
    let mut actions: Vec<String> = Vec::new();
    actions.push(String::from_str("OPEN"));
    actions.push(String::from_str("COPY"));
    actions.push(String::from_str("RENAME"));
    actions.push(String::from_str("DELETE"));
    let menu = ContextMenu { target: String::from_str(target), x, y, actions };
    assert(menu@.actions =~= seq!["OPEN"@, "COPY"@, "RENAME"@, "DELETE"@]);
    hub.context_menu = Some(menu);
}

/// The first application with `id`.
pub open spec fn app_index(apps: Seq<crate::model::AppView>, id: u128) -> Option<int>
    decreases apps.len(),
{
    if apps.len() == 0 {
        None
    } else {
        match app_index(apps.drop_last(), id) {
            Some(i) => Some(i),
            None => if apps.last().id == id {
                Some(apps.len() - 1)
            } else {
                None
            },
        }
    }
}

/// The first hub holding an application `id`, and where.
pub open spec fn hub_app_location(hubs: Seq<HubView>, id: u128) -> Option<(int, int)>
    decreases hubs.len(),
{
    if hubs.len() == 0 {
        None
    } else {
        match hub_app_location(hubs.drop_last(), id) {
            Some(l) => Some(l),
            None => match app_index(hubs.last().applications, id) {
                Some(a) => Some((hubs.len() - 1, a)),
                None => None,
            },
        }
    }
}

/// The first sector holding an application `id`, and where.
pub open spec fn app_location(sectors: Seq<crate::model::SectorView>, id: u128) -> Option<(int, int, int)>
    decreases sectors.len(),
{
    if sectors.len() == 0 {
        None
    } else {
        match app_location(sectors.drop_last(), id) {
            Some(l) => Some(l),
            None => match hub_app_location(sectors.last().hubs, id) {
                Some((h, a)) => Some((sectors.len() - 1, h, a)),
                None => None,
            },
        }
    }
}

/// The state and effects after application `id` is signalled: its
/// process gets the signal, and a killed application leaves its hub.
pub open spec fn signalled(s: StateView, id: u128, kind: SignalKind) -> (StateView, Seq<EffectView>) {
    match app_location(s.sectors, id) {
        Some((si, hi, ai)) => {
            let app = s.sectors[si].hubs[hi].applications[ai];
            (
                if kind == SignalKind::Kill {
                    crate::model::app_removed(s, si, hi, ai)
                } else {
                    s
                },
                match app.pid {
                    Some(p) => seq![EffectView::Signal { pid: p, signal: kind }],
                    None => Seq::empty(),
                },
            )
        },
        None => (s, Seq::empty()),
    }
}

/// Signalling the application whose id is the text `t`.
pub open spec fn signalled_text(s: StateView, t: Seq<char>, kind: SignalKind) -> (StateView, Seq<EffectView>) {
    match uuid_parsed(t) {
        Some(id) => signalled(s, id, kind),
        None => (s, Seq::empty()),
    }
}

/// Signalling each application of `ids` in turn.
pub open spec fn signalled_all(s: StateView, ids: Seq<Seq<char>>, kind: SignalKind) -> (StateView, Seq<EffectView>)
    decreases ids.len(),
{
    if ids.len() == 0 {
        (s, Seq::empty())
    } else {
        let (s1, e1) = signalled_all(s, ids.drop_last(), kind);
        let (s2, e2) = signalled_text(s1, ids.last(), kind);
        (s2, e1 + e2)
    }
}

/// The token of a selected application on the prompt: its process, or its
/// title in brackets; nothing for an unknown one.
pub open spec fn app_token(apps: Seq<crate::model::AppView>, t: Seq<char>) -> Seq<Seq<char>> {
    match uuid_parsed(t) {
        Some(id) => match app_index(apps, id) {
            Some(i) => match apps[i].pid {
                Some(p) => seq![dec(p as nat)],
                None => seq!["["@ + apps[i].title + "]"@],
            },
            None => Seq::empty(),
        },
        None => Seq::empty(),
    }
}

/// The tokens of the selected applications.
pub open spec fn app_tokens(apps: Seq<crate::model::AppView>, sel: Seq<Seq<char>>) -> Seq<Seq<char>>
    decreases sel.len(),
{
    if sel.len() == 0 {
        Seq::empty()
    } else {
        app_tokens(apps, sel.drop_last()) + app_token(apps, sel.last())
    }
}

/// A hub after application `t` is toggled: a selection puts the processes
/// on the prompt after its command (`manage` for none or `view`).
pub open spec fn hub_app_toggled(h: HubView, t: Seq<char>) -> HubView {
    let sel = toggled_selection(h.selected_files, t);
    let c = first_word_or(h.prompt, Seq::empty());
    HubView {
        selected_files: sel,
        prompt: if sel.len() > 0 {
            (if c.len() == 0 || c == "view"@ {
                "manage"@
            } else {
                c
            }) + " "@ + joined_words(app_tokens(h.applications, sel), " "@)
        } else {
            Seq::empty()
        },
        ..h
    }
}

/// The Debug name of a risk level.
pub open spec fn risk_debug(r: crate::security::RiskLevel) -> Seq<char> {
    match r {
        crate::security::RiskLevel::Low => "Low"@,
        crate::security::RiskLevel::Medium => "Medium"@,
        crate::security::RiskLevel::High => "High"@,
        crate::security::RiskLevel::Critical => "Critical"@,
    }
}

/// The viewports after sector `si` is gone: its viewports close, and the
/// later sectors move down one place.
pub open spec fn reindexed(vps: Seq<crate::model::Viewport>, si: usize) -> Seq<crate::model::Viewport>
    decreases vps.len(),
{
    if vps.len() == 0 {
        vps
    } else {
        let rest = reindexed(vps.drop_last(), si);
        let v = vps.last();
        if v.sector_index == si {
            rest
        } else if v.sector_index > si {
            rest.push(crate::model::Viewport { sector_index: (v.sector_index - 1) as usize, ..v })
        } else {
            rest.push(v)
        }
    }
}

/// The effects of a semantic event named by the interface.
pub open spec fn semantic_effects(name: Seq<char>) -> Seq<EffectView> {
    if name == "ZoomIn"@ {
        seq![EffectView::Semantic(SemanticEvent::ZoomIn)]
    } else if name == "ZoomOut"@ {
        seq![EffectView::Semantic(SemanticEvent::ZoomOut)]
    } else if name == "CycleMode"@ {
        seq![EffectView::Semantic(SemanticEvent::CycleMode)]
    } else if name == "ToggleBezel"@ {
        seq![EffectView::Semantic(SemanticEvent::ToggleBezel)]
    } else if name == "TacticalReset"@ {
        seq![EffectView::Semantic(SemanticEvent::TacticalReset)]
    } else if name == "SystemReset"@ {
        seq![EffectView::Semantic(SemanticEvent::SystemReset)]
    } else if name == "OpenGlobalOverview"@ {
        seq![EffectView::Semantic(SemanticEvent::OpenGlobalOverview)]
    } else if name == "SplitViewport"@ {
        seq![EffectView::Semantic(SemanticEvent::SplitViewport), EffectView::SpawnMissingPtys]
    } else if name == "CloseViewport"@ {
        seq![EffectView::Semantic(SemanticEvent::CloseViewport)]
    } else if name == "StopOperation"@ {
        seq![EffectView::Semantic(SemanticEvent::StopOperation)]
    } else if name == "ToggleMiniMap"@ {
        seq![EffectView::Semantic(SemanticEvent::ToggleMiniMap)]
    } else if name == "ToggleComms"@ {
        seq![EffectView::Semantic(SemanticEvent::ToggleComms)]
    } else if name == "VoiceCommandStart"@ {
        seq![EffectView::StageCommand("LISTENING..."@)]
    } else {
        Seq::empty()
    }
}

/// The role an invitation names; an unknown name gives a viewer.
pub open spec fn role_named(s: Seq<char>) -> CollaborationRole {
    if s == "CoOwner"@ {
        CollaborationRole::CoOwner
    } else if s == "Operator"@ {
        CollaborationRole::Operator
    } else {
        CollaborationRole::Viewer
    }
}

/// Whether a submitted command reaches the shell: commands the hub handles
/// itself (starting `zoom`, `mode`, `focus`, `in`, `out`) do not.
pub open spec fn reaches_shell(cmd: Seq<char>) -> bool {
    !(crate::text::starts_with_seq(cmd, "zoom"@) || crate::text::starts_with_seq(cmd, "mode"@)
        || crate::text::starts_with_seq(cmd, "focus"@) || crate::text::starts_with_seq(cmd, "in"@)
        || crate::text::starts_with_seq(cmd, "out"@))
}

/// The mode a `mode` command names.
pub open spec fn mode_word(w: Seq<char>) -> Option<ModeRequest> {
    if w == "command"@ {
        Some(ModeRequest::Command)
    } else if w == "directory"@ || w == "dir"@ {
        Some(ModeRequest::Directory)
    } else if w == "activity"@ || w == "apps"@ {
        Some(ModeRequest::Activity)
    } else if w == "search"@ {
        Some(ModeRequest::Search)
    } else if w == "ai"@ {
        Some(ModeRequest::Ai)
    } else {
        None
    }
}

/// The effects of a command that the hub handles itself, by its words.
pub open spec fn command_effects(ws: Seq<Seq<char>>) -> Seq<EffectView> {
    if ws.len() == 0 {
        Seq::empty()
    } else if ws[0] == "zoom"@ {
        if ws.len() > 1 && ws[1] == "in"@ {
            seq![EffectView::ZoomIn]
        } else if ws.len() > 1 && ws[1] == "out"@ {
            seq![EffectView::ZoomOut]
        } else {
            Seq::empty()
        }
    } else if ws[0] == "enable-deep-inspection"@ {
        seq![EffectView::DeepInspection(true)]
    } else if ws[0] == "disable-deep-inspection"@ {
        seq![EffectView::DeepInspection(false)]
    } else if ws[0] == "in"@ {
        seq![EffectView::ZoomIn]
    } else if ws[0] == "out"@ {
        seq![EffectView::ZoomOut]
    } else if ws[0] == "mode"@ {
        if ws.len() > 1 {
            match mode_word(ws[1]) {
                Some(m) => seq![EffectView::ToggleMode(m)],
                None => Seq::empty(),
            }
        } else {
            Seq::empty()
        }
    } else {
        Seq::empty()
    }
}

/// The application whose upper-case title is the upper-case `target`.
pub open spec fn titled_index(apps: Seq<crate::model::AppView>, target: Seq<char>) -> Option<int>
    decreases apps.len(),
{
    if apps.len() == 0 {
        None
    } else {
        match titled_index(apps.drop_last(), target) {
            Some(i) => Some(i),
            None => if crate::text::uppercased(apps.last().title) == crate::text::uppercased(target) {
                Some(apps.len() - 1)
            } else {
                None
            },
        }
    }
}

/// The state after `focus target`: the application so titled is focused.
pub open spec fn focused(s: StateView, target: Seq<char>) -> StateView {
    match titled_index(s.active_hub().applications, target) {
        Some(i) => {
            let h = s.active_hub();
            let t = s.with_active_hub(HubView { active_app_index: Some(i as usize), ..h });
            StateView {
                current_level: crate::model::HierarchyLevel::ApplicationFocus,
                viewports: t.viewports.update(
                    t.active_viewport_index as int,
                    crate::model::Viewport {
                        current_level: crate::model::HierarchyLevel::ApplicationFocus,
                        active_app_index: Some(i as usize),
                        ..t.active_viewport()
                    },
                ),
                ..t
            }
        },
        None => s,
    }
}

/// The active hub after a command is submitted: the prompt and any pending
/// confirmation clear, and the command is echoed.
pub open spec fn submitted_hub(h: HubView, cmd: Seq<char>) -> HubView {
    HubView {
        prompt: Seq::empty(),
        confirmation_required: None,
        terminal_output: crate::shell_session::capped(h.terminal_output.push("> "@ + cmd)),
        ..h
    }
}

/// The active viewport shows an existing sector.
pub open spec fn sector_ok(s: StateView) -> bool {
    s.active_viewport_index < s.viewports.len() && s.active_viewport().sector_index < s.sectors.len()
}

/// Whether the focused application exists, if there is one.
pub open spec fn focused_app_ok(s: StateView) -> bool {
    s.active_viewport().active_app_index matches Some(ai) ==> ai < s.active_hub().applications.len()
}

/// What the state must hold for a request: the parts of it that the
/// request reads.
pub open spec fn request_ok(q: RequestView, s: StateView) -> bool {
    match q {
        RequestView::SetMode(_) | RequestView::PromptSubmit(_) | RequestView::ToggleOutputMode
        | RequestView::ToggleLeftRegion | RequestView::SaveTemplate(_) | RequestView::DirNavigate(_)
        | RequestView::DirToggleHidden | RequestView::DirPickFile(_) | RequestView::DirToggleSelect(_)
        | RequestView::DirContext(..) | RequestView::DirCloseContext | RequestView::DirClearSelect
        | RequestView::AppToggleSelect(_) | RequestView::AppBatchKill | RequestView::AppBatchSignal(_)
        | RequestView::DirActionCopy | RequestView::DirActionPaste | RequestView::DirActionDelete
        | RequestView::ConfirmCommand(_) | RequestView::IncrementHold(_)
        | RequestView::MarketplaceAddRepo(..) => s.wf(),
        RequestView::KillActiveApp => s.wf() && focused_app_ok(s),
        RequestView::LoadTemplate(_) | RequestView::TerminateRemoteLink | RequestView::SetStreamQuality(_) => sector_ok(
            s,
        ),
        RequestView::ZoomTo(t) => t != ZoomTarget::GlobalOverview ==> s.active_viewport_index < s.viewports.len(),
        _ => true,
    }
}

/// The dispatcher: the compositor state and the managers that requests
/// reach. The terminals themselves are held by the caller, which carries
/// out the effects.
#[derive(Debug)]
pub struct IpcDispatcher {
    pub state: TosState,
    pub security: SecurityManager,
    pub remote: RemoteManager,
}

/// Only the state changed.
pub open spec fn managers_kept(d0: IpcDispatcher, d1: IpcDispatcher) -> bool {
    d1.security == d0.security && d1.remote == d0.remote
}

/// Nothing changed.
pub open spec fn kept(d0: IpcDispatcher, d1: IpcDispatcher) -> bool {
    d1.state@ == d0.state@ && managers_kept(d0, d1)
}

/// Only the active hub changed, to `h`.
pub open spec fn hub_set(d0: IpcDispatcher, d1: IpcDispatcher, h: HubView) -> bool {
    d1.state@ == d0.state@.with_active_hub(h) && managers_kept(d0, d1)
}

/// The state after a level is chosen directly.
pub open spec fn zoomed_to(s: StateView, t: ZoomTarget) -> StateView {
    let l = match t {
        ZoomTarget::GlobalOverview => crate::model::HierarchyLevel::GlobalOverview,
        ZoomTarget::CommandHub => crate::model::HierarchyLevel::CommandHub,
        ZoomTarget::ApplicationFocus => crate::model::HierarchyLevel::ApplicationFocus,
        ZoomTarget::DetailInspector => crate::model::HierarchyLevel::DetailInspector,
        ZoomTarget::BufferInspector => crate::model::HierarchyLevel::BufferInspector,
    };
    StateView {
        current_level: l,
        viewports: s.viewports.update(
            s.active_viewport_index as int,
            crate::model::Viewport { current_level: l, ..s.active_viewport() },
        ),
        ..s
    }
}

/// The hub after it enters directory `p`: the selection and menu clear.
pub open spec fn entered(h: HubView, p: Seq<char>) -> HubView {
    HubView { current_directory: p, selected_files: Seq::empty(), context_menu: None, ..h }
}

/// The terminal writes that follow the hub to directory `p`.
pub open spec fn directory_writes(hub_id: u128, p: Seq<char>) -> Seq<EffectView> {
    seq![
        EffectView::PtyWrite { hub_id, text: "cd "@ + p + "\n"@ },
        EffectView::PtyWrite { hub_id, text: "LS "@ + p + "\n"@ },
    ]
}

/// A confirmed command: its session ends and the command goes to the
/// active hub's terminal.
pub open spec fn confirmed(d0: IpcDispatcher, d1: IpcDispatcher, id: u128, e: Seq<EffectView>) -> bool {
    if d0.security.active_sessions@.dom().contains(id) {
        &&& sessions_set(d0, d1, d0.security.active_sessions@.remove(id))
        &&& e == seq![
            EffectView::Earcon(EarconEvent::CommandAccepted),
            EffectView::PtyWrite {
                hub_id: d0.state@.active_hub().id,
                text: d0.security.active_sessions@[id].command@ + "\n"@,
            },
        ]
    } else {
        kept(d0, d1) && e == Seq::<EffectView>::empty()
    }
}

/// Only the sessions changed, to `m`.
pub open spec fn sessions_set(d0: IpcDispatcher, d1: IpcDispatcher, m: Map<u128, crate::security::ConfirmationSession>) -> bool {
    &&& d1.security.active_sessions@ == m
    &&& d1.security.audit_log@ == d0.security.audit_log@
    &&& d1.security.config == d0.security.config
    &&& d1.security.cache() == d0.security.cache()
    &&& d1.state@ == d0.state@
    &&& d1.remote == d0.remote
}


/// A hold step: the session advances by a twentieth, and a complete hold
/// confirms the command.
pub open spec fn held(d0: IpcDispatcher, d1: IpcDispatcher, id: u128, e: Seq<EffectView>) -> bool {
    let m0 = d0.security.active_sessions@;
    if m0.dom().contains(id) {
        let s0 = m0[id];
        let p: u32 = if s0.progress_milli > u32::MAX - 50 { u32::MAX } else { (s0.progress_milli + 50) as u32 };
        let m1 = m0.insert(id, crate::security::ConfirmationSession { progress_milli: p, ..s0 });
        if p >= 1000 {
            &&& sessions_set(d0, d1, m1.remove(id))
            &&& e == seq![
                EffectView::Earcon(EarconEvent::CommandAccepted),
                EffectView::PtyWrite { hub_id: d0.state@.active_hub().id, text: s0.command@ + "\n"@ },
            ]
        } else {
            sessions_set(d0, d1, m1) && e == Seq::<EffectView>::empty()
        }
    } else {
        kept(d0, d1) && e == Seq::<EffectView>::empty()
    }
}

/// A message from the user joins the comms channel.
pub open spec fn comms_sent(d0: IpcDispatcher, d1: IpcDispatcher, body: Seq<char>) -> bool {
    let m = d1.state@.comms_messages;
    &&& m.len() == d0.state@.comms_messages.len() + 1
    &&& m.drop_last() == d0.state@.comms_messages
    &&& m.last().from@ == "USER"@
    &&& m.last().body@ == body
    &&& d1.state@ == (StateView { comms_messages: m, ..d0.state@ })
    &&& managers_kept(d0, d1)
}

/// The remote link of the active sector ends; a remote sector goes, with
/// its viewports, and the view returns to the global overview.
pub open spec fn link_terminated(d0: IpcDispatcher, d1: IpcDispatcher) -> bool {
    let s = d0.state@;
    let si = s.active_viewport().sector_index;
    let sector = s.sectors[si as int];
    &&& d1.security == d0.security
    &&& d1.remote.active_connections@ == d0.remote.active_connections@.remove(sector.id)
    &&& d1.remote.nodes@ == d0.remote.nodes@
    &&& d1.remote.auth_store@ == d0.remote.auth_store@
    &&& d1.remote.command_queue@ == d0.remote.command_queue@
    &&& d1.state@ == if sector.connection_type != crate::remote::ConnectionType::Local {
        StateView {
            sectors: s.sectors.remove(si as int),
            viewports: reindexed(s.viewports, si),
            active_viewport_index: 0,
            current_level: crate::model::HierarchyLevel::GlobalOverview,
            ..s
        }
    } else {
        s
    }
}

/// The stream quality of the active sector's link, if it has one.
pub open spec fn quality_set(d0: IpcDispatcher, d1: IpcDispatcher, q: u8, e: Seq<EffectView>) -> bool {
    let sid = d0.state@.active_sector().id;
    let c0 = d0.remote.active_connections@;
    if c0.dom().contains(sid) {
        &&& d1.remote.active_connections@ == c0.insert(sid, crate::remote::RemoteConnection { stream_quality: q, ..c0[sid] })
        &&& d1.remote.nodes@ == d0.remote.nodes@
        &&& d1.remote.auth_store@ == d0.remote.auth_store@
        &&& d1.remote.command_queue@ == d0.remote.command_queue@
        &&& d1.state@ == d0.state@
        &&& d1.security == d0.security
        &&& e == seq![EffectView::Earcon(EarconEvent::CommandAccepted)]
    } else {
        kept(d0, d1) && e == Seq::<EffectView>::empty()
    }
}

/// The selected applications of the active hub are signalled, and the
/// selection and prompt clear.
pub open spec fn batch_signalled(d0: IpcDispatcher, d1: IpcDispatcher, kind: SignalKind, e: Seq<EffectView>) -> bool {
    let s = d0.state@;
    let (s2, e2) = signalled_all(s, s.active_hub().selected_files, kind);
    &&& d1.state@ == s2.with_active_hub(
        HubView { selected_files: Seq::empty(), prompt: Seq::empty(), ..s2.active_hub() },
    )
    &&& managers_kept(d0, d1)
    &&& e == e2
}

/// A command is submitted at the active hub: it is echoed, the hub acts on
/// its own commands, a dangerous command awaits confirmation, and every
/// command but the hub's own goes to the terminal.
pub open spec fn prompt_submitted(d0: IpcDispatcher, d1: IpcDispatcher, cmd: Seq<char>, e: Seq<EffectView>) -> bool {
    let s = d0.state@;
    let h = s.active_hub();
    let s1 = s.with_active_hub(submitted_hub(h, cmd));
    let ws = words(cmd);
    let pty = if reaches_shell(cmd) {
        seq![EffectView::PtyWrite { hub_id: h.id, text: cmd + "\n"@ }]
    } else {
        Seq::<EffectView>::empty()
    };
    if h.mode == CommandHubMode::Search {
        &&& d1.state@ == s1
        &&& managers_kept(d0, d1)
        &&& e == seq![EffectView::Search(cmd)] + pty
    } else if h.mode == CommandHubMode::Ai {
        &&& d1.state@ == s1.with_active_hub(HubView { prompt: cmd, ..s1.active_hub() })
        &&& managers_kept(d0, d1)
        &&& e == seq![EffectView::Semantic(SemanticEvent::AiSubmit)] + pty
    } else if ws.len() > 0 && ws[0] == "focus"@ {
        &&& d1.state@ == (if ws.len() > 1 { focused(s1, ws[1]) } else { s1 })
        &&& managers_kept(d0, d1)
        &&& e == pty
    } else if ws.len() == 0 || ws[0] == "zoom"@ || ws[0] == "enable-deep-inspection"@
        || ws[0] == "disable-deep-inspection"@ || ws[0] == "in"@ || ws[0] == "out"@ || ws[0] == "mode"@ {
        &&& d1.state@ == s1
        &&& managers_kept(d0, d1)
        &&& e == command_effects(ws) + pty
    } else {
        &&& d1.remote == d0.remote
        &&& e == pty
        &&& if d0.security.config.enable_detection && exists|i: int| crate::security::first_match(d0.security.cache(), cmd, i) {
            exists|i: int| #[trigger] crate::security::first_match(d0.security.cache(), cmd, i) && {
                let p = d0.security.cache()[i].spec_pattern();
                d1.state@ == s1.with_active_hub(
                    HubView {
                        confirmation_required: Some(p.message@ + " (Risk: "@ + risk_debug(p.risk_level) + ")"@),
                        ..s1.active_hub()
                    },
                )
            } && exists|id: u128, now: u64, ts: Seq<char>, r: Option<crate::security::ConfirmationSession>|
                #[trigger] crate::security::confirmation_started(
                    d0.security,
                    d1.security,
                    cmd,
                    "host"@,
                    s.active_sector().id,
                    id,
                    now,
                    ts,
                    r,
                )
        } else {
            d1.state@ == s1 && d1.security == d0.security
        }
    }
}

/// What a request does: the dispatcher after it, and the effects for the
/// caller.
pub open spec fn dispatched(d0: IpcDispatcher, d1: IpcDispatcher, q: RequestView, e: Seq<EffectView>) -> bool {
    let s = d0.state@;
    let h = s.active_hub();
    let none = Seq::<EffectView>::empty();
    match q {
        RequestView::SetMode(m) => kept(d0, d1) && e == seq![
            EffectView::ToggleMode(m),
            EffectView::PtyWrite { hub_id: h.id, text: "ls -la "@ + h.current_directory + "\n"@ },
        ],
        RequestView::SelectSector(i) => kept(d0, d1) && e == seq![EffectView::SelectSector(i)],
        RequestView::PromptSubmit(cmd) => prompt_submitted(d0, d1, cmd, e),
        RequestView::PromptInput(p) => kept(d0, d1) && e == seq![EffectView::SetPrompt(p)],
        RequestView::StageCommand(c) => kept(d0, d1) && e == seq![EffectView::StageCommand(c)],
        RequestView::FocusApp(id) => kept(d0, d1) && e == seq![EffectView::FocusApp(id)],
        RequestView::AddRemoteSector => kept(d0, d1) && e == seq![EffectView::AddRemoteSector],
        RequestView::ToggleBezel => kept(d0, d1) && e == seq![EffectView::ToggleBezel],
        RequestView::TogglePortal => kept(d0, d1) && e == seq![EffectView::TogglePortal],
        RequestView::ApprovePortal => kept(d0, d1) && e == seq![EffectView::ApprovePortal],
        RequestView::DenyPortal => kept(d0, d1) && e == seq![EffectView::DenyPortal],
        RequestView::SplitViewport => kept(d0, d1) && e == seq![
            EffectView::Semantic(SemanticEvent::SplitViewport),
            EffectView::SpawnMissingPtys,
        ],
        RequestView::CreateSector => kept(d0, d1) && e == seq![EffectView::CreateSector],
        RequestView::ZoomIn => kept(d0, d1) && e == seq![EffectView::Semantic(SemanticEvent::ZoomIn)],
        RequestView::ZoomOut => kept(d0, d1) && e == seq![EffectView::Semantic(SemanticEvent::ZoomOut)],
        RequestView::ZoomTo(t) => if t == ZoomTarget::GlobalOverview {
            kept(d0, d1) && e == seq![EffectView::Semantic(SemanticEvent::OpenGlobalOverview)]
        } else {
            d1.state@ == zoomed_to(s, t) && managers_kept(d0, d1) && e == none
        },
        RequestView::ToggleOutputMode => hub_set(d0, d1, HubView { output_mode_centered: !h.output_mode_centered, ..h })
            && e == none,
        RequestView::ToggleLeftRegion => hub_set(d0, d1, HubView { left_region_visible: !h.left_region_visible, ..h })
            && e == none,
        RequestView::KillActiveApp => match s.active_viewport().active_app_index {
            Some(ai) => {
                let (s2, e2) = signalled(s, h.applications[ai as int].id, SignalKind::Kill);
                d1.state@ == s2 && managers_kept(d0, d1) && e == e2.push(EffectView::ZoomOut)
            },
            None => kept(d0, d1) && e == none,
        },
        RequestView::ToggleComms => kept(d0, d1) && e == seq![EffectView::ToggleComms],
        RequestView::OptimizeSystem => d1.state@ == (StateView { performance_alert: false, fps_milli: 60000, ..s })
            && managers_kept(d0, d1) && e == none,
        RequestView::TacticalReset => kept(d0, d1) && e == seq![EffectView::Semantic(SemanticEvent::TacticalReset)],
        RequestView::OpenSettings => d1.state@ == (StateView { settings_open: true, ..s }) && managers_kept(d0, d1)
            && e == none,
        RequestView::CloseSettings => d1.state@ == (StateView { settings_open: false, ..s }) && managers_kept(d0, d1)
            && e == none,
        RequestView::FollowParticipant(id) => kept(d0, d1) && e == seq![EffectView::FollowParticipant(id)],
        RequestView::SemanticEvent(n) => kept(d0, d1) && e == semantic_effects(n),
        RequestView::ConnectRemote(a) => kept(d0, d1) && e == seq![EffectView::ConnectRemote(a)],
        RequestView::InviteParticipant(r) => kept(d0, d1) && e == seq![EffectView::InviteParticipant(role_named(r))],
        RequestView::SaveTemplate(n) => hub_set(
            d0,
            d1,
            HubView { terminal_output: h.terminal_output.push("SYSTEM // TEMPLATE EXPORTED: "@ + n + ".tos-template"@), ..h },
        ) && e == none,
        RequestView::LoadTemplate(n) => {
            let si = s.active_viewport().sector_index as int;
            &&& d1.state@ == (StateView {
                sectors: s.sectors.update(si, crate::model::SectorView { name: "TEMPLATE: "@ + n, ..s.sectors[si] }),
                ..s
            })
            &&& managers_kept(d0, d1)
            &&& e == none
        },
        RequestView::KillApp(t) => {
            let (s2, e2) = signalled_text(s, t, SignalKind::Kill);
            d1.state@ == s2 && managers_kept(d0, d1) && e == e2
        },
        RequestView::KillSector(i) => {
            &&& d1.state@ == (if i < s.sectors.len() { StateView { sectors: s.sectors.remove(i as int), ..s } } else { s })
            &&& managers_kept(d0, d1)
            &&& e == none
        },
        RequestView::PlayAudio(n) => kept(d0, d1) && e == seq![EffectView::PlayAudio(audio_event_named(n))],
        RequestView::SendComms(b) => comms_sent(d0, d1, b) && e == seq![EffectView::Earcon(EarconEvent::CommandAccepted)],
        RequestView::SignalApp(t, sig) => {
            let (s2, e2) = signalled_text(s, t, signal_named(sig));
            d1.state@ == s2 && managers_kept(d0, d1) && e == e2
        },
        RequestView::TerminateRemoteLink => link_terminated(d0, d1) && e == none,
        RequestView::SetStreamQuality(q) => quality_set(d0, d1, q, e),
        RequestView::CollaborationInvite => kept(d0, d1) && e == seq![
            EffectView::InviteParticipant(CollaborationRole::Viewer),
        ],
        RequestView::DirNavigate(t) => if t == ".."@ {
            match crate::paths::parent_path(h.current_directory) {
                Some(p) => hub_set(d0, d1, entered(h, p)) && e == directory_writes(h.id, p),
                None => kept(d0, d1) && e == none,
            }
        } else {
            kept(d0, d1) && e == seq![
                EffectView::EnterIfDirectory { hub_id: h.id, path: joined_path(h.current_directory, t) },
            ]
        },
        RequestView::DirToggleHidden => hub_set(d0, d1, HubView { show_hidden_files: !h.show_hidden_files, ..h })
            && e == none,
        RequestView::DirPickFile(n) => hub_set(d0, d1, hub_picked(h, n)) && e == none,
        RequestView::DirToggleSelect(n) => hub_set(d0, d1, hub_entry_toggled(h, n)) && e == none,
        RequestView::DirContext(t, x, y) => hub_set(d0, d1, HubView { context_menu: Some(entry_menu(t, x, y)), ..h })
            && e == none,
        RequestView::DirCloseContext => hub_set(d0, d1, HubView { context_menu: None, ..h }) && e == none,
        RequestView::DirClearSelect => hub_set(
            d0,
            d1,
            HubView { selected_files: Seq::empty(), context_menu: None, ..h },
        ) && e == none,
        RequestView::AppToggleSelect(t) => hub_set(d0, d1, hub_app_toggled(h, t)) && e == none,
        RequestView::AppBatchKill => batch_signalled(d0, d1, SignalKind::Kill, e),
        RequestView::AppBatchSignal(sig) => batch_signalled(d0, d1, signal_named(sig), e),
        RequestView::DirActionCopy => hub_set(d0, d1, hub_staged(h, "cp"@)) && e == none,
        RequestView::DirActionPaste => hub_set(d0, d1, HubView { prompt: "cp $CLIPBOARD ."@, ..h }) && e == none,
        RequestView::DirActionDelete => hub_set(d0, d1, hub_staged(h, "rm"@)) && e == none,
        RequestView::UpdateConfirmationProgress(id, p) => kept(d0, d1) && e == seq![
            EffectView::ConfirmationProgress { session: id, progress: p },
        ],
        RequestView::ConfirmCommand(id) => confirmed(d0, d1, id, e),
        RequestView::CancelConfirmation(id) => sessions_set(d0, d1, d0.security.active_sessions@.remove(id))
            && e == none,
        RequestView::IncrementHold(id) => held(d0, d1, id, e),
        RequestView::ResetHold(id) => {
            let m0 = d0.security.active_sessions@;
            &&& if m0.dom().contains(id) {
                sessions_set(d0, d1, m0.insert(id, crate::security::ConfirmationSession { progress_milli: 0, ..m0[id] }))
            } else {
                kept(d0, d1)
            }
            &&& e == none
        },
        RequestView::UpdateSetting(k, v) => kept(d0, d1) && e == seq![EffectView::UpdateSetting { key: k, value: v }],
        RequestView::MarketplaceSearch(q) => kept(d0, d1) && e == seq![EffectView::MarketplaceSearch(q)],
        RequestView::MarketplaceInstall(n) => kept(d0, d1) && e == seq![EffectView::MarketplaceInstall(n)],
        RequestView::MarketplaceAddRepo(n, u) => hub_set(
            d0,
            d1,
            HubView {
                terminal_output: h.terminal_output.push("MARKETPLACE // REPOSITORY ADDED: "@ + n + " ("@ + u + ")"@),
                ..h
            },
        ) && e == seq![EffectView::MarketplaceAddRepo { name: n, url: u }],
        RequestView::MarketplaceDiscover => kept(d0, d1) && e == seq![EffectView::MarketplaceDiscover],
        RequestView::UiReady => kept(d0, d1) && e == seq![EffectView::Redraw],
        RequestView::Ignored => kept(d0, d1) && e == none,
    }
}

proof fn lemma_app_index_prefix(apps: Seq<crate::model::AppView>, id: u128, k: int)
    requires
        0 <= k <= apps.len(),
        app_index(apps.take(k), id) is Some,
    ensures
        app_index(apps, id) == app_index(apps.take(k), id),
    decreases apps.len(),
{
    if k == apps.len() {
        assert(apps.take(k) =~= apps);
    } else {
        assert(apps.drop_last().take(k) =~= apps.take(k));
        lemma_app_index_prefix(apps.drop_last(), id, k);
    }
}

proof fn lemma_hub_location_prefix(hubs: Seq<HubView>, id: u128, k: int)
    requires
        0 <= k <= hubs.len(),
        hub_app_location(hubs.take(k), id) is Some,
    ensures
        hub_app_location(hubs, id) == hub_app_location(hubs.take(k), id),
    decreases hubs.len(),
{
    if k == hubs.len() {
        assert(hubs.take(k) =~= hubs);
    } else {
        assert(hubs.drop_last().take(k) =~= hubs.take(k));
        lemma_hub_location_prefix(hubs.drop_last(), id, k);
    }
}

proof fn lemma_app_location_prefix(sectors: Seq<crate::model::SectorView>, id: u128, k: int)
    requires
        0 <= k <= sectors.len(),
        app_location(sectors.take(k), id) is Some,
    ensures
        app_location(sectors, id) == app_location(sectors.take(k), id),
    decreases sectors.len(),
{
    if k == sectors.len() {
        assert(sectors.take(k) =~= sectors);
    } else {
        assert(sectors.drop_last().take(k) =~= sectors.take(k));
        lemma_app_location_prefix(sectors.drop_last(), id, k);
    }
}

proof fn lemma_titled_prefix(apps: Seq<crate::model::AppView>, target: Seq<char>, k: int)
    requires
        0 <= k <= apps.len(),
        titled_index(apps.take(k), target) is Some,
    ensures
        titled_index(apps, target) == titled_index(apps.take(k), target),
    decreases apps.len(),
{
    if k == apps.len() {
        assert(apps.take(k) =~= apps);
    } else {
        assert(apps.drop_last().take(k) =~= apps.take(k));
        lemma_titled_prefix(apps.drop_last(), target, k);
    }
}

proof fn lemma_app_index_bounds(apps: Seq<crate::model::AppView>, id: u128)
    ensures
        app_index(apps, id) matches Some(i) ==> 0 <= i < apps.len() && apps[i].id == id,
    decreases apps.len(),
{
    if apps.len() > 0 {
        lemma_app_index_bounds(apps.drop_last(), id);
    }
}

proof fn lemma_hub_location_bounds(hubs: Seq<HubView>, id: u128)
    ensures
        hub_app_location(hubs, id) matches Some((h, a)) ==> 0 <= h < hubs.len() && 0 <= a
            < hubs[h].applications.len() && hubs[h].applications[a].id == id,
    decreases hubs.len(),
{
    if hubs.len() > 0 {
        lemma_hub_location_bounds(hubs.drop_last(), id);
        lemma_app_index_bounds(hubs.last().applications, id);
    }
}

proof fn lemma_app_location_bounds(sectors: Seq<crate::model::SectorView>, id: u128)
    ensures
        app_location(sectors, id) matches Some((si, h, a)) ==> 0 <= si < sectors.len() && 0 <= h
            < sectors[si].hubs.len() && 0 <= a < sectors[si].hubs[h].applications.len(),
    decreases sectors.len(),
{
    if sectors.len() > 0 {
        lemma_app_location_bounds(sectors.drop_last(), id);
        lemma_hub_location_bounds(sectors.last().hubs, id);
    }
}

/// The first application `id` of a hub.
fn find_app(hub: &CommandHub, id: u128) -> (r: Option<usize>)
    ensures
        match r {
            Some(i) => app_index(hub@.applications, id) == Some(i as int),
            None => app_index(hub@.applications, id) is None,
        },
{
    let ghost apps = hub@.applications;
    let mut i: usize = 0;
    while i < hub.applications.len()
        invariant
            i <= hub.applications@.len(),
            apps == hub@.applications,
            app_index(apps.take(i as int), id) is None,
        decreases hub.applications@.len() - i,
    {
        assert(apps.take(i + 1).drop_last() =~= apps.take(i as int));
        assert(apps[i as int].id == hub.applications@[i as int].id);
        if hub.applications[i].id == id {
            proof {
                lemma_app_index_prefix(apps, id, i + 1);
            }
            return Some(i);
        }
        i = i + 1;
    }
    assert(apps.take(i as int) =~= apps);
    None
}

/// The first hub holding an application `id`, and where.
fn find_in_hubs(hubs: &Vec<CommandHub>, id: u128) -> (r: Option<(usize, usize)>)
    ensures
        match r {
            Some((h, a)) => hub_app_location(hubs@.map_values(|c: CommandHub| c@), id) == Some((h as int, a as int)),
            None => hub_app_location(hubs@.map_values(|c: CommandHub| c@), id) is None,
        },
{
    let ghost hs = hubs@.map_values(|c: CommandHub| c@);
    let mut i: usize = 0;
    while i < hubs.len()
        invariant
            i <= hubs@.len(),
            hs == hubs@.map_values(|c: CommandHub| c@),
            hub_app_location(hs.take(i as int), id) is None,
        decreases hubs@.len() - i,
    {
        assert(hs.take(i + 1).drop_last() =~= hs.take(i as int));
        assert(hs[i as int] == hubs@[i as int]@);
        if let Some(a) = find_app(&hubs[i], id) {
            proof {
                lemma_hub_location_prefix(hs, id, i + 1);
            }
            return Some((i, a));
        }
        i = i + 1;
    }
    assert(hs.take(i as int) =~= hs);
    None
}

/// Where the first application `id` is.
fn locate_app(state: &TosState, id: u128) -> (r: Option<(usize, usize, usize)>)
    ensures
        match r {
            Some((si, h, a)) => app_location(state@.sectors, id) == Some((si as int, h as int, a as int)),
            None => app_location(state@.sectors, id) is None,
        },
{
    let ghost ss = state@.sectors;
    let mut i: usize = 0;
    while i < state.sectors.len()
        invariant
            i <= state.sectors@.len(),
            ss == state@.sectors,
            app_location(ss.take(i as int), id) is None,
        decreases state.sectors@.len() - i,
    {
        assert(ss.take(i + 1).drop_last() =~= ss.take(i as int));
        assert(ss[i as int] == state.sectors@[i as int]@);
        if let Some((h, a)) = find_in_hubs(&state.sectors[i].hubs, id) {
            proof {
                lemma_app_location_prefix(ss, id, i + 1);
            }
            return Some((i, h, a));
        }
        i = i + 1;
    }
    assert(ss.take(i as int) =~= ss);
    None
}

proof fn lemma_signalled_wf(s: StateView, id: u128, kind: SignalKind)
    requires
        s.wf(),
    ensures
        signalled(s, id, kind).0.wf(),
        signalled(s, id, kind).0.viewports == s.viewports,
        signalled(s, id, kind).0.active_viewport_index == s.active_viewport_index,
{
    lemma_app_location_bounds(s.sectors, id);
}

proof fn lemma_signalled_all_wf(s: StateView, ids: Seq<Seq<char>>, kind: SignalKind)
    requires
        s.wf(),
    ensures
        signalled_all(s, ids, kind).0.wf(),
    decreases ids.len(),
{
    if ids.len() > 0 {
        lemma_signalled_all_wf(s, ids.drop_last(), kind);
        let s1 = signalled_all(s, ids.drop_last(), kind).0;
        match uuid_parsed(ids.last()) {
            Some(id) => lemma_signalled_wf(s1, id, kind),
            None => {},
        }
    }
}

fn effects_of(e: Effect) -> (v: Vec<Effect>)
    ensures
        effect_views(v@) == seq![e@],
{
    let mut v: Vec<Effect> = Vec::new();
    v.push(e);
    assert(effect_views(v@) =~= seq![e@]);
    v
}

fn no_effects() -> (v: Vec<Effect>)
    ensures
        effect_views(v@) == Seq::<EffectView>::empty(),
{
    let v: Vec<Effect> = Vec::new();
    assert(effect_views(v@) =~= Seq::<EffectView>::empty());
    v
}

fn push_effect(v: &mut Vec<Effect>, e: Effect)
    ensures
        effect_views(final(v)@) == effect_views(old(v)@).push(e@),
{
    v.push(e);
    assert(effect_views(v@) =~= effect_views(old(v)@).push(e@));
}

fn append_effects(v: &mut Vec<Effect>, w: Vec<Effect>)
    ensures
        effect_views(final(v)@) == effect_views(old(v)@) + effect_views(w@),
{
    let mut w = w;
    let ghost wv = effect_views(w@);
    v.append(&mut w);
    assert(effect_views(v@) =~= effect_views(old(v)@) + wv);
}

impl IpcDispatcher {
    /// A dispatcher over a state and its managers.
    pub fn new(state: TosState, security: SecurityManager, remote: RemoteManager) -> (d: IpcDispatcher)
        ensures
            d.state == state,
            d.security == security,
            d.remote == remote,
    {
        IpcDispatcher { state, security, remote }
    }

    /// Signals the first application `id`.
    fn signal_id(&mut self, id: u128, kind: SignalKind) -> (e: Vec<Effect>)
        ensures
            (final(self).state@, effect_views(e@)) == signalled(old(self).state@, id, kind),
            managers_kept(*old(self), *final(self)),
    {
        let ghost s0 = self.state@;
        proof {
            lemma_app_location_bounds(s0.sectors, id);
        }
        match locate_app(&self.state, id) {
            Some((si, hi, ai)) => {
                let pid = self.state.sectors[si].hubs[hi].applications[ai].pid;
                assert(pid == s0.sectors[si as int].hubs[hi as int].applications[ai as int].pid);
                if kind == SignalKind::Kill {
                    self.state.remove_app(si, hi, ai);
                }
                match pid {
                    Some(p) => effects_of(Effect::Signal { pid: p, signal: kind }),
                    None => no_effects(),
                }
            },
            None => no_effects(),
        }
    }

    /// Signals the application whose id is the text `t`.
    fn signal_text(&mut self, t: &str, kind: SignalKind) -> (e: Vec<Effect>)
        ensures
            (final(self).state@, effect_views(e@)) == signalled_text(old(self).state@, t@, kind),
            managers_kept(*old(self), *final(self)),
    {
        match parse_id(t) {
            Some(id) => self.signal_id(id, kind),
            None => no_effects(),
        }
    }
}

fn signal_kind_of(s: &str) -> (k: SignalKind)
    ensures
        k == signal_named(s@),
{
    let c = chars_of(s);
    if eq_str(&c, "INT") {
        SignalKind::Int
    } else if eq_str(&c, "TERM") {
        SignalKind::Term
    } else if eq_str(&c, "KILL") {
        SignalKind::Kill
    } else {
        SignalKind::Term
    }
}

fn role_of(s: &str) -> (r: CollaborationRole)
    ensures
        r == role_named(s@),
{
    let c = chars_of(s);
    if eq_str(&c, "CoOwner") {
        CollaborationRole::CoOwner
    } else if eq_str(&c, "Operator") {
        CollaborationRole::Operator
    } else {
        CollaborationRole::Viewer
    }
}

fn semantic_effects_of(name: &str) -> (v: Vec<Effect>)
    ensures
        effect_views(v@) == semantic_effects(name@),
{
    let c = chars_of(name);
    if eq_str(&c, "ZoomIn") {
        effects_of(Effect::Semantic(SemanticEvent::ZoomIn))
    } else if eq_str(&c, "ZoomOut") {
        effects_of(Effect::Semantic(SemanticEvent::ZoomOut))
    } else if eq_str(&c, "CycleMode") {
        effects_of(Effect::Semantic(SemanticEvent::CycleMode))
    } else if eq_str(&c, "ToggleBezel") {
        effects_of(Effect::Semantic(SemanticEvent::ToggleBezel))
    } else if eq_str(&c, "TacticalReset") {
        effects_of(Effect::Semantic(SemanticEvent::TacticalReset))
    } else if eq_str(&c, "SystemReset") {
        effects_of(Effect::Semantic(SemanticEvent::SystemReset))
    } else if eq_str(&c, "OpenGlobalOverview") {
        effects_of(Effect::Semantic(SemanticEvent::OpenGlobalOverview))
    } else if eq_str(&c, "SplitViewport") {
        let mut v = effects_of(Effect::Semantic(SemanticEvent::SplitViewport));
        push_effect(&mut v, Effect::SpawnMissingPtys);
        v
    } else if eq_str(&c, "CloseViewport") {
        effects_of(Effect::Semantic(SemanticEvent::CloseViewport))
    } else if eq_str(&c, "StopOperation") {
        effects_of(Effect::Semantic(SemanticEvent::StopOperation))
    } else if eq_str(&c, "ToggleMiniMap") {
        effects_of(Effect::Semantic(SemanticEvent::ToggleMiniMap))
    } else if eq_str(&c, "ToggleComms") {
        effects_of(Effect::Semantic(SemanticEvent::ToggleComms))
    } else if eq_str(&c, "VoiceCommandStart") {
        let v = effects_of(Effect::StageCommand(String::from_str("LISTENING...")));
        v
    } else {
        no_effects()
    }
}

fn mode_word_of(w: &Vec<char>) -> (m: Option<ModeRequest>)
    ensures
        m == mode_word(w@),
{
    if eq_str(w, "command") {
        Some(ModeRequest::Command)
    } else if eq_str(w, "directory") || eq_str(w, "dir") {
        Some(ModeRequest::Directory)
    } else if eq_str(w, "activity") || eq_str(w, "apps") {
        Some(ModeRequest::Activity)
    } else if eq_str(w, "search") {
        Some(ModeRequest::Search)
    } else if eq_str(w, "ai") {
        Some(ModeRequest::Ai)
    } else {
        None
    }
}

fn command_effects_of(ws: &Vec<Vec<char>>) -> (v: Vec<Effect>)
    ensures
        effect_views(v@) == command_effects(crate::scan::views(ws@)),
{
    let ghost w = crate::scan::views(ws@);
    if ws.len() == 0 {
        return no_effects();
    }
    assert(w[0] == ws@[0]@);
    if ws.len() > 1 {
        assert(w[1] == ws@[1]@);
    }
    if eq_str(&ws[0], "zoom") {
        if ws.len() > 1 && eq_str(&ws[1], "in") {
            effects_of(Effect::ZoomIn)
        } else if ws.len() > 1 && eq_str(&ws[1], "out") {
            effects_of(Effect::ZoomOut)
        } else {
            no_effects()
        }
    } else if eq_str(&ws[0], "enable-deep-inspection") {
        effects_of(Effect::DeepInspection(true))
    } else if eq_str(&ws[0], "disable-deep-inspection") {
        effects_of(Effect::DeepInspection(false))
    } else if eq_str(&ws[0], "in") {
        effects_of(Effect::ZoomIn)
    } else if eq_str(&ws[0], "out") {
        effects_of(Effect::ZoomOut)
    } else if eq_str(&ws[0], "mode") {
        if ws.len() > 1 {
            match mode_word_of(&ws[1]) {
                Some(m) => effects_of(Effect::ToggleMode(m)),
                None => no_effects(),
            }
        } else {
            no_effects()
        }
    } else {
        no_effects()
    }
}

fn reaches_shell_exec(cmd: &Vec<char>) -> (b: bool)
    ensures
        b == reaches_shell(cmd@),
{
    !(crate::text::starts_with(cmd, &chars_of("zoom")) || crate::text::starts_with(cmd, &chars_of("mode"))
        || crate::text::starts_with(cmd, &chars_of("focus")) || crate::text::starts_with(cmd, &chars_of("in"))
        || crate::text::starts_with(cmd, &chars_of("out")))
}

fn copy_strings(v: &Vec<String>) -> (w: Vec<String>)
    ensures
        crate::model::string_views(w@) == crate::model::string_views(v@),
{
    let mut w: Vec<String> = Vec::new();
    let mut i: usize = 0;
    while i < v.len()
        invariant
            i <= v@.len(),
            crate::model::string_views(w@) == crate::model::string_views(v@).take(i as int),
        decreases v@.len() - i,
    {
        let x = String::from_str(v[i].as_str());
        assert(x@ == v@[i as int]@);
        w.push(x);
        assert(crate::model::string_views(v@).take(i + 1) =~= crate::model::string_views(v@).take(i as int).push(v@[i as int]@));
        assert(crate::model::string_views(w@) =~= crate::model::string_views(v@).take(i + 1));
        i = i + 1;
    }
    assert(crate::model::string_views(v@).take(i as int) =~= crate::model::string_views(v@));
    w
}

fn risk_debug_str(r: crate::security::RiskLevel) -> (s: &'static str)
    ensures
        s@ == risk_debug(r),
{
    match r {
        crate::security::RiskLevel::Low => "Low",
        crate::security::RiskLevel::Medium => "Medium",
        crate::security::RiskLevel::High => "High",
        crate::security::RiskLevel::Critical => "Critical",
    }
}

/// The tokens of the selected applications of a hub.
fn app_tokens_of(hub: &CommandHub) -> (v: Vec<String>)
    ensures
        crate::model::string_views(v@) == app_tokens(hub@.applications, hub@.selected_files),
{
    let ghost sel = hub@.selected_files;
    let ghost apps = hub@.applications;
    let mut v: Vec<String> = Vec::new();
    let mut i: usize = 0;
    while i < hub.selected_files.len()
        invariant
            i <= hub.selected_files@.len(),
            sel == hub@.selected_files,
            apps == hub@.applications,
            crate::model::string_views(v@) == app_tokens(apps, sel.take(i as int)),
        decreases hub.selected_files@.len() - i,
    {
        let ghost before = crate::model::string_views(v@);
        assert(sel.take(i + 1).drop_last() =~= sel.take(i as int));
        assert(sel.take(i + 1).last() == hub.selected_files@[i as int]@);
        proof {
            lemma_app_index_bounds(apps, uuid_parsed(hub.selected_files@[i as int]@)->0);
        }
        match parse_id(hub.selected_files[i].as_str()) {
            Some(id) => {
                proof {
                    lemma_app_index_bounds(apps, id);
                }
                match find_app(hub, id) {
                    Some(k) => {
                        let app = &hub.applications[k];
                        assert(app@ == apps[k as int]);
                        match app.pid {
                            Some(p) => {
                                v.push(crate::text::u64_to_string(p as u64));
                            },
                            None => {
                                let mut t: Vec<char> = Vec::new();
                                push_str(&mut t, "[");
                                push_str(&mut t, app.title.as_str());
                                push_str(&mut t, "]");
                                v.push(string_of(&t));
                                assert(t@ =~= "["@ + apps[k as int].title + "]"@);
                            },
                        }
                        assert(crate::model::string_views(v@) =~= before + app_token(apps, hub.selected_files@[i as int]@));
                    },
                    None => {
                        assert(crate::model::string_views(v@) =~= before + app_token(apps, hub.selected_files@[i as int]@));
                    },
                }
            },
            None => {
                assert(crate::model::string_views(v@) =~= before + app_token(apps, hub.selected_files@[i as int]@));
            },
        }
        i = i + 1;
    }
    assert(sel.take(i as int) =~= sel);
    v
}

/// Toggles the selection of application `t`, putting the processes on the
/// prompt.
fn toggle_app(hub: &mut CommandHub, t: &str)
    ensures
        final(hub)@ == hub_app_toggled(old(hub)@, t@),
{
    let n = String::from_str(t);
    let (found, mut kept) = remove_selected(&hub.selected_files, &n);
    if !found {
        proof {
            lemma_without_absent(crate::model::string_views(hub.selected_files@), t@);
        }
        kept.push(n);
        assert(crate::model::string_views(kept@) =~= crate::model::string_views(hub.selected_files@).push(t@));
    }
    let pw = chars_of(hub.prompt.as_str());
    let ws = crate::scan::split_whitespace(&pw);
    hub.selected_files = kept;
    if hub.selected_files.len() > 0 {
        let tokens = app_tokens_of(hub);
        let mut out: Vec<char> = Vec::new();
        let c: Vec<char> = if ws.len() > 0 {
            assert(crate::scan::views(ws@)[0] == ws@[0]@);
            let mut c: Vec<char> = Vec::new();
            crate::text::push_chars(&mut c, &ws[0]);
            c
        } else {
            Vec::new()
        };
        assert(c@ =~= first_word_or(old(hub)@.prompt, Seq::empty()));
        if c.len() == 0 || eq_str(&c, "view") {
            push_str(&mut out, "manage");
        } else {
            crate::text::push_chars(&mut out, &c);
        }
        push_str(&mut out, " ");
        push_joined(&mut out, &tokens, " ");
        hub.prompt = string_of(&out);
    } else {
        hub.prompt = String::new();
    }
}

impl IpcDispatcher {
    /// The effects of a kind of request that only the caller can carry out.
    fn only(&self, e: Effect) -> (v: Vec<Effect>)
        ensures
            effect_views(v@) == seq![e@],
    {
        effects_of(e)
    }

    /// Enters directory `path` at the active hub, as the interface asks once
    /// it is known to be one.
    pub fn enter_directory(&mut self, path: &str) -> (e: Vec<Effect>)
        requires
            old(self).state@.wf(),
        ensures
            hub_set(*old(self), *final(self), entered(old(self).state@.active_hub(), path@)),
            effect_views(e@) == directory_writes(old(self).state@.active_hub().id, path@),
    {
        let ghost s0 = self.state@;
        let mut hub = CommandHub::blank();
        self.state.swap_active_hub(&mut hub);
        hub.current_directory = String::from_str(path);
        hub.selected_files = Vec::new();
        hub.context_menu = None;
        let id = hub.id;
        assert(hub@.selected_files =~= Seq::<Seq<char>>::empty());
        assert(hub@ == entered(s0.active_hub(), path@));
        self.state.swap_active_hub(&mut hub);
        proof {
            crate::model::lemma_with_active_hub(s0, blank_hub_view(), entered(s0.active_hub(), path@));
        }
        let mut cd: Vec<char> = Vec::new();
        push_str(&mut cd, "cd ");
        push_str(&mut cd, path);
        push_str(&mut cd, "\n");
        let mut ls: Vec<char> = Vec::new();
        push_str(&mut ls, "LS ");
        push_str(&mut ls, path);
        push_str(&mut ls, "\n");
        let mut v = effects_of(Effect::PtyWrite { hub_id: id, text: string_of(&cd) });
        push_effect(&mut v, Effect::PtyWrite { hub_id: id, text: string_of(&ls) });
        assert(effect_views(v@) =~= directory_writes(s0.active_hub().id, path@));
        v
    }

    /// Ends a confirmed session, sending its command to the active hub.
    fn execute_confirmed(&mut self, id: u128) -> (e: Vec<Effect>)
        requires
            old(self).security.active_sessions@.dom().contains(id) ==> old(self).state@.wf(),
        ensures
            confirmed(*old(self), *final(self), id, effect_views(e@)),
    {
        if !self.security.active_sessions.contains_key(id) {
            return no_effects();
        }
        match self.security.active_sessions.remove(id) {
            Some(session) => {
                let vp = self.state.viewports[self.state.active_viewport_index];
                let hub_id = self.state.sectors[vp.sector_index].hubs[vp.hub_index].id;
                let mut t: Vec<char> = Vec::new();
                push_str(&mut t, session.command.as_str());
                push_str(&mut t, "\n");
                let mut v = effects_of(Effect::Earcon(EarconEvent::CommandAccepted));
                push_effect(&mut v, Effect::PtyWrite { hub_id, text: string_of(&t) });
                assert(effect_views(v@) =~= seq![
                    EffectView::Earcon(EarconEvent::CommandAccepted),
                    EffectView::PtyWrite { hub_id, text: session.command@ + "\n"@ },
                ]);
                v
            },
            None => no_effects(),
        }
    }

    /// Applies confirmation progress, in thousandths, that the caller read
    /// from a progress request: a sufficient one confirms the command.
    pub fn apply_confirmation_progress(&mut self, id: u128, progress_milli: u32) -> (e: Vec<Effect>)
        requires
            old(self).security.active_sessions@.dom().contains(id) ==> old(self).state@.wf(),
        ensures
            !old(self).security.active_sessions@.dom().contains(id) ==> kept(*old(self), *final(self))
                && effect_views(e@) == Seq::<EffectView>::empty(),
            old(self).security.active_sessions@.dom().contains(id) ==> {
                let p: u32 = if progress_milli > 10000 { 10000 } else { progress_milli };
                let m0 = old(self).security.active_sessions@;
                let m1 = final(self).security.active_sessions@;
                &&& final(self).state@ == old(self).state@
                &&& final(self).remote == old(self).remote
                &&& final(self).security.audit_log@ == old(self).security.audit_log@
                &&& final(self).security.config == old(self).security.config
                &&& final(self).security.cache() == old(self).security.cache()
                &&& if p >= crate::security::needed_milli(m0[id].required_method@) {
                    &&& m1 == m0.remove(id)
                    &&& effect_views(e@) == seq![
                        EffectView::Earcon(EarconEvent::CommandAccepted),
                        EffectView::PtyWrite { hub_id: old(self).state@.active_hub().id, text: m0[id].command@ + "\n"@ },
                    ]
                } else {
                    &&& m1.dom() == m0.dom()
                    &&& m1[id]@ == (crate::security::SessionView { progress_milli: p, ..m0[id]@ })
                    &&& forall|k: u128| k != id && m0.dom().contains(k) ==> m1[k] == m0[k]
                    &&& effect_views(e@) == Seq::<EffectView>::empty()
                }
            },
    {
        let ghost d0 = *self;
        if !self.security.active_sessions.contains_key(id) {
            return no_effects();
        }
        match self.security.update_progress(id, progress_milli) {
            Some(true) => {
                let ghost d1 = *self;
                let r = self.execute_confirmed(id);
                assert(self.security.active_sessions@ =~= d0.security.active_sessions@.remove(id));
                r
            },
            _ => no_effects(),
        }
    }
}

/// The application of a hub titled `target`, matching upper case.
fn find_titled(hub: &CommandHub, target: &Vec<char>) -> (r: Option<usize>)
    ensures
        match r {
            Some(i) => titled_index(hub@.applications, target@) == Some(i as int),
            None => titled_index(hub@.applications, target@) is None,
        },
{
    let ghost apps = hub@.applications;
    let want = crate::text::to_uppercase(string_of(target).as_str());
    let mut i: usize = 0;
    while i < hub.applications.len()
        invariant
            i <= hub.applications@.len(),
            apps == hub@.applications,
            want@ == crate::text::uppercased(target@),
            titled_index(apps.take(i as int), target@) is None,
        decreases hub.applications@.len() - i,
    {
        let app = &hub.applications[i];
        assert(app@ == apps[i as int]);
        let up = crate::text::to_uppercase(app.title.as_str());
        assert(apps.take(i + 1).drop_last() =~= apps.take(i as int));
        if up == want {
            proof {
                lemma_titled_prefix(apps, target@, i + 1);
            }
            return Some(i);
        }
        i = i + 1;
    }
    assert(apps.take(i as int) =~= apps);
    None
}

/// An edit of the active hub.
enum HubEdit<'a> {
    OutputMode,
    LeftRegion,
    HiddenFiles,
    Pick(&'a str),
    ToggleEntry(&'a str),
    Menu(&'a str, i32, i32),
    CloseMenu,
    ClearSelection,
    ToggleApp(&'a str),
    Stage(&'a str),
    Paste,
    Line(String),
}

/// The hub after an edit.
spec fn edited(h: HubView, op: HubEdit) -> HubView {
    match op {
        HubEdit::OutputMode => HubView { output_mode_centered: !h.output_mode_centered, ..h },
        HubEdit::LeftRegion => HubView { left_region_visible: !h.left_region_visible, ..h },
        HubEdit::HiddenFiles => HubView { show_hidden_files: !h.show_hidden_files, ..h },
        HubEdit::Pick(n) => hub_picked(h, n@),
        HubEdit::ToggleEntry(n) => hub_entry_toggled(h, n@),
        HubEdit::Menu(t, x, y) => HubView { context_menu: Some(entry_menu(t@, x, y)), ..h },
        HubEdit::CloseMenu => HubView { context_menu: None, ..h },
        HubEdit::ClearSelection => HubView { selected_files: Seq::empty(), context_menu: None, ..h },
        HubEdit::ToggleApp(t) => hub_app_toggled(h, t@),
        HubEdit::Stage(v) => hub_staged(h, v@),
        HubEdit::Paste => HubView { prompt: "cp $CLIPBOARD ."@, ..h },
        HubEdit::Line(l) => HubView { terminal_output: h.terminal_output.push(l@), ..h },
    }
}

fn concat2(a: &str, b: &str) -> (s: String)
    ensures
        s@ == a@ + b@,
{
    let mut v: Vec<char> = Vec::new();
    push_str(&mut v, a);
    push_str(&mut v, b);
    string_of(&v)
}

fn concat3(a: &str, b: &str, c: &str) -> (s: String)
    ensures
        s@ == a@ + b@ + c@,
{
    let mut v: Vec<char> = Vec::new();
    push_str(&mut v, a);
    push_str(&mut v, b);
    push_str(&mut v, c);
    string_of(&v)
}

impl IpcDispatcher {
    /// Applies an edit to the active hub.
    fn edit_hub(&mut self, op: HubEdit) -> (e: Vec<Effect>)
        requires
            old(self).state@.wf(),
        ensures
            hub_set(*old(self), *final(self), edited(old(self).state@.active_hub(), op)),
            effect_views(e@) == Seq::<EffectView>::empty(),
    {
        let ghost s0 = self.state@;
        let ghost target = edited(s0.active_hub(), op);
        let mut hub = CommandHub::blank();
        self.state.swap_active_hub(&mut hub);
        match op {
            HubEdit::OutputMode => {
                hub.output_mode_centered = !hub.output_mode_centered;
            },
            HubEdit::LeftRegion => {
                hub.left_region_visible = !hub.left_region_visible;
            },
            HubEdit::HiddenFiles => {
                hub.show_hidden_files = !hub.show_hidden_files;
            },
            HubEdit::Pick(n) => pick_file(&mut hub, n),
            HubEdit::ToggleEntry(n) => toggle_entry(&mut hub, n),
            HubEdit::Menu(t, x, y) => open_menu(&mut hub, t, x, y),
            HubEdit::CloseMenu => {
                hub.context_menu = None;
            },
            HubEdit::ClearSelection => {
                hub.selected_files = Vec::new();
                hub.context_menu = None;
                assert(hub@.selected_files =~= Seq::<Seq<char>>::empty());
            },
            HubEdit::ToggleApp(t) => toggle_app(&mut hub, t),
            HubEdit::Stage(v) => stage_selection(&mut hub, v),
            HubEdit::Paste => {
                hub.prompt = String::from_str("cp $CLIPBOARD .");
            },
            HubEdit::Line(l) => {
                hub.terminal_output.push(l);
                assert(hub@.terminal_output =~= s0.active_hub().terminal_output.push(l@));
            },
        }
        assert(hub@ == target);
        self.state.swap_active_hub(&mut hub);
        proof {
            crate::model::lemma_with_active_hub(s0, blank_hub_view(), target);
        }
        no_effects()
    }

    /// The active hub's terminal, and the listing command for its mode.
    fn set_mode(&self, m: ModeRequest) -> (e: Vec<Effect>)
        requires
            self.state@.wf(),
        ensures
            effect_views(e@) == seq![
                EffectView::ToggleMode(m),
                EffectView::PtyWrite {
                    hub_id: self.state@.active_hub().id,
                    text: "ls -la "@ + self.state@.active_hub().current_directory + "\n"@,
                },
            ],
    {
        let vp = self.state.viewports[self.state.active_viewport_index];
        let hub = &self.state.sectors[vp.sector_index].hubs[vp.hub_index];
        assert(hub@ == self.state@.active_hub());
        let mut v = effects_of(Effect::ToggleMode(m));
        push_effect(&mut v, Effect::PtyWrite { hub_id: hub.id, text: concat3("ls -la ", hub.current_directory.as_str(), "\n") });
        assert(effect_views(v@) =~= seq![
            EffectView::ToggleMode(m),
            EffectView::PtyWrite {
                hub_id: self.state@.active_hub().id,
                text: "ls -la "@ + self.state@.active_hub().current_directory + "\n"@,
            },
        ]);
        v
    }

    /// Focuses the active hub's application titled `target`.
    fn focus_titled(&mut self, target: &Vec<char>)
        requires
            old(self).state@.wf(),
        ensures
            final(self).state@ == focused(old(self).state@, target@),
            managers_kept(*old(self), *final(self)),
    {
        let ghost s0 = self.state@;
        let vp = self.state.viewports[self.state.active_viewport_index];
        let found = find_titled(&self.state.sectors[vp.sector_index].hubs[vp.hub_index], target);
        match found {
            Some(pos) => {
                let mut hub = CommandHub::blank();
                self.state.swap_active_hub(&mut hub);
                hub.active_app_index = Some(pos);
                let ghost h1 = hub@;
                self.state.swap_active_hub(&mut hub);
                proof {
                    crate::model::lemma_with_active_hub(s0, blank_hub_view(), h1);
                }
                self.state.current_level = crate::model::HierarchyLevel::ApplicationFocus;
                let api = self.state.active_viewport_index;
                let mut v = self.state.viewports[api];
                v.current_level = crate::model::HierarchyLevel::ApplicationFocus;
                v.active_app_index = Some(pos);
                self.state.viewports.set(api, v);
                assert(self.state@.viewports =~= focused(s0, target@).viewports);
            },
            None => {},
        }
    }

    /// Submits a command at the active hub.
    #[verifier::rlimit(40)]
    fn prompt_submit(&mut self, cmd: &str) -> (e: Vec<Effect>)
        requires
            old(self).state@.wf(),
        ensures
            prompt_submitted(*old(self), *final(self), cmd@, effect_views(e@)),
    {
        let ghost s0 = self.state@;
        let mut hub = CommandHub::blank();
        self.state.swap_active_hub(&mut hub);
        let hub_id = hub.id;
        hub.prompt = String::new();
        hub.confirmation_required = None;
        let ghost out0 = hub@.terminal_output;
        hub.terminal_output.push(concat2("> ", cmd));
        let ghost out1 = hub@.terminal_output;
        assert(out1 =~= out0.push("> "@ + cmd@));
        if hub.terminal_output.len() > 100 {
            hub.terminal_output.remove(0);
            assert(hub@.terminal_output =~= out1.drop_first());
        }
        assert(hub@.terminal_output =~= crate::shell_session::capped(s0.active_hub().terminal_output.push("> "@ + cmd@)));
        assert(hub@ == submitted_hub(s0.active_hub(), cmd@));
        let mode = hub.mode;
        self.state.swap_active_hub(&mut hub);
        proof {
            crate::model::lemma_with_active_hub(s0, blank_hub_view(), submitted_hub(s0.active_hub(), cmd@));
        }
        let ghost s1 = self.state@;
        let cs = chars_of(cmd);
        let ws = crate::scan::split_whitespace(&cs);
        let ghost w = crate::scan::views(ws@);
        let mut v: Vec<Effect>;
        let searching = match mode {
            CommandHubMode::Search => true,
            _ => false,
        };
        let asking = match mode {
            CommandHubMode::Ai => true,
            _ => false,
        };
        if searching {
            v = no_effects();
            push_effect(&mut v, Effect::Search(String::from_str(cmd)));
        } else if asking {
            let ghost s2 = self.state@;
            let mut h3 = CommandHub::blank();
            self.state.swap_active_hub(&mut h3);
            h3.prompt = String::from_str(cmd);
            let ghost h3v = h3@;
            self.state.swap_active_hub(&mut h3);
            proof {
                crate::model::lemma_with_active_hub(s2, blank_hub_view(), h3v);
            }
            v = no_effects();
            push_effect(&mut v, Effect::Semantic(SemanticEvent::AiSubmit));
        } else if ws.len() > 0 && eq_str(&ws[0], "focus") {
            assert(w[0] == ws@[0]@);
            if ws.len() > 1 {
                assert(w[1] == ws@[1]@);
                self.focus_titled(&ws[1]);
            }
            v = no_effects();
        } else if ws.len() == 0 || eq_str(&ws[0], "zoom") || eq_str(&ws[0], "enable-deep-inspection")
            || eq_str(&ws[0], "disable-deep-inspection") || eq_str(&ws[0], "in") || eq_str(&ws[0], "out")
            || eq_str(&ws[0], "mode") {
            v = command_effects_of(&ws);
        } else {
            assert(w[0] == ws@[0]@);
            let flagged: Option<String> = match self.security.check_command(cmd) {
                Some((risk, pattern)) => {
                    let mut m: Vec<char> = Vec::new();
                    push_str(&mut m, pattern.message.as_str());
                    push_str(&mut m, " (Risk: ");
                    push_str(&mut m, risk_debug_str(risk));
                    push_str(&mut m, ")");
                    Some(string_of(&m))
                },
                None => None,
            };
            match flagged {
                Some(message) => {
                    let ghost s1 = self.state@;
                    let mut h2 = CommandHub::blank();
                    self.state.swap_active_hub(&mut h2);
                    h2.confirmation_required = Some(message);
                    let ghost h2v = h2@;
                    self.state.swap_active_hub(&mut h2);
                    proof {
                        crate::model::lemma_with_active_hub(s1, blank_hub_view(), h2v);
                    }
                    let vp = self.state.viewports[self.state.active_viewport_index];
                    let sector_id = self.state.sectors[vp.sector_index].id;
                    let _ = self.security.start_confirmation(cmd, "host", sector_id);
                },
                None => {},
            }
            v = no_effects();
        }
        let ghost pre = effect_views(v@);
        if reaches_shell_exec(&cs) {
            push_effect(&mut v, Effect::PtyWrite { hub_id, text: concat2(cmd, "\n") });
        }
        assert(effect_views(v@) =~= pre + if reaches_shell(cmd@) {
            seq![EffectView::PtyWrite { hub_id: s0.active_hub().id, text: cmd@ + "\n"@ }]
        } else {
            Seq::<EffectView>::empty()
        });
        v
    }
}

/// Which of the dispatcher's groups handles a request.
spec fn request_group(q: RequestView) -> int {
    match q {
        RequestView::SetMode(..)
        | RequestView::SelectSector(..)
        | RequestView::PromptInput(..)
        | RequestView::StageCommand(..)
        | RequestView::FocusApp(..)
        | RequestView::AddRemoteSector
        | RequestView::ToggleBezel
        | RequestView::TogglePortal
        | RequestView::ApprovePortal
        | RequestView::DenyPortal
        | RequestView::SplitViewport
        | RequestView::CreateSector
        | RequestView::ZoomIn
        | RequestView::ZoomOut => 0,
        RequestView::ToggleComms
        | RequestView::TacticalReset
        | RequestView::FollowParticipant(..)
        | RequestView::SemanticEvent(..)
        | RequestView::ConnectRemote(..)
        | RequestView::InviteParticipant(..)
        | RequestView::PlayAudio(..)
        | RequestView::CollaborationInvite
        | RequestView::UpdateConfirmationProgress(..)
        | RequestView::UpdateSetting(..)
        | RequestView::MarketplaceSearch(..)
        | RequestView::MarketplaceInstall(..)
        | RequestView::MarketplaceDiscover
        | RequestView::UiReady
        | RequestView::Ignored => 1,
        RequestView::PromptSubmit(..)
        | RequestView::ZoomTo(..)
        | RequestView::KillActiveApp
        | RequestView::OptimizeSystem
        | RequestView::OpenSettings
        | RequestView::CloseSettings
        | RequestView::LoadTemplate(..)
        | RequestView::KillSector(..)
        | RequestView::SendComms(..)
        | RequestView::TerminateRemoteLink
        | RequestView::SetStreamQuality(..) => 2,
        RequestView::ToggleOutputMode
        | RequestView::ToggleLeftRegion
        | RequestView::DirToggleHidden
        | RequestView::DirPickFile(..)
        | RequestView::DirToggleSelect(..)
        | RequestView::DirContext(..)
        | RequestView::DirCloseContext
        | RequestView::DirClearSelect => 3,
        RequestView::SaveTemplate(..)
        | RequestView::AppToggleSelect(..)
        | RequestView::DirActionCopy
        | RequestView::DirActionPaste
        | RequestView::DirActionDelete
        | RequestView::MarketplaceAddRepo(..)
        | RequestView::DirNavigate(..) => 5,
        RequestView::KillApp(..)
        | RequestView::SignalApp(..)
        | RequestView::AppBatchKill
        | RequestView::AppBatchSignal(..)
        | RequestView::ConfirmCommand(..)
        | RequestView::CancelConfirmation(..)
        | RequestView::IncrementHold(..)
        | RequestView::ResetHold(..) => 4,
    }
}

fn group_of(q: &IpcRequest) -> (g: u8)
    ensures
        g as int == request_group(q@),
{
    match q {
        IpcRequest::SetMode(..)
        | IpcRequest::SelectSector(..)
        | IpcRequest::PromptInput(..)
        | IpcRequest::StageCommand(..)
        | IpcRequest::FocusApp(..)
        | IpcRequest::AddRemoteSector
        | IpcRequest::ToggleBezel
        | IpcRequest::TogglePortal
        | IpcRequest::ApprovePortal
        | IpcRequest::DenyPortal
        | IpcRequest::SplitViewport
        | IpcRequest::CreateSector
        | IpcRequest::ZoomIn
        | IpcRequest::ZoomOut => 0,
        IpcRequest::ToggleComms
        | IpcRequest::TacticalReset
        | IpcRequest::FollowParticipant(..)
        | IpcRequest::SemanticEvent(..)
        | IpcRequest::ConnectRemote(..)
        | IpcRequest::InviteParticipant(..)
        | IpcRequest::PlayAudio(..)
        | IpcRequest::CollaborationInvite
        | IpcRequest::UpdateConfirmationProgress(..)
        | IpcRequest::UpdateSetting(..)
        | IpcRequest::MarketplaceSearch(..)
        | IpcRequest::MarketplaceInstall(..)
        | IpcRequest::MarketplaceDiscover
        | IpcRequest::UiReady
        | IpcRequest::Ignored => 1,
        IpcRequest::PromptSubmit(..)
        | IpcRequest::ZoomTo(..)
        | IpcRequest::KillActiveApp
        | IpcRequest::OptimizeSystem
        | IpcRequest::OpenSettings
        | IpcRequest::CloseSettings
        | IpcRequest::LoadTemplate(..)
        | IpcRequest::KillSector(..)
        | IpcRequest::SendComms(..)
        | IpcRequest::TerminateRemoteLink
        | IpcRequest::SetStreamQuality(..) => 2,
        IpcRequest::ToggleOutputMode
        | IpcRequest::ToggleLeftRegion
        | IpcRequest::DirToggleHidden
        | IpcRequest::DirPickFile(..)
        | IpcRequest::DirToggleSelect(..)
        | IpcRequest::DirContext(..)
        | IpcRequest::DirCloseContext
        | IpcRequest::DirClearSelect => 3,
        IpcRequest::SaveTemplate(..)
        | IpcRequest::AppToggleSelect(..)
        | IpcRequest::DirActionCopy
        | IpcRequest::DirActionPaste
        | IpcRequest::DirActionDelete
        | IpcRequest::MarketplaceAddRepo(..)
        | IpcRequest::DirNavigate(..) => 5,
        IpcRequest::KillApp(..)
        | IpcRequest::SignalApp(..)
        | IpcRequest::AppBatchKill
        | IpcRequest::AppBatchSignal(..)
        | IpcRequest::ConfirmCommand(..)
        | IpcRequest::CancelConfirmation(..)
        | IpcRequest::IncrementHold(..)
        | IpcRequest::ResetHold(..) => 4,
    }
}

fn level_of(t: ZoomTarget) -> (l: crate::model::HierarchyLevel)
    ensures
        l == zoomed_to_level(t),
{
    match t {
        ZoomTarget::GlobalOverview => crate::model::HierarchyLevel::GlobalOverview,
        ZoomTarget::CommandHub => crate::model::HierarchyLevel::CommandHub,
        ZoomTarget::ApplicationFocus => crate::model::HierarchyLevel::ApplicationFocus,
        ZoomTarget::DetailInspector => crate::model::HierarchyLevel::DetailInspector,
        ZoomTarget::BufferInspector => crate::model::HierarchyLevel::BufferInspector,
    }
}

/// The level a zoom target names.
spec fn zoomed_to_level(t: ZoomTarget) -> crate::model::HierarchyLevel {
    match t {
        ZoomTarget::GlobalOverview => crate::model::HierarchyLevel::GlobalOverview,
        ZoomTarget::CommandHub => crate::model::HierarchyLevel::CommandHub,
        ZoomTarget::ApplicationFocus => crate::model::HierarchyLevel::ApplicationFocus,
        ZoomTarget::DetailInspector => crate::model::HierarchyLevel::DetailInspector,
        ZoomTarget::BufferInspector => crate::model::HierarchyLevel::BufferInspector,
    }
}

/// The viewports after sector `si` is gone.
fn reindex_viewports(vps: &Vec<crate::model::Viewport>, si: usize) -> (out: Vec<crate::model::Viewport>)
    ensures
        out@ == reindexed(vps@, si),
{
    let mut out: Vec<crate::model::Viewport> = Vec::new();
    let mut i: usize = 0;
    while i < vps.len()
        invariant
            i <= vps@.len(),
            out@ == reindexed(vps@.take(i as int), si),
        decreases vps@.len() - i,
    {
        let v = vps[i];
        assert(vps@.take(i + 1).drop_last() =~= vps@.take(i as int));
        assert(vps@.take(i + 1).last() == v);
        if v.sector_index == si {
        } else if v.sector_index > si {
            out.push(crate::model::Viewport { sector_index: v.sector_index - 1, ..v });
        } else {
            out.push(v);
        }
        i = i + 1;
    }
    assert(vps@.take(i as int) =~= vps@);
    out
}

impl IpcDispatcher {
    /// Chooses a level directly (not the global overview).
    fn zoom_to(&mut self, t: ZoomTarget)
        requires
            old(self).state@.active_viewport_index < old(self).state@.viewports.len(),
        ensures
            final(self).state@ == zoomed_to(old(self).state@, t),
            managers_kept(*old(self), *final(self)),
    {
        let l = level_of(t);
        self.state.current_level = l;
        let api = self.state.active_viewport_index;
        let mut v = self.state.viewports[api];
        v.current_level = l;
        self.state.viewports.set(api, v);
        assert(self.state@.viewports =~= zoomed_to(old(self).state@, t).viewports);
    }

    /// Kills the focused application, then zooms out.
    fn kill_active_app(&mut self) -> (e: Vec<Effect>)
        requires
            old(self).state@.wf(),
            focused_app_ok(old(self).state@),
        ensures
            match old(self).state@.active_viewport().active_app_index {
                Some(ai) => {
                    let (s2, e2) = signalled(
                        old(self).state@,
                        old(self).state@.active_hub().applications[ai as int].id,
                        SignalKind::Kill,
                    );
                    final(self).state@ == s2 && managers_kept(*old(self), *final(self)) && effect_views(e@)
                        == e2.push(EffectView::ZoomOut)
                },
                None => kept(*old(self), *final(self)) && effect_views(e@) == Seq::<EffectView>::empty(),
            },
    {
        let vp = self.state.viewports[self.state.active_viewport_index];
        match vp.active_app_index {
            Some(ai) => {
                let id = self.state.sectors[vp.sector_index].hubs[vp.hub_index].applications[ai].id;
                assert(id == self.state@.active_hub().applications[ai as int].id);
                let mut v = self.signal_id(id, SignalKind::Kill);
                push_effect(&mut v, Effect::ZoomOut);
                v
            },
            None => no_effects(),
        }
    }

    /// Signals the selected applications of the active hub, then clears the
    /// selection and the prompt.
    fn batch(&mut self, kind: SignalKind) -> (e: Vec<Effect>)
        requires
            old(self).state@.wf(),
        ensures
            batch_signalled(*old(self), *final(self), kind, effect_views(e@)),
    {
        let ghost s0 = self.state@;
        let vp = self.state.viewports[self.state.active_viewport_index];
        let selected = copy_strings(&self.state.sectors[vp.sector_index].hubs[vp.hub_index].selected_files);
        let ghost sel = crate::model::string_views(selected@);
        assert(sel == s0.active_hub().selected_files);
        let mut v = no_effects();
        let mut i: usize = 0;
        while i < selected.len()
            invariant
                i <= selected@.len(),
                sel == crate::model::string_views(selected@),
                s0.wf(),
                (self.state@, effect_views(v@)) == signalled_all(s0, sel.take(i as int), kind),
                managers_kept(*old(self), *self),
            decreases selected@.len() - i,
        {
            assert(sel.take(i + 1).drop_last() =~= sel.take(i as int));
            assert(sel.take(i + 1).last() == selected@[i as int]@);
            let w = self.signal_text(selected[i].as_str(), kind);
            append_effects(&mut v, w);
            i = i + 1;
        }
        assert(sel.take(i as int) =~= sel);
        proof {
            lemma_signalled_all_wf(s0, sel, kind);
        }
        let ghost s2 = self.state@;
        let mut hub = CommandHub::blank();
        self.state.swap_active_hub(&mut hub);
        hub.selected_files = Vec::new();
        hub.prompt = String::new();
        let ghost h2 = hub@;
        assert(h2.selected_files =~= Seq::<Seq<char>>::empty());
        assert(h2 == (HubView { selected_files: Seq::empty(), prompt: Seq::empty(), ..s2.active_hub() }));
        self.state.swap_active_hub(&mut hub);
        proof {
            crate::model::lemma_with_active_hub(s2, blank_hub_view(), h2);
        }
        v
    }

    /// Ends the active sector's remote link.
    fn terminate_link(&mut self)
        requires
            sector_ok(old(self).state@),
        ensures
            link_terminated(*old(self), *final(self)),
    {
        let si = self.state.viewports[self.state.active_viewport_index].sector_index;
        let sid = self.state.sectors[si].id;
        self.remote.disconnect(sid);
        if self.state.sectors[si].connection_type != crate::remote::ConnectionType::Local {
            self.state.sectors.remove(si);
            let vps = reindex_viewports(&self.state.viewports, si);
            self.state.viewports = vps;
            self.state.active_viewport_index = 0;
            self.state.current_level = crate::model::HierarchyLevel::GlobalOverview;
            assert(self.state@.sectors =~= old(self).state@.sectors.remove(si as int));
        }
    }

    /// Sets the stream quality of the active sector's link.
    fn stream_quality(&mut self, q: u8) -> (e: Vec<Effect>)
        requires
            sector_ok(old(self).state@),
        ensures
            quality_set(*old(self), *final(self), q, effect_views(e@)),
    {
        let si = self.state.viewports[self.state.active_viewport_index].sector_index;
        let sid = self.state.sectors[si].id;
        if !self.remote.active_connections.contains_key(sid) {
            return no_effects();
        }
        match self.remote.active_connections.remove(sid) {
            Some(mut c) => {
                c.stream_quality = q;
                self.remote.active_connections.insert(sid, c);
                assert(self.remote.active_connections@ =~= old(self).remote.active_connections@.insert(
                    sid,
                    crate::remote::RemoteConnection { stream_quality: q, ..old(self).remote.active_connections@[sid] },
                ));
                effects_of(Effect::Earcon(EarconEvent::CommandAccepted))
            },
            None => no_effects(),
        }
    }

    /// Moves the active hub up to its parent directory, or asks the caller to
    /// enter a subdirectory.
    fn navigate(&mut self, t: &str) -> (e: Vec<Effect>)
        requires
            old(self).state@.wf(),
        ensures
            dispatched(*old(self), *final(self), RequestView::DirNavigate(t@), effect_views(e@)),
    {
        let vp = self.state.viewports[self.state.active_viewport_index];
        let hub = &self.state.sectors[vp.sector_index].hubs[vp.hub_index];
        assert(hub@ == self.state@.active_hub());
        let tc = chars_of(t);
        if eq_str(&tc, "..") {
            match crate::paths::path_parent(hub.current_directory.as_str()) {
                Some(p) => self.enter_directory(p.as_str()),
                None => no_effects(),
            }
        } else {
            let path = join_path(hub.current_directory.as_str(), t);
            effects_of(Effect::EnterIfDirectory { hub_id: hub.id, path })
        }
    }

    /// One hold step of a confirmation.
    fn increment_hold(&mut self, id: u128) -> (e: Vec<Effect>)
        requires
            old(self).state@.wf(),
        ensures
            held(*old(self), *final(self), id, effect_views(e@)),
    {
        if !self.security.active_sessions.contains_key(id) {
            return no_effects();
        }
        match self.security.active_sessions.remove(id) {
            Some(mut session) => {
                let p: u32 = if session.progress_milli > u32::MAX - 50 { u32::MAX } else { session.progress_milli + 50 };
                session.progress_milli = p;
                if p >= 1000 {
                    let vp = self.state.viewports[self.state.active_viewport_index];
                    let hub_id = self.state.sectors[vp.sector_index].hubs[vp.hub_index].id;
                    let mut v = effects_of(Effect::Earcon(EarconEvent::CommandAccepted));
                    push_effect(&mut v, Effect::PtyWrite { hub_id, text: concat2(session.command.as_str(), "\n") });
                    assert(effect_views(v@) =~= seq![
                        EffectView::Earcon(EarconEvent::CommandAccepted),
                        EffectView::PtyWrite { hub_id, text: session.command@ + "\n"@ },
                    ]);
                    assert(self.security.active_sessions@ =~= old(self).security.active_sessions@.insert(id, session).remove(id));
                    v
                } else {
                    self.security.active_sessions.insert(id, session);
                    assert(self.security.active_sessions@ =~= old(self).security.active_sessions@.insert(id, session));
                    no_effects()
                }
            },
            None => no_effects(),
        }
    }

    /// Restarts a hold.
    fn reset_hold(&mut self, id: u128)
        ensures
            dispatched(*old(self), *final(self), RequestView::ResetHold(id), Seq::<EffectView>::empty()),
    {
        if !self.security.active_sessions.contains_key(id) {
            return;
        }
        match self.security.active_sessions.remove(id) {
            Some(mut session) => {
                session.progress_milli = 0;
                self.security.active_sessions.insert(id, session);
                assert(self.security.active_sessions@ =~= old(self).security.active_sessions@.insert(id, session));
            },
            None => {},
        }
    }

    /// Drops a confirmation.
    fn cancel(&mut self, id: u128)
        ensures
            sessions_set(*old(self), *final(self), old(self).security.active_sessions@.remove(id)),
    {
        self.security.active_sessions.remove(id);
    }

    /// A message from the user on the comms channel.
    fn send_comms(&mut self, body: &str)
        ensures
            comms_sent(*old(self), *final(self), body@),
    {
        let m = crate::model::CommsMessage {
            from: String::from_str("USER"),
            body: String::from_str(body),
            timestamp: crate::clock::now_hm(),
        };
        self.state.comms_messages.push(m);
        assert(self.state@.comms_messages.drop_last() =~= old(self).state@.comms_messages);
    }

    /// Renames the active sector after a template.
    fn load_template(&mut self, name: &str)
        requires
            sector_ok(old(self).state@),
        ensures
            final(self).state@ == (StateView {
                sectors: old(self).state@.sectors.update(
                    old(self).state@.active_viewport().sector_index as int,
                    crate::model::SectorView {
                        name: "TEMPLATE: "@ + name@,
                        ..old(self).state@.sectors[old(self).state@.active_viewport().sector_index as int]
                    },
                ),
                ..old(self).state@
            }),
            managers_kept(*old(self), *final(self)),
    {
        let si = self.state.viewports[self.state.active_viewport_index].sector_index;
        self.state.sectors[si].name = concat2("TEMPLATE: ", name);
        assert(self.state@.sectors =~= old(self).state@.sectors.update(
            si as int,
            crate::model::SectorView { name: "TEMPLATE: "@ + name@, ..old(self).state@.sectors[si as int] },
        ));
    }

    /// Requests for navigation and the compositor shell.
    fn apply_navigation(&mut self, q: IpcRequest) -> (e: Vec<Effect>)
        requires
            request_group(q@) == 0,
            request_ok(q@, old(self).state@),
        ensures
            dispatched(*old(self), *final(self), q@, effect_views(e@)),
    {
        match q {
            IpcRequest::SetMode(m) => self.set_mode(m),
            IpcRequest::SelectSector(i) => self.only(Effect::SelectSector(i)),
            IpcRequest::PromptInput(p) => self.only(Effect::SetPrompt(p)),
            IpcRequest::StageCommand(c) => self.only(Effect::StageCommand(c)),
            IpcRequest::FocusApp(id) => self.only(Effect::FocusApp(id)),
            IpcRequest::AddRemoteSector => self.only(Effect::AddRemoteSector),
            IpcRequest::ToggleBezel => self.only(Effect::ToggleBezel),
            IpcRequest::TogglePortal => self.only(Effect::TogglePortal),
            IpcRequest::ApprovePortal => self.only(Effect::ApprovePortal),
            IpcRequest::DenyPortal => self.only(Effect::DenyPortal),
            IpcRequest::SplitViewport => {
                let mut v = effects_of(Effect::Semantic(SemanticEvent::SplitViewport));
                push_effect(&mut v, Effect::SpawnMissingPtys);
                assert(effect_views(v@) =~= seq![
                    EffectView::Semantic(SemanticEvent::SplitViewport),
                    EffectView::SpawnMissingPtys,
                ]);
                v
            },
            IpcRequest::CreateSector => self.only(Effect::CreateSector),
            IpcRequest::ZoomIn => self.only(Effect::Semantic(SemanticEvent::ZoomIn)),
            IpcRequest::ZoomOut => self.only(Effect::Semantic(SemanticEvent::ZoomOut)),
            _ => no_effects(),
        }
    }

    /// Requests for events, sounds and outside services.
    fn apply_channel(&mut self, q: IpcRequest) -> (e: Vec<Effect>)
        requires
            request_group(q@) == 1,
            request_ok(q@, old(self).state@),
        ensures
            dispatched(*old(self), *final(self), q@, effect_views(e@)),
    {
        match q {
            IpcRequest::ToggleComms => self.only(Effect::ToggleComms),
            IpcRequest::TacticalReset => self.only(Effect::Semantic(SemanticEvent::TacticalReset)),
            IpcRequest::FollowParticipant(id) => self.only(Effect::FollowParticipant(id)),
            IpcRequest::SemanticEvent(n) => semantic_effects_of(n.as_str()),
            IpcRequest::ConnectRemote(a) => self.only(Effect::ConnectRemote(a)),
            IpcRequest::InviteParticipant(r) => self.only(Effect::InviteParticipant(role_of(r.as_str()))),
            IpcRequest::PlayAudio(n) => {
                let c = chars_of(n.as_str());
                self.only(Effect::PlayAudio(audio_event_of(&c)))
            },
            IpcRequest::CollaborationInvite => self.only(Effect::InviteParticipant(CollaborationRole::Viewer)),
            IpcRequest::UpdateConfirmationProgress(id, p) => self.only(
                Effect::ConfirmationProgress { session: id, progress: p },
            ),
            IpcRequest::UpdateSetting(k, v) => self.only(Effect::UpdateSetting { key: k, value: v }),
            IpcRequest::MarketplaceSearch(q) => self.only(Effect::MarketplaceSearch(q)),
            IpcRequest::MarketplaceInstall(n) => self.only(Effect::MarketplaceInstall(n)),
            IpcRequest::MarketplaceDiscover => self.only(Effect::MarketplaceDiscover),
            IpcRequest::UiReady => self.only(Effect::Redraw),
            IpcRequest::Ignored => no_effects(),

            _ => no_effects(),
        }
    }

    /// Requests that change the state directly.
    fn apply_state(&mut self, q: IpcRequest) -> (e: Vec<Effect>)
        requires
            request_group(q@) == 2,
            request_ok(q@, old(self).state@),
        ensures
            dispatched(*old(self), *final(self), q@, effect_views(e@)),
    {
        match q {
            IpcRequest::PromptSubmit(cmd) => self.prompt_submit(cmd.as_str()),
            IpcRequest::ZoomTo(t) => {
                if t == ZoomTarget::GlobalOverview {
                    self.only(Effect::Semantic(SemanticEvent::OpenGlobalOverview))
                } else {
                    self.zoom_to(t);
                    no_effects()
                }
            },
            IpcRequest::KillActiveApp => self.kill_active_app(),
            IpcRequest::OptimizeSystem => {
                self.state.performance_alert = false;
                self.state.fps_milli = 60000;
                no_effects()
            },
            IpcRequest::OpenSettings => {
                self.state.settings_open = true;
                no_effects()
            },
            IpcRequest::CloseSettings => {
                self.state.settings_open = false;
                no_effects()
            },
            IpcRequest::LoadTemplate(n) => {
                self.load_template(n.as_str());
                no_effects()
            },
            IpcRequest::KillSector(i) => {
                if i < self.state.sectors.len() {
                    self.state.sectors.remove(i);
                    assert(self.state@.sectors =~= old(self).state@.sectors.remove(i as int));
                }
                no_effects()
            },
            IpcRequest::SendComms(b) => {
                self.send_comms(b.as_str());
                effects_of(Effect::Earcon(EarconEvent::CommandAccepted))
            },
            IpcRequest::TerminateRemoteLink => {
                self.terminate_link();
                no_effects()
            },
            IpcRequest::SetStreamQuality(q) => self.stream_quality(q),
            _ => no_effects(),
        }
    }

    /// Requests that edit the active hub's view and selection.
    fn apply_hub(&mut self, q: IpcRequest) -> (e: Vec<Effect>)
        requires
            request_group(q@) == 3,
            request_ok(q@, old(self).state@),
        ensures
            dispatched(*old(self), *final(self), q@, effect_views(e@)),
    {
        match q {
            IpcRequest::ToggleOutputMode => self.edit_hub(HubEdit::OutputMode),
            IpcRequest::ToggleLeftRegion => self.edit_hub(HubEdit::LeftRegion),
            IpcRequest::DirToggleHidden => self.edit_hub(HubEdit::HiddenFiles),
            IpcRequest::DirPickFile(n) => self.edit_hub(HubEdit::Pick(n.as_str())),
            IpcRequest::DirToggleSelect(n) => self.edit_hub(HubEdit::ToggleEntry(n.as_str())),
            IpcRequest::DirContext(t, x, y) => self.edit_hub(HubEdit::Menu(t.as_str(), x, y)),
            IpcRequest::DirCloseContext => self.edit_hub(HubEdit::CloseMenu),
            IpcRequest::DirClearSelect => self.edit_hub(HubEdit::ClearSelection),
            _ => no_effects(),
        }
    }

    /// Requests that edit the active hub's prompt and output, or move it.
    fn apply_hub_prompt(&mut self, q: IpcRequest) -> (e: Vec<Effect>)
        requires
            request_group(q@) == 5,
            request_ok(q@, old(self).state@),
        ensures
            dispatched(*old(self), *final(self), q@, effect_views(e@)),
    {
        match q {
            IpcRequest::SaveTemplate(n) => self.edit_hub(
                HubEdit::Line(concat3("SYSTEM // TEMPLATE EXPORTED: ", n.as_str(), ".tos-template")),
            ),
            IpcRequest::AppToggleSelect(t) => self.edit_hub(HubEdit::ToggleApp(t.as_str())),
            IpcRequest::DirActionCopy => self.edit_hub(HubEdit::Stage("cp")),
            IpcRequest::DirActionPaste => self.edit_hub(HubEdit::Paste),
            IpcRequest::DirActionDelete => self.edit_hub(HubEdit::Stage("rm")),
            IpcRequest::MarketplaceAddRepo(n, u) => {
                let line = {
                    let mut l: Vec<char> = Vec::new();
                    push_str(&mut l, "MARKETPLACE // REPOSITORY ADDED: ");
                    push_str(&mut l, n.as_str());
                    push_str(&mut l, " (");
                    push_str(&mut l, u.as_str());
                    push_str(&mut l, ")");
                    string_of(&l)
                };
                self.edit_hub(HubEdit::Line(line));
                effects_of(Effect::MarketplaceAddRepo { name: n, url: u })
            },
            IpcRequest::DirNavigate(t) => self.navigate(t.as_str()),
            _ => no_effects(),
        }
    }

    /// Requests for processes and confirmations.
    fn apply_process(&mut self, q: IpcRequest) -> (e: Vec<Effect>)
        requires
            request_group(q@) == 4,
            request_ok(q@, old(self).state@),
        ensures
            dispatched(*old(self), *final(self), q@, effect_views(e@)),
    {
        match q {
            IpcRequest::KillApp(t) => self.signal_text(t.as_str(), SignalKind::Kill),
            IpcRequest::SignalApp(t, sig) => self.signal_text(t.as_str(), signal_kind_of(sig.as_str())),
            IpcRequest::AppBatchKill => self.batch(SignalKind::Kill),
            IpcRequest::AppBatchSignal(sig) => self.batch(signal_kind_of(sig.as_str())),
            IpcRequest::ConfirmCommand(id) => self.execute_confirmed(id),
            IpcRequest::CancelConfirmation(id) => {
                self.cancel(id);
                no_effects()
            },
            IpcRequest::IncrementHold(id) => self.increment_hold(id),
            IpcRequest::ResetHold(id) => {
                self.reset_hold(id);
                no_effects()
            },
            _ => no_effects(),
        }
    }

    /// Whether the state holds what a request reads (`request_ok`): the
    /// caller tests this before handing the request over.
    pub fn request_ready(&self, request: &str) -> (b: bool)
        ensures
            b == request_ok(request_of(request@), self.state@),
    {
        let q = parse_request(request);
        let st = &self.state;
        let vi = st.active_viewport_index;
        let sector_ok = vi < st.viewports.len() && st.viewports[vi].sector_index < st.sectors.len();
        let wf = sector_ok && st.viewports[vi].hub_index < st.sectors[st.viewports[vi].sector_index].hubs.len();
        match q {
            IpcRequest::SetMode(_) | IpcRequest::PromptSubmit(_) | IpcRequest::ToggleOutputMode
            | IpcRequest::ToggleLeftRegion | IpcRequest::SaveTemplate(_) | IpcRequest::DirNavigate(_)
            | IpcRequest::DirToggleHidden | IpcRequest::DirPickFile(_) | IpcRequest::DirToggleSelect(_)
            | IpcRequest::DirContext(..) | IpcRequest::DirCloseContext | IpcRequest::DirClearSelect
            | IpcRequest::AppToggleSelect(_) | IpcRequest::AppBatchKill | IpcRequest::AppBatchSignal(_)
            | IpcRequest::DirActionCopy | IpcRequest::DirActionPaste | IpcRequest::DirActionDelete
            | IpcRequest::ConfirmCommand(_) | IpcRequest::IncrementHold(_)
            | IpcRequest::MarketplaceAddRepo(..) => wf,
            IpcRequest::KillActiveApp => {
                if !wf {
                    false
                } else {
                    let vp = &st.viewports[vi];
                    match vp.active_app_index {
                        Some(ai) => ai < st.sectors[vp.sector_index].hubs[vp.hub_index].applications.len(),
                        None => true,
                    }
                }
            },
            IpcRequest::LoadTemplate(_) | IpcRequest::TerminateRemoteLink | IpcRequest::SetStreamQuality(_) => sector_ok,
            IpcRequest::ZoomTo(t) => match t {
                ZoomTarget::GlobalOverview => true,
                _ => vi < st.viewports.len(),
            },
            _ => true,
        }
    }

    /// Handles a request posted by the interface: the state changes as the
    /// request asks, and the effects are for the caller to carry out.
    pub fn handle_request(&mut self, request: &str) -> (e: Vec<Effect>)
        requires
            request_ok(request_of(request@), old(self).state@),
        ensures
            dispatched(*old(self), *final(self), request_of(request@), effect_views(e@)),
    {
        let q = parse_request(request);
        let g = group_of(&q);
        if g == 0 {
            self.apply_navigation(q)
        } else if g == 1 {
            self.apply_channel(q)
        } else if g == 2 {
            self.apply_state(q)
        } else if g == 3 {
            self.apply_hub(q)
        } else if g == 5 {
            self.apply_hub_prompt(q)
        } else {
            self.apply_process(q)
        }
    }
}

/// The name by which an invitation request asks for a role.
pub open spec fn role_request_name(r: CollaborationRole) -> Seq<char> {
    match r {
        CollaborationRole::CoOwner => "CoOwner"@,
        CollaborationRole::Operator => "Operator"@,
        CollaborationRole::Viewer => "Viewer"@,
    }
}

/// An invitation request invites with the role it names, and changes
/// nothing else.
pub proof fn law_invitation_uses_named_role(
    d0: IpcDispatcher,
    d1: IpcDispatcher,
    r: CollaborationRole,
    e: Seq<EffectView>,
)
    requires
        dispatched(d0, d1, RequestView::InviteParticipant(role_request_name(r)), e),
    ensures
        e == seq![EffectView::InviteParticipant(r)],
        d1.state@ == d0.state@,
{
    reveal_strlit("CoOwner");
    reveal_strlit("Operator");
    reveal_strlit("Viewer");
    assert("CoOwner"@ != "Operator"@) by {
        assert("CoOwner"@[0] != "Operator"@[0]);
    }
    assert("Viewer"@ != "CoOwner"@ && "Viewer"@ != "Operator"@) by {
        assert("Viewer"@[0] != "CoOwner"@[0] && "Viewer"@[0] != "Operator"@[0]);
    }
    assert(role_named(role_request_name(r)) == r);
}

/// An invitation request naming no role invites a viewer.
pub proof fn law_unknown_role_invites_viewer(d0: IpcDispatcher, d1: IpcDispatcher, name: Seq<char>, e: Seq<EffectView>)
    requires
        forall|r: CollaborationRole| name != #[trigger] role_request_name(r),
        dispatched(d0, d1, RequestView::InviteParticipant(name), e),
    ensures
        e == seq![EffectView::InviteParticipant(CollaborationRole::Viewer)],
{
    assert(name != role_request_name(CollaborationRole::CoOwner));
    assert(name != role_request_name(CollaborationRole::Operator));
}

} // verus!
