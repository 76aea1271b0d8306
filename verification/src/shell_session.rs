//! The shell API manager: feeds shell output through the OSC parser, applies
//! each parsed sequence to the active command hub and answers completion
//! requests.
use vstd::prelude::*;
use crate::text::{chars_of, string_of, push_str, push_chars, push_i64, lowercased, to_lowercase,
    contains_seq, starts_with_seq, contains, starts_with, dec_int};
use crate::scan::{words, split_whitespace, views};
use crate::shell_api::{CommandSuggestion, SuggestionView, OscSequence, OscEvent, OscParser,
    RiskLevel, ShellCommand, shell_command_text, first_flagging, has_char, stream_events,
    scan_stream, osc_views};
use crate::model::{TosState, StateView, HubView, AppView, CommandHubMode, CommandHub,
    string_views};

verus! {

/// An entry of the directory of the active hub, as read by the caller.
#[derive(Debug, Clone, PartialEq, Eq)]
pub struct PathEntry {
    pub name: String,
    pub is_dir: bool,
}

impl View for PathEntry {
    type V = (Seq<char>, bool);

    open spec fn view(&self) -> (Seq<char>, bool) {
        (self.name@, self.is_dir)
    }
}

/// The views of directory entries.
pub open spec fn path_views(v: Seq<PathEntry>) -> Seq<(Seq<char>, bool)> {
    v.map_values(|e: PathEntry| e@)
}

pub open spec fn sugg(text: Seq<char>, command: Seq<char>, description: Seq<char>,
    category: Seq<char>, confidence: u32) -> SuggestionView {
    SuggestionView { text, command, description, category, confidence }
}

/// Sector-specific completions: a sensor scan in science sectors.
pub open spec fn sector_suggestions(name: Seq<char>) -> Seq<SuggestionView> {
    if contains_seq(name, "Stellar"@) || contains_seq(name, "Science"@) {
        seq![sugg("scan "@, "scan "@, "Initiate sensor scan"@, "science"@, 950)]
    } else {
        seq![]
    }
}

/// The built-in commands offered in command mode, with their descriptions.
pub open spec fn builtin_table() -> Seq<(Seq<char>, Seq<char>)> {
    seq![
        ("cd "@, "Change directory"@),
        ("ls "@, "List directory"@),
        ("rm "@, "Remove file"@),
        ("mkdir "@, "Create directory"@),
        ("cat "@, "View file"@),
        ("grep "@, "Search in files"@),
    ]
}

/// A built-in command is offered when it begins with the partial input.
pub open spec fn builtin_suggestion(partial: Seq<char>, b: (Seq<char>, Seq<char>)) -> Option<SuggestionView> {
    if starts_with_seq(b.0, partial) {
        Some(sugg(b.0, b.0, b.1, "builtin"@, 900))
    } else {
        None
    }
}

/// An application is offered when its title holds the partial input,
/// ignoring case.
pub open spec fn app_suggestion(partial: Seq<char>, a: AppView) -> Option<SuggestionView> {
    if contains_seq(lowercased(a.title), lowercased(partial)) {
        Some(sugg(a.title, a.app_class, "Launch "@ + a.title, "application"@, 850))
    } else {
        None
    }
}

/// Mode-specific completions.
pub open spec fn mode_suggestions(partial: Seq<char>, mode: CommandHubMode, apps: Seq<AppView>) -> Seq<SuggestionView> {
    match mode {
        CommandHubMode::Command => builtin_table().filter_map(
            |b: (Seq<char>, Seq<char>)| builtin_suggestion(partial, b),
        ),
        CommandHubMode::Directory => apps.filter_map(|a: AppView| app_suggestion(partial, a)),
        CommandHubMode::Activity => seq![sugg("ps "@, "ps "@, "List processes"@, "activity"@, 800)],
        CommandHubMode::Search | CommandHubMode::Ai => seq![],
    }
}

/// The release command, offered during tactical lockdown.
pub open spec fn lockdown_suggestions(lockdown: bool) -> Seq<SuggestionView> {
    if lockdown {
        seq![sugg("unlock "@, "unlock "@, "Authorize system release"@, "security"@, 1000)]
    } else {
        seq![]
    }
}

/// The word that path completion matches: the last word of the input when
/// it holds a space, else the whole input.
pub open spec fn search_term(partial: Seq<char>) -> Seq<char> {
    if partial.contains(' ') {
        let w = words(partial);
        if w.len() > 0 {
            w.last()
        } else {
            seq![]
        }
    } else {
        partial
    }
}

/// A directory entry is offered when its name begins with the search term,
/// ignoring case; directories get a trailing slash.
pub open spec fn path_suggestion(term: Seq<char>, e: (Seq<char>, bool)) -> Option<SuggestionView> {
    if starts_with_seq(lowercased(e.0), lowercased(term)) {
        let t = if e.1 {
            e.0 + "/"@
        } else {
            e.0
        };
        Some(sugg(t, t, if e.1 {
            "Directory"@
        } else {
            "File"@
        }, "path"@, 900))
    } else {
        None
    }
}

/// All completions for `partial` in the active hub of `s`, in order:
/// sector, mode, security, then paths.
pub open spec fn completions(partial: Seq<char>, s: StateView, entries: Seq<(Seq<char>, bool)>) -> Seq<SuggestionView> {
    sector_suggestions(s.active_sector().name) + mode_suggestions(
        partial,
        s.active_hub().mode,
        s.active_hub().applications,
    ) + lockdown_suggestions(s.tactical_lockdown) + entries.filter_map(
        |e: (Seq<char>, bool)| path_suggestion(search_term(partial), e),
    )
}

fn make_suggestion(text: &str, command: &str, description: &str, category: &str, confidence: u32) -> (s: CommandSuggestion)
    ensures
        s@ == sugg(text@, command@, description@, category@, confidence),
{
    CommandSuggestion {
        text: String::from_str(text),
        command: String::from_str(command),
        description: String::from_str(description),
        category: String::from_str(category),
        confidence,
    }
}

fn builtins() -> (v: Vec<(&'static str, &'static str)>)
    ensures
        v@.map_values(|p: (&str, &str)| (p.0@, p.1@)) == builtin_table(),
{
    let mut v: Vec<(&'static str, &'static str)> = Vec::new();
    v.push(("cd ", "Change directory"));
    v.push(("ls ", "List directory"));
    v.push(("rm ", "Remove file"));
    v.push(("mkdir ", "Create directory"));
    v.push(("cat ", "View file"));
    v.push(("grep ", "Search in files"));
    assert(v@.map_values(|p: (&str, &str)| (p.0@, p.1@)) =~= builtin_table());
    v
}

fn lower_chars(s: &str) -> (v: Vec<char>)
    ensures
        v@ == lowercased(s@),
{
    let l = to_lowercase(s);
    chars_of(l.as_str())
}

fn push_sugg(out: &mut Vec<CommandSuggestion>, s: CommandSuggestion)
    ensures
        final(out)@.map_values(|c: CommandSuggestion| c@) == old(out)@.map_values(
            |c: CommandSuggestion| c@,
        ).push(s@),
{
    out.push(s);
    assert(final(out)@.map_values(|c: CommandSuggestion| c@) =~= old(out)@.map_values(
        |c: CommandSuggestion| c@,
    ).push(s@));
}

fn mode_completions(out: &mut Vec<CommandSuggestion>, partial: &str, hub: &CommandHub)
    ensures
        final(out)@.map_values(|c: CommandSuggestion| c@) == old(out)@.map_values(
            |c: CommandSuggestion| c@,
        ) + mode_suggestions(partial@, hub@.mode, hub@.applications),
{
    let ghost start = old(out)@.map_values(|c: CommandSuggestion| c@);
    match hub.mode {
        CommandHubMode::Command => {
            let table = builtins();
            let ghost tv = table@.map_values(|p: (&str, &str)| (p.0@, p.1@));
            let ghost f = |b: (Seq<char>, Seq<char>)| builtin_suggestion(partial@, b);
            let pc = chars_of(partial);
            let mut i: usize = 0;
            while i < table.len()
                invariant
                    0 <= i <= table@.len(),
                    tv == builtin_table(),
                    tv == table@.map_values(|p: (&str, &str)| (p.0@, p.1@)),
                    pc@ == partial@,
                    f == (|b: (Seq<char>, Seq<char>)| builtin_suggestion(partial@, b)),
                    out@.map_values(|c: CommandSuggestion| c@) == start + tv.take(i as int).filter_map(f),
                decreases table@.len() - i,
            {
                let (cmd, desc) = table[i];
                assert(tv.take(i + 1).drop_last() =~= tv.take(i as int));
                assert(tv.take(i + 1).last() == (cmd@, desc@));
                let cc = chars_of(cmd);
                if starts_with(&cc, &pc) {
                    push_sugg(out, make_suggestion(cmd, cmd, desc, "builtin", 900));
                    assert(out@.map_values(|c: CommandSuggestion| c@) =~= start + tv.take(i + 1).filter_map(f));
                } else {
                    assert(out@.map_values(|c: CommandSuggestion| c@) =~= start + tv.take(i + 1).filter_map(f));
                }
                i = i + 1;
            }
            assert(tv.take(table@.len() as int) =~= tv);
        },
        CommandHubMode::Directory => {
            let ghost av = hub.applications@.map_values(|a: crate::model::Application| a@);
            let ghost f = |a: AppView| app_suggestion(partial@, a);
            let lp = lower_chars(partial);
            let mut i: usize = 0;
            while i < hub.applications.len()
                invariant
                    0 <= i <= hub.applications@.len(),
                    av == hub.applications@.map_values(|a: crate::model::Application| a@),
                    av == hub@.applications,
                    lp@ == lowercased(partial@),
                    f == (|a: AppView| app_suggestion(partial@, a)),
                    out@.map_values(|c: CommandSuggestion| c@) == start + av.take(i as int).filter_map(f),
                decreases hub.applications@.len() - i,
            {
                let app = &hub.applications[i];
                assert(av.take(i + 1).drop_last() =~= av.take(i as int));
                assert(av.take(i + 1).last() == app@);
                let lt = lower_chars(app.title.as_str());
                if contains(&lt, &lp) {
                    let mut d: Vec<char> = Vec::new();
                    push_str(&mut d, "Launch ");
                    push_str(&mut d, app.title.as_str());
                    let desc = string_of(&d);
                    let s = CommandSuggestion {
                        text: app.title.clone(),
                        command: app.app_class.clone(),
                        description: desc,
                        category: String::from_str("application"),
                        confidence: 850,
                    };
                    assert(s@ == sugg(app.title@, app.app_class@, "Launch "@ + app.title@, "application"@, 850));
                    push_sugg(out, s);
                    assert(out@.map_values(|c: CommandSuggestion| c@) =~= start + av.take(i + 1).filter_map(f));
                } else {
                    assert(out@.map_values(|c: CommandSuggestion| c@) =~= start + av.take(i + 1).filter_map(f));
                }
                i = i + 1;
            }
            assert(av.take(hub.applications@.len() as int) =~= av);
        },
        CommandHubMode::Activity => {
            push_sugg(out, make_suggestion("ps ", "ps ", "List processes", "activity", 800));
            assert(final(out)@.map_values(|c: CommandSuggestion| c@) =~= start + mode_suggestions(
                partial@, hub@.mode, hub@.applications));
        },
        CommandHubMode::Search | CommandHubMode::Ai => {
            assert(final(out)@.map_values(|c: CommandSuggestion| c@) =~= start + mode_suggestions(
                partial@, hub@.mode, hub@.applications));
        },
    }
}

fn path_completions(out: &mut Vec<CommandSuggestion>, partial: &str, entries: &Vec<PathEntry>)
    ensures
        final(out)@.map_values(|c: CommandSuggestion| c@) == old(out)@.map_values(
            |c: CommandSuggestion| c@,
        ) + entries@.map_values(|e: PathEntry| e@).filter_map(
            |e: (Seq<char>, bool)| path_suggestion(search_term(partial@), e),
        ),
{
    let ghost start = old(out)@.map_values(|c: CommandSuggestion| c@);
    let pc = chars_of(partial);
    let ws = split_whitespace(&pc);
    let term: Vec<char> = if has_char(&pc, ' ') {
        if ws.len() > 0 {
            let last = &ws[ws.len() - 1];
            let mut t: Vec<char> = Vec::new();
            push_chars(&mut t, last);
            t
        } else {
            Vec::new()
        }
    } else {
        chars_of(partial)
    };
    assert(term@ =~= search_term(partial@));
    let lterm = lower_chars(string_of(&term).as_str());
    let ghost ev = entries@.map_values(|e: PathEntry| e@);
    let ghost f = |e: (Seq<char>, bool)| path_suggestion(search_term(partial@), e);
    let mut i: usize = 0;
    while i < entries.len()
        invariant
            0 <= i <= entries@.len(),
            ev == entries@.map_values(|e: PathEntry| e@),
            lterm@ == lowercased(search_term(partial@)),
            f == (|e: (Seq<char>, bool)| path_suggestion(search_term(partial@), e)),
            out@.map_values(|c: CommandSuggestion| c@) == start + ev.take(i as int).filter_map(f),
        decreases entries@.len() - i,
    {
        let e = &entries[i];
        assert(ev.take(i + 1).drop_last() =~= ev.take(i as int));
        assert(ev.take(i + 1).last() == e@);
        let ln = lower_chars(e.name.as_str());
        if starts_with(&ln, &lterm) {
            let mut t: Vec<char> = Vec::new();
            push_str(&mut t, e.name.as_str());
            if e.is_dir {
                push_str(&mut t, "/");
            }
            let text = string_of(&t);
            let s = CommandSuggestion {
                text: text.clone(),
                command: text,
                description: if e.is_dir {
                    String::from_str("Directory")
                } else {
                    String::from_str("File")
                },
                category: String::from_str("path"),
                confidence: 900,
            };
            assert(Some(s@) == path_suggestion(search_term(partial@), e@));
            push_sugg(out, s);
            assert(out@.map_values(|c: CommandSuggestion| c@) =~= start + ev.take(i + 1).filter_map(f));
        } else {
            assert(out@.map_values(|c: CommandSuggestion| c@) =~= start + ev.take(i + 1).filter_map(f));
        }
        i = i + 1;
    }
    assert(ev.take(entries@.len() as int) =~= ev);
}


/// Generates the completions for `partial` in the active hub of `state`;
/// `dir_entries` is the listing of that hub's current directory.
pub fn generate_completions(partial: &str, state: &TosState, dir_entries: &Vec<PathEntry>) -> (v: Vec<CommandSuggestion>)
    requires
        state@.wf(),
    ensures
        v@.map_values(|c: CommandSuggestion| c@) == completions(
            partial@,
            state@,
            path_views(dir_entries@),
        ),
{
    let mut out: Vec<CommandSuggestion> = Vec::new();
    let vp = state.viewports[state.active_viewport_index];
    let sector = &state.sectors[vp.sector_index];
    let hub = &sector.hubs[vp.hub_index];
    assert(sector@ == state@.active_sector());
    assert(hub@ == state@.active_hub());
    let name = chars_of(sector.name.as_str());
    let stellar = chars_of("Stellar");
    let science = chars_of("Science");
    if contains(&name, &stellar) || contains(&name, &science) {
        push_sugg(&mut out, make_suggestion("scan ", "scan ", "Initiate sensor scan", "science", 950));
    }
    assert(out@.map_values(|c: CommandSuggestion| c@) =~= sector_suggestions(sector@.name));
    mode_completions(&mut out, partial, hub);
    if state.tactical_lockdown {
        push_sugg(&mut out, make_suggestion("unlock ", "unlock ", "Authorize system release", "security", 1000));
    }
    assert(out@.map_values(|c: CommandSuggestion| c@) =~= sector_suggestions(sector@.name)
        + mode_suggestions(partial@, hub@.mode, hub@.applications) + lockdown_suggestions(
        state.tactical_lockdown));
    path_completions(&mut out, partial, dir_entries);
    out
}

/// Debug name of a risk level.
pub open spec fn risk_name(r: RiskLevel) -> Seq<char> {
    match r {
        RiskLevel::Low => "Low"@,
        RiskLevel::Medium => "Medium"@,
        RiskLevel::High => "High"@,
        RiskLevel::Critical => "Critical"@,
    }
}

/// The terminal line recording a finished command.
pub open spec fn result_line(command: Seq<char>, exit_status: i32, preview: Option<Seq<char>>) -> Seq<char> {
    "["@ + (if exit_status == 0 {
        "\u{2713}"@
    } else {
        "\u{2717} ("@ + dec_int(exit_status as int) + ")"@
    }) + "] "@ + command + " "@ + match preview {
        Some(p) => "| "@ + p,
        None => seq![],
    }
}

/// Terminal output keeps its last hundred lines.
pub open spec fn capped(lines: Seq<Seq<char>>) -> Seq<Seq<char>> {
    if lines.len() > 100 {
        lines.drop_first()
    } else {
        lines
    }
}

/// The confirmation text for a dangerous command.
pub open spec fn danger_text(command: Seq<char>, risk: RiskLevel) -> Seq<char> {
    "DANGEROUS: "@ + command + " (Risk: "@ + risk_name(risk) + ")"@
}

/// Whether handling `e` reads the active hub.
pub open spec fn touches_hub(e: OscEvent) -> bool {
    match e {
        OscEvent::Env { .. } | OscEvent::ShellReady { .. } | OscEvent::ContextRequest { .. } => false,
        _ => true,
    }
}

/// The active hub after handling `e`.
pub open spec fn hub_after(h: HubView, e: OscEvent) -> HubView {
    match e {
        OscEvent::Directory(l) => HubView { shell_listing: Some(l), ..h },
        OscEvent::CommandResult { command, exit_status, output_preview } => HubView {
            terminal_output: capped(
                h.terminal_output.push(result_line(command, exit_status, output_preview)),
            ),
            ..h
        },
        OscEvent::Cwd(p) => HubView { current_directory: p, ..h },
        OscEvent::DangerousCommand { command, risk_level } => HubView {
            confirmation_required: Some(danger_text(command, risk_level)),
            ..h
        },
        _ => h,
    }
}

/// The state after handling `e`.
pub open spec fn state_after(s: StateView, e: OscEvent) -> StateView {
    match e {
        OscEvent::Directory(_)
        | OscEvent::CommandResult { .. }
        | OscEvent::Cwd(_)
        | OscEvent::DangerousCommand { .. } => s.with_active_hub(hub_after(s.active_hub(), e)),
        _ => s,
    }
}


/// Pending completions: partial input and the completions for it.
pub type PendingView = Seq<(Seq<char>, Seq<SuggestionView>)>;

pub open spec fn pending_view(v: Seq<(String, Vec<CommandSuggestion>)>) -> PendingView {
    v.map_values(
        |e: (String, Vec<CommandSuggestion>)| (e.0@, e.1@.map_values(|c: CommandSuggestion| c@)),
    )
}

/// The last position of key `k`.
pub open spec fn find_key(p: PendingView, k: Seq<char>) -> Option<int>
    decreases p.len(),
{
    if p.len() == 0 {
        None
    } else if p.last().0 == k {
        Some(p.len() - 1)
    } else {
        find_key(p.drop_last(), k)
    }
}

/// Map insertion: the entry for `k` is replaced, or added at the end.
pub open spec fn pending_insert(p: PendingView, k: Seq<char>, v: Seq<SuggestionView>) -> PendingView {
    match find_key(p, k) {
        Some(i) => p.update(i, (k, v)),
        None => p.push((k, v)),
    }
}

/// One handled sequence: the new state and pending completions.
pub open spec fn step(s: StateView, p: PendingView, e: OscEvent, entries: Seq<(Seq<char>, bool)>) -> (StateView, PendingView) {
    (state_after(s, e), match e {
        OscEvent::RequestCompletion { partial, .. } => pending_insert(
            p,
            partial,
            completions(partial, s, entries),
        ),
        _ => p,
    })
}

/// The sequences handled in order.
pub open spec fn run(s: StateView, p: PendingView, es: Seq<OscEvent>, entries: Seq<(Seq<char>, bool)>) -> (StateView, PendingView)
    decreases es.len(),
{
    if es.len() == 0 {
        (s, p)
    } else {
        let r = run(s, p, es.drop_last(), entries);
        step(r.0, r.1, es.last(), entries)
    }
}

/// Handling a sequence keeps the shape of the state.
pub proof fn lemma_state_after_shape(s: StateView, e: OscEvent)
    requires
        s.wf(),
    ensures
        state_after(s, e).wf(),
        state_after(s, e).viewports == s.viewports,
        state_after(s, e).active_viewport_index == s.active_viewport_index,
        state_after(s, e).sectors.len() == s.sectors.len(),
        forall|k: int| 0 <= k < s.sectors.len() ==> #[trigger] state_after(s, e).sectors[k].hubs.len()
            == s.sectors[k].hubs.len(),
        state_after(s, e).tactical_lockdown == s.tactical_lockdown,
        state_after(s, e).active_sector().name == s.active_sector().name,
{
}

pub proof fn lemma_find_key(p: PendingView, k: Seq<char>)
    ensures
        match find_key(p, k) {
            Some(i) => 0 <= i < p.len() && p[i].0 == k,
            None => forall|i: int| 0 <= i < p.len() ==> p[i].0 != k,
        },
    decreases p.len(),
{
    if p.len() > 0 {
        lemma_find_key(p.drop_last(), k);
        assert(forall|i: int| 0 <= i < p.len() - 1 ==> p.drop_last()[i] == p[i]);
    }
}

/// A state whose active hub alone changed, to `hv`.
pub proof fn lemma_active_hub_replaced(st0: TosState, st1: TosState, hv: HubView)
    requires
        st0@.wf(),
        ({
            let si = st0@.active_viewport().sector_index as int;
            let hi = st0@.active_viewport().hub_index as int;
            &&& st1.current_level == st0.current_level
            &&& st1.viewports@ == st0.viewports@
            &&& st1.active_viewport_index == st0.active_viewport_index
            &&& st1.tactical_lockdown == st0.tactical_lockdown
            &&& st1.escape_count == st0.escape_count
            &&& st1.settings_open == st0.settings_open
            &&& st1.performance_alert == st0.performance_alert
            &&& st1.fps_milli == st0.fps_milli
            &&& st1.comms_visible == st0.comms_visible
            &&& st1.comms_messages@ == st0.comms_messages@
            &&& st1.sectors@.len() == st0.sectors@.len()
            &&& forall|k: int| 0 <= k < st0.sectors@.len() && k != si ==> st1.sectors@[k]
                == st0.sectors@[k]
            &&& st1.sectors@[si].id == st0.sectors@[si].id
            &&& st1.sectors@[si].name == st0.sectors@[si].name
            &&& st1.sectors@[si].color == st0.sectors@[si].color
            &&& st1.sectors@[si].host == st0.sectors@[si].host
            &&& st1.sectors@[si].connection_type == st0.sectors@[si].connection_type
            &&& st1.sectors@[si].participants == st0.sectors@[si].participants
            &&& st1.sectors@[si].active_hub_index == st0.sectors@[si].active_hub_index
            &&& st1.sectors@[si].icon == st0.sectors@[si].icon
            &&& st1.sectors@[si].portal_active == st0.sectors@[si].portal_active
            &&& st1.sectors@[si].portal_url == st0.sectors@[si].portal_url
            &&& st1.sectors@[si].description == st0.sectors@[si].description
            &&& st1.sectors@[si].sector_type_name == st0.sectors@[si].sector_type_name
            &&& st1.sectors@[si].hubs@.len() == st0.sectors@[si].hubs@.len()
            &&& forall|k: int| 0 <= k < st0.sectors@[si].hubs@.len() && k != hi
                ==> st1.sectors@[si].hubs@[k] == st0.sectors@[si].hubs@[k]
            &&& st1.sectors@[si].hubs@[hi]@ == hv
        }),
    ensures
        st1@ == st0@.with_active_hub(hv),
{
    let si = st0@.active_viewport().sector_index as int;
    let hi = st0@.active_viewport().hub_index as int;
    assert(st1.sectors@[si]@.hubs =~= st0@.sectors[si].hubs.update(hi, hv));
    assert(st1@.sectors =~= st0@.with_active_hub(hv).sectors);
}

/// The shell API manager.
#[derive(Debug)]
pub struct ShellApi {
    pub parser: OscParser,
    pub pending_completions: Vec<(String, Vec<CommandSuggestion>)>,
}

impl ShellApi {
    /// A manager with the default parser and no pending completions.
    pub fn new() -> (a: ShellApi)
        ensures
            a.pending_completions@.len() == 0,
            a.parser.buffer@.len() == 0,
            a.parser.config.shell_type@ == "fish"@,
    {
        ShellApi { parser: OscParser::new(), pending_completions: Vec::new() }
    }

    fn insert_pending(&mut self, partial: String, completions: Vec<CommandSuggestion>)
        ensures
            pending_view(final(self).pending_completions@) == pending_insert(
                pending_view(old(self).pending_completions@),
                partial@,
                completions@.map_values(|c: CommandSuggestion| c@),
            ),
            final(self).parser == old(self).parser,
    {
        let ghost pv = pending_view(self.pending_completions@);
        let mut found: Option<usize> = None;
        let mut i: usize = 0;
        while i < self.pending_completions.len()
            invariant
                0 <= i <= self.pending_completions@.len(),
                pv == pending_view(self.pending_completions@),
                match found {
                    Some(j) => find_key(pv.take(i as int), partial@) == Some(j as int),
                    None => find_key(pv.take(i as int), partial@) is None,
                },
            decreases self.pending_completions@.len() - i,
        {
            assert(pv.take(i + 1).drop_last() =~= pv.take(i as int));
            if self.pending_completions[i].0 == partial {
                found = Some(i);
            }
            i = i + 1;
        }
        assert(pv.take(i as int) =~= pv);
        proof {
            lemma_find_key(pv, partial@);
        }
        let ghost cv = completions@.map_values(|c: CommandSuggestion| c@);
        match found {
            Some(j) => {
                self.pending_completions.set(j, (partial, completions));
                assert(pending_view(self.pending_completions@) =~= pv.update(j as int, (
                    pv[j as int].0,
                    cv,
                )));
            },
            None => {
                self.pending_completions.push((partial, completions));
                assert(pending_view(self.pending_completions@) =~= pv.push((partial@, cv)));
            },
        }
    }

    /// Applies one parsed sequence to the active hub of `state`;
    /// `dir_entries` is the listing of that hub's current directory, used to
    /// answer a completion request.
    pub fn handle_sequence(&mut self, seq: OscSequence, state: &mut TosState, dir_entries: &Vec<PathEntry>)
        requires
            touches_hub(seq@) ==> old(state)@.wf(),
        ensures
            final(state)@ == step(
                old(state)@,
                pending_view(old(self).pending_completions@),
                seq@,
                path_views(dir_entries@),
            ).0,
            pending_view(final(self).pending_completions@) == step(
                old(state)@,
                pending_view(old(self).pending_completions@),
                seq@,
                path_views(dir_entries@),
            ).1,
            final(self).parser == old(self).parser,
    {
        let ghost s0 = state@;
        let ghost st0 = *state;
        match seq {
            OscSequence::Directory(listing) => {
                let vp = state.viewports[state.active_viewport_index];
                state.sectors[vp.sector_index].hubs[vp.hub_index].shell_listing = Some(listing);
                proof {
                    lemma_active_hub_replaced(st0, *state, hub_after(s0.active_hub(), seq@));
                }
            },
            OscSequence::CommandResult { command, exit_status, output_preview } => {
                let vp = state.viewports[state.active_viewport_index];
                let mut line: Vec<char> = Vec::new();
                push_str(&mut line, "[");
                if exit_status == 0 {
                    push_str(&mut line, "\u{2713}");
                } else {
                    push_str(&mut line, "\u{2717} (");
                    push_i64(&mut line, exit_status as i64);
                    push_str(&mut line, ")");
                }
                push_str(&mut line, "] ");
                push_str(&mut line, command.as_str());
                push_str(&mut line, " ");
                match &output_preview {
                    Some(p) => {
                        push_str(&mut line, "| ");
                        push_str(&mut line, p.as_str());
                    },
                    None => {},
                }
                assert(line@ =~= result_line(command@, exit_status, crate::shell_api::opt_view(output_preview)));
                let text = string_of(&line);
                let mut out: Vec<String> = Vec::new();
                std::mem::swap(&mut out, &mut state.sectors[vp.sector_index].hubs[vp.hub_index].terminal_output);
                let ghost before = out@;
                out.push(text);
                if out.len() > 100 {
                    out.remove(0);
                }
                assert(string_views(out@) =~= capped(string_views(before).push(line@)));
                state.sectors[vp.sector_index].hubs[vp.hub_index].terminal_output = out;
                proof {
                    lemma_active_hub_replaced(st0, *state, hub_after(s0.active_hub(), seq@));
                }
            },
            OscSequence::Cwd(path) => {
                let vp = state.viewports[state.active_viewport_index];
                state.sectors[vp.sector_index].hubs[vp.hub_index].current_directory = path;
                proof {
                    lemma_active_hub_replaced(st0, *state, hub_after(s0.active_hub(), seq@));
                }
            },
            OscSequence::DangerousCommand { command, risk_level } => {
                let vp = state.viewports[state.active_viewport_index];
                let mut t: Vec<char> = Vec::new();
                push_str(&mut t, "DANGEROUS: ");
                push_str(&mut t, command.as_str());
                push_str(&mut t, " (Risk: ");
                match risk_level {
                    RiskLevel::Low => push_str(&mut t, "Low"),
                    RiskLevel::Medium => push_str(&mut t, "Medium"),
                    RiskLevel::High => push_str(&mut t, "High"),
                    RiskLevel::Critical => push_str(&mut t, "Critical"),
                }
                push_str(&mut t, ")");
                assert(t@ =~= danger_text(command@, risk_level));
                state.sectors[vp.sector_index].hubs[vp.hub_index].confirmation_required = Some(
                    string_of(&t),
                );
                proof {
                    lemma_active_hub_replaced(st0, *state, hub_after(s0.active_hub(), seq@));
                }
            },
            OscSequence::RequestCompletion { partial, cursor_pos } => {
                let completions = generate_completions(partial.as_str(), state, dir_entries);
                self.insert_pending(partial, completions);
            },
            _ => {},
        }
    }

    /// Parses shell output, applies every sequence in order to `state`, and
    /// returns the output with the sequences taken out. `dir_entries` is the
    /// listing of the active hub's current directory when the call starts;
    /// completion requests are answered from it.
    pub fn process_output(&mut self, output: &str, state: &mut TosState, dir_entries: &Vec<PathEntry>) -> (clean: String)
        requires
            (exists|i: int| 0 <= i < stream_events(output@).len() && touches_hub(
                #[trigger] stream_events(output@)[i],
            )) ==> old(state)@.wf(),
        ensures
            clean@ == scan_stream(output@).1,
            (final(state)@, pending_view(final(self).pending_completions@)) == run(
                old(state)@,
                pending_view(old(self).pending_completions@),
                stream_events(output@),
                path_views(dir_entries@),
            ),
            final(self).parser == old(self).parser,
    {
        let (mut sequences, clean) = self.parser.parse(output);
        let ghost es = stream_events(output@);
        let ghost entries = path_views(dir_entries@);
        let ghost s0 = state@;
        let ghost p0 = pending_view(self.pending_completions@);
        let ghost parser0 = self.parser;
        let ghost n = es.len();
        let len0 = sequences.len();
        let mut k: usize = 0;
        assert(osc_views(sequences@) =~= es.skip(0));
        assert(osc_views(sequences@).len() == sequences@.len());
        assert(n == len0);
        while sequences.len() > 0
            invariant
                0 <= k <= n,
                n == es.len(),
                n <= usize::MAX,
                k + sequences@.len() == n,
                entries == path_views(dir_entries@),
                osc_views(sequences@) == es.skip(k as int),
                (state@, pending_view(self.pending_completions@)) == run(s0, p0, es.take(k as int), entries),
                self.parser == parser0,
                (exists|i: int| 0 <= i < es.len() && touches_hub(#[trigger] es[i])) ==> s0.wf(),
                s0.wf() ==> state@.wf(),
                !s0.wf() ==> state@ == s0,
            decreases sequences@.len(),
        {
            let ghost before = sequences@;
            assert(osc_views(before).len() == before.len());
            assert(k < n);
            let seq = sequences.remove(0);
            assert(osc_views(before)[0] == seq@);
            assert(seq@ == es[k as int]);
            assert forall|j: int| 0 <= j < sequences@.len() implies #[trigger] osc_views(sequences@)[j]
                == es.skip(k + 1)[j] by {
                assert(sequences@[j] == before[j + 1]);
                assert(es.skip(k as int)[j + 1] == es[k + 1 + j]);
            }
            assert(osc_views(sequences@) =~= es.skip(k + 1));
            assert(es.take(k + 1).drop_last() =~= es.take(k as int));
            assert(es.take(k + 1).last() == es[k as int]);
            proof {
                if s0.wf() {
                    lemma_state_after_shape(state@, seq@);
                }
            }
            let ghost r0 = run(s0, p0, es.take(k as int), entries);
            self.handle_sequence(seq, state, dir_entries);
            assert(run(s0, p0, es.take(k + 1), entries) == step(r0.0, r0.1, es[k as int], entries));
            k = k + 1;
        }
        assert(es.take(k as int) =~= es);
        clean
    }

    /// The text that sends `cmd` to the shell.
    pub fn send_command(&self, cmd: ShellCommand) -> (r: String)
        ensures
            r@ == shell_command_text(cmd),
    {
        self.parser.format_shell_command(&cmd)
    }

    /// The first dangerous pattern of the parser's configuration that the
    /// command matches, with its risk and message.
    pub fn check_command(&self, command: &str) -> (r: Option<(RiskLevel, String)>)
        ensures
            first_flagging(
                self.parser.config.dangerous_patterns@,
                command@,
                match r {
                    Some((risk, m)) => Some((risk, m@)),
                    None => None,
                },
            ),
    {
        self.parser.check_dangerous(command)
    }
}

} // verus!
