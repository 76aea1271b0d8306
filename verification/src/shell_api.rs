//! Shell API: the escape-sequence protocol between the command hub and the
//! shell running in a PTY.
//!
//! Shell to compositor: OSC sequences `ESC ] <code> ; <text>` ended by BEL or
//! `ESC \`, with the private codes 9000-9010 (and 7 for the working
//! directory). Compositor to shell: plain command lines written to the PTY.
use vstd::prelude::*;
use crate::text::{chars_of, string_of, push_str, push_chars, push_u64, push_i64, replace_char,
    replace_char_vec, starts_with_seq, starts_with, find_from, occurs_at, contains_seq, eq_str,
    slice_vec, dec, dec_int};
use crate::scan::{split_on, splitn_on, split_char, splitn_char, lines_of, lines, views,
    parse_unsigned, parse_signed, parse_u32, parse_u64, parse_usize, parse_i32};
use crate::ids::{uuid_parsed, parse_id};
use crate::pattern::{CompiledPattern, regex_valid, regex_finds};

verus! {

/// Risk level of a dangerous command.
#[derive(Debug, Clone, Copy, PartialEq, Eq, PartialOrd, Ord)]
pub enum RiskLevel {
    /// Informational only
    Low,
    /// Requires confirmation
    Medium,
    /// Requires tactile confirmation
    High,
    /// Requires multi-factor confirmation
    Critical,
}

/// A command suggestion sent by the shell. The confidence is in
/// thousandths (800 stands for 0.8).
#[derive(Debug, Clone, PartialEq, Eq)]
pub struct CommandSuggestion {
    pub text: String,
    pub command: String,
    pub description: String,
    pub category: String,
    pub confidence: u32,
}

pub struct SuggestionView {
    pub text: Seq<char>,
    pub command: Seq<char>,
    pub description: Seq<char>,
    pub category: Seq<char>,
    pub confidence: u32,
}

impl View for CommandSuggestion {
    type V = SuggestionView;

    open spec fn view(&self) -> SuggestionView {
        SuggestionView {
            text: self.text@,
            command: self.command@,
            description: self.description@,
            category: self.category@,
            confidence: self.confidence,
        }
    }
}

/// Kind of a directory entry.
#[derive(Debug, Clone, Copy, PartialEq, Eq)]
pub enum EntryType {
    File,
    Directory,
    Symlink,
    BlockDevice,
    CharDevice,
    Fifo,
    Socket,
    Unknown,
}

/// One entry of a directory listing sent by the shell.
#[derive(Debug, Clone, PartialEq, Eq)]
pub struct DirectoryEntry {
    pub name: String,
    pub entry_type: EntryType,
    pub size: u64,
    pub permissions: String,
    pub modified: String,
    pub is_hidden: bool,
    pub is_selected: bool,
}

pub struct EntryView {
    pub name: Seq<char>,
    pub entry_type: EntryType,
    pub size: u64,
    pub permissions: Seq<char>,
    pub modified: Seq<char>,
    pub is_hidden: bool,
    pub is_selected: bool,
}

impl View for DirectoryEntry {
    type V = EntryView;

    open spec fn view(&self) -> EntryView {
        EntryView {
            name: self.name@,
            entry_type: self.entry_type,
            size: self.size,
            permissions: self.permissions@,
            modified: self.modified@,
            is_hidden: self.is_hidden,
            is_selected: self.is_selected,
        }
    }
}

/// A directory listing sent by the shell.
#[derive(Debug, Clone, PartialEq, Eq)]
pub struct DirectoryListing {
    pub path: String,
    pub parent: Option<String>,
    pub entries: Vec<DirectoryEntry>,
    pub total_count: usize,
    pub hidden_count: usize,
    pub selected_count: usize,
}

pub struct ListingView {
    pub path: Seq<char>,
    pub parent: Option<Seq<char>>,
    pub entries: Seq<EntryView>,
    pub total_count: usize,
    pub hidden_count: usize,
    pub selected_count: usize,
}

/// The view of an optional string.
pub open spec fn opt_view(o: Option<String>) -> Option<Seq<char>> {
    match o {
        Some(s) => Some(s@),
        None => None,
    }
}

impl View for DirectoryListing {
    type V = ListingView;

    open spec fn view(&self) -> ListingView {
        ListingView {
            path: self.path@,
            parent: opt_view(self.parent),
            entries: self.entries@.map_values(|e: DirectoryEntry| e@),
            total_count: self.total_count,
            hidden_count: self.hidden_count,
            selected_count: self.selected_count,
        }
    }
}

/// A parsed shell-to-compositor sequence.
#[derive(Debug, Clone, PartialEq, Eq)]
pub enum OscSequence {
    /// Command suggestions
    Suggestions(Vec<CommandSuggestion>),
    /// Directory listing
    Directory(DirectoryListing),
    /// Command execution result
    CommandResult { command: String, exit_status: i32, output_preview: Option<String> },
    /// Current working directory update
    Cwd(String),
    /// Environment variable update
    Env { key: String, value: String },
    /// Dangerous command warning
    DangerousCommand { command: String, risk_level: RiskLevel },
    /// Shell ready notification
    ShellReady { shell_type: String, version: String },
    /// Request for completions
    RequestCompletion { partial: String, cursor_pos: usize },
    /// Request for sector context metadata
    ContextRequest { hub_id: u128 },
}

pub enum OscEvent {
    Suggestions(Seq<SuggestionView>),
    Directory(ListingView),
    CommandResult { command: Seq<char>, exit_status: i32, output_preview: Option<Seq<char>> },
    Cwd(Seq<char>),
    Env { key: Seq<char>, value: Seq<char> },
    DangerousCommand { command: Seq<char>, risk_level: RiskLevel },
    ShellReady { shell_type: Seq<char>, version: Seq<char> },
    RequestCompletion { partial: Seq<char>, cursor_pos: usize },
    ContextRequest { hub_id: u128 },
}

impl View for OscSequence {
    type V = OscEvent;

    open spec fn view(&self) -> OscEvent {
        match self {
            OscSequence::Suggestions(v) => OscEvent::Suggestions(
                v@.map_values(|s: CommandSuggestion| s@),
            ),
            OscSequence::Directory(l) => OscEvent::Directory(l@),
            OscSequence::CommandResult { command, exit_status, output_preview } =>
                OscEvent::CommandResult {
                command: command@,
                exit_status: *exit_status,
                output_preview: opt_view(*output_preview),
            },
            OscSequence::Cwd(p) => OscEvent::Cwd(p@),
            OscSequence::Env { key, value } => OscEvent::Env { key: key@, value: value@ },
            OscSequence::DangerousCommand { command, risk_level } => OscEvent::DangerousCommand {
                command: command@,
                risk_level: *risk_level,
            },
            OscSequence::ShellReady { shell_type, version } => OscEvent::ShellReady {
                shell_type: shell_type@,
                version: version@,
            },
            OscSequence::RequestCompletion { partial, cursor_pos } =>
                OscEvent::RequestCompletion { partial: partial@, cursor_pos: *cursor_pos },
            OscSequence::ContextRequest { hub_id } => OscEvent::ContextRequest { hub_id: *hub_id },
        }
    }
}

/// `x.unwrap_or(d)` over optional parse results.
pub open spec fn or_zero(o: Option<nat>) -> nat {
    match o {
        Some(v) => v,
        None => 0,
    }
}

/// A suggestion read from `text;command;description;category`, when it has
/// at least two fields.
pub open spec fn suggestion_of(item: Seq<char>) -> Option<SuggestionView> {
    let parts = splitn_on(item, ';', 4);
    if parts.len() >= 2 {
        Some(
            SuggestionView {
                text: parts[0],
                command: parts[1],
                description: if parts.len() > 2 {
                    parts[2]
                } else {
                    Seq::empty()
                },
                category: if parts.len() > 3 {
                    parts[3]
                } else {
                    "general"@
                },
                confidence: 800,
            },
        )
    } else {
        None
    }
}

/// The suggestions of a `|`-separated list.
pub open spec fn suggestions_of(text: Seq<char>) -> Seq<SuggestionView> {
    split_on(text, '|').filter_map(|item: Seq<char>| suggestion_of(item))
}

/// Entry type named by a one-letter code.
pub open spec fn entry_type_of(code: Seq<char>) -> EntryType {
    if code == "f"@ {
        EntryType::File
    } else if code == "d"@ {
        EntryType::Directory
    } else if code == "l"@ {
        EntryType::Symlink
    } else {
        EntryType::Unknown
    }
}

/// An entry read from `name;type;size;perms[;modified[;selected]]`, when it
/// has at least four fields.
pub open spec fn entry_of(line: Seq<char>) -> Option<EntryView> {
    let parts = split_on(line, ';');
    if parts.len() >= 4 {
        Some(
            EntryView {
                name: parts[0],
                entry_type: entry_type_of(parts[1]),
                size: or_zero(parse_unsigned(parts[2], u64::MAX as nat)) as u64,
                permissions: parts[3],
                modified: if parts.len() > 4 {
                    parts[4]
                } else {
                    Seq::empty()
                },
                is_hidden: parts[0].len() > 0 && parts[0][0] == '.',
                is_selected: parts.len() > 5 && parts[5] == "1"@,
            },
        )
    } else {
        None
    }
}

/// A count field of the listing header: its parsed value, or 0.
pub open spec fn header_count(header: Seq<Seq<char>>, i: int) -> usize {
    if header.len() > i {
        or_zero(parse_unsigned(header[i], usize::MAX as nat)) as usize
    } else {
        0
    }
}

/// A directory listing: a header line `path;parent;total;hidden;selected`
/// and one line per entry.
pub open spec fn directory_of(text: Seq<char>) -> Option<ListingView> {
    let ls = lines_of(text);
    if ls.len() == 0 {
        None
    } else {
        let header = split_on(ls[0], ';');
        if header.len() < 2 {
            None
        } else {
            Some(
                ListingView {
                    path: header[0],
                    parent: if header[1].len() == 0 {
                        None
                    } else {
                        Some(header[1])
                    },
                    entries: ls.skip(1).filter_map(|l: Seq<char>| entry_of(l)),
                    total_count: header_count(header, 2),
                    hidden_count: header_count(header, 3),
                    selected_count: header_count(header, 4),
                },
            )
        }
    }
}

/// A command result `command;status[;preview]`, when the status is an `i32`.
pub open spec fn command_result_of(text: Seq<char>) -> Option<OscEvent> {
    let parts = splitn_on(text, ';', 3);
    if parts.len() >= 2 {
        match parse_signed(parts[1], 0x8000_0000, i32::MAX as nat) {
            Some(st) => Some(
                OscEvent::CommandResult {
                    command: parts[0],
                    exit_status: st as i32,
                    output_preview: if parts.len() > 2 {
                        Some(parts[2])
                    } else {
                        None
                    },
                },
            ),
            None => None,
        }
    } else {
        None
    }
}

/// A working-directory text with a `file://host` prefix removed.
pub open spec fn cwd_path(pt: Seq<char>) -> Seq<char> {
    if starts_with_seq(pt, "file://"@) {
        match crate::text::char_index(pt.skip(7), '/') {
            Some(k) => pt.skip(7 + k),
            None => pt,
        }
    } else {
        pt
    }
}

/// Risk level named in a dangerous-command sequence (medium when unknown).
pub open spec fn risk_of(word: Seq<char>) -> RiskLevel {
    if word == "low"@ {
        RiskLevel::Low
    } else if word == "medium"@ {
        RiskLevel::Medium
    } else if word == "high"@ {
        RiskLevel::High
    } else if word == "critical"@ {
        RiskLevel::Critical
    } else {
        RiskLevel::Medium
    }
}

/// The meaning of one OSC body `<code>;<text>`.
pub open spec fn interpret(seq: Seq<char>) -> Option<OscEvent> {
    let parts = splitn_on(seq, ';', 2);
    let pt = if parts.len() > 1 {
        parts[1]
    } else {
        Seq::empty()
    };
    match parse_unsigned(parts[0], u32::MAX as nat) {
        None => None,
        Some(ps) => if ps == 9000 || ps == 9008 {
            Some(OscEvent::Suggestions(suggestions_of(pt)))
        } else if ps == 9001 {
            match directory_of(pt) {
                Some(l) => Some(OscEvent::Directory(l)),
                None => None,
            }
        } else if ps == 9002 {
            command_result_of(pt)
        } else if ps == 9003 || ps == 7 {
            Some(OscEvent::Cwd(cwd_path(pt)))
        } else if ps == 9004 {
            let kv = splitn_on(pt, '=', 2);
            if kv.len() == 2 {
                Some(OscEvent::Env { key: kv[0], value: kv[1] })
            } else {
                None
            }
        } else if ps == 9005 {
            let p = splitn_on(pt, ';', 2);
            if p.len() == 2 {
                Some(OscEvent::DangerousCommand { command: p[1], risk_level: risk_of(p[0]) })
            } else {
                None
            }
        } else if ps == 9006 {
            let p = splitn_on(pt, ';', 2);
            Some(
                OscEvent::ShellReady {
                    shell_type: p[0],
                    version: if p.len() > 1 {
                        p[1]
                    } else {
                        "unknown"@
                    },
                },
            )
        } else if ps == 9007 {
            let p = splitn_on(pt, ';', 2);
            if p.len() == 2 {
                Some(
                    OscEvent::RequestCompletion {
                        partial: p[0],
                        cursor_pos: or_zero(parse_unsigned(p[1], usize::MAX as nat)) as usize,
                    },
                )
            } else {
                None
            }
        } else if ps == 9010 {
            match uuid_parsed(pt) {
                Some(id) => Some(OscEvent::ContextRequest { hub_id: id }),
                None => None,
            }
        } else {
            None
        },
    }
}


/// The view of an optional value.
pub open spec fn view_opt<T: View>(o: Option<T>) -> Option<T::V> {
    match o {
        Some(x) => Some(x@),
        None => None,
    }
}

/// The views of a sequence of suggestions.
pub open spec fn suggestion_views(v: Seq<CommandSuggestion>) -> Seq<SuggestionView> {
    v.map_values(|s: CommandSuggestion| s@)
}

/// The views of a sequence of entries.
pub open spec fn entry_views(v: Seq<DirectoryEntry>) -> Seq<EntryView> {
    v.map_values(|e: DirectoryEntry| e@)
}

/// A `String` with the characters of `v`.
fn text_of(v: &Vec<char>) -> (s: String)
    ensures
        s@ == v@,
{
    string_of(v)
}

fn suggestion_from(item: &[char]) -> (r: Option<CommandSuggestion>)
    ensures
        view_opt(r) == suggestion_of(item@),
{
    let parts = splitn_char(item, ';', 4);
    let ghost p = splitn_on(item@, ';', 4);
    assert(views(parts@) == p);
    if parts.len() >= 2 {
        assert(parts@[0]@ == p[0] && parts@[1]@ == p[1]);
        let description = if parts.len() > 2 {
            assert(parts@[2]@ == p[2]);
            text_of(&parts[2])
        } else {
            String::new()
        };
        let category = if parts.len() > 3 {
            assert(parts@[3]@ == p[3]);
            text_of(&parts[3])
        } else {
            String::from_str("general")
        };
        let s = CommandSuggestion {
            text: text_of(&parts[0]),
            command: text_of(&parts[1]),
            description,
            category,
            confidence: 800,
        };
        Some(s)
    } else {
        None
    }
}

fn parse_suggestions(text: &[char]) -> (r: Vec<CommandSuggestion>)
    ensures
        suggestion_views(r@) == suggestions_of(text@),
{
    let items = split_char(text, '|');
    let ghost it = split_on(text@, '|');
    let mut out: Vec<CommandSuggestion> = Vec::new();
    let mut i: usize = 0;
    while i < items.len()
        invariant
            views(items@) == it,
            0 <= i <= items@.len(),
            suggestion_views(out@) == it.take(i as int).filter_map(
                |item: Seq<char>| suggestion_of(item),
            ),
        decreases items@.len() - i,
    {
        assert(items@[i as int]@ == it[i as int]);
        assert(it.take(i + 1).drop_last() =~= it.take(i as int));
        let r = suggestion_from(&items[i]);
        match r {
            Some(sg) => {
                out.push(sg);
                assert(suggestion_views(out@) =~= it.take(i + 1).filter_map(
                    |item: Seq<char>| suggestion_of(item),
                ));
            },
            None => {
                assert(suggestion_views(out@) =~= it.take(i + 1).filter_map(
                    |item: Seq<char>| suggestion_of(item),
                ));
            },
        }
        i = i + 1;
    }
    assert(it.take(items@.len() as int) =~= it);
    out
}

fn entry_from(line: &[char]) -> (r: Option<DirectoryEntry>)
    ensures
        view_opt(r) == entry_of(line@),
{
    let parts = split_char(line, ';');
    let ghost p = split_on(line@, ';');
    assert(views(parts@) == p);
    if parts.len() >= 4 {
        assert(parts@[0]@ == p[0] && parts@[1]@ == p[1] && parts@[2]@ == p[2] && parts@[3]@
            == p[3]);
        let code = &parts[1];
        let entry_type = if eq_str(code, "f") {
            EntryType::File
        } else if eq_str(code, "d") {
            EntryType::Directory
        } else if eq_str(code, "l") {
            EntryType::Symlink
        } else {
            EntryType::Unknown
        };
        let size = match parse_u64(&parts[2]) {
            Some(v) => v,
            None => 0,
        };
        let modified = if parts.len() > 4 {
            assert(parts@[4]@ == p[4]);
            text_of(&parts[4])
        } else {
            String::new()
        };
        let is_selected = if parts.len() > 5 {
            assert(parts@[5]@ == p[5]);
            eq_str(&parts[5], "1")
        } else {
            false
        };
        let name = &parts[0];
        let is_hidden = name.len() > 0 && name[0] == '.';
        Some(
            DirectoryEntry {
                name: text_of(name),
                entry_type,
                size,
                permissions: text_of(&parts[3]),
                modified,
                is_hidden,
                is_selected,
            },
        )
    } else {
        None
    }
}

fn header_count_exec(header: &Vec<Vec<char>>, i: usize) -> (r: usize)
    ensures
        r == header_count(views(header@), i as int),
{
    if header.len() > i {
        assert(header@[i as int]@ == views(header@)[i as int]);
        match parse_usize(&header[i]) {
            Some(v) => v,
            None => 0,
        }
    } else {
        0
    }
}

fn parse_directory(text: &[char]) -> (r: Option<DirectoryListing>)
    ensures
        view_opt(r) == directory_of(text@),
{
    let ls = lines(text);
    let ghost l = lines_of(text@);
    if ls.len() == 0 {
        return None;
    }
    assert(ls@[0]@ == l[0]);
    let header = split_char(&ls[0], ';');
    let ghost h = split_on(l[0], ';');
    if header.len() < 2 {
        return None;
    }
    assert(header@[0]@ == h[0] && header@[1]@ == h[1]);
    let parent = if header[1].len() == 0 {
        None
    } else {
        Some(text_of(&header[1]))
    };
    let ghost rest = l.skip(1);
    let mut entries: Vec<DirectoryEntry> = Vec::new();
    let mut i: usize = 1;
    while i < ls.len()
        invariant
            views(ls@) == l,
            rest == l.skip(1),
            1 <= i <= ls@.len(),
            entry_views(entries@) == rest.take(i - 1).filter_map(|x: Seq<char>| entry_of(x)),
        decreases ls@.len() - i,
    {
        assert(ls@[i as int]@ == rest[i - 1]);
        assert(rest.take(i as int).drop_last() =~= rest.take(i - 1));
        match entry_from(&ls[i]) {
            Some(e) => {
                entries.push(e);
            },
            None => {},
        }
        assert(entry_views(entries@) =~= rest.take(i as int).filter_map(
            |x: Seq<char>| entry_of(x),
        ));
        i = i + 1;
    }
    assert(rest.take(ls@.len() - 1) =~= rest);
    let listing = DirectoryListing {
        path: text_of(&header[0]),
        parent,
        entries,
        total_count: header_count_exec(&header, 2),
        hidden_count: header_count_exec(&header, 3),
        selected_count: header_count_exec(&header, 4),
    };
    Some(listing)
}

fn parse_command_result(text: &[char]) -> (r: Option<OscSequence>)
    ensures
        view_opt(r) == command_result_of(text@),
{
    let parts = splitn_char(text, ';', 3);
    let ghost p = splitn_on(text@, ';', 3);
    if parts.len() >= 2 {
        assert(parts@[0]@ == p[0] && parts@[1]@ == p[1]);
        match parse_i32(&parts[1]) {
            Some(st) => {
                let output_preview = if parts.len() > 2 {
                    assert(parts@[2]@ == p[2]);
                    Some(text_of(&parts[2]))
                } else {
                    None
                };
                Some(
                    OscSequence::CommandResult {
                        command: text_of(&parts[0]),
                        exit_status: st,
                        output_preview,
                    },
                )
            },
            None => None,
        }
    } else {
        None
    }
}

fn cwd_from(pt: &[char]) -> (r: String)
    ensures
        r@ == cwd_path(pt@),
{
    let prefix = chars_of("file://");
    proof {
        reveal_strlit("file://");
    }
    if starts_with(pt, &prefix) {
        let tail = slice_vec(pt, 7, pt.len());
        assert(tail@ =~= pt@.skip(7));
        match crate::text::find_char(&tail, '/') {
            Some(k) => {
                assert(crate::text::char_index(pt@.skip(7), '/') == Some(k as int));
                assert(starts_with_seq(pt@, "file://"@));
                assert(cwd_path(pt@) == pt@.skip(7 + k as int));
                let out = slice_vec(pt, 7 + k, pt.len());
                assert(out@ =~= pt@.skip(7 + k as int));
                return string_of(&out);
            },
            None => {},
        }
    }
    string_of(pt)
}

fn risk_from(word: &[char]) -> (r: RiskLevel)
    ensures
        r == risk_of(word@),
{
    if eq_str(word, "low") {
        RiskLevel::Low
    } else if eq_str(word, "medium") {
        RiskLevel::Medium
    } else if eq_str(word, "high") {
        RiskLevel::High
    } else if eq_str(word, "critical") {
        RiskLevel::Critical
    } else {
        RiskLevel::Medium
    }
}

/// Interprets one OSC body `<code>;<text>`.
pub fn interpret_osc(seq: &[char]) -> (r: Option<OscSequence>)
    ensures
        view_opt(r) == interpret(seq@),
{
    let parts = splitn_char(seq, ';', 2);
    let ghost p = splitn_on(seq@, ';', 2);
    assert(parts@[0]@ == p[0]);
    let ghost gpt = if p.len() > 1 {
        p[1]
    } else {
        Seq::<char>::empty()
    };
    let pt: Vec<char> = if parts.len() > 1 {
        assert(parts@[1]@ == p[1]);
        slice_vec(&parts[1], 0, parts[1].len())
    } else {
        Vec::new()
    };
    assert(pt@ =~= gpt);
    let ps = match parse_u32(&parts[0]) {
        Some(v) => v,
        None => {
            return None;
        },
    };
    if ps == 9000 || ps == 9008 {
        Some(OscSequence::Suggestions(parse_suggestions(&pt)))
    } else if ps == 9001 {
        match parse_directory(&pt) {
            Some(l) => Some(OscSequence::Directory(l)),
            None => None,
        }
    } else if ps == 9002 {
        parse_command_result(&pt)
    } else if ps == 9003 || ps == 7 {
        Some(OscSequence::Cwd(cwd_from(&pt)))
    } else if ps == 9004 {
        let kv = splitn_char(&pt, '=', 2);
        let ghost k = splitn_on(pt@, '=', 2);
        if kv.len() == 2 {
            assert(kv@[0]@ == k[0] && kv@[1]@ == k[1]);
            Some(OscSequence::Env { key: text_of(&kv[0]), value: text_of(&kv[1]) })
        } else {
            None
        }
    } else if ps == 9005 {
        let q = splitn_char(&pt, ';', 2);
        let ghost k = splitn_on(pt@, ';', 2);
        if q.len() == 2 {
            assert(q@[0]@ == k[0] && q@[1]@ == k[1]);
            Some(
                OscSequence::DangerousCommand {
                    command: text_of(&q[1]),
                    risk_level: risk_from(&q[0]),
                },
            )
        } else {
            None
        }
    } else if ps == 9006 {
        let q = splitn_char(&pt, ';', 2);
        let ghost k = splitn_on(pt@, ';', 2);
        assert(q@[0]@ == k[0]);
        let version = if q.len() > 1 {
            assert(q@[1]@ == k[1]);
            text_of(&q[1])
        } else {
            String::from_str("unknown")
        };
        Some(OscSequence::ShellReady { shell_type: text_of(&q[0]), version })
    } else if ps == 9007 {
        let q = splitn_char(&pt, ';', 2);
        let ghost k = splitn_on(pt@, ';', 2);
        if q.len() == 2 {
            assert(q@[0]@ == k[0] && q@[1]@ == k[1]);
            let cursor_pos = match parse_usize(&q[1]) {
                Some(v) => v,
                None => 0,
            };
            Some(OscSequence::RequestCompletion { partial: text_of(&q[0]), cursor_pos })
        } else {
            None
        }
    } else if ps == 9010 {
        let ptext = string_of(&pt);
        match parse_id(ptext.as_str()) {
            Some(id) => Some(OscSequence::ContextRequest { hub_id: id }),
            None => None,
        }
    } else {
        None
    }
}


/// Escape (`ESC`, 0x1B).
pub open spec fn esc() -> char {
    '\u{1b}'
}

/// Bell (`BEL`, 0x07).
pub open spec fn bel() -> char {
    '\u{7}'
}

/// The body of an OSC sequence at the start of `t` and the number of
/// characters it takes up with its terminator (BEL or `ESC \`); an
/// unterminated body runs to the end.
pub open spec fn osc_end(t: Seq<char>) -> (Seq<char>, nat)
    decreases t.len(),
{
    if t.len() == 0 {
        (Seq::empty(), 0)
    } else if t[0] == bel() {
        (Seq::empty(), 1)
    } else if t[0] == esc() && t.len() >= 2 && t[1] == '\\' {
        (Seq::empty(), 2)
    } else {
        let r = osc_end(t.drop_first());
        (seq![t[0]] + r.0, r.1 + 1)
    }
}

pub proof fn lemma_osc_end_bound(t: Seq<char>)
    ensures
        osc_end(t).1 <= t.len(),
    decreases t.len(),
{
    if t.len() > 0 {
        lemma_osc_end_bound(t.drop_first());
    }
}

/// Splits a shell output stream into the bodies of its OSC sequences and the
/// remaining text, in order.
pub open spec fn scan_stream(s: Seq<char>) -> (Seq<Seq<char>>, Seq<char>)
    decreases s.len(),
{
    if s.len() == 0 {
        (Seq::empty(), Seq::empty())
    } else if s[0] == esc() && s.len() == 1 {
        (Seq::empty(), seq![esc()])
    } else if s[0] == esc() && s[1] == ']' {
        let b = osc_end(s.skip(2));
        proof {
            lemma_osc_end_bound(s.skip(2));
        }
        let r = scan_stream(s.skip(2 + b.1 as int));
        (seq![b.0] + r.0, r.1)
    } else if s[0] == esc() {
        let r = scan_stream(s.skip(2));
        (r.0, seq![s[0], s[1]] + r.1)
    } else {
        let r = scan_stream(s.skip(1));
        (r.0, seq![s[0]] + r.1)
    }
}

/// The sequences found in a stream: each OSC body interpreted, those
/// without meaning dropped.
pub open spec fn stream_events(s: Seq<char>) -> Seq<OscEvent> {
    scan_stream(s).0.filter_map(|b: Seq<char>| interpret(b))
}

/// The views of a sequence of parsed OSC sequences.
pub open spec fn osc_views(v: Seq<OscSequence>) -> Seq<OscEvent> {
    v.map_values(|o: OscSequence| o@)
}

/// Reads the body of the OSC sequence that starts at `start`; returns the
/// body and the position after its terminator.
fn read_osc_body(s: &[char], start: usize) -> (r: (Vec<char>, usize))
    requires
        start <= s@.len(),
    ensures
        r.0@ == osc_end(s@.skip(start as int)).0,
        r.1 == start + osc_end(s@.skip(start as int)).1,
{
    let mut body: Vec<char> = Vec::new();
    let mut j: usize = start;
    while j < s.len()
        invariant
            start <= j <= s@.len(),
            osc_end(s@.skip(start as int)).0 == body@ + osc_end(s@.skip(j as int)).0,
            osc_end(s@.skip(start as int)).1 == (j - start) + osc_end(s@.skip(j as int)).1,
        decreases s@.len() - j,
    {
        let ghost t = s@.skip(j as int);
        assert(t[0] == s@[j as int]);
        assert(t.drop_first() =~= s@.skip(j + 1));
        let ch = s[j];
        if ch == '\u{7}' {
            assert(body@ + Seq::<char>::empty() =~= body@);
            return (body, j + 1);
        }
        if ch == '\u{1b}' && j + 1 < s.len() && s[j + 1] == '\\' {
            assert(t[1] == s@[j + 1]);
            assert(body@ + Seq::<char>::empty() =~= body@);
            return (body, j + 2);
        }
        if ch == '\u{1b}' && j + 1 < s.len() {
            assert(t[1] == s@[j + 1]);
        }
        let ghost old_body = body@;
        body.push(ch);
        assert(old_body + (seq![ch] + osc_end(s@.skip(j + 1)).0) =~= body@ + osc_end(
            s@.skip(j + 1),
        ).0);
        j = j + 1;
    }
    assert(s@.skip(j as int).len() == 0);
    assert(body@ + Seq::<char>::empty() =~= body@);
    (body, j)
}

/// Dangerous command pattern of the shell API.
#[derive(Debug, Clone)]
pub struct DangerousPattern {
    /// Regular expression
    pub pattern: String,
    /// Risk level
    pub risk_level: RiskLevel,
    /// Warning message
    pub message: String,
}

/// Shell API configuration.
#[derive(Debug, Clone)]
pub struct ShellApiConfig {
    /// Enable OSC parsing
    pub enable_osc: bool,
    /// Enable compositor-to-shell commands
    pub enable_commands: bool,
    /// Shell type (fish, bash, zsh)
    pub shell_type: String,
    /// Maximum suggestion count
    pub max_suggestions: usize,
    /// Maximum directory entries
    pub max_dir_entries: usize,
    /// Auto-execute safe commands
    pub auto_execute_safe: bool,
    /// Dangerous command patterns
    pub dangerous_patterns: Vec<DangerousPattern>,
}

/// OSC parser for shell escape sequences.
#[derive(Debug)]
pub struct OscParser {
    /// Buffer for incomplete sequences
    pub buffer: String,
    /// Configuration
    pub config: ShellApiConfig,
}

impl OscParser {
    /// Parses shell output: returns the OSC sequences it carries, in order,
    /// and the text with those sequences removed.
    pub fn parse(&mut self, input: &str) -> (r: (Vec<OscSequence>, String))
        ensures
            osc_views(r.0@) == stream_events(input@),
            r.1@ == scan_stream(input@).1,
            *final(self) == *old(self),
    {
        let s = chars_of(input);
        let ghost full = s@;
        let mut sequences: Vec<OscSequence> = Vec::new();
        let mut output: Vec<char> = Vec::new();
        let ghost mut bodies: Seq<Seq<char>> = Seq::empty();
        let mut i: usize = 0;
        assert(full.skip(0) =~= full);
        assert(bodies + scan_stream(full).0 =~= scan_stream(full).0);
        assert(output@ + scan_stream(full).1 =~= scan_stream(full).1);
        while i < s.len()
            invariant
                full == s@,
                0 <= i <= s@.len(),
                scan_stream(full).0 == bodies + scan_stream(full.skip(i as int)).0,
                scan_stream(full).1 == output@ + scan_stream(full.skip(i as int)).1,
                osc_views(sequences@) == bodies.filter_map(|b: Seq<char>| interpret(b)),
            decreases s@.len() - i,
        {
            let ghost rest = full.skip(i as int);
            assert(rest[0] == s@[i as int]);
            let ch = s[i];
            if ch == '\u{1b}' && i + 1 == s.len() {
                output.push(ch);
                assert(full.skip(i + 1).len() == 0);
                assert(output@ =~= (output@.drop_last() + seq![esc()]));
                i = i + 1;
                assert(scan_stream(full).1 =~= output@ + scan_stream(full.skip(i as int)).1);
                assert(scan_stream(full).0 =~= bodies + scan_stream(full.skip(i as int)).0);
            } else if ch == '\u{1b}' && s[i + 1] == ']' {
                assert(rest[1] == s@[i + 1]);
                assert(rest.skip(2) =~= full.skip(i + 2));
                let (body, next) = read_osc_body(&s, i + 2);
                proof {
                    lemma_osc_end_bound(full.skip(i + 2));
                }
                assert(rest.skip(2 + osc_end(rest.skip(2)).1 as int) =~= full.skip(next as int));
                let ghost old_bodies = bodies;
                proof {
                    bodies = bodies.push(body@);
                }
                assert(bodies.drop_last() =~= old_bodies);
                match interpret_osc(&body) {
                    Some(osc) => {
                        sequences.push(osc);
                    },
                    None => {},
                }
                assert(osc_views(sequences@) =~= bodies.filter_map(|b: Seq<char>| interpret(b)));
                assert(scan_stream(full).0 =~= bodies + scan_stream(full.skip(next as int)).0);
                i = next;
            } else if ch == '\u{1b}' {
                assert(rest[1] == s@[i + 1]);
                assert(rest.skip(2) =~= full.skip(i + 2));
                let ghost old_out = output@;
                output.push(ch);
                output.push(s[i + 1]);
                assert(output@ =~= old_out + seq![rest[0], rest[1]]);
                assert(scan_stream(full).1 =~= output@ + scan_stream(full.skip(i + 2)).1);
                i = i + 2;
            } else {
                assert(rest.skip(1) =~= full.skip(i + 1));
                let ghost old_out = output@;
                output.push(ch);
                assert(scan_stream(full).1 =~= output@ + scan_stream(full.skip(i + 1)).1);
                i = i + 1;
            }
        }
        assert(full.skip(i as int).len() == 0);
        assert(bodies + Seq::<Seq<char>>::empty() =~= bodies);
        assert(output@ + Seq::<char>::empty() =~= output@);
        (sequences, string_of(&output))
    }
}


/// A command from the compositor to the shell.
#[derive(Debug, Clone, PartialEq, Eq)]
pub enum ShellCommand {
    /// Execute a command
    Exec(String),
    /// Change directory
    Cd(String),
    /// Request completions
    Complete { partial: String, cursor_pos: usize },
    /// List directory
    Ls(String),
    /// Set environment variable
    SetEnv { key: String, value: String },
    /// Clear screen
    Clear,
    /// Interrupt current command (Ctrl+C)
    Interrupt,
    /// Send EOF (Ctrl+D)
    Eof,
}

/// A text needs quoting for the shell when it holds a space, a backslash or
/// a quote.
pub open spec fn needs_quoting(s: Seq<char>) -> bool {
    s.contains(' ') || s.contains('\\') || s.contains('"') || s.contains('\'')
}

/// Shell quoting: wrapped in single quotes, each single quote written as
/// `'\"'\"'`; texts without special characters are left as they are.
pub open spec fn shell_escaped(s: Seq<char>) -> Seq<char> {
    if needs_quoting(s) {
        seq!['\''] + replace_char(s, '\'', "'\\\"'\\\"'"@) + seq!['\'']
    } else {
        s
    }
}

/// Whether `c` occurs in `s`.
pub fn has_char(s: &[char], c: char) -> (b: bool)
    ensures
        b == s@.contains(c),
{
    let mut i: usize = 0;
    while i < s.len()
        invariant
            0 <= i <= s@.len(),
            forall|j: int| 0 <= j < i ==> s@[j] != c,
        decreases s@.len() - i,
    {
        if s[i] == c {
            assert(s@[i as int] == c);
            return true;
        }
        i = i + 1;
    }
    false
}

fn push_escaped(out: &mut Vec<char>, s: &[char])
    ensures
        final(out)@ == old(out)@ + shell_escaped(s@),
{
    if has_char(s, ' ') || has_char(s, '\\') || has_char(s, '"') || has_char(s, '\'') {
        out.push('\'');
        let inner = replace_char_vec(s, '\'', "'\\\"'\\\"'");
        push_chars(out, &inner);
        out.push('\'');
        assert(final(out)@ =~= old(out)@ + shell_escaped(s@));
    } else {
        push_chars(out, s);
    }
}

/// Escapes a string for use as one shell word.
pub fn shell_escape(s: &str) -> (r: String)
    ensures
        r@ == shell_escaped(s@),
{
    let cs = chars_of(s);
    let mut out: Vec<char> = Vec::new();
    push_escaped(&mut out, &cs);
    assert(out@ =~= shell_escaped(s@));
    string_of(&out)
}

/// The text written to the PTY for a shell command.
pub open spec fn shell_command_text(cmd: ShellCommand) -> Seq<char> {
    match cmd {
        ShellCommand::Exec(c) => c@ + "\n"@,
        ShellCommand::Cd(p) => "cd "@ + shell_escaped(p@) + "\n"@,
        ShellCommand::Complete { partial, cursor_pos } => seq![esc()] + "]9008;"@ + partial@
            + ";"@ + dec(cursor_pos as nat) + seq![bel()],
        ShellCommand::Ls(p) => "ls -la "@ + shell_escaped(p@) + "\n"@,
        ShellCommand::SetEnv { key, value } => "export "@ + key@ + "="@ + shell_escaped(value@)
            + "\n"@,
        ShellCommand::Clear => "clear\n"@,
        ShellCommand::Interrupt => seq!['\u{3}'],
        ShellCommand::Eof => seq!['\u{4}'],
    }
}

/// Whether pattern `p` flags `command`: the pattern compiles and matches.
pub open spec fn flags(p: DangerousPattern, command: Seq<char>) -> bool {
    regex_valid(p.pattern@) && regex_finds(p.pattern@, command)
}

/// The answer of a dangerous-command check: the risk and message of the
/// first pattern in `ps` that flags the command, if any.
pub open spec fn first_flagging(ps: Seq<DangerousPattern>, command: Seq<char>, r: Option<(RiskLevel, Seq<char>)>) -> bool {
    match r {
        Some((risk, msg)) => exists|i: int|
            0 <= i < ps.len() && flags(ps[i], command) && (forall|j: int|
                0 <= j < i ==> !flags(ps[j], command)) && risk == ps[i].risk_level && msg
                == ps[i].message@,
        None => forall|i: int| 0 <= i < ps.len() ==> !flags(ps[i], command),
    }
}

/// Checks a command against patterns, in order.
pub fn check_patterns(patterns: &Vec<DangerousPattern>, command: &str) -> (r: Option<(RiskLevel, String)>)
    ensures
        first_flagging(
            patterns@,
            command@,
            match r {
                Some((risk, m)) => Some((risk, m@)),
                None => None,
            },
        ),
{
    let mut i: usize = 0;
    while i < patterns.len()
        invariant
            0 <= i <= patterns@.len(),
            forall|j: int| 0 <= j < i ==> !flags(patterns@[j], command@),
        decreases patterns@.len() - i,
    {
        let p = &patterns[i];
        match CompiledPattern::compile(p.pattern.as_str()) {
            Some(re) => {
                if re.is_match(command) {
                    let msg = p.message.clone();
                    assert(flags(patterns@[i as int], command@));
                    return Some((p.risk_level, msg));
                }
            },
            None => {},
        }
        i = i + 1;
    }
    None
}

impl OscParser {
    /// Checks a command against the configured dangerous patterns: the risk
    /// and message of the first pattern that matches it.
    pub fn check_dangerous(&self, command: &str) -> (r: Option<(RiskLevel, String)>)
        ensures
            first_flagging(
                self.config.dangerous_patterns@,
                command@,
                match r {
                    Some((risk, m)) => Some((risk, m@)),
                    None => None,
                },
            ),
    {
        check_patterns(&self.config.dangerous_patterns, command)
    }

    /// Formats a shell command for sending to the PTY.
    pub fn format_shell_command(&self, cmd: &ShellCommand) -> (r: String)
        ensures
            r@ == shell_command_text(*cmd),
    {
        let mut out: Vec<char> = Vec::new();
        match cmd {
            ShellCommand::Exec(c) => {
                push_str(&mut out, c.as_str());
                push_str(&mut out, "\n");
            },
            ShellCommand::Cd(p) => {
                push_str(&mut out, "cd ");
                let pc = chars_of(p.as_str());
                push_escaped(&mut out, &pc);
                push_str(&mut out, "\n");
            },
            ShellCommand::Complete { partial, cursor_pos } => {
                out.push('\u{1b}');
                push_str(&mut out, "]9008;");
                push_str(&mut out, partial.as_str());
                push_str(&mut out, ";");
                push_u64(&mut out, *cursor_pos as u64);
                out.push('\u{7}');
            },
            ShellCommand::Ls(p) => {
                push_str(&mut out, "ls -la ");
                let pc = chars_of(p.as_str());
                push_escaped(&mut out, &pc);
                push_str(&mut out, "\n");
            },
            ShellCommand::SetEnv { key, value } => {
                push_str(&mut out, "export ");
                push_str(&mut out, key.as_str());
                push_str(&mut out, "=");
                let vc = chars_of(value.as_str());
                push_escaped(&mut out, &vc);
                push_str(&mut out, "\n");
            },
            ShellCommand::Clear => {
                push_str(&mut out, "clear\n");
            },
            ShellCommand::Interrupt => {
                out.push('\u{3}');
            },
            ShellCommand::Eof => {
                out.push('\u{4}');
            },
        }
        assert(out@ =~= shell_command_text(*cmd));
        string_of(&out)
    }
}


/// Reference text of the Fish integration script.
pub const FISH_INTEGRATION: &'static str = "# TOS Shell Integration for Fish
# Add this to your config.fish or source it

function __tos_send_osc
    printf \"\\033]9003;%s\\007\" $PWD
end

function __tos_preexec --on-event fish_preexec
    # Send command about to execute
    printf \"\\033]9002;%s;running\\007\" $argv[1]
end

function __tos_postexec --on-event fish_postexec
    # Send command result
    set -l status $status
    printf \"\\033]9002;%s;%d\\007\" (history --max=1) $status
end

# Send CWD on directory change
function __tos_cwd --on-variable PWD
    __tos_send_osc
end

# Send directory listing on request
function __tos_ls
    set -l path $argv[1]
    set -l entries (ls -la $path 2>/dev/null | tail -n +2)
    set -l total (count $entries)
    set -l hidden (count (string match -r '^\\\\.' -- $entries))
    
    printf \"\\033]9001;%s;%s;%d;%d;0\\007\" $path (dirname $path) $total $hidden
    
    for entry in $entries
        set -l parts (string split -m 1 ' ' -- $entry)
        # Format: name;type;size;perms;modified;selected
        printf \"\\033]9001;%s;%s;%s;%s;%s;0\\007\" \\
            $parts[2] \\
            (if test -d $entry; echo d; else; echo f; end) \\
            0 \\
            $parts[1] \\
            \"\"
    end
end

# Send shell ready notification
printf \"\\033]9006;fish;%s\\007\" $FISH_VERSION

# Hook into fish
__tos_send_osc
";

/// Reference text of the Bash integration script.
pub const BASH_INTEGRATION: &'static str = "# TOS Shell Integration for Bash
# Add this to your .bashrc or source it

__tos_send_osc() {
    printf \"\\033]9003;%s\\007\" \"$PWD\"
}

__tos_preexec() {
    printf \"\\033]9002;%s;running\\007\" \"$1\"
}

__tos_postexec() {
    local status=$?
    printf \"\\033]9002;%s;%d\\007\" \"$(history 1 | sed 's/^[ ]*[0-9]*[ ]*//')\" $status
}

# Hook into bash
export PROMPT_COMMAND='__tos_send_osc'

# Trap DEBUG for preexec
trap '__tos_preexec \"$BASH_COMMAND\"' DEBUG

# Postexec via PROMPT_COMMAND
__tos_original_prompt_command=\"$PROMPT_COMMAND\"
PROMPT_COMMAND='__tos_postexec; __tos_original_prompt_command'

# Send shell ready
printf \"\\033]9006;bash;%s\\007\" \"${BASH_VERSION}\"
";

/// The default dangerous patterns of the shell API: pattern, risk, message.
pub open spec fn default_shell_patterns() -> Seq<(Seq<char>, RiskLevel, Seq<char>)> {
    seq![
        ("rm\\s+-rf\\s+/"@, RiskLevel::Critical, "This will delete the entire filesystem!"@),
        ("dd\\s+if=.*\\s+of=/dev/"@, RiskLevel::Critical, "This will overwrite a device directly!"@),
        ("mkfs\\."@, RiskLevel::Critical, "This will format a filesystem"@),
        (">?\\s*/dev/"@, RiskLevel::High, "Writing to device files can damage the system"@),
        ("chmod\\s+-R\\s+777\\s+/"@, RiskLevel::High, "This will make all files world-writable"@),
        (":\\s*\\(\\s*\\)\\s*\\{\\s*:\\s*\\|\\s*:\\s*&\\s*\\}\\s*;\\s*:"@, RiskLevel::High,
            "This is a fork bomb that will crash the system"@),
        ("wget\\s+.*\\s*\\|\\s*(ba)?sh"@, RiskLevel::Medium,
            "Piping downloaded content directly to shell is dangerous"@),
        ("curl\\s+.*\\s*\\|\\s*(ba)?sh"@, RiskLevel::Medium,
            "Piping downloaded content directly to shell is dangerous"@),
    ]
}

/// The view of a dangerous pattern as (pattern, risk, message).
pub open spec fn pattern_triple(p: DangerousPattern) -> (Seq<char>, RiskLevel, Seq<char>) {
    (p.pattern@, p.risk_level, p.message@)
}

fn mk_pattern(pattern: &str, risk_level: RiskLevel, message: &str) -> (p: DangerousPattern)
    ensures
        pattern_triple(p) == (pattern@, risk_level, message@),
{
    DangerousPattern {
        pattern: String::from_str(pattern),
        risk_level,
        message: String::from_str(message),
    }
}

impl ShellApiConfig {
    /// The default configuration: OSC parsing and commands enabled, Fish,
    /// ten suggestions, a thousand directory entries, the default patterns.
    pub fn default() -> (c: ShellApiConfig)
        ensures
            c.enable_osc && c.enable_commands && c.auto_execute_safe,
            c.shell_type@ == "fish"@,
            c.max_suggestions == 10,
            c.max_dir_entries == 1000,
            c.dangerous_patterns@.map_values(|p: DangerousPattern| pattern_triple(p))
                == default_shell_patterns(),
    {
        ShellApiConfig {
            enable_osc: true,
            enable_commands: true,
            shell_type: String::from_str("fish"),
            max_suggestions: 10,
            max_dir_entries: 1000,
            auto_execute_safe: true,
            dangerous_patterns: Self::default_dangerous_patterns(),
        }
    }

    /// The default dangerous command patterns.
    pub fn default_dangerous_patterns() -> (v: Vec<DangerousPattern>)
        ensures
            v@.map_values(|p: DangerousPattern| pattern_triple(p)) == default_shell_patterns(),
    {
        let mut v: Vec<DangerousPattern> = Vec::new();
        v.push(mk_pattern(r"rm\s+-rf\s+/", RiskLevel::Critical, "This will delete the entire filesystem!"));
        v.push(mk_pattern(r"dd\s+if=.*\s+of=/dev/", RiskLevel::Critical, "This will overwrite a device directly!"));
        v.push(mk_pattern(r"mkfs\.", RiskLevel::Critical, "This will format a filesystem"));
        v.push(mk_pattern(r">?\s*/dev/", RiskLevel::High, "Writing to device files can damage the system"));
        v.push(mk_pattern(r"chmod\s+-R\s+777\s+/", RiskLevel::High, "This will make all files world-writable"));
        v.push(mk_pattern(r":\s*\(\s*\)\s*\{\s*:\s*\|\s*:\s*&\s*\}\s*;\s*:", RiskLevel::High, "This is a fork bomb that will crash the system"));
        v.push(mk_pattern(r"wget\s+.*\s*\|\s*(ba)?sh", RiskLevel::Medium, "Piping downloaded content directly to shell is dangerous"));
        v.push(mk_pattern(r"curl\s+.*\s*\|\s*(ba)?sh", RiskLevel::Medium, "Piping downloaded content directly to shell is dangerous"));
        assert(v@.map_values(|p: DangerousPattern| pattern_triple(p)) =~= default_shell_patterns());
        v
    }
}

impl OscParser {
    /// A parser with the default configuration and an empty buffer.
    pub fn new() -> (p: OscParser)
        ensures
            p.buffer@.len() == 0,
            p.config.enable_osc && p.config.enable_commands && p.config.auto_execute_safe,
            p.config.shell_type@ == "fish"@,
            p.config.max_suggestions == 10,
            p.config.max_dir_entries == 1000,
            p.config.dangerous_patterns@.map_values(|q: DangerousPattern| pattern_triple(q))
                == default_shell_patterns(),
    {
        Self::with_config(ShellApiConfig::default())
    }

    /// A parser with the given configuration and an empty buffer.
    pub fn with_config(config: ShellApiConfig) -> (p: OscParser)
        ensures
            p.buffer@.len() == 0,
            p.config == config,
    {
        OscParser { buffer: String::new(), config }
    }

    /// The Fish integration script.
    pub fn generate_fish_integration(&self) -> (s: String)
        ensures
            s@ == FISH_INTEGRATION@,
    {
        String::from_str(FISH_INTEGRATION)
    }

    /// The Bash integration script.
    pub fn generate_bash_integration(&self) -> (s: String)
        ensures
            s@ == BASH_INTEGRATION@,
    {
        String::from_str(BASH_INTEGRATION)
    }
}

/// The one-letter code of an entry type in a listing.
pub open spec fn type_code(t: EntryType) -> Seq<char> {
    match t {
        EntryType::File => "f"@,
        EntryType::Directory => "d"@,
        EntryType::Symlink => "l"@,
        _ => "?"@,
    }
}

/// A listed entry's type field decides its type: `f` a regular file, `d` a
/// directory, `l` a symbolic link, and anything else an unknown type.
pub proof fn law_entry_type_from_code(line: Seq<char>)
    requires
        split_on(line, ';').len() >= 4,
    ensures
        entry_of(line) is Some,
        forall|t: EntryType|
            (t == EntryType::File || t == EntryType::Directory || t == EntryType::Symlink) ==> ((
            #[trigger] type_code(t) == split_on(line, ';')[1])
            <==> entry_of(line).unwrap().entry_type == t),
        (split_on(line, ';')[1] != "f"@ && split_on(line, ';')[1] != "d"@ && split_on(line, ';')[1] != "l"@)
            ==> entry_of(line).unwrap().entry_type == EntryType::Unknown,
{
    reveal_strlit("f");
    reveal_strlit("d");
    reveal_strlit("l");
    reveal_strlit("?");
    let code = split_on(line, ';')[1];
    assert("f"@ != "d"@ && "f"@ != "l"@ && "d"@ != "l"@) by {
        assert("f"@[0] != "d"@[0] && "f"@[0] != "l"@[0] && "d"@[0] != "l"@[0]);
    }
    assert forall|t: EntryType|
        (t == EntryType::File || t == EntryType::Directory || t == EntryType::Symlink) implies ((
        #[trigger] type_code(t) == code) <==> entry_of(line).unwrap().entry_type == t) by {
        assert(entry_of(line).unwrap().entry_type == entry_type_of(code));
    }
}

} // verus!
