//! Pseudo-terminal plumbing: the events a shell's PTY produces, the commands
//! sent to it, and the reading of directory changes out of its output.
use vstd::prelude::*;
use crate::text::{chars_of, string_of, occurs_at, contains_seq, starts_with_seq, find_from, contains,
    starts_with, slice_vec, char_index, find_char};
use std::sync::mpsc::{Sender, Receiver};

verus! {

/// What a PTY reports.
#[derive(Debug, Clone, PartialEq, Eq)]
pub enum PtyEvent {
    Output(String),
    DirectoryChanged(String),
    ShellReady,
    ProcessExited(i32),
    Error(String),
}

/// What is sent to a PTY.
#[derive(Debug, Clone, PartialEq, Eq)]
pub enum PtyCommand {
    Write(String),
    WriteLine(String),
    /// Columns, rows
    Resize(u16, u16),
    Close,
}

#[verifier::external_type_specification]
#[verifier::external_body]
#[verifier::reject_recursive_types(T)]
pub struct ExSender<T>(Sender<T>);

#[verifier::external_type_specification]
#[verifier::external_body]
#[verifier::reject_recursive_types(T)]
pub struct ExReceiver<T>(Receiver<T>);

/// Calls `Sender::send`; the outcome (whether the reader still listens) is
/// not known here and is ignored, as a write to a closed PTY is.
#[verifier::external_body]
fn send_command(tx: &Sender<PtyCommand>, cmd: PtyCommand) {
    let _ = tx.send(cmd);
}

/// A running PTY: the command channel, the event channel and the child.
pub struct PtyHandle {
    pub cmd_tx: Sender<PtyCommand>,
    pub event_rx: Receiver<PtyEvent>,
    pub child_pid: u32,
}

impl PtyHandle {
    /// Sends text to the shell.
    pub fn write(&self, s: &str) {
        send_command(&self.cmd_tx, PtyCommand::Write(String::from_str(s)));
    }
}

/// The escape that starts a private terminal sequence: `ESC ] 1337 ;`.
pub open spec fn marker() -> Seq<char> {
    seq!['\u{1b}', ']', '1', '3', '3', '7', ';']
}

/// The first occurrence of the marker at or after `pos`.
#[verifier::opaque]
pub open spec fn next_marker(s: Seq<char>, pos: int) -> Option<int> {
    if exists|j: int| pos <= j && occurs_at(s, marker(), j) {
        Some(choose|j: int| pos <= j && occurs_at(s, marker(), j) && forall|k: int| pos <= k < j ==> !occurs_at(s, marker(), k))
    } else {
        None
    }
}

pub proof fn lemma_next_marker(s: Seq<char>, pos: int)
    ensures
        match next_marker(s, pos) {
            Some(j) => pos <= j && occurs_at(s, marker(), j) && forall|k: int| pos <= k < j ==> !occurs_at(s, marker(), k),
            None => forall|j: int| pos <= j ==> !occurs_at(s, marker(), j),
        },
{
    reveal(next_marker);
    if exists|j: int| pos <= j && occurs_at(s, marker(), j) {
        let w = choose|j: int| pos <= j && occurs_at(s, marker(), j);
        lemma_least_occurrence(s, pos, w);
    }
}

proof fn lemma_least_occurrence(s: Seq<char>, pos: int, w: int)
    requires
        pos <= w,
        occurs_at(s, marker(), w),
    ensures
        exists|j: int| pos <= j && occurs_at(s, marker(), j) && forall|k: int| pos <= k < j ==> !occurs_at(s, marker(), k),
    decreases w - pos,
{
    if exists|k: int| pos <= k < w && occurs_at(s, marker(), k) {
        let k = choose|k: int| pos <= k < w && occurs_at(s, marker(), k);
        lemma_least_occurrence(s, pos, k);
    }
}

/// The pieces of `s` from `pos` on, between markers (`str::split`).
#[verifier::opaque]
pub open spec fn parts_from(s: Seq<char>, pos: int) -> Seq<Seq<char>>
    decreases s.len() - pos,
{
    if pos < 0 || pos > s.len() {
        seq![]
    } else {
        match next_marker(s, pos) {
            Some(i) => {
                proof {
                    lemma_next_marker(s, pos);
                }
                seq![s.subrange(pos, i)] + parts_from(s, i + 7)
            },
            None => seq![s.subrange(pos, s.len() as int)],
        }
    }
}

/// The directory a piece reports: after `CurrentDir=`, up to a BEL, or
/// else up to an ESC.
pub open spec fn dir_of(part: Seq<char>) -> Option<Seq<char>> {
    if starts_with_seq(part, "CurrentDir="@) {
        let rest = part.skip(11);
        match char_index(rest, '\u{7}') {
            Some(e) => Some(rest.take(e)),
            None => match char_index(rest, '\u{1b}') {
                Some(e) => Some(rest.take(e)),
                None => None,
            },
        }
    } else {
        None
    }
}

pub open spec fn dir_event(part: Seq<char>) -> Option<Seq<char>> {
    dir_of(part)
}

/// The directories reported by pieces.
#[verifier::opaque]
pub open spec fn dirs_of(parts: Seq<Seq<char>>) -> Seq<Seq<char>> {
    parts.filter_map(dir_fn())
}

pub open spec fn dir_fn() -> spec_fn(Seq<char>) -> Option<Seq<char>> {
    |p: Seq<char>| dir_of(p)
}

pub open spec fn opt_dir(o: Option<Seq<char>>) -> Seq<Seq<char>> {
    match o {
        Some(d) => seq![d],
        None => seq![],
    }
}

/// The directories reported in `data`.
pub open spec fn reported_dirs(data: Seq<char>) -> Seq<Seq<char>> {
    if contains_seq(data, "\u{1b}]1337;CurrentDir="@) {
        dirs_of(parts_from(data, 0))
    } else {
        seq![]
    }
}

/// The event reports directory `d`.
pub open spec fn reports_dir(e: PtyEvent, d: Seq<char>) -> bool {
    match e {
        PtyEvent::DirectoryChanged(x) => x@ == d,
        _ => false,
    }
}

pub struct PtyParser;

impl PtyParser {
    /// The events in a chunk of PTY output: each directory it reports, then
    /// the output itself.
    pub fn parse_data(data: &str) -> (v: Vec<PtyEvent>)
        ensures
            v@.len() == reported_dirs(data@).len() + 1,
            forall|i: int| 0 <= i < reported_dirs(data@).len() ==> reports_dir(#[trigger] v@[i], reported_dirs(data@)[i]),
            v@.last() matches PtyEvent::Output(o) && o@ == data@,
    {
        let cs = chars_of(data);
        let mut events: Vec<PtyEvent> = Vec::new();
        let ghost mut dirs: Seq<Seq<char>> = seq![];
        let probe = chars_of("\u{1b}]1337;CurrentDir=");
        if contains(&cs, &probe) {
            let m = chars_of("\u{1b}]1337;");
            proof {
                reveal_strlit("\u{1b}]1337;");
                assert(m@ =~= marker());
            }
            let mut pos: usize = 0;
            loop
                invariant_except_break
                    dirs_of(parts_from(cs@, 0)) == dirs + dirs_of(parts_from(cs@, pos as int)),
                invariant
                    0 <= pos <= cs@.len(),
                    m@ == marker(),
                    events@.len() == dirs.len(),
                    forall|i: int| 0 <= i < dirs.len() ==> reports_dir(#[trigger] events@[i], dirs[i]),
                ensures
                    dirs_of(parts_from(cs@, 0)) == dirs,
                decreases cs@.len() - pos,
            {
                let (end, found) = next_piece(&cs, &m, pos);
                let part = slice_vec(&cs, pos, end);
                let ghost before = dirs;
                proof {
                    lemma_piece(cs@, pos as int, end as int, found);
                    dirs = dirs + opt_dir(dir_of(part@));
                }
                match Self::dir_in(&part) {
                    Some(dir) => {
                        events.push(PtyEvent::DirectoryChanged(dir));
                    },
                    None => {},
                }
                proof {
                    assert forall|i: int| 0 <= i < dirs.len() implies reports_dir(#[trigger] events@[i], dirs[i]) by {
                        if i < before.len() {
                            assert(dirs[i] == before[i]);
                        }
                    }
                }
                if found {
                    pos = end + 7;
                } else {
                    break;
                }
            }
            proof {
                assert(reported_dirs(data@) == dirs);
            }
        } else {
            proof {
                assert(reported_dirs(data@) == dirs);
            }
        }
        events.push(PtyEvent::Output(String::from_str(data)));
        events
    }

    fn dir_in(part: &Vec<char>) -> (r: Option<String>)
        ensures
            match dir_of(part@) {
                Some(d) => r matches Some(x) && x@ == d,
                None => r is None,
            },
    {
        let prefix = chars_of("CurrentDir=");
        proof {
            reveal_strlit("CurrentDir=");
        }
        if !starts_with(part, &prefix) {
            return None;
        }
        let rest = slice_vec(part, 11, part.len());
        assert(rest@ =~= part@.skip(11));
        let end = match find_char(&rest, '\u{7}') {
            Some(e) => Some(e),
            None => find_char(&rest, '\u{1b}'),
        };
        match end {
            Some(e) => {
                let d = slice_vec(&rest, 0, e);
                assert(d@ =~= rest@.take(e as int));
                Some(string_of(&d))
            },
            None => None,
        }
    }
}

/// The end of the piece that starts at `pos`, and whether a marker ends it.
fn next_piece(cs: &Vec<char>, m: &Vec<char>, pos: usize) -> (r: (usize, bool))
    requires
        pos <= cs@.len(),
        m@ == marker(),
    ensures
        r.1 ==> next_marker(cs@, pos as int) == Some(r.0 as int) && r.0 + 7 <= cs@.len(),
        !r.1 ==> next_marker(cs@, pos as int) is None && r.0 == cs@.len(),
        pos <= r.0 <= cs@.len(),
        cs@.len() <= usize::MAX,
{
    let n = cs.len();
    let next = find_from(cs, m, pos);
    proof {
        lemma_next_marker(cs@, pos as int);
    }
    match next {
        Some(i) => {
            proof {
                let j = next_marker(cs@, pos as int)->0;
                if j < i {
                    assert(!occurs_at(cs@, marker(), j));
                }
                if i < j {
                    assert(!occurs_at(cs@, marker(), i as int));
                }
            }
            (i, true)
        },
        None => (cs.len(), false),
    }
}

/// One step of splitting: the piece up to the next marker, then the rest.
pub proof fn lemma_parts_step(s: Seq<char>, pos: int)
    requires
        0 <= pos <= s.len(),
    ensures
        match next_marker(s, pos) {
            Some(i) => parts_from(s, pos) == seq![s.subrange(pos, i)] + parts_from(s, i + 7),
            None => parts_from(s, pos) == seq![s.subrange(pos, s.len() as int)],
        },
{
    reveal(parts_from);
}

/// The directories from `pos` on: the piece's, then the rest's.
pub proof fn lemma_piece(s: Seq<char>, pos: int, end: int, found: bool)
    requires
        0 <= pos <= end <= s.len(),
        found ==> next_marker(s, pos) == Some(end) && end + 7 <= s.len(),
        !found ==> next_marker(s, pos) is None && end == s.len(),
    ensures
        dirs_of(parts_from(s, pos)) == opt_dir(dir_of(s.subrange(pos, end))) + if found {
            dirs_of(parts_from(s, end + 7))
        } else {
            Seq::<Seq<char>>::empty()
        },
{
    lemma_parts_step(s, pos);
    let part = s.subrange(pos, end);
    let rest = if found { parts_from(s, end + 7) } else { Seq::<Seq<char>>::empty() };
    assert(parts_from(s, pos) == seq![part] + rest);
    reveal(dirs_of);
    lemma_filter_map_concat(seq![part], rest, dir_fn());
    assert(seq![part].drop_last() =~= Seq::<Seq<char>>::empty());
    assert(seq![part].last() == part);
    assert(Seq::<Seq<char>>::empty().filter_map(dir_fn()) =~= Seq::<Seq<char>>::empty());
    assert(dirs_of(seq![part]) =~= opt_dir(dir_of(part)));
    if !found {
        assert(rest.filter_map(dir_fn()) =~= Seq::<Seq<char>>::empty());
    }
}

/// `filter_map` distributes over concatenation.
pub proof fn lemma_filter_map_concat(a: Seq<Seq<char>>, b: Seq<Seq<char>>, f: spec_fn(Seq<char>) -> Option<Seq<char>>)
    ensures
        (a + b).filter_map(f) == a.filter_map(f) + b.filter_map(f),
    decreases b.len(),
{
    if b.len() == 0 {
        assert(a + b =~= a);
        assert(a.filter_map(f) + b.filter_map(f) =~= a.filter_map(f));
    } else {
        lemma_filter_map_concat(a, b.drop_last(), f);
        assert((a + b).drop_last() =~= a + b.drop_last());
        assert((a + b).last() == b.last());
    }
}

} // verus!
