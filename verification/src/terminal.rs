//! What the events of a hub's PTY do to the compositor state: output goes
//! through the shell integration and what is left is shown in the hub; an
//! exit is reported there. Reading the PTYs in a loop is the caller's work.
use vstd::prelude::*;
use crate::model::{Sector, StateView, TosState};
use crate::pty::PtyEvent;
use crate::remote::{apply_terminal_delta, delta_applied, has_hub};
use crate::shell_api::{scan_stream, stream_events};
use crate::shell_session::{path_views, pending_view, run, touches_hub, PathEntry, ShellApi};
use crate::text::{push_i64, push_str, string_of};

verus! {

/// The line that reports the end of a hub's shell.
pub open spec fn exit_line(code: i32) -> Seq<char> {
    "\n[PROCESS EXITED WITH CODE "@ + crate::text::dec_int(code as int) + "]"@
}

/// Whether some sector has a hub `hub_id`.
fn hub_exists(sectors: &Vec<Sector>, hub_id: u128) -> (b: bool)
    ensures
        b == has_hub(sectors@, hub_id),
{
    let mut si: usize = 0;
    while si < sectors.len()
        invariant
            0 <= si <= sectors@.len(),
            forall|k: int, j: int| 0 <= k < si && 0 <= j < sectors@[k].hubs@.len() ==> sectors@[k].hubs@[j].id != hub_id,
        decreases sectors@.len() - si,
    {
        let mut hi: usize = 0;
        while hi < sectors[si].hubs.len()
            invariant
                0 <= si < sectors@.len(),
                0 <= hi <= sectors@[si as int].hubs@.len(),
                forall|k: int, j: int| 0 <= k < si && 0 <= j < sectors@[k].hubs@.len() ==> sectors@[k].hubs@[j].id != hub_id,
                forall|j: int| 0 <= j < hi ==> sectors@[si as int].hubs@[j].id != hub_id,
            decreases sectors@[si as int].hubs@.len() - hi,
        {
            if sectors[si].hubs[hi].id == hub_id {
                return true;
            }
            hi = hi + 1;
        }
        assert forall|k: int, j: int| 0 <= k < si + 1 && 0 <= j < sectors@[k].hubs@.len() implies sectors@[k].hubs@[j].id
            != hub_id by {
            if k == si as int {
                assert(j < hi);
            }
        }
        si = si + 1;
    }
    false
}

/// The state `s` with its sectors replaced by `ss`.
pub open spec fn with_sectors(s: StateView, ss: Seq<Sector>) -> StateView {
    StateView { sectors: ss.map_values(|x: Sector| x@), ..s }
}

/// Output of the shell of hub `hub_id` handled: the shell integration runs
/// over it (from `s`, with the pending completions `p`), then what is left,
/// unless empty, is shown in the hub, which keeps its last hundred lines.
pub open spec fn output_handled(
    s0: StateView,
    p0: crate::shell_session::PendingView,
    s1: StateView,
    p1: crate::shell_session::PendingView,
    hub_id: u128,
    data: Seq<char>,
    clean: String,
    entries: Seq<(Seq<char>, bool)>,
) -> bool {
    let r = run(s0, p0, stream_events(data), entries);
    &&& clean@ == scan_stream(data).1
    &&& p1 == r.1
    &&& exists|mid: Seq<Sector>| {
        &&& #[trigger] with_sectors(r.0, mid) == r.0
        &&& if clean@.len() == 0 {
            s1 == r.0
        } else {
            exists|last: Seq<Sector>| {
                &&& delta_applied(mid, last, hub_id, clean, true)
                &&& s1 == #[trigger] with_sectors(r.0, last)
            }
        }
    }
}

/// Applies an event of the PTY of hub `hub_id` to the state; `dir_entries`
/// is the listing of the active hub's directory, from which completion
/// requests in the output are answered. Events of a hub that no sector
/// has are dropped. Output is handled as `output_handled` says, and the
/// text left of it is returned; an exit appends its report to the hub;
/// other events change nothing. Returns the text shown, if any.
pub fn apply_pty_event(
    api: &mut ShellApi,
    state: &mut TosState,
    hub_id: u128,
    event: PtyEvent,
    dir_entries: &Vec<PathEntry>,
) -> (shown: String)
    requires
        event matches PtyEvent::Output(data) ==> ((exists|i: int|
            0 <= i < stream_events(data@).len() && touches_hub(#[trigger] stream_events(data@)[i]))
            ==> old(state)@.wf()),
    ensures
        final(api).parser == old(api).parser,
        !has_hub(old(state).sectors@, hub_id) ==> final(state)@ == old(state)@ && pending_view(
            final(api).pending_completions@,
        ) == pending_view(old(api).pending_completions@) && shown@.len() == 0,
        has_hub(old(state).sectors@, hub_id) ==> match event {
            PtyEvent::Output(data) => output_handled(
                old(state)@,
                pending_view(old(api).pending_completions@),
                final(state)@,
                pending_view(final(api).pending_completions@),
                hub_id,
                data@,
                shown,
                path_views(dir_entries@),
            ),
            PtyEvent::ProcessExited(code) => pending_view(final(api).pending_completions@) == pending_view(
                old(api).pending_completions@,
            ) && shown@ == exit_line(code) && delta_applied(
                old(state).sectors@,
                final(state).sectors@,
                hub_id,
                shown,
                false,
            ) && final(state)@ == with_sectors(old(state)@, final(state).sectors@),
            _ => final(state)@ == old(state)@ && pending_view(final(api).pending_completions@) == pending_view(
                old(api).pending_completions@,
            ) && shown@.len() == 0,
        },
{
    if !hub_exists(&state.sectors, hub_id) {
        return String::new();
    }
    match event {
        PtyEvent::Output(data) => {
            let clean = api.process_output(data.as_str(), state, dir_entries);
            let ghost mid = state.sectors@;
            assert(with_sectors(state@, mid) =~= state@);
            let shown = String::from_str(clean.as_str());
            if crate::text::chars_of(clean.as_str()).len() == 0 {
                proof {
                    assert(clean@.len() == 0);
                }
                return shown;
            }
            let line = String::from_str(clean.as_str());
            let ghost s_mid = state@;
            apply_terminal_delta(&mut state.sectors, hub_id, line, true);
            assert(with_sectors(s_mid, state.sectors@) =~= state@);
            shown
        },
        PtyEvent::ProcessExited(code) => {
            let ghost s0 = state@;
            let mut t: Vec<char> = Vec::new();
            push_str(&mut t, "\n[PROCESS EXITED WITH CODE ");
            push_i64(&mut t, code as i64);
            push_str(&mut t, "]");
            let line = string_of(&t);
            let shown = String::from_str(line.as_str());
            apply_terminal_delta(&mut state.sectors, hub_id, line, false);
            assert(with_sectors(s0, state.sectors@) =~= state@);
            shown
        },
        _ => String::new(),
    }
}

} // verus!
