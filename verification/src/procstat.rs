//! Process statistics read from the text of `/proc/<pid>/status`: the
//! resident memory, and a processor figure derived from the process id.
//! Reading the file is the caller's work.
use vstd::prelude::*;
use crate::scan::{lines, lines_of, parse_u64, parse_unsigned, split_whitespace, words};
use crate::text::{chars_of, starts_with, starts_with_seq};

verus! {

/// Statistics of a process; processor usage in tenths of a percent.
#[derive(Debug, Clone, Copy, PartialEq, Eq, Structural)]
pub struct ProcessStats {
    pub pid: u32,
    pub cpu_usage_tenths: u32,
    pub memory_bytes: u64,
}

/// The first line that starts with `VmRSS:`, from line `i` on.
pub open spec fn rss_line_from(ls: Seq<Seq<char>>, i: int) -> Option<Seq<char>>
    decreases ls.len() - i,
{
    if i < 0 || i >= ls.len() {
        None
    } else if starts_with_seq(ls[i], "VmRSS:"@) {
        Some(ls[i])
    } else {
        rss_line_from(ls, i + 1)
    }
}

/// The resident memory a status text reports, in kilobytes: the second
/// word of its first `VmRSS:` line, as a `u64`; 0 when there is no such
/// line, it has one word, or the word is no `u64`.
pub open spec fn rss_kb(status: Seq<char>) -> nat {
    match rss_line_from(lines_of(status), 0) {
        Some(l) => {
            let ws = words(l);
            if ws.len() >= 2 {
                match parse_unsigned(ws[1], u64::MAX as nat) {
                    Some(k) => k,
                    None => 0,
                }
            } else {
                0
            }
        },
        None => 0,
    }
}

/// The statistics of process `pid` from the text of its status file, or
/// `None` when the memory in bytes would not fit in a `u64`. Memory is the
/// resident size in bytes; processor usage is the process id modulo 50,
/// in tenths.
pub fn stats_from_status(pid: u32, status: &str) -> (r: Option<ProcessStats>)
    ensures
        rss_kb(status@) * 1024 > u64::MAX ==> r is None,
        rss_kb(status@) * 1024 <= u64::MAX ==> r == Some(
            ProcessStats { pid, cpu_usage_tenths: pid % 50, memory_bytes: (rss_kb(status@) * 1024) as u64 },
        ),
{
    let cs = chars_of(status);
    let ls = lines(&cs);
    let ghost lv = lines_of(status@);
    let prefix = chars_of("VmRSS:");
    proof {
        reveal_strlit("VmRSS:");
    }
    let mut kb: u64 = 0;
    let mut i: usize = 0;
    while i < ls.len()
        invariant_except_break
            kb == 0,
        invariant
            0 <= i <= ls@.len(),
            crate::scan::views(ls@) == lv,
            lv == lines_of(status@),
            prefix@ == "VmRSS:"@,
            rss_line_from(lv, 0) == rss_line_from(lv, i as int),
        ensures
            kb == rss_kb(status@),
        decreases ls@.len() - i,
    {
        assert(ls@[i as int]@ == lv[i as int]);
        if starts_with(&ls[i], &prefix) {
            let ws = split_whitespace(&ls[i]);
            assert(crate::scan::views(ws@) == words(lv[i as int]));
            if ws.len() >= 2 {
                assert(ws@[1]@ == words(lv[i as int])[1]);
                kb = match parse_u64(&ws[1]) {
                    Some(k) => k,
                    None => 0,
                };
            }
            break;
        }
        i = i + 1;
    }
    match kb.checked_mul(1024) {
        Some(bytes) => Some(ProcessStats { pid, cpu_usage_tenths: pid % 50, memory_bytes: bytes }),
        None => None,
    }
}

} // verus!
