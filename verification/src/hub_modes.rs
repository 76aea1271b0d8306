//! The hub's search and assistant views: the results of a search across
//! the system's domains, and the conversation with the assistant.
use vstd::prelude::*;
use crate::ai::AiMessage;
use crate::search::{SearchDomain, SearchResult};
use crate::text::{chars_of, dec, eq_str, push_str, push_u64, to_uppercase, uppercased};

verus! {

pub const AI_MSG_0: &'static str = "<div class=\"ai-msg ";
pub const AI_MSG_1: &'static str = "\">\n                            <div class=\"ai-role\">";
pub const AI_MSG_2: &'static str = "</div>\n                            <div class=\"ai-content\">";
pub const AI_MSG_3: &'static str = "</div>\n                        </div>";
pub const AI_STATUS: &'static str = "<div class=\"ai-status\">PROCESSING... <span class=\"scanning\"></span></div>";
pub const AI_VIEW_0: &'static str = "<div class=\"ai-view\">\n                        <div class=\"ai-history\">\n                            ";
pub const AI_VIEW_1: &'static str = "\n                            ";
pub const AI_VIEW_2: &'static str = "\n                        </div>\n                    </div>";
pub const PRIORITY_CHIP: &'static str = "<div class=\"priority-chip\"></div>";
pub const SEARCH_RESULT_0: &'static str = "<div class=\"search-result staging-item ";
pub const SEARCH_RESULT_1: &'static str = "\" onclick=\"window.ipc.postMessage('search_select:";
pub const SEARCH_RESULT_2: &'static str = "')\">\n                            <div class=\"priority-indicator\">\n                                ";
pub const SEARCH_RESULT_3: &'static str = "\n                            </div>\n                            <div class=\"search-meta\">\n                                <span class=\"search-domain\">";
pub const SEARCH_RESULT_4: &'static str = "</span>\n                                <span class=\"search-relevance\">";
pub const SEARCH_RESULT_5: &'static str = "%</span>\n                            </div>\n                            <div class=\"search-title\">";
pub const SEARCH_RESULT_6: &'static str = "</div>\n                            <div class=\"search-desc\">";
pub const SEARCH_RESULT_7: &'static str = "</div>\n                        </div>";
pub const SEARCH_EMPTY: &'static str = "<div class=\"search-empty\">ENTER QUERY TO SEARCH DOMAINS...</div>";
pub const SEARCH_VIEW_0: &'static str = "<div class=\"search-view\">\n                        <div class=\"search-grid\">\n                            ";
pub const SEARCH_VIEW_1: &'static str = "\n                        </div>\n                    </div>";
pub const AI_SUBMIT: &'static str = "<div class=\"ai-submit-btn\" onclick=\"window.ipc.postMessage('semantic_event:AiSubmit')\">↑</div>";

/// The class of a message by its role.
pub open spec fn role_class(role: Seq<char>) -> Seq<char> {
    if role == "assistant"@ {
        "ai-msg-assistant"@
    } else if role == "user"@ {
        "ai-msg-user"@
    } else {
        "ai-msg-system"@
    }
}

/// A message of the conversation: its role in capitals and its content.
pub open spec fn ai_message(m: AiMessage) -> Seq<char> {
    AI_MSG_0@ + role_class(m.role@) + AI_MSG_1@ + uppercased(m.role@) + AI_MSG_2@ + m.content@ + AI_MSG_3@
}

/// The first `n` messages.
pub open spec fn ai_messages(ms: Seq<AiMessage>, n: nat) -> Seq<char>
    decreases n,
{
    if n == 0 {
        Seq::empty()
    } else {
        ai_messages(ms, (n - 1) as nat) + ai_message(ms[n - 1])
    }
}

/// The assistant view: the conversation, and a notice while an answer is
/// being generated.
pub open spec fn ai_view(history: Seq<AiMessage>, generating: bool) -> Seq<char> {
    AI_VIEW_0@ + ai_messages(history, history.len()) + AI_VIEW_1@ + (if generating {
        AI_STATUS@
    } else {
        Seq::empty()
    }) + AI_VIEW_2@
}

/// The class of a result's priority: low to 2, medium to 6, high above.
pub open spec fn result_priority_class(p: u8) -> Seq<char> {
    if p <= 2 {
        "priority-low"@
    } else if p <= 6 {
        "priority-med"@
    } else {
        "priority-high"@
    }
}

/// `n` priority chips.
pub open spec fn chips(n: nat) -> Seq<char>
    decreases n,
{
    if n == 0 {
        Seq::empty()
    } else {
        chips((n - 1) as nat) + PRIORITY_CHIP@
    }
}

/// The name of a domain, as `{:?}` writes a variant without fields.
pub open spec fn domain_name(d: SearchDomain) -> Seq<char> {
    match d {
        SearchDomain::Surfaces => "Surfaces"@,
        SearchDomain::Files => "Files"@,
        SearchDomain::Logs => "Logs"@,
        SearchDomain::Commands => "Commands"@,
        SearchDomain::Settings => "Settings"@,
        SearchDomain::Sectors => "Sectors"@,
        SearchDomain::Help => "Help"@,
        SearchDomain::Contacts => "Contacts"@,
        SearchDomain::Modules => "Modules"@,
        SearchDomain::Notifications => "Notifications"@,
        SearchDomain::Web => "Web"@,
    }
}

/// A search result: its priority as half as many chips (rounded up), its
/// domain, its relevance in percent (rounded down), title and description.
pub open spec fn search_result(r: SearchResult) -> Seq<char> {
    SEARCH_RESULT_0@ + result_priority_class(r.priority_score) + SEARCH_RESULT_1@ + r.id@ + SEARCH_RESULT_2@
        + chips(((r.priority_score as nat) + 1) / 2) + SEARCH_RESULT_3@ + domain_name(r.domain) + SEARCH_RESULT_4@
        + dec((r.relevance_milli / 10) as nat) + SEARCH_RESULT_5@ + r.title@ + SEARCH_RESULT_6@ + r.description@
        + SEARCH_RESULT_7@
}

/// The first `n` results.
pub open spec fn search_results(rs: Seq<SearchResult>, n: nat) -> Seq<char>
    decreases n,
{
    if n == 0 {
        Seq::empty()
    } else {
        search_results(rs, (n - 1) as nat) + search_result(rs[n - 1])
    }
}

/// The search view: the results, or an invitation to search.
pub open spec fn search_view(results: Seq<SearchResult>) -> Seq<char> {
    SEARCH_VIEW_0@ + (if results.len() == 0 {
        SEARCH_EMPTY@
    } else {
        search_results(results, results.len())
    }) + SEARCH_VIEW_1@
}

fn role_class_str(role: &String) -> (s: &'static str)
    ensures
        s@ == role_class(role@),
{
    let r = chars_of(role.as_str());
    if eq_str(&r, "assistant") {
        "ai-msg-assistant"
    } else if eq_str(&r, "user") {
        "ai-msg-user"
    } else {
        "ai-msg-system"
    }
}

fn push_ai_message(out: &mut Vec<char>, m: &AiMessage)
    ensures
        final(out)@ == old(out)@ + ai_message(*m),
{
    let ghost start = out@;
    push_str(out, AI_MSG_0);
    push_str(out, role_class_str(&m.role));
    push_str(out, AI_MSG_1);
    let up = to_uppercase(m.role.as_str());
    push_str(out, up.as_str());
    push_str(out, AI_MSG_2);
    push_str(out, m.content.as_str());
    push_str(out, AI_MSG_3);
    assert(out@ =~= start + ai_message(*m));
}

/// Draws the assistant view.
pub fn push_ai_view(out: &mut Vec<char>, history: &Vec<AiMessage>, generating: bool)
    ensures
        final(out)@ == old(out)@ + ai_view(history@, generating),
{
    let ghost start = out@;
    push_str(out, AI_VIEW_0);
    let ghost mid = out@;
    let mut k: usize = 0;
    while k < history.len()
        invariant
            0 <= k <= history@.len(),
            out@ == mid + ai_messages(history@, k as nat),
        decreases history@.len() - k,
    {
        push_ai_message(out, &history[k]);
        k = k + 1;
        assert(out@ =~= mid + ai_messages(history@, k as nat));
    }
    push_str(out, AI_VIEW_1);
    if generating {
        push_str(out, AI_STATUS);
    }
    push_str(out, AI_VIEW_2);
    assert(out@ =~= start + ai_view(history@, generating));
}

fn result_priority_str(p: u8) -> (s: &'static str)
    ensures
        s@ == result_priority_class(p),
{
    if p <= 2 {
        "priority-low"
    } else if p <= 6 {
        "priority-med"
    } else {
        "priority-high"
    }
}

fn domain_str(d: SearchDomain) -> (s: &'static str)
    ensures
        s@ == domain_name(d),
{
    match d {
        SearchDomain::Surfaces => "Surfaces",
        SearchDomain::Files => "Files",
        SearchDomain::Logs => "Logs",
        SearchDomain::Commands => "Commands",
        SearchDomain::Settings => "Settings",
        SearchDomain::Sectors => "Sectors",
        SearchDomain::Help => "Help",
        SearchDomain::Contacts => "Contacts",
        SearchDomain::Modules => "Modules",
        SearchDomain::Notifications => "Notifications",
        SearchDomain::Web => "Web",
    }
}

fn push_search_result(out: &mut Vec<char>, r: &SearchResult)
    ensures
        final(out)@ == old(out)@ + search_result(*r),
{
    let ghost start = out@;
    push_str(out, SEARCH_RESULT_0);
    push_str(out, result_priority_str(r.priority_score));
    push_str(out, SEARCH_RESULT_1);
    push_str(out, r.id.as_str());
    push_str(out, SEARCH_RESULT_2);
    let ghost before = out@;
    let n: u32 = (r.priority_score as u32 + 1) / 2;
    let mut k: u32 = 0;
    while k < n
        invariant
            0 <= k <= n,
            out@ == before + chips(k as nat),
        decreases n - k,
    {
        push_str(out, PRIORITY_CHIP);
        k = k + 1;
        assert(out@ =~= before + chips(k as nat));
    }
    push_str(out, SEARCH_RESULT_3);
    push_str(out, domain_str(r.domain));
    push_str(out, SEARCH_RESULT_4);
    push_u64(out, (r.relevance_milli / 10) as u64);
    push_str(out, SEARCH_RESULT_5);
    push_str(out, r.title.as_str());
    push_str(out, SEARCH_RESULT_6);
    push_str(out, r.description.as_str());
    push_str(out, SEARCH_RESULT_7);
    assert(out@ =~= start + search_result(*r));
}

/// Draws the search view.
pub fn push_search_view(out: &mut Vec<char>, results: &Vec<SearchResult>)
    ensures
        final(out)@ == old(out)@ + search_view(results@),
{
    let ghost start = out@;
    push_str(out, SEARCH_VIEW_0);
    if results.len() == 0 {
        push_str(out, SEARCH_EMPTY);
    } else {
        let ghost mid = out@;
        let mut k: usize = 0;
        while k < results.len()
            invariant
                0 <= k <= results@.len(),
                out@ == mid + search_results(results@, k as nat),
            decreases results@.len() - k,
        {
            push_search_result(out, &results[k]);
            k = k + 1;
            assert(out@ =~= mid + search_results(results@, k as nat));
        }
    }
    push_str(out, SEARCH_VIEW_1);
    assert(out@ =~= start + search_view(results@));
}

} // verus!
