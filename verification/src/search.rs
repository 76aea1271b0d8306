//! Unified search across surfaces, files, logs, commands and the web.
use vstd::prelude::*;
use crate::text::{push_str, string_of};

verus! {

/// Search domains.
#[derive(Debug, Clone, Copy, PartialEq, Eq)]
pub enum SearchDomain {
    Surfaces,
    Files,
    Logs,
    Commands,
    Settings,
    Sectors,
    Help,
    Contacts,
    Modules,
    Notifications,
    Web,
}

/// Where a search result leads.
#[derive(Debug, Clone, PartialEq, Eq)]
pub enum SearchTarget {
    Viewport(u128),
    Sector(u128),
    FilePath(String),
    Command(String),
    Url(String),
    Module(String),
}

/// A search result; relevance is in thousandths.
#[derive(Debug, Clone, PartialEq, Eq)]
pub struct SearchResult {
    pub id: String,
    pub title: String,
    pub description: String,
    pub domain: SearchDomain,
    pub relevance_milli: u32,
    pub priority_score: u8,
    pub target_location: SearchTarget,
}

/// The search manager.
#[derive(Debug)]
pub struct SearchManager {
    pub current_query: String,
    pub results: Vec<SearchResult>,
    pub is_searching: bool,
}

impl SearchManager {
    /// An idle manager.
    pub fn new() -> (m: SearchManager)
        ensures
            m.current_query@.len() == 0,
            m.results@.len() == 0,
            !m.is_searching,
    {
        SearchManager { current_query: String::new(), results: Vec::new(), is_searching: false }
    }

    /// Runs a search: for now a file match and a web search for the query.
    pub fn execute_search(&mut self, query: &str)
        ensures
            final(self).current_query@ == query@,
            final(self).is_searching,
            final(self).results@.len() == 2,
            final(self).results@[0].title@ == "Match for '"@ + query@ + "' in Files"@,
            final(self).results@[0].domain == SearchDomain::Files,
            final(self).results@[0].relevance_milli == 950,
            final(self).results@[1].title@ == "Search Google for '"@ + query@ + "'"@,
            final(self).results@[1].domain == SearchDomain::Web,
            final(self).results@[1].target_location matches SearchTarget::Url(u) && u@
                == "https://google.com/search?q="@ + query@,
    {
        self.current_query = String::from_str(query);
        self.is_searching = true;
        let mut t1: Vec<char> = Vec::new();
        push_str(&mut t1, "Match for '");
        push_str(&mut t1, query);
        push_str(&mut t1, "' in Files");
        let mut t2: Vec<char> = Vec::new();
        push_str(&mut t2, "Search Google for '");
        push_str(&mut t2, query);
        push_str(&mut t2, "'");
        let mut u: Vec<char> = Vec::new();
        push_str(&mut u, "https://google.com/search?q=");
        push_str(&mut u, query);
        let mut results: Vec<SearchResult> = Vec::new();
        results.push(SearchResult {
            id: String::from_str("test-1"),
            title: string_of(&t1),
            description: String::from_str("/home/user/tos-config.json"),
            domain: SearchDomain::Files,
            relevance_milli: 950,
            priority_score: 2,
            target_location: SearchTarget::FilePath(String::from_str("/home/user/tos-config.json")),
        });
        results.push(SearchResult {
            id: String::from_str("web-1"),
            title: string_of(&t2),
            description: String::from_str("External Provider"),
            domain: SearchDomain::Web,
            relevance_milli: 500,
            priority_score: 0,
            target_location: SearchTarget::Url(string_of(&u)),
        });
        assert(t1@ =~= "Match for '"@ + query@ + "' in Files"@);
        assert(t2@ =~= "Search Google for '"@ + query@ + "'"@);
        assert(u@ =~= "https://google.com/search?q="@ + query@);
        self.results = results;
    }

    /// Clears the query and results.
    pub fn clear(&mut self)
        ensures
            final(self).current_query@.len() == 0,
            final(self).results@.len() == 0,
            !final(self).is_searching,
    {
        self.current_query = String::new();
        self.results = Vec::new();
        self.is_searching = false;
    }
}

} // verus!
