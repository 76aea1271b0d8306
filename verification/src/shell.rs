//! Shell providers and their registry. Spawning a shell on a terminal is
//! left to the caller; here stand what each shell is called, where it lives,
//! its integration script and the arguments it is started with.
use vstd::prelude::*;
use crate::shell_api::{OscParser, ShellApiConfig, FISH_INTEGRATION};
use crate::text::{chars_eq, chars_of, push_str, string_of};

verus! {

/// A shell that the terminal can run.
pub trait ShellProvider {
    /// The shell's name, by which the registry finds it.
    spec fn name_view(&self) -> Seq<char>;

    /// Name of the shell
    fn name(&self) -> (r: &str)
        ensures
            r@ == self.name_view(),
    ;

    /// Default executable path
    fn default_path(&self) -> &str;

    /// The integration script for this shell
    fn get_integration_script(&self) -> String;
}

/// The Fish shell.
#[derive(Debug, Default, Clone, Copy)]
pub struct FishShellProvider;

impl FishShellProvider {
    pub fn new() -> (p: FishShellProvider) {
        FishShellProvider
    }

    /// The arguments that start Fish sourcing the integration script at
    /// `script_path`.
    pub fn init_args(&self, script_path: &str) -> (v: Vec<String>)
        ensures
            v@.len() == 2,
            v@[0]@ == "-C"@,
            v@[1]@ == "source "@ + script_path@,
    {
        let mut cmd: Vec<char> = Vec::new();
        push_str(&mut cmd, "source ");
        push_str(&mut cmd, script_path);
        let mut v: Vec<String> = Vec::new();
        v.push(String::from_str("-C"));
        v.push(string_of(&cmd));
        v
    }
}

impl ShellProvider for FishShellProvider {
    open spec fn name_view(&self) -> Seq<char> {
        "fish"@
    }

    fn name(&self) -> (r: &str) {
        proof {
            reveal_strlit("fish");
        }
        "fish"
    }

    fn default_path(&self) -> (r: &str)
        ensures
            r@ == "/usr/bin/fish"@,
    {
        "/usr/bin/fish"
    }

    /// The script that the shell integration generates for Fish.
    fn get_integration_script(&self) -> (s: String)
        ensures
            s@ == FISH_INTEGRATION@,
    {
        let parser = OscParser::with_config(ShellApiConfig::default());
        parser.generate_fish_integration()
    }
}

/// SSH to a remote host; the integration runs on the remote side.
#[derive(Debug, Default, Clone, Copy)]
pub struct SshShellProvider;

/// Where SSH connects: `user@host`, or the host alone.
pub open spec fn ssh_target_of(host: Seq<char>, username: Option<Seq<char>>) -> Seq<char> {
    match username {
        Some(u) => u + "@"@ + host,
        None => host,
    }
}

impl SshShellProvider {
    pub fn new() -> (p: SshShellProvider) {
        SshShellProvider
    }

    /// The connection target for a host and an optional user.
    pub fn ssh_target(&self, host: &str, username: Option<&str>) -> (s: String)
        ensures
            s@ == ssh_target_of(host@, match username { Some(u) => Some(u@), None => None }),
    {
        let mut s: Vec<char> = Vec::new();
        match username {
            Some(user) => {
                push_str(&mut s, user);
                push_str(&mut s, "@");
                push_str(&mut s, host);
            },
            None => {
                push_str(&mut s, host);
            },
        }
        string_of(&s)
    }

    /// The arguments of an interactive SSH session (`-t` forces a terminal).
    pub fn spawn_args(&self, host: &str, username: Option<&str>) -> (v: Vec<String>)
        ensures
            v@.len() == 2,
            v@[0]@ == "-t"@,
            v@[1]@ == ssh_target_of(host@, match username { Some(u) => Some(u@), None => None }),
    {
        let mut v: Vec<String> = Vec::new();
        v.push(String::from_str("-t"));
        v.push(self.ssh_target(host, username));
        v
    }
}

impl ShellProvider for SshShellProvider {
    open spec fn name_view(&self) -> Seq<char> {
        "ssh"@
    }

    fn name(&self) -> (r: &str) {
        proof {
            reveal_strlit("ssh");
        }
        "ssh"
    }

    fn default_path(&self) -> (r: &str)
        ensures
            r@ == "/usr/bin/ssh"@,
    {
        "/usr/bin/ssh"
    }

    /// SSH has no local integration script.
    fn get_integration_script(&self) -> (s: String)
        ensures
            s@ == Seq::<char>::empty(),
    {
        String::new()
    }
}

/// The shells that come with the terminal.
#[derive(Debug, Clone, Copy)]
pub enum StandardShell {
    Fish(FishShellProvider),
    Ssh(SshShellProvider),
}

impl ShellProvider for StandardShell {
    open spec fn name_view(&self) -> Seq<char> {
        match self {
            StandardShell::Fish(p) => p.name_view(),
            StandardShell::Ssh(p) => p.name_view(),
        }
    }

    fn name(&self) -> (r: &str) {
        match self {
            StandardShell::Fish(p) => p.name(),
            StandardShell::Ssh(p) => p.name(),
        }
    }

    fn default_path(&self) -> (r: &str) {
        match self {
            StandardShell::Fish(p) => p.default_path(),
            StandardShell::Ssh(p) => p.default_path(),
        }
    }

    fn get_integration_script(&self) -> (s: String) {
        match self {
            StandardShell::Fish(p) => p.get_integration_script(),
            StandardShell::Ssh(p) => p.get_integration_script(),
        }
    }
}

/// The providers by name; a later registration under a name replaces an
/// earlier one.
pub open spec fn providers_map<P: ShellProvider>(s: Seq<P>) -> Map<Seq<char>, P>
    decreases s.len(),
{
    if s.len() == 0 {
        Map::empty()
    } else {
        providers_map(s.drop_last()).insert(s.last().name_view(), s.last())
    }
}

/// No provider after index `i` is called `k`.
pub open spec fn last_named<P: ShellProvider>(s: Seq<P>, i: int, k: Seq<char>) -> bool {
    forall|j: int| i < j < s.len() ==> #[trigger] s[j].name_view() != k
}

/// Where no provider after `i` is called `k`, the map has at `k` what the
/// sequence has at `i`, or nothing if none is called `k`.
pub proof fn lemma_lookup<P: ShellProvider>(s: Seq<P>, i: int, k: Seq<char>)
    requires
        -1 <= i < s.len(),
        last_named(s, i, k),
        i >= 0 ==> s[i].name_view() == k,
    ensures
        i >= 0 ==> providers_map(s).dom().contains(k) && providers_map(s)[k] == s[i],
        i < 0 ==> !providers_map(s).dom().contains(k),
    decreases s.len(),
{
    if s.len() > 0 {
        if i == s.len() - 1 {
        } else {
            assert(s.last().name_view() != k) by {
                assert(s[s.len() - 1].name_view() != k);
            }
            let t = s.drop_last();
            assert forall|j: int| i < j < t.len() implies #[trigger] t[j].name_view() != k by {
                assert(t[j] == s[j]);
            }
            lemma_lookup(t, i, k);
        }
    }
}

/// Replacing the provider at `i`, the last called `k`, by one of the same
/// name puts the new one at `k`.
pub proof fn lemma_replace<P: ShellProvider>(s: Seq<P>, i: int, p: P)
    requires
        0 <= i < s.len(),
        s[i].name_view() == p.name_view(),
        last_named(s, i, p.name_view()),
    ensures
        providers_map(s.update(i, p)) == providers_map(s).insert(p.name_view(), p),
    decreases s.len(),
{
    let u = s.update(i, p);
    if i == s.len() - 1 {
        assert(u.drop_last() =~= s.drop_last());
        assert(providers_map(u) =~= providers_map(s).insert(p.name_view(), p));
    } else {
        let t = s.drop_last();
        assert(s.last().name_view() != p.name_view()) by {
            assert(s[s.len() - 1].name_view() != p.name_view());
        }
        assert forall|j: int| i < j < t.len() implies #[trigger] t[j].name_view() != p.name_view() by {
            assert(t[j] == s[j]);
        }
        lemma_replace(t, i, p);
        assert(u.drop_last() =~= t.update(i, p));
        assert(u.last() == s.last());
        assert(providers_map(u) =~= providers_map(s).insert(p.name_view(), p));
    }
}

/// Registry of shell providers, by name.
#[derive(Debug)]
pub struct ShellRegistry<P: ShellProvider> {
    providers: Vec<P>,
}

impl<P: ShellProvider> View for ShellRegistry<P> {
    type V = Map<Seq<char>, P>;

    closed spec fn view(&self) -> Map<Seq<char>, P> {
        providers_map(self.providers@)
    }
}

impl<P: ShellProvider> Default for ShellRegistry<P> {
    /// An empty registry.
    fn default() -> (r: ShellRegistry<P>)
        ensures
            r@ == Map::<Seq<char>, P>::empty(),
    {
        ShellRegistry { providers: Vec::new() }
    }
}

impl ShellRegistry<StandardShell> {
    /// A registry that holds the Fish shell.
    pub fn new() -> (r: ShellRegistry<StandardShell>)
        ensures
            r@ == Map::<Seq<char>, StandardShell>::empty().insert(
                "fish"@,
                StandardShell::Fish(FishShellProvider),
            ),
    {
        let mut registry: ShellRegistry<StandardShell> = ShellRegistry::default();
        let fish = StandardShell::Fish(FishShellProvider::new());
        registry.register(fish);
        registry
    }
}

impl<P: ShellProvider> ShellRegistry<P> {
    /// The index of the last provider called `name`, if any.
    fn find_last(&self, name: &str) -> (r: Option<usize>)
        ensures
            match r {
                Some(i) => i < self.providers@.len() && self.providers@[i as int].name_view() == name@
                    && last_named(self.providers@, i as int, name@),
                None => last_named(self.providers@, -1, name@),
            },
    {
        let wanted = chars_of(name);
        let mut i: usize = self.providers.len();
        while i > 0
            invariant
                i <= self.providers@.len(),
                wanted@ == name@,
                last_named(self.providers@, i as int - 1, name@),
            decreases i,
        {
            let candidate = chars_of(self.providers[i - 1].name());
            if chars_eq(&candidate, &wanted) {
                return Some(i - 1);
            }
            i = i - 1;
        }
        None
    }

    /// Registers a provider under its name, replacing any of that name.
    pub fn register(&mut self, provider: P)
        ensures
            final(self)@ == old(self)@.insert(provider.name_view(), provider),
    {
        let name = provider.name();
        match self.find_last(name) {
            Some(i) => {
                proof {
                    lemma_replace(self.providers@, i as int, provider);
                }
                self.providers.set(i, provider);
            },
            None => {
                assert(self.providers@.push(provider).drop_last() =~= self.providers@);
                self.providers.push(provider);
            },
        }
    }

    /// The provider called `name`, if one is registered.
    pub fn get(&self, name: &str) -> (r: Option<&P>)
        ensures
            match r {
                Some(p) => self@.dom().contains(name@) && *p == self@[name@],
                None => !self@.dom().contains(name@),
            },
    {
        match self.find_last(name) {
            Some(i) => {
                proof {
                    lemma_lookup(self.providers@, i as int, name@);
                }
                Some(&self.providers[i])
            },
            None => {
                proof {
                    lemma_lookup(self.providers@, -1, name@);
                }
                None
            },
        }
    }
}

} // verus!
