//! Configuration: global settings and the table of named sessions.
use vstd::prelude::*;
use crate::text::{concat2, same_text};

verus! {

/// Global settings.
#[derive(Debug, Clone)]
pub struct Settings {
    pub default_session: String,
    pub command_timeout: u32,
    pub reconnect_attempts: u32,
    pub reconnect_backoff_base: u32,
    pub log_level: String,
    pub state_file: String,
}

/// How one named session is configured.
#[derive(Debug, Clone)]
pub struct Session {
    pub session_type: String,
    pub shell: Option<String>,
    pub host: Option<String>,
    pub user: Option<String>,
    pub port: Option<u16>,
    pub identity_file: Option<String>,
    pub jump_host: Option<String>,
    pub startup_commands: Vec<String>,
}

/// The name of the session used when nothing else is chosen.
pub fn default_session() -> (r: String)
    ensures
        r@ == "local"@,
{
    String::from_str("local")
}

/// Seconds a command is nominally allowed.
pub fn default_command_timeout() -> (r: u32)
    ensures
        r == 300,
{
    300
}

/// How often a dropped connection is retried.
pub fn default_reconnect_attempts() -> (r: u32)
    ensures
        r == 5,
{
    5
}

/// The base of the exponential backoff between retries.
pub fn default_reconnect_backoff() -> (r: u32)
    ensures
        r == 2,
{
    2
}

/// The log level used when none is configured.
pub fn default_log_level() -> (r: String)
    ensures
        r@ == "info"@,
{
    String::from_str("info")
}

/// Relies on `dirs::home_dir`: the current user's home directory, if one is known.
#[verifier::external_body]
pub(crate) fn home_dir() -> (r: Option<String>) {
    dirs::home_dir().map(|p| p.to_string_lossy().to_string())
}

/// The state file under the user's data directory: `.local/share/thop/state.json`
/// under the home directory, or under `.` when there is none.
pub fn default_state_file() -> (r: String)
    ensures
        exists|base: Seq<char>| r@ == base + "/.local/share/thop/state.json"@,
{
    match home_dir() {
        Some(h) => concat2(h.as_str(), "/.local/share/thop/state.json"),
        None => {
            let r = concat2(".", "/.local/share/thop/state.json");
            r
        },
    }
}

impl Default for Settings {
    fn default() -> (r: Settings)
        ensures
            r.default_session@ == "local"@,
            r.command_timeout == 300,
            r.reconnect_attempts == 5,
            r.reconnect_backoff_base == 2,
            r.log_level@ == "info"@,
    {
        Settings {
            default_session: default_session(),
            command_timeout: default_command_timeout(),
            reconnect_attempts: default_reconnect_attempts(),
            reconnect_backoff_base: default_reconnect_backoff(),
            log_level: default_log_level(),
            state_file: default_state_file(),
        }
    }
}

impl Session {
    /// A local session with the given shell, or the default shell when `None`.
    pub fn local(shell: Option<String>) -> (r: Session)
        ensures
            r.session_type@ == "local"@,
            r.shell == shell,
            r.host is None,
            r.user is None,
            r.port is None,
            r.identity_file is None,
            r.jump_host is None,
            r.startup_commands@.len() == 0,
    {
        Session {
            session_type: String::from_str("local"),
            shell,
            host: None,
            user: None,
            port: None,
            identity_file: None,
            jump_host: None,
            startup_commands: Vec::new(),
        }
    }
}

/// Named session configurations; no two entries share a name.
#[derive(Debug, Clone)]
pub struct SessionTable {
    entries: Vec<(String, Session)>,
}

/// The names of a sequence of entries.
pub open spec fn entry_names(entries: Seq<(String, Session)>) -> Seq<Seq<char>> {
    entries.map_values(|e: (String, Session)| e.0@)
}

impl SessionTable {
    /// The entries, in insertion order.
    pub closed spec fn entries(&self) -> Seq<(String, Session)> {
        self.entries@
    }

    /// The configured names, in insertion order.
    pub open spec fn names(&self) -> Seq<Seq<char>> {
        entry_names(self.entries())
    }

    /// No name occurs twice.
    pub open spec fn wf(&self) -> bool {
        self.names().no_duplicates()
    }

    /// An empty table.
    pub fn new() -> (r: SessionTable)
        ensures
            r.entries().len() == 0,
            r.wf(),
    {
        let r = SessionTable { entries: Vec::new() };
        assert(r.names() =~= Seq::<Seq<char>>::empty());
        r
    }

    /// The position of `name`, if configured.
    pub fn find(&self, name: &str) -> (r: Option<usize>)
        ensures
            match r {
                Some(i) => i < self.entries().len() && self.entries()[i as int].0@ == name@,
                None => !self.names().contains(name@),
            },
    {
        let mut i: usize = 0;
        while i < self.entries.len()
            invariant
                i <= self.entries@.len(),
                forall|j: int| 0 <= j < i ==> self.entries@[j].0@ != name@,
            decreases self.entries@.len() - i,
        {
            if same_text(self.entries[i].0.as_str(), name) {
                return Some(i);
            }
            i = i + 1;
        }
        assert forall|j: int| 0 <= j < self.names().len() implies self.names()[j] != name@ by {
            assert(self.names()[j] == self.entries@[j].0@);
        }
        None
    }

    /// Whether `name` is configured.
    pub fn contains_key(&self, name: &str) -> (r: bool)
        ensures
            r == self.names().contains(name@),
    {
        match self.find(name) {
            Some(i) => {
                assert(self.names()[i as int] == name@);
                true
            },
            None => false,
        }
    }

    /// The configuration of `name`, if configured.
    pub fn get(&self, name: &str) -> (r: Option<&Session>)
        ensures
            r is Some <==> self.names().contains(name@),
            r matches Some(s) ==> exists|i: int|
                0 <= i < self.entries().len() && self.entries()[i].0@ == name@ && *s
                    == #[trigger] self.entries()[i].1,
    {
        match self.find(name) {
            Some(i) => {
                assert(self.names()[i as int] == name@);
                Some(&self.entries[i].1)
            },
            None => None,
        }
    }

    /// Adds `name` with `session`, replacing an entry of the same name.
    pub fn insert(&mut self, name: &str, session: Session)
        requires
            old(self).wf(),
        ensures
            final(self).wf(),
            final(self).names().to_set() == old(self).names().to_set().insert(name@),
            exists|i: int|
                0 <= i < final(self).entries().len() && final(self).entries()[i].0@ == name@
                    && #[trigger] final(self).entries()[i].1 == session,
    {
        match self.find(name) {
            Some(i) => {
                let ghost before = self.names();
                self.entries.set(i, (String::from_str(name), session));
                assert(self.names() =~= before);
                assert(before[i as int] == name@);
                assert(before.to_set().insert(name@) =~= before.to_set()) by {
                    assert(before.to_set().contains(name@));
                }
                assert(self.entries()[i as int].1 == session);
            },
            None => {
                let ghost before = self.names();
                self.entries.push((String::from_str(name), session));
                assert(self.names() =~= before.push(name@));
                assert(self.names().no_duplicates()) by {
                    assert forall|a: int, b: int|
                        0 <= a < self.names().len() && 0 <= b < self.names().len() && a != b
                        implies self.names()[a] != self.names()[b] by {
                        if a == before.len() as int {
                            assert(!before.contains(name@));
                            assert(before[b] == self.names()[b]);
                        } else if b == before.len() as int {
                            assert(!before.contains(name@));
                            assert(before[a] == self.names()[a]);
                        }
                    }
                }
                assert(self.names().to_set() =~= before.to_set().insert(name@)) by {
                    assert forall|x| self.names().to_set().contains(x) implies before.to_set().insert(name@).contains(x) by {
                        let k = choose|k: int| 0 <= k < self.names().len() && self.names()[k] == x;
                        if k < before.len() {
                            assert(before[k] == x);
                        }
                    }
                    assert forall|x| before.to_set().insert(name@).contains(x) implies self.names().to_set().contains(x) by {
                        if x == name@ {
                            assert(self.names()[before.len() as int] == x);
                        } else {
                            let k = choose|k: int| 0 <= k < before.len() && before[k] == x;
                            assert(self.names()[k] == x);
                        }
                    }
                }
                let ghost last = (self.entries@.len() - 1) as int;
                assert(self.entries()[last].1 == session);
            },
        }
    }

    /// The configured names, in insertion order.
    pub fn keys(&self) -> (r: Vec<&str>)
        ensures
            r@.len() == self.names().len(),
            forall|i: int| 0 <= i < r@.len() ==> (#[trigger] r@[i])@ == self.names()[i],
    {
        let mut r: Vec<&str> = Vec::new();
        let mut i: usize = 0;
        while i < self.entries.len()
            invariant
                i <= self.entries@.len(),
                r@.len() == i,
                forall|j: int| 0 <= j < i ==> (#[trigger] r@[j])@ == self.names()[j],
            decreases self.entries@.len() - i,
        {
            r.push(self.entries[i].0.as_str());
            i = i + 1;
        }
        r
    }

    /// The entries, in insertion order.
    pub fn iter_entries(&self) -> (r: &Vec<(String, Session)>)
        ensures
            r@ == self.entries(),
    {
        &self.entries
    }
}

/// The whole configuration.
#[derive(Debug, Clone)]
pub struct Config {
    pub settings: Settings,
    pub sessions: SessionTable,
}

impl Default for Config {
    fn default() -> (r: Config)
        ensures
            r.settings.default_session@ == "local"@,
            r.settings.command_timeout == 300,
            r.sessions.wf(),
            r.sessions.names() == seq!["local"@],
            r.sessions.entries()[0].1.session_type@ == "local"@,
    {
        let mut sessions = SessionTable::new();
        sessions.insert("local", Session::local(None));
        proof {
            let n = sessions.names();
            assert(n.len() == 1) by {
                let e = sessions.entries();
                assert(n.to_set() =~= set!["local"@]);
                n.unique_seq_to_set();
            }
            assert(n.to_set().contains("local"@));
            assert(n =~= seq!["local"@]);
        }
        Config { settings: Settings::default(), sessions }
    }
}

impl Config {
    /// The configuration of `name`, if configured.
    pub fn get_session(&self, name: &str) -> (r: Option<&Session>)
        ensures
            r is Some <==> self.sessions.names().contains(name@),
            r matches Some(s) ==> exists|i: int|
                0 <= i < self.sessions.entries().len() && self.sessions.entries()[i].0@ == name@
                    && *s == #[trigger] self.sessions.entries()[i].1,
    {
        self.sessions.get(name)
    }

    /// The configured session names.
    pub fn session_names(&self) -> (r: Vec<&str>)
        ensures
            r@.len() == self.sessions.names().len(),
            forall|i: int| 0 <= i < r@.len() ==> (#[trigger] r@[i])@ == self.sessions.names()[i],
    {
        self.sessions.keys()
    }

    /// Makes sure a session named `local` exists, adding a local one with the
    /// default shell when it is missing.
    pub fn ensure_local(&mut self)
        requires
            old(self).sessions.wf(),
        ensures
            final(self).sessions.wf(),
            final(self).sessions.names().contains("local"@),
            final(self).settings == old(self).settings,
    {
        if !self.sessions.contains_key("local") {
            self.sessions.insert("local", Session::local(None));
            assert(self.sessions.names().to_set().contains("local"@));
        }
    }
}

} // verus!
