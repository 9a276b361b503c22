//! The session manager: the named transports, the active-session pointer,
//! and the routing of commands and connection changes to a transport.
use vstd::prelude::*;
use crate::config::{Config, Session as SessionConfig};
use crate::error::{ErrorCode, SessionError, ThopError};
use crate::session::LocalSession;
use crate::restriction::{category_text, policy_verdict, Checker};
use crate::ssh::{SshConfig, SshSession};
use crate::text::{opt_view, same_text};

verus! {

/// One configured transport.
#[derive(Debug, Clone)]
pub enum Transport {
    Local(LocalSession),
    Ssh(SshSession),
}

impl Transport {
    pub open spec fn name_view(&self) -> Seq<char> {
        match self {
            Transport::Local(l) => l.name_view(),
            Transport::Ssh(s) => s.name_view(),
        }
    }

    pub open spec fn connected(&self) -> bool {
        match self {
            Transport::Local(l) => l.connected(),
            Transport::Ssh(s) => s.connected(),
        }
    }

    pub open spec fn cwd_view(&self) -> Seq<char> {
        match self {
            Transport::Local(l) => l.cwd_view(),
            Transport::Ssh(s) => s.cwd_view(),
        }
    }

    pub open spec fn kind_text(&self) -> Seq<char> {
        match self {
            Transport::Local(_) => "local"@,
            Transport::Ssh(_) => "ssh"@,
        }
    }

    pub fn name(&self) -> (r: &str)
        ensures
            r@ == self.name_view(),
    {
        match self {
            Transport::Local(l) => l.name(),
            Transport::Ssh(s) => s.name(),
        }
    }

    pub fn session_type(&self) -> (r: &'static str)
        ensures
            r@ == self.kind_text(),
    {
        match self {
            Transport::Local(l) => l.session_type(),
            Transport::Ssh(s) => s.session_type(),
        }
    }

    pub fn is_connected(&self) -> (r: bool)
        ensures
            r == self.connected(),
    {
        match self {
            Transport::Local(l) => l.is_connected(),
            Transport::Ssh(s) => s.is_connected(),
        }
    }

    pub fn get_cwd(&self) -> (r: &str)
        ensures
            r@ == self.cwd_view(),
    {
        match self {
            Transport::Local(l) => l.get_cwd(),
            Transport::Ssh(s) => s.get_cwd(),
        }
    }
}

/// What a session looks like in a listing.
#[derive(Debug, Clone)]
pub struct SessionInfo {
    pub name: String,
    pub session_type: String,
    pub connected: bool,
    pub active: bool,
    pub host: Option<String>,
    pub user: Option<String>,
    pub cwd: String,
}

/// What connecting a session still needs.
#[derive(Debug, Clone, Copy, PartialEq, Eq, Structural)]
pub enum ConnectStep {
    /// The session is connected; nothing more to do.
    Done,
    /// A remote session must be reached: handshake, host key check and
    /// authentication, then `mark_connected`.
    Handshake,
}

/// The names of a sequence of transports.
pub open spec fn transport_names(ts: Seq<Transport>) -> Seq<Seq<char>> {
    ts.map_values(|t: Transport| t.name_view())
}

/// The transport configured by `entry`, if its type is known.
pub open spec fn known_type(entry: SessionConfig) -> bool {
    entry.session_type@ == "local"@ || entry.session_type@ == "ssh"@
}

/// The session manager.
pub struct Manager {
    sessions: Vec<Transport>,
    active_session: String,
}

impl Manager {
    /// The transports, in configuration order.
    pub closed spec fn transports(&self) -> Seq<Transport> {
        self.sessions@
    }

    /// The configured names.
    pub open spec fn names(&self) -> Seq<Seq<char>> {
        transport_names(self.transports())
    }

    /// The name of the active session.
    pub closed spec fn active_name(&self) -> Seq<char> {
        self.active_session@
    }

    /// Names are distinct, and the active name is configured whenever any is.
    pub open spec fn wf(&self) -> bool {
        &&& self.names().no_duplicates()
        &&& self.names().len() > 0 ==> self.names().contains(self.active_name())
    }

    fn transport_for(name: &str, entry: &SessionConfig) -> (r: Option<Transport>)
        ensures
            r is Some <==> known_type(*entry),
            r matches Some(t) ==> t.name_view() == name@ && (entry.session_type@ == "local"@
                <==> t is Local),
    {
        if same_text(entry.session_type.as_str(), "local") {
            Some(Transport::Local(LocalSession::new(name, entry.shell.clone())))
        } else if same_text(entry.session_type.as_str(), "ssh") {
            let host = match &entry.host {
                Some(h) => h.clone(),
                None => String::new(),
            };
            let user = match &entry.user {
                Some(u) => u.clone(),
                None => String::from_str("root"),
            };
            let port = match entry.port {
                Some(p) => p,
                None => 22,
            };
            let config = SshConfig { host, user, port, identity_file: entry.identity_file.clone() };
            Some(Transport::Ssh(SshSession::new(name, config)))
        } else {
            None
        }
    }

    /// Builds one transport per configured session of a known type. The
    /// active session is `active` when given, else the configured default;
    /// when that name is not configured, the first configured session is
    /// active instead.
    pub fn new(config: &Config, active: Option<String>) -> (r: Manager)
        requires
            config.sessions.wf(),
        ensures
            r.wf(),
            forall|n: Seq<char>| #[trigger] r.names().contains(n) ==> config.sessions.names().contains(n),
            forall|i: int|
                0 <= i < config.sessions.entries().len() && known_type(
                    #[trigger] config.sessions.entries()[i].1,
                ) ==> r.names().contains(config.sessions.entries()[i].0@),
            ({
                let preferred = match active {
                    Some(a) => a@,
                    None => config.settings.default_session@,
                };
                r.names().contains(preferred) ==> r.active_name() == preferred
            }),
    {
        let entries = config.sessions.iter_entries();
        let ghost cnames = config.sessions.names();
        let mut sessions: Vec<Transport> = Vec::new();
        let mut i: usize = 0;
        while i < entries.len()
            invariant
                entries@ == config.sessions.entries(),
                cnames == config.sessions.names(),
                cnames.no_duplicates(),
                i <= entries@.len(),
                transport_names(sessions@).no_duplicates(),
                forall|j: int| 0 <= j < sessions@.len() ==> exists|k: int|
                    0 <= k < i && #[trigger] sessions@[j].name_view() == cnames[k],
                forall|k: int|
                    0 <= k < i && known_type(#[trigger] entries@[k].1) ==> transport_names(
                        sessions@,
                    ).contains(cnames[k]),
            decreases entries@.len() - i,
        {
            assert(cnames[i as int] == entries@[i as int].0@);
            let entry = &entries[i];
            match Self::transport_for(entry.0.as_str(), &entry.1) {
                Some(t) => {
                    let ghost before = sessions@;
                    sessions.push(t);
                    proof {
                        let ns = transport_names(sessions@);
                        let nb = transport_names(before);
                        assert(ns =~= nb.push(cnames[i as int]));
                        assert forall|a: int, b: int|
                            0 <= a < ns.len() && 0 <= b < ns.len() && a != b implies ns[a]
                            != ns[b] by {
                            if a == nb.len() {
                                assert(before[b].name_view() == nb[b]);
                                let k = choose|k: int| 0 <= k < i && before[b].name_view() == cnames[k];
                            } else if b == nb.len() {
                                assert(before[a].name_view() == nb[a]);
                                let k = choose|k: int| 0 <= k < i && before[a].name_view() == cnames[k];
                            } else {
                                assert(ns[a] == nb[a] && ns[b] == nb[b]);
                            }
                        }
                        assert forall|j: int| 0 <= j < sessions@.len() implies exists|k: int|
                            0 <= k < i + 1 && #[trigger] sessions@[j].name_view() == cnames[k] by {
                            if j < before.len() {
                                assert(sessions@[j] == before[j]);
                            } else {
                                assert(sessions@[j].name_view() == cnames[i as int]);
                            }
                        }
                        assert forall|k: int|
                            0 <= k < i + 1 && known_type(#[trigger] entries@[k].1) implies ns.contains(
                            cnames[k],
                        ) by {
                            if k < i {
                                assert(nb.contains(cnames[k]));
                                let m = choose|m: int| 0 <= m < nb.len() && nb[m] == cnames[k];
                                assert(ns[m] == cnames[k]);
                            } else {
                                assert(ns[nb.len() as int] == cnames[k]);
                            }
                        }
                    }
                },
                None => {},
            }
            i = i + 1;
        }
        let preferred = match active {
            Some(a) => a,
            None => config.settings.default_session.clone(),
        };
        let mut m = Manager { sessions, active_session: preferred };
        proof {
            assert forall|n: Seq<char>| #[trigger] m.names().contains(n) implies cnames.contains(n) by {
                let j = choose|j: int| 0 <= j < m.names().len() && m.names()[j] == n;
                assert(m.transports()[j].name_view() == n);
                let k = choose|k: int| 0 <= k < i && m.transports()[j].name_view() == cnames[k];
            }
        }
        if !m.has_session(m.active_session.as_str()) && m.sessions.len() > 0 {
            let first = String::from_str(m.sessions[0].name());
            m.active_session = first;
            assert(m.names()[0] == m.active_name());
        }
        m
    }

    /// The position of `name`, if configured.
    fn find(&self, name: &str) -> (r: Option<usize>)
        ensures
            match r {
                Some(i) => i < self.transports().len() && self.names()[i as int] == name@,
                None => !self.names().contains(name@),
            },
    {
        let mut i: usize = 0;
        while i < self.sessions.len()
            invariant
                i <= self.sessions@.len(),
                forall|j: int| 0 <= j < i ==> self.names()[j] != name@,
            decreases self.sessions@.len() - i,
        {
            if same_text(self.sessions[i].name(), name) {
                return Some(i);
            }
            i = i + 1;
        }
        None
    }

    /// Whether `name` is configured.
    pub fn has_session(&self, name: &str) -> (r: bool)
        ensures
            r == self.names().contains(name@),
    {
        match self.find(name) {
            Some(i) => true,
            None => false,
        }
    }

    /// The transport named `name`.
    pub fn get_session(&self, name: &str) -> (r: Option<&Transport>)
        ensures
            r is Some <==> self.names().contains(name@),
            r matches Some(t) ==> t.name_view() == name@ && self.transports().contains(*t),
    {
        match self.find(name) {
            Some(i) => Some(&self.sessions[i]),
            None => None,
        }
    }

    /// Whether the session `name` is remote; `None` when it is not configured.
    pub fn is_remote(&self, name: &str) -> (r: Option<bool>)
        requires
            self.wf(),
        ensures
            r is Some <==> self.names().contains(name@),
            r matches Some(b) ==> b == remote_named(*self, name@),
    {
        match self.find(name) {
            Some(i) => {
                let b = matches!(&self.sessions[i], Transport::Ssh(_));
                proof {
                    if !b {
                        assert forall|j: int| 0 <= j < self.transports().len() && self.names()[j] == name@
                            implies !(#[trigger] self.transports()[j] is Ssh) by {
                            assert(self.names()[j] == self.names()[i as int]);
                        }
                    }
                }
                Some(b)
            },
            None => None,
        }
    }

    /// The active transport.
    pub fn get_active_session(&self) -> (r: Option<&Transport>)
        ensures
            r is Some <==> self.names().contains(self.active_name()),
            r matches Some(t) ==> t.name_view() == self.active_name(),
    {
        self.get_session(self.active_session.as_str())
    }

    /// The name of the active session.
    pub fn get_active_session_name(&self) -> (r: &str)
        ensures
            r@ == self.active_name(),
    {
        self.active_session.as_str()
    }

    /// Makes `name` the active session; fails, changing nothing, when it is
    /// not configured.
    pub fn set_active_session(&mut self, name: &str) -> (r: Result<(), ThopError>)
        requires
            old(self).wf(),
        ensures
            final(self).wf(),
            switched(*old(self), *final(self), name@, r is Ok),
            r matches Err(e) ==> is_not_found(e, name@),
    {
        if !self.has_session(name) {
            return Err(ThopError::Session(SessionError::session_not_found(name)));
        }
        self.active_session = String::from_str(name);
        Ok(())
    }

    /// Switches to `name`: a local or connected session becomes active at
    /// once; a remote one that is not connected must be connected first, and
    /// the active session stays until then. An unknown name fails.
    pub fn switch(&mut self, name: &str) -> (r: Result<ConnectStep, ThopError>)
        requires
            old(self).wf(),
        ensures
            final(self).wf(),
            final(self).transports() == old(self).transports(),
            r is Err <==> !old(self).names().contains(name@),
            r matches Err(e) ==> is_not_found(e, name@) && final(self).active_name() == old(self).active_name(),
            r matches Ok(step) ==> exists|i: int|
                0 <= i < old(self).transports().len() && old(self).names()[i] == name@ && (
                step == ConnectStep::Handshake <==> (#[trigger] old(self).transports()[i] is Ssh
                    && !old(self).transports()[i].connected())),
            r == Ok::<ConnectStep, ThopError>(ConnectStep::Done) ==> final(self).active_name() == name@,
            r == Ok::<ConnectStep, ThopError>(ConnectStep::Handshake) ==> final(self).active_name()
                == old(self).active_name(),
    {
        match self.find(name) {
            None => Err(ThopError::Session(SessionError::session_not_found(name))),
            Some(i) => {
                let pending = match &self.sessions[i] {
                    Transport::Local(_) => false,
                    Transport::Ssh(s) => !s.is_connected(),
                };
                if pending {
                    return Ok(ConnectStep::Handshake);
                }
                self.active_session = String::from_str(name);
                Ok(ConnectStep::Done)
            },
        }
    }

    /// The session a command goes to: `name` when given, else the active one;
    /// fails when that session is not configured.
    pub fn resolve(&self, name: Option<&str>) -> (r: Result<String, ThopError>)
        ensures
            ({
                let target = match name {
                    Some(n) => n@,
                    None => self.active_name(),
                };
                &&& r is Ok <==> self.names().contains(target)
                &&& r matches Ok(s) ==> s@ == target
                &&& r matches Err(e) ==> is_not_found(e, target)
            }),
    {
        let target = match name {
            Some(n) => n,
            None => self.active_session.as_str(),
        };
        if self.has_session(target) {
            Ok(String::from_str(target))
        } else {
            Err(ThopError::Session(SessionError::session_not_found(target)))
        }
    }

    /// Connects `name`. A local session only changes its flag; a remote one
    /// that is already connected needs nothing; a remote one that is not asks
    /// for a handshake.
    pub fn connect(&mut self, name: &str) -> (r: Result<ConnectStep, ThopError>)
        requires
            old(self).wf(),
        ensures
            final(self).wf(),
            connected_step(*old(self), *final(self), name@, r),
            r matches Err(e) ==> is_not_found(e, name@),
    {
        match self.find(name) {
            None => Err(ThopError::Session(SessionError::session_not_found(name))),
            Some(i) => {
                let ghost before = self.sessions@;
                let step = match &mut self.sessions[i] {
                    Transport::Local(l) => {
                        let _ = l.connect();
                        ConnectStep::Done
                    },
                    Transport::Ssh(s) => if s.needs_handshake() {
                        ConnectStep::Handshake
                    } else {
                        ConnectStep::Done
                    },
                };
                proof {
                    assert(transport_names(self.sessions@) =~= transport_names(before));
                }
                Ok(step)
            },
        }
    }

    /// Records that the remote session `name` finished connecting, with the
    /// output of its initial `pwd`.
    pub fn mark_connected(&mut self, name: &str, initial_pwd: Option<&str>) -> (r: Result<(), ThopError>)
        requires
            old(self).wf(),
        ensures
            final(self).wf(),
            final(self).names() == old(self).names(),
            final(self).active_name() == old(self).active_name(),
            r is Err <==> !old(self).names().contains(name@),
            r is Ok ==> exists|i: int|
                0 <= i < final(self).transports().len() && final(self).names()[i] == name@
                    && (#[trigger] final(self).transports()[i]).connected(),
    {
        match self.find(name) {
            None => Err(ThopError::Session(SessionError::session_not_found(name))),
            Some(i) => {
                let ghost before = self.sessions@;
                match &mut self.sessions[i] {
                    Transport::Local(l) => {
                        let _ = l.connect();
                    },
                    Transport::Ssh(s) => s.mark_connected(initial_pwd),
                }
                proof {
                    assert(transport_names(self.sessions@) =~= transport_names(before));
                    assert(self.names()[i as int] == name@);
                }
                Ok(())
            },
        }
    }

    /// Disconnects `name`; repeating it is harmless.
    pub fn disconnect(&mut self, name: &str) -> (r: Result<(), ThopError>)
        requires
            old(self).wf(),
        ensures
            final(self).wf(),
            disconnected(*old(self), *final(self), name@, r is Ok),
            r matches Err(e) ==> is_not_found(e, name@),
    {
        match self.find(name) {
            None => Err(ThopError::Session(SessionError::session_not_found(name))),
            Some(i) => {
                let ghost before = self.sessions@;
                match &mut self.sessions[i] {
                    Transport::Local(l) => {
                        let _ = l.disconnect();
                    },
                    Transport::Ssh(s) => {
                        let _ = s.disconnect();
                    },
                }
                proof {
                    assert(transport_names(self.sessions@) =~= transport_names(before));
                    assert(self.names()[i as int] == name@);
                }
                Ok(())
            },
        }
    }

    /// Adds a remote session; fails, changing nothing, when the name is taken.
    pub fn add_ssh_session(&mut self, name: &str, host: &str, user: &str, port: u16) -> (r: Result<(), ThopError>)
        requires
            old(self).wf(),
        ensures
            final(self).wf(),
            old(self).names().len() > 0 ==> final(self).active_name() == old(self).active_name(),
            r is Ok <==> !old(self).names().contains(name@),
            r is Ok ==> final(self).names() == old(self).names().push(name@)
                && final(self).transports().last() is Ssh,
            r is Err ==> final(self).transports() == old(self).transports(),
            r matches Err(e) ==> (e matches ThopError::Other(m) && m@ == "Session '"@ + name@ + "' already exists"@),
    {
        if self.has_session(name) {
            return Err(ThopError::Other(crate::text::concat3("Session '", name, "' already exists")));
        }
        let config = SshConfig {
            host: String::from_str(host),
            user: String::from_str(user),
            port,
            identity_file: None,
        };
        let ghost before = self.names();
        if self.sessions.len() == 0 {
            self.active_session = String::from_str(name);
        }
        self.sessions.push(Transport::Ssh(SshSession::new(name, config)));
        proof {
            assert(self.names() =~= before.push(name@));
            assert forall|a: int, b: int| 0 <= a < self.names().len() && 0 <= b < self.names().len() && a != b
                implies self.names()[a] != self.names()[b] by {
                if a == before.len() {
                    assert(before[b] == self.names()[b]);
                } else if b == before.len() {
                    assert(before[a] == self.names()[a]);
                }
            }
            if before.len() > 0 {
                let k = choose|k: int| 0 <= k < before.len() && before[k] == self.active_name();
                assert(self.names()[k] == self.active_name());
            } else {
                assert(self.names()[0] == self.active_name());
            }
        }
        Ok(())
    }

    /// Closes `name` and, when it was the active session, makes `local`
    /// active instead (when there is one). Returns whether that happened.
    pub fn close(&mut self, name: &str) -> (r: Result<bool, ThopError>)
        requires
            old(self).wf(),
        ensures
            final(self).wf(),
            r is Err <==> !old(self).names().contains(name@),
            r matches Err(e) ==> is_not_found(e, name@) && final(self).transports() == old(self).transports()
                && final(self).active_name() == old(self).active_name(),
            r matches Ok(fell_back) ==> exists|mid: Manager|
                #[trigger] disconnected(*old(self), mid, name@, true) && final(self).transports()
                    == mid.transports() && fell_back == (old(self).active_name() == name@
                    && old(self).names().contains("local"@)) && (if fell_back {
                    final(self).active_name() == "local"@
                } else {
                    final(self).active_name() == old(self).active_name()
                }),
    {
        match self.disconnect(name) {
            Err(e) => Err(e),
            Ok(()) => {
                let ghost mid = *self;
                let fell_back = crate::text::same_text(self.active_session.as_str(), name)
                    && self.has_session("local");
                if fell_back {
                    let _ = self.set_active_session("local");
                }
                assert(disconnected(*old(self), mid, name@, true));
                Ok(fell_back)
            },
        }
    }

    /// The transport named `name`, for running a command on it.
    pub fn get_session_mut(&mut self, name: &str) -> (r: Option<&mut Transport>)
        ensures
            r is Some <==> old(self).names().contains(name@),
            r matches Some(t) ==> (*t).name_view() == name@,
            r is None ==> final(self).transports() == old(self).transports(),
    {
        match self.find(name) {
            Some(i) => Some(&mut self.sessions[i]),
            None => None,
        }
    }

    /// One entry per configured session: its name, type, connectivity,
    /// whether it is active, and its tracked directory.
    pub fn list_sessions(&self) -> (r: Vec<SessionInfo>)
        ensures
            r@.len() == self.transports().len(),
            forall|i: int| 0 <= i < r@.len() ==> is_listing(#[trigger] r@[i], self.transports()[i], self.active_name()),
    {
        let mut r: Vec<SessionInfo> = Vec::new();
        let mut i: usize = 0;
        while i < self.sessions.len()
            invariant
                i <= self.sessions@.len(),
                r@.len() == i,
                forall|j: int| 0 <= j < i ==> is_listing(#[trigger] r@[j], self.transports()[j], self.active_name()),
            decreases self.sessions@.len() - i,
        {
            let t = &self.sessions[i];
            let name = String::from_str(t.name());
            let active = same_text(name.as_str(), self.active_session.as_str());
            r.push(SessionInfo {
                name,
                session_type: String::from_str(t.session_type()),
                connected: t.is_connected(),
                active,
                host: None,
                user: None,
                cwd: String::from_str(t.get_cwd()),
            });
            i = i + 1;
        }
        r
    }

    /// The configured names.
    pub fn session_names(&self) -> (r: Vec<&str>)
        ensures
            r@.len() == self.names().len(),
            forall|i: int| 0 <= i < r@.len() ==> (#[trigger] r@[i])@ == self.names()[i],
    {
        let mut r: Vec<&str> = Vec::new();
        let mut i: usize = 0;
        while i < self.sessions.len()
            invariant
                i <= self.sessions@.len(),
                r@.len() == i,
                forall|j: int| 0 <= j < i ==> (#[trigger] r@[j])@ == self.names()[j],
            decreases self.sessions@.len() - i,
        {
            r.push(self.sessions[i].name());
            i = i + 1;
        }
        r
    }
}

/// Screens `cmd` with the restriction policy before it is dispatched: a
/// refused command is a `CommandRestricted` error naming the rule's category
/// and command.
pub fn guard_command(checker: &Checker, cmd: &str) -> (r: Result<(), ThopError>)
    requires
        checker.wf(),
    ensures
        r is Ok <==> policy_verdict(checker.enabled(), checker.rules(), cmd@, None),
        r matches Err(e) ==> (e matches ThopError::Session(s) && s.code == ErrorCode::CommandRestricted
            && exists|i: int|
            policy_verdict(checker.enabled(), checker.rules(), cmd@, Some(i)) && s.message@
                == category_text(#[trigger] checker.rules()[i].category) + ": '"@
                + checker.rules()[i].command + "' is not allowed in restricted mode"@),
{
    let verdict = checker.check(cmd);
    match verdict.rule {
        None => Ok(()),
        Some(rule) => {
            let category = rule.category().description();
            Err(ThopError::Session(SessionError::command_restricted(rule.command(), category)))
        },
    }
}

/// `after` is `before` once `name` was made active, when `ok`; unchanged
/// otherwise. It succeeds exactly when `name` is configured.
pub open spec fn switched(before: Manager, after: Manager, name: Seq<char>, ok: bool) -> bool {
    &&& after.transports() == before.transports()
    &&& ok <==> before.names().contains(name)
    &&& ok ==> after.active_name() == name
    &&& !ok ==> after.active_name() == before.active_name()
}

/// `after` is `before` once `name` was connected as far as the manager can
/// alone, with `r` the step that remains. A local session is marked
/// connected; a remote one is left as it is, asking for a handshake exactly
/// when it is not connected.
pub open spec fn connected_step(before: Manager, after: Manager, name: Seq<char>, r: Result<ConnectStep, ThopError>) -> bool {
    &&& after.names() == before.names()
    &&& after.active_name() == before.active_name()
    &&& r is Err <==> !before.names().contains(name)
    &&& r is Err ==> after.transports() == before.transports()
    &&& r matches Ok(step) ==> exists|i: int|
        0 <= i < before.transports().len() && before.names()[i] == name && (
        match #[trigger] before.transports()[i] {
            Transport::Local(_) => step == ConnectStep::Done && after.transports()[i].connected(),
            Transport::Ssh(s) => (step == ConnectStep::Handshake <==> !s.connected())
                && after.transports()[i] == before.transports()[i],
        }) && after.transports() == before.transports().update(i, after.transports()[i])
}

/// `after` is `before` once `name` was disconnected, when `ok`; it succeeds
/// exactly when `name` is configured, whatever its connectivity.
pub open spec fn disconnected(before: Manager, after: Manager, name: Seq<char>, ok: bool) -> bool {
    &&& after.names() == before.names()
    &&& after.active_name() == before.active_name()
    &&& ok <==> before.names().contains(name)
    &&& !ok ==> after.transports() == before.transports()
    &&& ok ==> exists|i: int|
        0 <= i < after.transports().len() && after.names()[i] == name
            && !(#[trigger] after.transports()[i]).connected()
            && after.transports() == before.transports().update(i, after.transports()[i])
}

/// Switching to a configured session makes it the active one; switching to
/// any other name fails and changes nothing.
pub proof fn lemma_switch_sets_active(m0: Manager, m1: Manager, name: Seq<char>, ok: bool)
    requires
        switched(m0, m1, name, ok),
    ensures
        m0.names().contains(name) ==> ok && m1.active_name() == name,
        !m0.names().contains(name) ==> !ok && m1.active_name() == m0.active_name()
            && m1.transports() == m0.transports(),
{
}

/// Disconnecting a configured session twice succeeds both times.
pub proof fn lemma_disconnect_twice(m0: Manager, m1: Manager, m2: Manager, name: Seq<char>, ok1: bool, ok2: bool)
    requires
        m0.names().contains(name),
        disconnected(m0, m1, name, ok1),
        disconnected(m1, m2, name, ok2),
    ensures
        ok1,
        ok2,
{
}

/// Connecting a remote session that is already connected asks for no
/// handshake and leaves every session as it was, so a second connect does
/// the same.
pub proof fn lemma_connect_connected_remote(
    m0: Manager,
    m1: Manager,
    m2: Manager,
    name: Seq<char>,
    r1: Result<ConnectStep, ThopError>,
    r2: Result<ConnectStep, ThopError>,
)
    requires
        m0.wf(),
        exists|i: int| 0 <= i < m0.transports().len() && m0.names()[i] == name
            && (#[trigger] m0.transports()[i] matches Transport::Ssh(s) && s.connected()),
        connected_step(m0, m1, name, r1),
        connected_step(m1, m2, name, r2),
    ensures
        r1 == Ok::<ConnectStep, ThopError>(ConnectStep::Done),
        r2 == Ok::<ConnectStep, ThopError>(ConnectStep::Done),
        m1.transports() == m0.transports(),
        m2.transports() == m0.transports(),
{
    let i = choose|i: int| 0 <= i < m0.transports().len() && m0.names()[i] == name
        && (#[trigger] m0.transports()[i] matches Transport::Ssh(s) && s.connected());
    assert(m0.names()[i] == m0.transports()[i].name_view());
    assert(m0.names().contains(name));
    let j = choose|j: int| 0 <= j < m0.transports().len() && m0.names()[j] == name && (
        match #[trigger] m0.transports()[j] {
            Transport::Local(_) => r1->Ok_0 == ConnectStep::Done && m1.transports()[j].connected(),
            Transport::Ssh(s) => (r1->Ok_0 == ConnectStep::Handshake <==> !s.connected())
                && m1.transports()[j] == m0.transports()[j],
        }) && m1.transports() == m0.transports().update(j, m1.transports()[j]);
    assert(j == i);
    assert(m1.transports() =~= m0.transports());
    assert(m1.names().contains(name));
    let k = choose|k: int| 0 <= k < m1.transports().len() && m1.names()[k] == name && (
        match #[trigger] m1.transports()[k] {
            Transport::Local(_) => r2->Ok_0 == ConnectStep::Done && m2.transports()[k].connected(),
            Transport::Ssh(s) => (r2->Ok_0 == ConnectStep::Handshake <==> !s.connected())
                && m2.transports()[k] == m1.transports()[k],
        }) && m2.transports() == m1.transports().update(k, m2.transports()[k]);
    assert(k == i);
    assert(m2.transports() =~= m1.transports());
}

/// Whether a remote session is configured under `name`.
pub open spec fn remote_named(m: Manager, name: Seq<char>) -> bool {
    exists|i: int| 0 <= i < m.transports().len() && m.names()[i] == name && #[trigger] m.transports()[i] is Ssh
}

/// `info` lists transport `t`, with `active` the name of the active session.
pub open spec fn is_listing(info: SessionInfo, t: Transport, active: Seq<char>) -> bool {
    &&& info.name@ == t.name_view()
    &&& info.session_type@ == t.kind_text()
    &&& info.connected == t.connected()
    &&& info.active == (t.name_view() == active)
    &&& info.cwd@ == t.cwd_view()
    &&& info.host is None
    &&& info.user is None
}

/// `e` reports that no session is named `name`.
pub open spec fn is_not_found(e: ThopError, name: Seq<char>) -> bool {
    e matches ThopError::Session(s) && s.code == ErrorCode::SessionNotFound && opt_view(s.session)
        == Some(name)
}

} // verus!
