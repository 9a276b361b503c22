//! The remote transport's state and decisions. Every command opens a fresh
//! channel: the command sent is synthesized from the tracked directory and
//! variables, and a successful `cd` is followed by a `pwd` to refresh the
//! tracked directory.
use vstd::prelude::*;
use crate::error::{ErrorCode, SessionError, ThopError};
use crate::session::{
    build_remote_command, clone_env, env_get, env_set, env_view, exports, is_cd, is_cd_command,
    quote_escaped, remote_command, ExecuteResult,
};
use crate::sshconfig::{identity_path, join_path, joined_path};
use crate::text::{concat3, opt_view, starts_with, trim_seq, trim_str};

verus! {

/// Where and as whom a remote session connects.
#[derive(Debug, Clone)]
pub struct SshConfig {
    pub host: String,
    pub user: String,
    pub port: u16,
    pub identity_file: Option<String>,
}

/// A remote shell session.
#[derive(Debug, Clone)]
pub struct SshSession {
    name: String,
    config: SshConfig,
    connected: bool,
    cwd: String,
    env: Vec<(String, String)>,
}

impl SshSession {
    pub closed spec fn name_view(&self) -> Seq<char> {
        self.name@
    }

    pub closed spec fn config_view(&self) -> SshConfig {
        self.config
    }

    pub closed spec fn cwd_view(&self) -> Seq<char> {
        self.cwd@
    }

    pub closed spec fn env_entries(&self) -> Seq<(String, String)> {
        self.env@
    }

    pub open spec fn env_map(&self) -> Map<Seq<char>, Seq<char>> {
        env_view(self.env_entries())
    }

    pub closed spec fn connected(&self) -> bool {
        self.connected
    }

    /// A disconnected session starting in `/` with no variables.
    pub fn new(name: &str, config: SshConfig) -> (r: Self)
        ensures
            r.name_view() == name@,
            r.config_view() == config,
            !r.connected(),
            r.cwd_view() == "/"@,
            r.env_entries().len() == 0,
    {
        SshSession {
            name: String::from_str(name),
            config,
            connected: false,
            cwd: String::from_str("/"),
            env: Vec::new(),
        }
    }

    pub fn host(&self) -> (r: &str)
        ensures
            r@ == self.config_view().host@,
    {
        self.config.host.as_str()
    }

    pub fn user(&self) -> (r: &str)
        ensures
            r@ == self.config_view().user@,
    {
        self.config.user.as_str()
    }

    pub fn port(&self) -> (r: u16)
        ensures
            r == self.config_view().port,
    {
        self.config.port
    }

    pub fn identity_file(&self) -> (r: Option<&str>)
        ensures
            match self.config_view().identity_file {
                Some(f) => r matches Some(x) && x@ == f@,
                None => r is None,
            },
    {
        match &self.config.identity_file {
            Some(f) => Some(f.as_str()),
            None => None,
        }
    }

    pub fn name(&self) -> (r: &str)
        ensures
            r@ == self.name_view(),
    {
        self.name.as_str()
    }

    pub fn session_type(&self) -> (r: &'static str)
        ensures
            r@ == "ssh"@,
    {
        "ssh"
    }

    pub fn is_connected(&self) -> (r: bool)
        ensures
            r == self.connected(),
    {
        self.connected
    }

    /// Whether connecting needs a handshake: only when not yet connected.
    pub fn needs_handshake(&self) -> (r: bool)
        ensures
            r == !self.connected(),
    {
        !self.connected
    }

    /// Records a completed handshake, key check and authentication. The
    /// output of the initial `pwd`, when non-empty once trimmed, becomes the
    /// tracked directory.
    pub fn mark_connected(&mut self, initial_pwd: Option<&str>)
        ensures
            final(self).connected(),
            final(self).name_view() == old(self).name_view(),
            final(self).config_view() == old(self).config_view(),
            final(self).env_entries() == old(self).env_entries(),
            final(self).cwd_view() == (match initial_pwd {
                Some(p) => if trim_seq(p@).len() > 0 {
                    trim_seq(p@)
                } else {
                    old(self).cwd_view()
                },
                None => old(self).cwd_view(),
            }),
    {
        self.connected = true;
        match initial_pwd {
            Some(p) => {
                let t = trim_str(p);
                if t.unicode_len() > 0 {
                    self.cwd = String::from_str(t);
                }
            },
            None => {},
        }
    }

    /// Drops the connection; succeeds whether or not one was open.
    pub fn disconnect(&mut self) -> (r: Result<(), ThopError>)
        ensures
            r is Ok,
            !final(self).connected(),
            final(self).name_view() == old(self).name_view(),
            final(self).config_view() == old(self).config_view(),
            final(self).cwd_view() == old(self).cwd_view(),
            final(self).env_entries() == old(self).env_entries(),
    {
        self.connected = false;
        Ok(())
    }

    pub fn get_cwd(&self) -> (r: &str)
        ensures
            r@ == self.cwd_view(),
    {
        self.cwd.as_str()
    }

    /// Sets the tracked directory; the remote side is not consulted.
    pub fn set_cwd(&mut self, path: &str) -> (r: Result<(), ThopError>)
        ensures
            r is Ok,
            final(self).cwd_view() == path@,
            final(self).name_view() == old(self).name_view(),
            final(self).config_view() == old(self).config_view(),
            final(self).env_entries() == old(self).env_entries(),
            final(self).connected() == old(self).connected(),
    {
        self.cwd = String::from_str(path);
        Ok(())
    }

    pub fn get_env(&self) -> (r: Vec<(String, String)>)
        ensures
            env_view(r@) == self.env_map(),
    {
        clone_env(&self.env)
    }

    /// The value of one variable.
    pub fn env_value(&self, key: &str) -> (r: Option<String>)
        ensures
            opt_view(r) == (if self.env_map().contains_key(key@) {
                Some(self.env_map()[key@])
            } else {
                None
            }),
    {
        env_get(&self.env, key)
    }

    /// Sets a variable for every later command.
    pub fn set_env(&mut self, key: &str, value: &str)
        ensures
            final(self).env_map() == old(self).env_map().insert(key@, value@),
            final(self).env_entries().len() > 0,
            final(self).env_entries().last().0@ == key@,
            final(self).env_entries().last().1@ == value@,
            final(self).cwd_view() == old(self).cwd_view(),
            final(self).name_view() == old(self).name_view(),
            final(self).config_view() == old(self).config_view(),
            final(self).connected() == old(self).connected(),
    {
        env_set(&mut self.env, key, value);
    }

    /// The command to send for `cmd`, or the not-connected error.
    pub fn prepare(&self, cmd: &str) -> (r: Result<String, ThopError>)
        ensures
            self.connected() ==> (r matches Ok(c) && c@ == remote_command(
                self.cwd_view(),
                self.env_entries(),
                cmd@,
            )),
            !self.connected() ==> (r matches Err(ThopError::Session(e)) && e.code
                == crate::error::ErrorCode::SessionDisconnected && opt_view(e.session) == Some(
                self.name_view(),
            )),
    {
        if !self.connected {
            return Err(ThopError::Session(SessionError::session_disconnected(self.name.as_str())));
        }
        Ok(build_remote_command(self.cwd.as_str(), &self.env, cmd))
    }

    /// Whether the tracked directory must be refreshed with `pwd` after `cmd`
    /// ended with `exit_code`: only after a successful `cd`.
    pub fn wants_cwd_refresh(cmd: &str, exit_code: i32) -> (r: bool)
        ensures
            r == (is_cd_command(cmd@) && exit_code == 0),
    {
        exit_code == 0 && is_cd(cmd)
    }

    /// Applies the result of the refreshing `pwd`: on success its trimmed
    /// output becomes the tracked directory.
    pub fn refresh_cwd(&mut self, pwd: &ExecuteResult)
        ensures
            final(self).cwd_view() == (if pwd.exit_code == 0 {
                trim_seq(pwd.stdout@)
            } else {
                old(self).cwd_view()
            }),
            final(self).name_view() == old(self).name_view(),
            final(self).config_view() == old(self).config_view(),
            final(self).env_entries() == old(self).env_entries(),
            final(self).connected() == old(self).connected(),
    {
        if pwd.exit_code == 0 {
            self.cwd = String::from_str(trim_str(pwd.stdout.as_str()));
        }
    }
}

/// Once `key` was set to `value` last, every command sent to the remote
/// shell exports `key` as `value` right before the user's command, so the
/// command sees that value.
pub proof fn lemma_remote_env_round_trip(s: SshSession, key: Seq<char>, value: Seq<char>, cmd: Seq<char>)
    requires
        s.env_entries().len() > 0,
        s.env_entries().last().0@ == key,
        s.env_entries().last().1@ == value,
    ensures
        exists|prefix: Seq<char>|
            remote_command(s.cwd_view(), s.env_entries(), cmd) == prefix + "export "@ + key + "='"@
                + quote_escaped(value) + "' && "@ + cmd,
{
    let env = s.env_entries();
    let prefix = "cd "@ + s.cwd_view() + " && "@ + exports(env.drop_last());
    assert(remote_command(s.cwd_view(), env, cmd) =~= prefix + "export "@ + key + "='"@
        + quote_escaped(value) + "' && "@ + cmd);
}

/// What the known-hosts store says of the server's key.
#[derive(Debug, Clone, Copy, PartialEq, Eq, Structural)]
pub enum HostKeyCheck {
    /// The server offered no key.
    NoKey,
    Match,
    NotFound,
    Mismatch,
    Failure,
}

/// Whether the server's key is accepted: only a key that matches the store.
/// A key missing from the store and a changed key are different failures.
pub fn host_key_verdict(session: &str, host: &str, check: HostKeyCheck) -> (r: Result<(), ThopError>)
    ensures
        r is Ok <==> check == HostKeyCheck::Match,
        check == HostKeyCheck::Mismatch ==> (r matches Err(ThopError::Session(e)) && e.code
            == ErrorCode::HostKeyChanged && e.message@ == "Host key for "@ + host@
            + " has changed! This could be a security issue."@ && opt_view(e.host) == Some(host@)),
        check == HostKeyCheck::NotFound || check == HostKeyCheck::Failure || check == HostKeyCheck::NoKey
            ==> (r matches Err(ThopError::Session(e)) && e.code == ErrorCode::HostKeyVerificationFailed),
{
    match check {
        HostKeyCheck::Match => Ok(()),
        HostKeyCheck::NoKey => Err(ThopError::Session(SessionError::new(
            ErrorCode::HostKeyVerificationFailed,
            "No host key provided by server",
            session,
        ))),
        HostKeyCheck::NotFound | HostKeyCheck::Failure => Err(ThopError::Session(
            SessionError::host_key_verification_failed(session, host),
        )),
        HostKeyCheck::Mismatch => {
            let m = concat3("Host key for ", host, " has changed! This could be a security issue.");
            Err(ThopError::Session(SessionError::new(ErrorCode::HostKeyChanged, m.as_str(), session).with_host(
                host,
            ).with_suggestion("Remove the old key from known_hosts and re-verify")))
        },
    }
}

/// One way of authenticating, in the order they are tried.
#[derive(Debug, Clone)]
pub enum AuthAttempt {
    /// Every identity of a running key agent, in the agent's order.
    Agent,
    /// A key file, tried when it exists. When `decisive`, its failure ends
    /// authentication with `key_rejected`; otherwise the next attempt follows.
    KeyFile { path: String, decisive: bool },
}

/// The default key files, under `base`.
pub open spec fn default_keys(base: Seq<char>) -> Seq<Seq<char>> {
    seq![
        joined_path(base, ".ssh/id_ed25519"@),
        joined_path(base, ".ssh/id_rsa"@),
        joined_path(base, ".ssh/id_ecdsa"@),
    ]
}

/// Whether `a` is the key file attempt for `path`.
pub open spec fn is_key_attempt(a: AuthAttempt, path: Seq<char>, decisive: bool) -> bool {
    a matches AuthAttempt::KeyFile { path: p, decisive: d } && p@ == path && d == decisive
}

impl SshSession {
    /// The authentication attempts, in order: the key agent, the configured
    /// identity file if any (decisive), then the default key files under the
    /// home directory (or `.` when there is none).
    pub fn auth_attempts(&self, home: Option<String>) -> (r: Vec<AuthAttempt>)
        ensures
            ({
                let cfg = self.config_view().identity_file;
                let base = match opt_view(home) { Some(h) => h, None => "."@ };
                let k = if cfg is Some { 1int } else { 0int };
                &&& r@.len() == 4 + k
                &&& r@[0] is Agent
                &&& cfg matches Some(f) ==> is_key_attempt(r@[1], identity_path(f@, opt_view(home)), true)
                &&& forall|i: int| 0 <= i < 3 ==> is_key_attempt(#[trigger] r@[1 + k + i], default_keys(base)[i], false)
            }),
    {
        let mut r: Vec<AuthAttempt> = Vec::new();
        r.push(AuthAttempt::Agent);
        match &self.config.identity_file {
            Some(f) => {
                let path = if starts_with(f.as_str(), "~/") {
                    match &home {
                        Some(h) => {
                            let n = f.as_str().unicode_len();
                            proof {
                                reveal_strlit("~/");
                            }
                            join_path(h.as_str(), f.as_str().substring_char(2, n))
                        },
                        None => f.clone(),
                    }
                } else {
                    f.clone()
                };
                r.push(AuthAttempt::KeyFile { path, decisive: true });
            },
            None => {},
        }
        let base = match home {
            Some(h) => h,
            None => String::from_str("."),
        };
        r.push(AuthAttempt::KeyFile { path: join_path(base.as_str(), ".ssh/id_ed25519"), decisive: false });
        r.push(AuthAttempt::KeyFile { path: join_path(base.as_str(), ".ssh/id_rsa"), decisive: false });
        r.push(AuthAttempt::KeyFile { path: join_path(base.as_str(), ".ssh/id_ecdsa"), decisive: false });
        r
    }

    /// The failure of a decisive key file.
    pub fn key_rejected(&self, reason: &str) -> (r: ThopError)
        ensures
            r matches ThopError::Session(e) && e.code == ErrorCode::AuthKeyRejected && e.message@
                == "Key rejected: "@ + reason@ && opt_view(e.session) == Some(self.name_view())
                && opt_view(e.host) == Some(self.config_view().host@),
    {
        let m = crate::text::concat2("Key rejected: ", reason);
        ThopError::Session(SessionError::new(ErrorCode::AuthKeyRejected, m.as_str(), self.name.as_str()).with_host(
            self.config.host.as_str(),
        ))
    }

    /// The failure when no attempt authenticated.
    pub fn auth_exhausted(&self) -> (r: ThopError)
        ensures
            r matches ThopError::Session(e) && e.code == ErrorCode::AuthFailed && opt_view(e.session)
                == Some(self.name_view()) && opt_view(e.host) == Some(self.config_view().host@),
    {
        ThopError::Session(SessionError::auth_failed(self.name.as_str(), self.config.host.as_str()))
    }
}

/// How one authentication attempt went.
#[derive(Debug, Clone)]
pub enum AttemptOutcome {
    /// It authenticated.
    Succeeded,
    /// It could not be tried: no agent, or no such key file.
    Skipped,
    /// It was tried and refused, for the given reason.
    Rejected(String),
}

/// What follows an attempt.
#[derive(Debug, Clone)]
pub enum AuthNext {
    /// Authenticated: stop.
    Done,
    /// Go on with the next attempt; after the last one, `auth_exhausted`.
    Continue,
    /// Stop with this error.
    Fail(ThopError),
}

impl SshSession {
    /// Decides what follows `attempt` given how it went: success ends
    /// authentication; a refused decisive key file fails it at once with
    /// `key_rejected`; anything else moves on to the next attempt.
    pub fn auth_step(&self, attempt: &AuthAttempt, outcome: AttemptOutcome) -> (r: AuthNext)
        ensures
            match outcome {
                AttemptOutcome::Succeeded => r is Done,
                AttemptOutcome::Skipped => r is Continue,
                AttemptOutcome::Rejected(reason) => match attempt {
                    AuthAttempt::KeyFile { decisive: true, .. } => r matches AuthNext::Fail(
                        ThopError::Session(e),
                    ) && e.code == ErrorCode::AuthKeyRejected && e.message@ == "Key rejected: "@
                        + reason@ && opt_view(e.session) == Some(self.name_view()) && opt_view(e.host)
                        == Some(self.config_view().host@),
                    _ => r is Continue,
                },
            },
    {
        match outcome {
            AttemptOutcome::Succeeded => AuthNext::Done,
            AttemptOutcome::Skipped => AuthNext::Continue,
            AttemptOutcome::Rejected(reason) => match attempt {
                AuthAttempt::KeyFile { decisive: true, .. } => AuthNext::Fail(self.key_rejected(reason.as_str())),
                _ => AuthNext::Continue,
            },
        }
    }
}

} // verus!
