//! Sessions: the command result, the environment table, and the two
//! transports (local shell, remote shell). Each transport keeps the state that
//! commands depend on (connectivity, working directory, exported variables)
//! and decides what must run; the process or channel is driven by the caller.
use vstd::prelude::*;
use crate::config::home_dir;
use crate::error::ThopError;
use crate::text::{
    concat2, concat3, has_prefix, opt_view, push_char, same_text, starts_with, trim_seq, trim_str,
    whitespace_char,
};

verus! {

/// What a command produced.
#[derive(Debug, Clone)]
pub struct ExecuteResult {
    pub stdout: String,
    pub stderr: String,
    pub exit_code: i32,
}

impl Default for ExecuteResult {
    fn default() -> (r: ExecuteResult)
        ensures
            r.stdout@.len() == 0,
            r.stderr@.len() == 0,
            r.exit_code == 0,
    {
        ExecuteResult { stdout: String::new(), stderr: String::new(), exit_code: 0 }
    }
}

/// A result with only an error message and exit code 1.
pub open spec fn is_failure_reply(r: ExecuteResult, message: Seq<char>) -> bool {
    &&& r.stdout@.len() == 0
    &&& r.stderr@ == message
    &&& r.exit_code == 1
}

fn failure_reply(message: String) -> (r: ExecuteResult)
    ensures
        is_failure_reply(r, message@),
{
    ExecuteResult { stdout: String::new(), stderr: message, exit_code: 1 }
}

/// The prompt shown for a session.
pub fn format_prompt(session_name: &str) -> (r: String)
    ensures
        r@ == "("@ + session_name@ + ") $ "@,
{
    concat3("(", session_name, ") $ ")
}

/// The variables of an environment table; a later entry for a name wins.
pub open spec fn env_view(entries: Seq<(String, String)>) -> Map<Seq<char>, Seq<char>>
    decreases entries.len(),
{
    if entries.len() == 0 {
        Map::empty()
    } else {
        env_view(entries.drop_last()).insert(entries.last().0@, entries.last().1@)
    }
}

/// Entries past `i` that do not name `k` leave its value as the prefix has it.
proof fn lemma_env_view_suffix(entries: Seq<(String, String)>, i: int, k: Seq<char>)
    requires
        0 <= i <= entries.len(),
        forall|j: int| i <= j < entries.len() ==> (#[trigger] entries[j]).0@ != k,
    ensures
        env_view(entries).contains_key(k) == env_view(entries.subrange(0, i)).contains_key(k),
        env_view(entries).contains_key(k) ==> env_view(entries)[k] == env_view(
            entries.subrange(0, i),
        )[k],
    decreases entries.len(),
{
    if entries.len() == i {
        assert(entries.subrange(0, i) =~= entries);
    } else {
        let d = entries.drop_last();
        assert(d.subrange(0, i) =~= entries.subrange(0, i));
        lemma_env_view_suffix(d, i, k);
    }
}

/// Sets `key` to `value` in an environment table, dropping earlier entries
/// for `key`.
pub(crate) fn env_set(env: &mut Vec<(String, String)>, key: &str, value: &str)
    ensures
        env_view(final(env)@) == env_view(old(env)@).insert(key@, value@),
        final(env)@.len() > 0,
        final(env)@.last().0@ == key@,
        final(env)@.last().1@ == value@,
{
    let ghost start = env@;
    let mut kept: Vec<(String, String)> = Vec::new();
    let mut i: usize = 0;
    while i < env.len()
        invariant
            env@ == start,
            i <= start.len(),
            env_view(kept@) == env_view(start.subrange(0, i as int)).remove(key@),
        decreases start.len() - i,
    {
        let ghost before = start.subrange(0, i as int);
        let ghost e = start[i as int];
        assert(start.subrange(0, i + 1).drop_last() =~= before);
        assert(start.subrange(0, i + 1).last() == e);
        if !same_text(env[i].0.as_str(), key) {
            let k = env[i].0.clone();
            let v = env[i].1.clone();
            let ghost prev = kept@;
            kept.push((k, v));
            assert(kept@.drop_last() =~= prev);
            assert(env_view(kept@) =~= env_view(start.subrange(0, i + 1)).remove(key@));
        } else {
            assert(env_view(start.subrange(0, i as int)).remove(key@) =~= env_view(
                start.subrange(0, i + 1),
            ).remove(key@));
        }
        i = i + 1;
    }
    assert(start.subrange(0, start.len() as int) =~= start);
    let ghost prev = kept@;
    kept.push((String::from_str(key), String::from_str(value)));
    assert(kept@.drop_last() =~= prev);
    assert(env_view(kept@) =~= env_view(start).insert(key@, value@));
    *env = kept;
}

/// A copy of an environment table.
pub(crate) fn clone_env(env: &Vec<(String, String)>) -> (r: Vec<(String, String)>)
    ensures
        r@ == env@,
{
    let mut r: Vec<(String, String)> = Vec::new();
    let mut i: usize = 0;
    while i < env.len()
        invariant
            i <= env@.len(),
            r@ == env@.subrange(0, i as int),
        decreases env@.len() - i,
    {
        r.push((env[i].0.clone(), env[i].1.clone()));
        assert(r@ =~= env@.subrange(0, i + 1));
        i = i + 1;
    }
    assert(env@.subrange(0, i as int) =~= env@);
    r
}

/// The value of `key` in an environment table.
pub(crate) fn env_get(env: &Vec<(String, String)>, key: &str) -> (r: Option<String>)
    ensures
        opt_view(r) == (if env_view(env@).contains_key(key@) {
            Some(env_view(env@)[key@])
        } else {
            None
        }),
{
    let mut i: usize = env.len();
    while i > 0
        invariant
            i <= env@.len(),
            forall|j: int| i <= j < env@.len() ==> (#[trigger] env@[j]).0@ != key@,
        decreases i,
    {
        if same_text(env[i - 1].0.as_str(), key) {
            proof {
                lemma_env_view_suffix(env@, i as int, key@);
                let p = env@.subrange(0, i as int);
                assert(p.drop_last() =~= env@.subrange(0, i - 1));
                assert(p.last() == env@[i - 1]);
            }
            return Some(env[i - 1].1.clone());
        }
        i = i - 1;
    }
    proof {
        lemma_env_view_suffix(env@, 0, key@);
        assert(env@.subrange(0, 0) =~= Seq::<(String, String)>::empty());
    }
    None
}

/// `s` with each `'` written as `'\''`, so that it can stand inside single quotes.
pub open spec fn quote_escaped(s: Seq<char>) -> Seq<char>
    decreases s.len(),
{
    if s.len() == 0 {
        Seq::empty()
    } else if s.last() == '\'' {
        quote_escaped(s.drop_last()) + "'\\''"@
    } else {
        quote_escaped(s.drop_last()).push(s.last())
    }
}

/// Writes each `'` of `s` as `'\''`.
pub fn escape_single_quotes(s: &str) -> (r: String)
    ensures
        r@ == quote_escaped(s@),
{
    let n = s.unicode_len();
    let mut r = String::new();
    let mut i: usize = 0;
    while i < n
        invariant
            n == s@.len(),
            i <= n,
            r@ == quote_escaped(s@.subrange(0, i as int)),
        decreases n - i,
    {
        let c = s.get_char(i);
        let ghost p = s@.subrange(0, i + 1);
        assert(p.drop_last() =~= s@.subrange(0, i as int));
        assert(p.last() == c);
        if c == '\'' {
            r.append("'\\''");
        } else {
            push_char(&mut r, c);
        }
        i = i + 1;
    }
    assert(s@.subrange(0, n as int) =~= s@);
    r
}

/// The `export` prefix that sets every variable of a table, in order.
pub open spec fn exports(env: Seq<(String, String)>) -> Seq<char>
    decreases env.len(),
{
    if env.len() == 0 {
        Seq::empty()
    } else {
        exports(env.drop_last()) + "export "@ + env.last().0@ + "='"@ + quote_escaped(
            env.last().1@,
        ) + "' && "@
    }
}

/// The command sent to a remote shell: change to the tracked directory,
/// export the tracked variables, then run the user's command.
pub open spec fn remote_command(cwd: Seq<char>, env: Seq<(String, String)>, cmd: Seq<char>) -> Seq<
    char,
> {
    "cd "@ + cwd + " && "@ + exports(env) + cmd
}

/// Builds the command sent to a remote shell.
pub fn build_remote_command(cwd: &str, env: &Vec<(String, String)>, cmd: &str) -> (r: String)
    ensures
        r@ == remote_command(cwd@, env@, cmd@),
{
    let mut r = concat3("cd ", cwd, " && ");
    let ghost head = r@;
    let mut i: usize = 0;
    while i < env.len()
        invariant
            i <= env@.len(),
            r@ == head + exports(env@.subrange(0, i as int)),
        decreases env@.len() - i,
    {
        let ghost p = env@.subrange(0, i + 1);
        assert(p.drop_last() =~= env@.subrange(0, i as int));
        assert(p.last() == env@[i as int]);
        r.append("export ");
        r.append(env[i].0.as_str());
        r.append("='");
        let v = escape_single_quotes(env[i].1.as_str());
        r.append(v.as_str());
        r.append("' && ");
        assert(r@ =~= head + exports(p));
        i = i + 1;
    }
    assert(env@.subrange(0, env@.len() as int) =~= env@);
    r.append(cmd);
    assert(r@ =~= remote_command(cwd@, env@, cmd@));
    r
}

/// Whether a command changes directory: its trimmed text is `cd` or starts with `cd `.
pub open spec fn is_cd_command(cmd: Seq<char>) -> bool {
    let t = trim_seq(cmd);
    t == "cd"@ || has_prefix(t, "cd "@)
}

/// Whether `cmd` changes directory.
pub fn is_cd(cmd: &str) -> (r: bool)
    ensures
        r == is_cd_command(cmd@),
{
    let t = trim_str(cmd);
    same_text(t, "cd") || starts_with(t, "cd ")
}

/// The words finished so far and the word being read, after reading `s`.
pub open spec fn words_state(s: Seq<char>) -> (Seq<Seq<char>>, Seq<char>)
    decreases s.len(),
{
    if s.len() == 0 {
        (Seq::empty(), Seq::empty())
    } else {
        let (done, cur) = words_state(s.drop_last());
        if whitespace_char(s.last()) {
            if cur.len() > 0 { (done.push(cur), Seq::empty()) } else { (done, Seq::empty()) }
        } else {
            (done, cur.push(s.last()))
        }
    }
}

/// The whitespace-separated words of `s`: the text split at whitespace,
/// without empty pieces.
pub open spec fn whitespace_words(s: Seq<char>) -> Seq<Seq<char>> {
    let (done, cur) = words_state(s);
    if cur.len() > 0 { done.push(cur) } else { done }
}

/// Relies on `str::split_whitespace`: splits at `White_Space` characters and
/// yields no empty word.
#[verifier::external_body]
pub(crate) fn split_words(s: &str) -> (r: Vec<String>)
    ensures
        r@.len() == whitespace_words(s@).len(),
        forall|i: int| 0 <= i < r@.len() ==> (#[trigger] r@[i])@ == whitespace_words(s@)[i],
{
    s.split_whitespace().map(|w| w.to_string()).collect()
}

/// The argument of a `cd` command: its second word, if any.
pub open spec fn cd_argument(cmd: Seq<char>) -> Option<Seq<char>> {
    let w = whitespace_words(cmd);
    if w.len() >= 2 {
        Some(w[1])
    } else {
        None
    }
}

/// The directory a `cd` argument names: a leading `~` stands for the home
/// directory (kept as `~` when there is none), and a relative path is taken
/// from `cwd`. With no argument it is the home directory; `None` when there
/// is none.
pub open spec fn cd_target(cwd: Seq<char>, home: Option<Seq<char>>, arg: Option<Seq<char>>) -> Option<
    Seq<char>,
> {
    match arg {
        None => home,
        Some(a) => {
            let expanded = if a.len() > 0 && a[0] == '~' {
                match home {
                    Some(h) => h + a.drop_first(),
                    None => a,
                }
            } else {
                a
            };
            if has_prefix(expanded, "/"@) {
                Some(expanded)
            } else {
                Some(cwd + "/"@ + expanded)
            }
        },
    }
}

/// The characters of an optional string slice.
pub open spec fn opt_str_view(o: Option<&str>) -> Option<Seq<char>> {
    match o {
        Some(s) => Some(s@),
        None => None,
    }
}

/// Resolves a `cd` argument to the directory it names.
pub fn resolve_cd_target(cwd: &str, home: Option<String>, arg: Option<&str>) -> (r: Option<String>)
    ensures
        opt_view(r) == cd_target(cwd@, opt_view(home), opt_str_view(arg)),
{
    proof {
        reveal_strlit("~");
        reveal_strlit("/");
    }
    match arg {
        None => home,
        Some(a) => {
            let expanded = if starts_with(a, "~") {
                match &home {
                    Some(h) => {
                        let n = a.unicode_len();
                        let rest = a.substring_char(1, n);
                        assert(rest@ =~= a@.drop_first());
                        concat2(h.as_str(), rest)
                    },
                    None => String::from_str(a),
                }
            } else {
                String::from_str(a)
            };
            proof {
                if a@.len() > 0 && a@[0] == '~' {
                    assert(a@.subrange(0, 1) =~= "~"@);
                }
                if has_prefix(a@, "~"@) {
                    assert(a@[0] == "~"@[0]);
                }
            }
            assert(expanded@ == (if a@.len() > 0 && a@[0] == '~' {
                match opt_view(home) {
                    Some(h) => h + a@.drop_first(),
                    None => a@,
                }
            } else {
                a@
            }));
            if starts_with(expanded.as_str(), "/") {
                Some(expanded)
            } else {
                Some(concat3(cwd, "/", expanded.as_str()))
            }
        },
    }
}

/// The reply to a `cd` whose target is missing or not a directory; `None`
/// when the target is a directory.
pub open spec fn cd_probe_reply(target: Seq<char>, exists: bool, is_dir: bool) -> Option<Seq<char>> {
    if !exists {
        Some("cd: "@ + target + ": No such file or directory\n"@)
    } else if !is_dir {
        Some("cd: "@ + target + ": Not a directory\n"@)
    } else {
        None
    }
}

/// A failed `cd`: with no target (no home directory), or with a target that
/// the disk probe refused.
pub open spec fn cd_failure(
    cwd: Seq<char>,
    home: Option<Seq<char>>,
    arg: Option<Seq<char>>,
    res: ExecuteResult,
) -> bool {
    match cd_target(cwd, home, arg) {
        None => is_failure_reply(res, "cd: HOME not set\n"@),
        Some(t) => exists|e: bool, d: bool|
            #[trigger] cd_probe_reply(t, e, d) matches Some(m) && is_failure_reply(res, m),
    }
}

/// A failed `cd`, whatever the home directory was.
pub open spec fn cd_refused(cwd: Seq<char>, arg: Option<Seq<char>>, res: ExecuteResult) -> bool {
    exists|home: Option<Seq<char>>| #[trigger] cd_failure(cwd, home, arg, res)
}

/// Relies on `std::path::Path::exists`: whether something is at `path`.
#[verifier::external_body]
fn path_exists(path: &str) -> (r: bool) {
    std::path::Path::new(path).exists()
}

/// Relies on `std::path::Path::is_dir`: whether a directory is at `path`.
#[verifier::external_body]
fn path_is_dir(path: &str) -> (r: bool) {
    std::path::Path::new(path).is_dir()
}

/// What the caller must do to run a command on a local session.
#[derive(Debug, Clone)]
pub enum LocalAction {
    /// Nothing to run: this is the result.
    Reply(ExecuteResult),
    /// Run `<shell> -c "cd <target> && pwd"` and hand the outcome to `finish_cd`.
    ChangeDir { target: String },
    /// Run `<shell> -c <command>` in the session's directory with its variables.
    Run { command: String },
}

/// How a shell invocation ended.
#[derive(Debug, Clone)]
pub enum ShellOutcome {
    /// The shell could not be started; the text says why.
    SpawnFailed(String),
    /// The shell ran; `code` is absent when no exit code was reported.
    Exited { success: bool, code: Option<i32>, stdout: String, stderr: String },
}

/// The result of a shell that ran: its output, and its exit code or `-1`
/// when none was reported.
pub fn process_result(stdout: String, stderr: String, code: Option<i32>) -> (r: ExecuteResult)
    ensures
        r.stdout == stdout,
        r.stderr == stderr,
        r.exit_code == (match code {
            Some(c) => c as int,
            None => -1,
        }),
{
    let exit_code = match code {
        Some(c) => c,
        None => -1,
    };
    ExecuteResult { stdout, stderr, exit_code }
}

/// A local shell session.
#[derive(Debug, Clone)]
pub struct LocalSession {
    name: String,
    shell: String,
    cwd: String,
    env: Vec<(String, String)>,
    connected: bool,
}

impl LocalSession {
    pub closed spec fn name_view(&self) -> Seq<char> {
        self.name@
    }

    pub closed spec fn shell_view(&self) -> Seq<char> {
        self.shell@
    }

    pub closed spec fn cwd_view(&self) -> Seq<char> {
        self.cwd@
    }

    pub closed spec fn env_map(&self) -> Map<Seq<char>, Seq<char>> {
        env_view(self.env@)
    }

    pub closed spec fn connected(&self) -> bool {
        self.connected
    }

    /// A session with the given shell and working directory and no variables.
    pub fn with_environment(name: &str, shell: String, cwd: String) -> (r: Self)
        ensures
            r.name_view() == name@,
            r.shell_view() == shell@,
            r.cwd_view() == cwd@,
            r.env_map() == Map::<Seq<char>, Seq<char>>::empty(),
            r.connected(),
    {
        LocalSession { name: String::from_str(name), shell, cwd, env: Vec::new(), connected: true }
    }

    /// A session with `shell`, or `/bin/sh` when `None`, starting in the home
    /// directory, or in `/` when no home directory is known.
    pub fn new(name: &str, shell: Option<String>) -> (r: Self)
        ensures
            r.name_view() == name@,
            r.shell_view() == (match shell {
                Some(s) => s@,
                None => "/bin/sh"@,
            }),
            r.cwd_view().len() > 0,
            r.env_map() == Map::<Seq<char>, Seq<char>>::empty(),
            r.connected(),
    {
        let shell = match shell {
            Some(s) => s,
            None => String::from_str("/bin/sh"),
        };
        let cwd = match home_dir() {
            Some(h) => if h.as_str().unicode_len() > 0 {
                h
            } else {
                String::from_str("/")
            },
            None => String::from_str("/"),
        };
        proof {
            reveal_strlit("/");
        }
        Self::with_environment(name, shell, cwd)
    }

    /// Uses another shell.
    pub fn set_shell(&mut self, shell: &str)
        ensures
            final(self).shell_view() == shell@,
            final(self).name_view() == old(self).name_view(),
            final(self).cwd_view() == old(self).cwd_view(),
            final(self).env_map() == old(self).env_map(),
            final(self).connected() == old(self).connected(),
    {
        self.shell = String::from_str(shell);
    }

    pub fn name(&self) -> (r: &str)
        ensures
            r@ == self.name_view(),
    {
        self.name.as_str()
    }

    pub fn shell(&self) -> (r: &str)
        ensures
            r@ == self.shell_view(),
    {
        self.shell.as_str()
    }

    pub fn session_type(&self) -> (r: &'static str)
        ensures
            r@ == "local"@,
    {
        "local"
    }

    pub fn is_connected(&self) -> (r: bool)
        ensures
            r == self.connected(),
    {
        self.connected
    }

    /// Marks the session connected; nothing else is needed locally.
    pub fn connect(&mut self) -> (r: Result<(), ThopError>)
        ensures
            r is Ok,
            final(self).connected(),
            final(self).cwd_view() == old(self).cwd_view(),
            final(self).env_map() == old(self).env_map(),
            final(self).name_view() == old(self).name_view(),
    {
        self.connected = true;
        Ok(())
    }

    /// Marks the session disconnected.
    pub fn disconnect(&mut self) -> (r: Result<(), ThopError>)
        ensures
            r is Ok,
            !final(self).connected(),
            final(self).cwd_view() == old(self).cwd_view(),
            final(self).env_map() == old(self).env_map(),
            final(self).name_view() == old(self).name_view(),
    {
        self.connected = false;
        Ok(())
    }

    pub fn get_cwd(&self) -> (r: &str)
        ensures
            r@ == self.cwd_view(),
    {
        self.cwd.as_str()
    }

    /// Moves to `path` when it is a directory; otherwise fails and keeps the
    /// current directory.
    pub fn set_cwd(&mut self, path: &str) -> (r: Result<(), ThopError>)
        ensures
            r is Ok ==> final(self).cwd_view() == path@,
            r is Err ==> final(self).cwd_view() == old(self).cwd_view(),
            final(self).name_view() == old(self).name_view(),
            final(self).env_map() == old(self).env_map(),
            final(self).connected() == old(self).connected(),
    {
        if !path_exists(path) || !path_is_dir(path) {
            return Err(ThopError::Io(String::from_str("Directory not found")));
        }
        self.cwd = String::from_str(path);
        Ok(())
    }

    /// The variables exported to every command.
    pub fn get_env(&self) -> (r: Vec<(String, String)>)
        ensures
            env_view(r@) == self.env_map(),
    {
        clone_env(&self.env)
    }

    /// The value of one variable.
    pub fn env_value(&self, key: &str) -> (r: Option<String>)
        ensures
            opt_view(r) == (if self.env_map().contains_key(key@) {
                Some(self.env_map()[key@])
            } else {
                None
            }),
    {
        env_get(&self.env, key)
    }

    /// Sets a variable for every later command.
    pub fn set_env(&mut self, key: &str, value: &str)
        ensures
            final(self).env_map() == old(self).env_map().insert(key@, value@),
            final(self).cwd_view() == old(self).cwd_view(),
            final(self).name_view() == old(self).name_view(),
            final(self).connected() == old(self).connected(),
    {
        env_set(&mut self.env, key, value);
    }

    /// Checks a resolved `cd` target on disk.
    fn probe_cd_target(target: String) -> (r: LocalAction)
        ensures
            match r {
                LocalAction::Reply(res) => exists|e: bool, d: bool|
                    #[trigger] cd_probe_reply(target@, e, d) matches Some(m) && is_failure_reply(
                        res,
                        m,
                    ),
                LocalAction::ChangeDir { target: t } => t@ == target@,
                LocalAction::Run { .. } => false,
            },
    {
        let exists = path_exists(target.as_str());
        let is_dir = path_is_dir(target.as_str());
        cd_probe(target, exists, is_dir)
    }

    /// Decides how to run `cmd`. A `cd` is resolved against the tracked
    /// directory and the home directory and checked on disk; any other
    /// command runs through the shell.
    pub fn prepare(&self, cmd: &str) -> (r: LocalAction)
        ensures
            !is_cd_command(cmd@) ==> r == (LocalAction::Run { command: r->command }) && r->command@
                == cmd@,
            is_cd_command(cmd@) ==> match r {
                LocalAction::Run { .. } => false,
                LocalAction::ChangeDir { target } => exists|home: Option<Seq<char>>|
                    #[trigger] cd_target(self.cwd_view(), home, cd_argument(cmd@)) == Some(
                        target@,
                    ),
                LocalAction::Reply(res) => cd_refused(self.cwd_view(), cd_argument(cmd@), res),
            },
    {
        if !is_cd(cmd) {
            return LocalAction::Run { command: String::from_str(cmd) };
        }
        let words = split_words(cmd);
        let home = home_dir();
        let ghost h = opt_view(home);
        let target = if words.len() >= 2 {
            resolve_cd_target(self.cwd.as_str(), home, Some(words[1].as_str()))
        } else {
            resolve_cd_target(self.cwd.as_str(), home, None)
        };
        match target {
            None => {
                let res = failure_reply(String::from_str("cd: HOME not set\n"));
                assert(cd_failure(self.cwd_view(), h, cd_argument(cmd@), res));
                assert(cd_refused(self.cwd_view(), cd_argument(cmd@), res));
                LocalAction::Reply(res)
            },
            Some(t) => {
                let ghost tv = t@;
                let r = Self::probe_cd_target(t);
                proof {
                    assert(cd_target(self.cwd_view(), h, cd_argument(cmd@)) == Some(tv));
                    if r is Reply {
                        assert(cd_failure(self.cwd_view(), h, cd_argument(cmd@), r->Reply_0));
                        assert(cd_refused(self.cwd_view(), cd_argument(cmd@), r->Reply_0));
                    }
                }
                r
            },
        }
    }

    /// Applies the outcome of `cd <target> && pwd`: on success with a
    /// non-empty directory, that directory becomes the tracked one; otherwise
    /// the directory stays and the shell's error is returned.
    pub fn finish_cd(&mut self, target: &str, outcome: ShellOutcome) -> (r: ExecuteResult)
        ensures
            final(self).name_view() == old(self).name_view(),
            final(self).env_map() == old(self).env_map(),
            final(self).connected() == old(self).connected(),
            match outcome {
                ShellOutcome::SpawnFailed(e) => final(self).cwd_view() == old(self).cwd_view()
                    && is_failure_reply(r, "cd: "@ + target@ + ": "@ + e@ + "\n"@),
                ShellOutcome::Exited { success, code, stdout, stderr } => if success && trim_seq(
                    stdout@,
                ).len() > 0 {
                    final(self).cwd_view() == trim_seq(stdout@) && r.exit_code == 0
                        && r.stdout@.len() == 0 && r.stderr@.len() == 0
                } else {
                    final(self).cwd_view() == old(self).cwd_view() && r.stdout@.len() == 0
                        && r.stderr == stderr && r.exit_code == (match code {
                        Some(c) => if success {
                            1
                        } else {
                            c as int
                        },
                        None => 1,
                    })
                },
            },
    {
        match outcome {
            ShellOutcome::SpawnFailed(e) => {
                let mut m = concat3("cd: ", target, ": ");
                m.append(e.as_str());
                m.append("\n");
                failure_reply(m)
            },
            ShellOutcome::Exited { success, code, stdout, stderr } => {
                let dir = trim_str(stdout.as_str());
                if success && dir.unicode_len() > 0 {
                    self.cwd = String::from_str(dir);
                    ExecuteResult::default()
                } else {
                    let exit_code = match code {
                        Some(c) => if success {
                            1
                        } else {
                            c
                        },
                        None => 1,
                    };
                    ExecuteResult { stdout: String::new(), stderr, exit_code }
                }
            },
        }
    }
}

/// The reply for a probed `cd` target, or the change of directory to make.
pub fn cd_probe(target: String, exists: bool, is_dir: bool) -> (r: LocalAction)
    ensures
        match cd_probe_reply(target@, exists, is_dir) {
            Some(m) => r matches LocalAction::Reply(res) && is_failure_reply(res, m),
            None => r matches LocalAction::ChangeDir { target: t } && t@ == target@,
        },
{
    if !exists {
        LocalAction::Reply(failure_reply(concat3("cd: ", target.as_str(), ": No such file or directory\n")))
    } else if !is_dir {
        LocalAction::Reply(failure_reply(concat3("cd: ", target.as_str(), ": Not a directory\n")))
    } else {
        LocalAction::ChangeDir { target }
    }
}

} // verus!
