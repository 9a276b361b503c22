//! Text handling behind the human command surface: quoting a word for the
//! shell, and splitting a `session:path` file argument.
use vstd::prelude::*;
use crate::error::ThopError;
use crate::logger::lowercase_of;
use crate::manager::{remote_named, Manager};
use crate::logger::to_lowercase as lowercase;
use crate::session::{quote_escaped, split_words, whitespace_words};
use crate::text::{concat2, concat3, is_whitespace, same_text, whitespace_char};

verus! {

/// Whether `c` forces quoting: whitespace, a quote, a backslash or `$`.
pub open spec fn needs_quote(c: char) -> bool {
    whitespace_char(c) || c == '\'' || c == '"' || c == '\\' || c == '$'
}

/// `s` as one shell word: unchanged when no character forces quoting,
/// otherwise in single quotes with each `'` written as `'\''`.
pub open spec fn shell_word(s: Seq<char>) -> Seq<char> {
    if exists|i: int| 0 <= i < s.len() && needs_quote(#[trigger] s[i]) {
        "'"@ + quote_escaped(s) + "'"@
    } else {
        s
    }
}

/// Quotes `s` as one shell word.
pub fn shell_escape(s: &str) -> (r: String)
    ensures
        r@ == shell_word(s@),
{
    let n = s.unicode_len();
    let mut i: usize = 0;
    let mut quote = false;
    while i < n
        invariant
            n == s@.len(),
            i <= n,
            !quote ==> forall|j: int| 0 <= j < i ==> !needs_quote(#[trigger] s@[j]),
            quote ==> exists|j: int| 0 <= j < n && needs_quote(#[trigger] s@[j]),
        decreases n - i,
    {
        let c = s.get_char(i);
        if is_whitespace(c) || c == '\'' || c == '"' || c == '\\' || c == '$' {
            assert(needs_quote(s@[i as int]));
            quote = true;
        }
        i = i + 1;
    }
    if quote {
        let body = crate::session::escape_single_quotes(s);
        concat3("'", body.as_str(), "'")
    } else {
        String::from_str(s)
    }
}

/// Whether `c` is an ASCII letter.
pub open spec fn ascii_letter(c: char) -> bool {
    ('a' <= c && c <= 'z') || ('A' <= c && c <= 'Z')
}

/// The session and path of a file argument. A drive-letter path such as
/// `C:\x` has no session; otherwise text before the first `:`, when not
/// empty, names the session and the rest is the path; with no such `:`
/// there is no session.
pub open spec fn file_spec(s: Seq<char>) -> (Seq<char>, Seq<char>) {
    if s.len() >= 2 && s[1] == ':' && ascii_letter(s[0]) {
        (Seq::empty(), s)
    } else if exists|k: int| 0 < k < s.len() && s[k] == ':' && forall|j: int| 0 <= j < k ==> s[j] != ':' {
        let k = choose|k: int| 0 < k < s.len() && s[k] == ':' && forall|j: int| 0 <= j < k ==> s[j] != ':';
        (s.subrange(0, k), s.subrange(k + 1, s.len() as int))
    } else {
        (Seq::empty(), s)
    }
}

/// Splits a file argument into its session (empty when none) and path.
pub fn parse_file_spec(spec: &str) -> (r: (String, String))
    ensures
        (r.0@, r.1@) == file_spec(spec@),
{
    let n = spec.unicode_len();
    if n >= 2 && spec.get_char(1) == ':' {
        let first = spec.get_char(0);
        if ('a' <= first && first <= 'z') || ('A' <= first && first <= 'Z') {
            return (String::new(), String::from_str(spec));
        }
    }
    let mut i: usize = 0;
    while i < n
        invariant
            n == spec@.len(),
            i <= n,
            forall|j: int| 0 <= j < i ==> spec@[j] != ':',
            !(spec@.len() >= 2 && spec@[1] == ':' && ascii_letter(spec@[0])),
        decreases n - i,
    {
        if spec.get_char(i) == ':' {
            if i > 0 {
                let session = spec.substring_char(0, i);
                let path = spec.substring_char(i + 1, n);
                proof {
                    assert(0 < i < spec@.len() && spec@[i as int] == ':' && forall|j: int| 0 <= j < i ==> spec@[j] != ':');
                    let k = choose|k: int| 0 < k < spec@.len() && spec@[k] == ':' && forall|j: int| 0 <= j < k ==> spec@[j] != ':';
                    assert(k == i as int) by {
                        if k < i {
                        } else if k > i {
                            assert(spec@[i as int] != ':');
                        }
                    }
                }
                return (String::from_str(session), String::from_str(path));
            } else {
                proof {
                    assert forall|k: int| 0 < k < spec@.len() && spec@[k] == ':' implies !(forall|j: int| 0 <= j < k ==> spec@[j] != ':') by {
                        assert(spec@[0] == ':');
                    }
                }
                return (String::new(), String::from_str(spec));
            }
        }
        i = i + 1;
    }
    (String::new(), String::from_str(spec))
}

} // verus!

verus! {

/// A command of the human command surface.
#[derive(Debug, Clone, Copy, PartialEq, Eq, Structural)]
pub enum SlashKind {
    Help,
    Status,
    Connect,
    Switch,
    Local,
    Close,
    Exit,
    Env,
    Auth,
    Read,
    Write,
    Trust,
    AddSession,
    Bg,
    Jobs,
    Fg,
    Kill,
    Copy,
    Shell,
}

/// The command a lower-case word names, aliases included.
pub open spec fn slash_named(w: Seq<char>) -> Option<SlashKind> {
    if w == "/help"@ || w == "/h"@ || w == "/?"@ {
        Some(SlashKind::Help)
    } else if w == "/status"@ || w == "/s"@ || w == "/sessions"@ || w == "/list"@ {
        Some(SlashKind::Status)
    } else if w == "/connect"@ || w == "/c"@ {
        Some(SlashKind::Connect)
    } else if w == "/switch"@ || w == "/sw"@ {
        Some(SlashKind::Switch)
    } else if w == "/local"@ || w == "/l"@ {
        Some(SlashKind::Local)
    } else if w == "/close"@ || w == "/disconnect"@ || w == "/d"@ {
        Some(SlashKind::Close)
    } else if w == "/exit"@ || w == "/quit"@ || w == "/q"@ {
        Some(SlashKind::Exit)
    } else if w == "/env"@ {
        Some(SlashKind::Env)
    } else if w == "/auth"@ {
        Some(SlashKind::Auth)
    } else if w == "/read"@ || w == "/cat"@ {
        Some(SlashKind::Read)
    } else if w == "/write"@ {
        Some(SlashKind::Write)
    } else if w == "/trust"@ {
        Some(SlashKind::Trust)
    } else if w == "/add-session"@ || w == "/add"@ {
        Some(SlashKind::AddSession)
    } else if w == "/bg"@ {
        Some(SlashKind::Bg)
    } else if w == "/jobs"@ {
        Some(SlashKind::Jobs)
    } else if w == "/fg"@ {
        Some(SlashKind::Fg)
    } else if w == "/kill"@ {
        Some(SlashKind::Kill)
    } else if w == "/copy"@ || w == "/cp"@ {
        Some(SlashKind::Copy)
    } else if w == "/shell"@ || w == "/sh"@ {
        Some(SlashKind::Shell)
    } else {
        None
    }
}

/// Looks up a lower-case command word.
pub fn slash_kind(w: &str) -> (r: Option<SlashKind>)
    ensures
        r == slash_named(w@),
{
    if same_text(w, "/help") || same_text(w, "/h") || same_text(w, "/?") {
        Some(SlashKind::Help)
    } else if same_text(w, "/status") || same_text(w, "/s") || same_text(w, "/sessions") || same_text(w, "/list") {
        Some(SlashKind::Status)
    } else if same_text(w, "/connect") || same_text(w, "/c") {
        Some(SlashKind::Connect)
    } else if same_text(w, "/switch") || same_text(w, "/sw") {
        Some(SlashKind::Switch)
    } else if same_text(w, "/local") || same_text(w, "/l") {
        Some(SlashKind::Local)
    } else if same_text(w, "/close") || same_text(w, "/disconnect") || same_text(w, "/d") {
        Some(SlashKind::Close)
    } else if same_text(w, "/exit") || same_text(w, "/quit") || same_text(w, "/q") {
        Some(SlashKind::Exit)
    } else if same_text(w, "/env") {
        Some(SlashKind::Env)
    } else if same_text(w, "/auth") {
        Some(SlashKind::Auth)
    } else if same_text(w, "/read") || same_text(w, "/cat") {
        Some(SlashKind::Read)
    } else if same_text(w, "/write") {
        Some(SlashKind::Write)
    } else if same_text(w, "/trust") {
        Some(SlashKind::Trust)
    } else if same_text(w, "/add-session") || same_text(w, "/add") {
        Some(SlashKind::AddSession)
    } else if same_text(w, "/bg") {
        Some(SlashKind::Bg)
    } else if same_text(w, "/jobs") {
        Some(SlashKind::Jobs)
    } else if same_text(w, "/fg") {
        Some(SlashKind::Fg)
    } else if same_text(w, "/kill") {
        Some(SlashKind::Kill)
    } else if same_text(w, "/copy") || same_text(w, "/cp") {
        Some(SlashKind::Copy)
    } else if same_text(w, "/shell") || same_text(w, "/sh") {
        Some(SlashKind::Shell)
    } else {
        None
    }
}

/// The fewest arguments a command takes.
pub open spec fn min_args(k: SlashKind) -> nat {
    match k {
        SlashKind::Connect | SlashKind::Switch | SlashKind::Close | SlashKind::Auth
        | SlashKind::Read | SlashKind::Trust | SlashKind::Bg | SlashKind::Fg | SlashKind::Kill
        | SlashKind::Shell => 1,
        SlashKind::Write | SlashKind::AddSession | SlashKind::Copy => 2,
        _ => 0,
    }
}

/// The usage line shown when a command lacks arguments.
pub open spec fn usage_text(k: SlashKind) -> Seq<char> {
    match k {
        SlashKind::Connect => "usage: /connect <session>"@,
        SlashKind::Switch => "usage: /switch <session>"@,
        SlashKind::Close => "usage: /close <session>"@,
        SlashKind::Auth => "usage: /auth <session>"@,
        SlashKind::Read => "usage: /read <path>"@,
        SlashKind::Write => "usage: /write <path> <content>"@,
        SlashKind::Trust => "usage: /trust <session>"@,
        SlashKind::AddSession => "usage: /add-session <name> <host> [user]"@,
        SlashKind::Bg => "usage: /bg <command>"@,
        SlashKind::Fg => "usage: /fg <job_id>"@,
        SlashKind::Kill => "usage: /kill <job_id>"@,
        SlashKind::Copy => "usage: /copy <source> <destination>\n  Examples:\n    /copy local:/path/to/file remote:/path/to/file\n    /copy remote:/path/to/file local:/path/to/file"@,
        SlashKind::Shell => "usage: /shell <command>\n  Runs command with interactive support (vim, top, etc.)"@,
        _ => Seq::empty(),
    }
}

/// A command line split into its command and arguments.
pub struct SlashCommand {
    pub kind: SlashKind,
    pub args: Vec<String>,
}

/// The outcome of reading a command line: `None` when it holds no words; a
/// command when its first word, in lower case, names one and enough
/// arguments follow; otherwise the text of the error.
pub fn parse_slash(input: &str) -> (r: Option<Result<SlashCommand, ThopError>>)
    ensures
        whitespace_words(input@).len() == 0 <==> r is None,
        r matches Some(res) ==> ({
            let w = whitespace_words(input@);
            let word = lowercase_of(w[0]);
            match slash_named(word) {
                None => res matches Err(ThopError::Other(m)) && m@ == "unknown command: "@ + word
                    + " (use /help for available commands)"@,
                Some(k) => if w.len() - 1 < min_args(k) {
                    res matches Err(ThopError::Other(m)) && m@ == usage_text(k)
                } else {
                    res matches Ok(c) && c.kind == k && c.args@.len() == w.len() - 1 && forall|i: int|
                        0 <= i < c.args@.len() ==> (#[trigger] c.args@[i])@ == w[i + 1]
                },
            }
        }),
{
    let words = split_words(input);
    if words.len() == 0 {
        return None;
    }
    let word = lowercase(words[0].as_str());
    let kind = match slash_kind(word.as_str()) {
        Some(k) => k,
        None => {
            let m = concat3("unknown command: ", word.as_str(), " (use /help for available commands)");
            return Some(Err(ThopError::Other(m)));
        },
    };
    let needed: usize = match kind {
        SlashKind::Connect | SlashKind::Switch | SlashKind::Close | SlashKind::Auth
        | SlashKind::Read | SlashKind::Trust | SlashKind::Bg | SlashKind::Fg | SlashKind::Kill
        | SlashKind::Shell => 1,
        SlashKind::Write | SlashKind::AddSession | SlashKind::Copy => 2,
        _ => 0,
    };
    if words.len() - 1 < needed {
        let usage = match kind {
            SlashKind::Connect => "usage: /connect <session>",
            SlashKind::Switch => "usage: /switch <session>",
            SlashKind::Close => "usage: /close <session>",
            SlashKind::Auth => "usage: /auth <session>",
            SlashKind::Read => "usage: /read <path>",
            SlashKind::Write => "usage: /write <path> <content>",
            SlashKind::Trust => "usage: /trust <session>",
            SlashKind::AddSession => "usage: /add-session <name> <host> [user]",
            SlashKind::Bg => "usage: /bg <command>",
            SlashKind::Fg => "usage: /fg <job_id>",
            SlashKind::Kill => "usage: /kill <job_id>",
            SlashKind::Copy => "usage: /copy <source> <destination>\n  Examples:\n    /copy local:/path/to/file remote:/path/to/file\n    /copy remote:/path/to/file local:/path/to/file",
            SlashKind::Shell => "usage: /shell <command>\n  Runs command with interactive support (vim, top, etc.)",
            _ => "",
        };
        return Some(Err(ThopError::Other(String::from_str(usage))));
    }
    let mut args: Vec<String> = Vec::new();
    let mut i: usize = 1;
    while i < words.len()
        invariant
            1 <= i <= words@.len(),
            args@.len() == i - 1,
            forall|j: int| 0 <= j < args@.len() ==> (#[trigger] args@[j])@ == words@[j + 1]@,
        decreases words@.len() - i,
    {
        args.push(words[i].clone());
        i = i + 1;
    }
    Some(Ok(SlashCommand { kind, args }))
}

/// Joins words with single spaces.
pub open spec fn joined_words(w: Seq<Seq<char>>) -> Seq<char>
    decreases w.len(),
{
    if w.len() == 0 {
        Seq::empty()
    } else if w.len() == 1 {
        w[0]
    } else {
        joined_words(w.drop_last()) + " "@ + w.last()
    }
}

/// The words of `args` from position `from` on, joined with single spaces.
pub fn join_args(args: &Vec<String>, from: usize) -> (r: String)
    requires
        from <= args@.len(),
    ensures
        r@ == joined_words(args@.subrange(from as int, args@.len() as int).map_values(|s: String| s@)),
{
    let mut r = String::new();
    let mut i: usize = from;
    while i < args.len()
        invariant
            from <= i <= args@.len(),
            r@ == joined_words(args@.subrange(from as int, i as int).map_values(|s: String| s@)),
        decreases args@.len() - i,
    {
        let ghost prev = args@.subrange(from as int, i as int).map_values(|s: String| s@);
        let ghost next = args@.subrange(from as int, i + 1).map_values(|s: String| s@);
        assert(next.drop_last() =~= prev);
        if i > from {
            r.append(" ");
        } else {
            assert(prev.len() == 0);
        }
        r.append(args[i].as_str());
        i = i + 1;
    }
    r
}

/// The command that prints a file.
pub open spec fn read_command_text(path: Seq<char>) -> Seq<char> {
    "cat "@ + shell_word(path)
}

/// The command that prints the file at `path`.
pub fn read_command(path: &str) -> (r: String)
    ensures
        r@ == read_command_text(path@),
{
    let p = shell_escape(path);
    concat2("cat ", p.as_str())
}

/// The command that writes `content` to a file through a here-document.
pub open spec fn write_command_text(path: Seq<char>, content: Seq<char>) -> Seq<char> {
    "cat > "@ + shell_word(path) + " << 'THOP_EOF'\n"@ + content + "\nTHOP_EOF"@
}

/// The command that writes `content` to the file at `path`.
pub fn write_command(path: &str, content: &str) -> (r: String)
    ensures
        r@ == write_command_text(path@, content@),
{
    let p = shell_escape(path);
    let mut r = concat3("cat > ", p.as_str(), " << 'THOP_EOF'\n");
    r.append(content);
    r.append("\nTHOP_EOF");
    r
}

/// How a copy between two sessions runs, every step through a shell command.
#[derive(Debug, Clone)]
pub enum CopyPlan {
    /// Read the local file and write it remotely with `write_command`.
    Upload { local_path: String, session: String, remote_path: String },
    /// Read the remote file with `read_command` and write it locally.
    Download { session: String, remote_path: String, local_path: String },
    /// Read remotely with `read_command`, then write remotely with `write_command`.
    Relay { from_session: String, from_path: String, to_session: String, to_path: String },
}

/// The session a side of a copy names: the active one when empty; the
/// active one for `remote`, unless that is the local session (`None`).
pub open spec fn copy_side(name: Seq<char>, active: Seq<char>) -> Option<Seq<char>> {
    if name.len() == 0 {
        Some(active)
    } else if name == "remote"@ {
        if active == "local"@ { None } else { Some(active) }
    } else {
        Some(name)
    }
}

/// The message when `remote` is used while the local session is active.
pub open spec fn no_remote_text() -> Seq<char> {
    "no remote session active - use session name instead"@
}

fn session_or(name: String, active: &str) -> (r: Result<String, ThopError>)
    ensures
        match copy_side(name@, active@) {
            Some(n) => r matches Ok(s) && s@ == n,
            None => r matches Err(ThopError::Other(m)) && m@ == no_remote_text(),
        },
{
    if name.as_str().unicode_len() == 0 {
        return Ok(String::from_str(active));
    }
    if same_text(name.as_str(), "remote") {
        if same_text(active, "local") {
            return Err(ThopError::Other(String::from_str("no remote session active - use session name instead")));
        }
        return Ok(String::from_str(active));
    }
    Ok(name)
}

/// `r` is an `Other` error with text `m`.
pub open spec fn other_error<T>(r: Result<T, ThopError>, m: Seq<char>) -> bool {
    r matches Err(ThopError::Other(t)) && t@ == m
}

/// Plans a copy from `src` to `dst`, each `session:path` or a bare path on the
/// active session; `remote` names the active session when it is not local.
/// Both sessions must exist and at least one must be remote: a local source
/// uploads, a local destination downloads, two remote sides relay.
pub fn plan_copy(sessions: &Manager, src: &str, dst: &str) -> (r: Result<CopyPlan, ThopError>)
    requires
        sessions.wf(),
    ensures
        ({
            let sp = file_spec(src@);
            let dp = file_spec(dst@);
            let a = sessions.active_name();
            match (copy_side(sp.0, a), copy_side(dp.0, a)) {
                (None, _) => other_error(r, no_remote_text()),
                (Some(_), None) => other_error(r, no_remote_text()),
                (Some(f), Some(t)) => if !sessions.names().contains(f) {
                    other_error(r, "source session '"@ + f + "' not found"@)
                } else if !sessions.names().contains(t) {
                    other_error(r, "destination session '"@ + t + "' not found"@)
                } else {
                    let fr = remote_named(*sessions, f);
                    let tr = remote_named(*sessions, t);
                    if !fr && !tr {
                        other_error(r, "both source and destination are local - use regular cp command"@)
                    } else if !fr {
                        r matches Ok(CopyPlan::Upload { local_path, session, remote_path })
                            && local_path@ == sp.1 && session@ == t && remote_path@ == dp.1
                    } else if !tr {
                        r matches Ok(CopyPlan::Download { session, remote_path, local_path })
                            && session@ == f && remote_path@ == sp.1 && local_path@ == dp.1
                    } else {
                        r matches Ok(CopyPlan::Relay { from_session, from_path, to_session, to_path })
                            && from_session@ == f && from_path@ == sp.1 && to_session@ == t
                            && to_path@ == dp.1
                    }
                },
            }
        }),
{
    let (src_session, src_path) = parse_file_spec(src);
    let (dst_session, dst_path) = parse_file_spec(dst);
    let active = sessions.get_active_session_name();
    let from = session_or(src_session, active)?;
    let to = session_or(dst_session, active)?;
    let src_remote = match sessions.is_remote(from.as_str()) {
        None => return Err(ThopError::Other(concat3("source session '", from.as_str(), "' not found"))),
        Some(b) => b,
    };
    let dst_remote = match sessions.is_remote(to.as_str()) {
        None => return Err(ThopError::Other(concat3("destination session '", to.as_str(), "' not found"))),
        Some(b) => b,
    };
    if !src_remote && !dst_remote {
        Err(ThopError::Other(String::from_str("both source and destination are local - use regular cp command")))
    } else if !src_remote {
        Ok(CopyPlan::Upload { local_path: src_path, session: to, remote_path: dst_path })
    } else if !dst_remote {
        Ok(CopyPlan::Download { session: from, remote_path: src_path, local_path: dst_path })
    } else {
        Ok(CopyPlan::Relay { from_session: from, from_path: src_path, to_session: to, to_path: dst_path })
    }
}

/// The name and value of a `NAME=VALUE` assignment: the text before and
/// after its first `=`; `None` when there is no `=`.
pub open spec fn assignment(s: Seq<char>) -> Option<(Seq<char>, Seq<char>)> {
    if exists|k: int| 0 <= k < s.len() && s[k] == '=' && forall|j: int| 0 <= j < k ==> s[j] != '=' {
        let k = choose|k: int| 0 <= k < s.len() && s[k] == '=' && forall|j: int| 0 <= j < k ==> s[j] != '=';
        Some((s.subrange(0, k), s.subrange(k + 1, s.len() as int)))
    } else {
        None
    }
}

/// Splits a `NAME=VALUE` assignment at its first `=`.
pub fn parse_assignment(text: &str) -> (r: Option<(String, String)>)
    ensures
        match assignment(text@) {
            Some((k, v)) => r matches Some(p) && p.0@ == k && p.1@ == v,
            None => r is None,
        },
{
    let n = text.unicode_len();
    let mut i: usize = 0;
    while i < n
        invariant
            n == text@.len(),
            i <= n,
            forall|j: int| 0 <= j < i ==> text@[j] != '=',
        decreases n - i,
    {
        if text.get_char(i) == '=' {
            proof {
                assert(0 <= i < text@.len() && text@[i as int] == '=' && forall|j: int| 0 <= j < i ==> text@[j] != '=');
                let k = choose|k: int| 0 <= k < text@.len() && text@[k] == '=' && forall|j: int| 0 <= j < k ==> text@[j] != '=';
                assert(k == i as int) by {
                    if k > i {
                        assert(text@[i as int] != '=');
                    }
                }
            }
            let name = text.substring_char(0, i);
            let value = text.substring_char(i + 1, n);
            return Some((String::from_str(name), String::from_str(value)));
        }
        i = i + 1;
    }
    None
}

} // verus!
