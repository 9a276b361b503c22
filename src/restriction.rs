//! The command restriction policy: an ordered table of rules, each a regular
//! expression with a category and the command it names, checked against the
//! trimmed command text while the policy is enabled.
use vstd::prelude::*;
use crate::text::{trim_str, trim_seq, concat3};

verus! {

#[verifier::external_type_specification]
#[verifier::external_body]
pub struct ExRegex(regex::Regex);

#[verifier::external_type_specification]
#[verifier::external_body]
pub struct ExRegexError(regex::Error);

/// The characters that have a meaning in a regular expression.
pub open spec fn regex_meta(c: char) -> bool {
    c == '\\' || c == '.' || c == '+' || c == '*' || c == '?' || c == '(' || c == ')' || c == '|'
        || c == '[' || c == ']' || c == '{' || c == '}' || c == '^' || c == '$' || c == '#' || c
        == '&' || c == '-' || c == '~'
}

/// The text that `regex::escape` makes of `s`: each meta character preceded
/// by a backslash, so that the pattern matches `s` literally.
pub open spec fn regex_escaped(s: Seq<char>) -> Seq<char>
    decreases s.len(),
{
    if s.len() == 0 {
        Seq::empty()
    } else if regex_meta(s.last()) {
        regex_escaped(s.drop_last()).push('\\').push(s.last())
    } else {
        regex_escaped(s.drop_last()).push(s.last())
    }
}

/// Whether `regex::Regex::new` accepts `pattern`.
pub uninterp spec fn regex_compiles(pattern: Seq<char>) -> bool;

/// Whether the regular expression `pattern` matches somewhere in `text`.
pub uninterp spec fn regex_finds(pattern: Seq<char>, text: Seq<char>) -> bool;

/// Relies on `regex::escape`: a backslash before each character that
/// `regex_syntax::is_meta_character` lists.
#[verifier::external_body]
fn escape(s: &str) -> (r: String)
    ensures
        r@ == regex_escaped(s@),
{
    regex::escape(s)
}

/// Relies on `regex::Regex::new`: it either compiles `pattern` or reports
/// an error, and which of the two depends on the pattern alone.
#[verifier::external_body]
fn compile(pattern: &str) -> (r: Result<regex::Regex, regex::Error>)
    ensures
        r is Ok <==> regex_compiles(pattern@),
{
    regex::Regex::new(pattern)
}

/// A compiled regular expression together with the pattern it was compiled
/// from. Its fields are private, and it is only built by `Pattern::new`,
/// so `regex` always comes from `source`.
pub struct Pattern {
    source: String,
    regex: regex::Regex,
}

impl Pattern {
    /// The pattern text.
    pub closed spec fn source(&self) -> Seq<char> {
        self.source@
    }

    /// Compiles `source`; `None` when the regex engine refuses it.
    pub fn new(source: &str) -> (r: Option<Pattern>)
        ensures
            r is Some <==> regex_compiles(source@),
            r matches Some(p) ==> p.source() == source@,
    {
        match compile(source) {
            Ok(regex) => Some(Pattern { source: String::from_str(source), regex }),
            Err(_) => None,
        }
    }

    /// Relies on `regex::Regex::is_match`: whether the regex, compiled from
    /// `source()`, matches anywhere in `text`.
    #[verifier::external_body]
    pub fn is_match(&self, text: &str) -> (r: bool)
        ensures
            r == regex_finds(self.source(), text@),
    {
        self.regex.is_match(text)
    }
}

/// Category of a restricted command.
#[derive(Debug, Clone, Copy, PartialEq, Eq, Structural)]
pub enum Category {
    PrivilegeEscalation,
    DestructiveFile,
    SystemModification,
}

/// The human-readable name of each category.
pub open spec fn category_text(c: Category) -> Seq<char> {
    match c {
        Category::PrivilegeEscalation => "Privilege escalation"@,
        Category::DestructiveFile => "Destructive file operation"@,
        Category::SystemModification => "System modification"@,
    }
}

impl Category {
    /// The human-readable name of this category.
    pub fn description(&self) -> (r: &'static str)
        ensures
            r@ == category_text(*self),
    {
        match self {
            Category::PrivilegeEscalation => "Privilege escalation",
            Category::DestructiveFile => "Destructive file operation",
            Category::SystemModification => "System modification",
        }
    }
}

/// What a rule stands for: its pattern, its category and the command it names.
pub struct RuleView {
    pub pattern: Seq<char>,
    pub category: Category,
    pub command: Seq<char>,
}

/// A restriction rule.
pub struct Rule {
    source: String,
    compiled: Option<Pattern>,
    category: Category,
    command: String,
}

impl View for Rule {
    type V = RuleView;

    closed spec fn view(&self) -> RuleView {
        RuleView { pattern: self.source@, category: self.category, command: self.command@ }
    }
}

/// Whether the rule `r` rejects `text`: its pattern compiles and matches.
pub open spec fn rule_rejects(r: RuleView, text: Seq<char>) -> bool {
    regex_compiles(r.pattern) && regex_finds(r.pattern, text)
}

/// The pattern for a bare command name: the name at the start of the text or
/// after `|`, `;` or `&`, optionally preceded by whitespace, and followed by
/// whitespace.
pub open spec fn command_pattern(cmd: Seq<char>) -> Seq<char> {
    "(?:^|[|;&])\\s*"@ + regex_escaped(cmd) + "\\s"@
}

/// The rule for a bare command name.
pub open spec fn command_rule(cmd: Seq<char>, category: Category) -> RuleView {
    RuleView { pattern: command_pattern(cmd), category, command: cmd }
}

/// The privilege escalation rules, in order.
pub open spec fn privilege_rules() -> Seq<RuleView> {
    seq![
        command_rule("sudo"@, Category::PrivilegeEscalation),
        command_rule("su"@, Category::PrivilegeEscalation),
        command_rule("doas"@, Category::PrivilegeEscalation),
        command_rule("pkexec"@, Category::PrivilegeEscalation),
    ]
}

/// The rule for `truncate ... -s 0`.
pub open spec fn truncate_rule() -> RuleView {
    RuleView {
        pattern: "(?:^|[|;&])\\s*truncate\\s+.*-s\\s*0"@,
        category: Category::DestructiveFile,
        command: "truncate"@,
    }
}

/// The rule for a bare truncating redirect `> target`.
pub open spec fn redirect_rule() -> RuleView {
    RuleView {
        pattern: "(?:^|[|;&])\\s*>\\s*\\S"@,
        category: Category::DestructiveFile,
        command: "> redirect"@,
    }
}

/// The destructive file operation rules, in order.
pub open spec fn destructive_rules() -> Seq<RuleView> {
    seq![
        command_rule("rm"@, Category::DestructiveFile),
        command_rule("rmdir"@, Category::DestructiveFile),
        command_rule("shred"@, Category::DestructiveFile),
        command_rule("wipe"@, Category::DestructiveFile),
        command_rule("srm"@, Category::DestructiveFile),
        command_rule("unlink"@, Category::DestructiveFile),
        command_rule("dd"@, Category::DestructiveFile),
        truncate_rule(),
        redirect_rule(),
    ]
}

/// The rule for `mkfs` and its `mkfs.<fstype>` variants.
pub open spec fn mkfs_rule() -> RuleView {
    RuleView {
        pattern: "(?:^|[|;&])\\s*mkfs(?:\\.\\w+)?\\s"@,
        category: Category::SystemModification,
        command: "mkfs"@,
    }
}

/// The command names of the system modification rules, in order.
pub open spec fn system_commands() -> Seq<Seq<char>> {
    seq![
        "chmod"@, "chown"@, "chgrp"@, "chattr"@,
        "fdisk"@, "parted"@, "mount"@, "umount"@, "fsck"@,
        "shutdown"@, "reboot"@, "poweroff"@, "halt"@, "init"@,
        "useradd"@, "userdel"@, "usermod"@, "groupadd"@, "groupdel"@, "groupmod"@, "passwd"@,
        "systemctl"@, "service"@,
        "insmod"@, "rmmod"@, "modprobe"@,
        "setenforce"@, "aa-enforce"@, "aa-complain"@,
    ]
}

/// The system modification rules, in order.
pub open spec fn system_rules() -> Seq<RuleView> {
    system_commands().map_values(|c: Seq<char>| command_rule(c, Category::SystemModification)).push(
        mkfs_rule(),
    )
}

/// The whole rule table, in the order in which rules are tried.
pub open spec fn default_rules() -> Seq<RuleView> {
    privilege_rules() + destructive_rules() + system_rules()
}

/// The views of a sequence of rules.
pub open spec fn rule_views(rules: Seq<Rule>) -> Seq<RuleView> {
    rules.map_values(|r: Rule| r@)
}

/// Whether `i` is the first rule of `rules` that rejects `text`.
pub open spec fn first_rejecting(rules: Seq<RuleView>, text: Seq<char>, i: int) -> bool {
    &&& 0 <= i < rules.len()
    &&& rule_rejects(rules[i], text)
    &&& forall|j: int| 0 <= j < i ==> !rule_rejects(#[trigger] rules[j], text)
}

/// Whether no rule of `rules` rejects `text`.
pub open spec fn none_rejects(rules: Seq<RuleView>, text: Seq<char>) -> bool {
    forall|j: int| 0 <= j < rules.len() ==> !rule_rejects(#[trigger] rules[j], text)
}

impl Rule {
    /// A rule with the given pattern, category and command name.
    pub fn new(pattern: &str, category: Category, command: &str) -> (r: Rule)
        ensures
            r@ == (RuleView { pattern: pattern@, category, command: command@ }),
            r.wf(),
    {
        Rule {
            source: String::from_str(pattern),
            compiled: Pattern::new(pattern),
            category,
            command: String::from_str(command),
        }
    }

    /// The compiled pattern, when present, is the one compiled from the rule's text.
    pub closed spec fn wf(&self) -> bool {
        &&& self.compiled is Some <==> regex_compiles(self.source@)
        &&& self.compiled matches Some(p) ==> p.source() == self.source@
    }

    /// Whether this rule rejects `text`.
    pub fn rejects(&self, text: &str) -> (r: bool)
        requires
            self.wf(),
        ensures
            r == rule_rejects(self@, text@),
    {
        match &self.compiled {
            Some(p) => p.is_match(text),
            None => false,
        }
    }

    /// The pattern text of this rule.
    pub fn pattern(&self) -> (r: &str)
        ensures
            r@ == self@.pattern,
    {
        self.source.as_str()
    }

    /// The command name this rule stands for.
    pub fn command(&self) -> (r: &str)
        ensures
            r@ == self@.command,
    {
        self.command.as_str()
    }

    /// The category of this rule.
    pub fn category(&self) -> (r: Category)
        ensures
            r == self@.category,
    {
        self.category
    }
}

/// Appends the rule for the bare command name `cmd`.
fn push_command_rule(rules: &mut Vec<Rule>, cmd: &str, category: Category)
    ensures
        final(rules)@.len() == old(rules)@.len() + 1,
        forall|i: int| 0 <= i < old(rules)@.len() ==> final(rules)@[i] == old(rules)@[i],
        final(rules)@.last()@ == command_rule(cmd@, category),
        final(rules)@.last().wf(),
{
    let escaped = escape(cmd);
    let pattern = concat3("(?:^|[|;&])\\s*", escaped.as_str(), "\\s");
    rules.push(Rule::new(pattern.as_str(), category, cmd));
}

/// The privilege escalation rules: sudo, su, doas, pkexec.
fn build_privilege_escalation_rules() -> (r: Vec<Rule>)
    ensures
        rule_views(r@) == privilege_rules(),
        forall|i: int| 0 <= i < r@.len() ==> (#[trigger] r@[i]).wf(),
{
    let mut rules: Vec<Rule> = Vec::new();
    push_command_rule(&mut rules, "sudo", Category::PrivilegeEscalation);
    push_command_rule(&mut rules, "su", Category::PrivilegeEscalation);
    push_command_rule(&mut rules, "doas", Category::PrivilegeEscalation);
    push_command_rule(&mut rules, "pkexec", Category::PrivilegeEscalation);
    assert(rule_views(rules@) =~= privilege_rules());
    rules
}

/// The destructive file operation rules: removal and overwrite commands, a
/// truncation to size zero, and a bare truncating redirect.
fn build_destructive_file_rules() -> (r: Vec<Rule>)
    ensures
        rule_views(r@) == destructive_rules(),
        forall|i: int| 0 <= i < r@.len() ==> (#[trigger] r@[i]).wf(),
{
    let mut rules: Vec<Rule> = Vec::new();
    push_command_rule(&mut rules, "rm", Category::DestructiveFile);
    push_command_rule(&mut rules, "rmdir", Category::DestructiveFile);
    push_command_rule(&mut rules, "shred", Category::DestructiveFile);
    push_command_rule(&mut rules, "wipe", Category::DestructiveFile);
    push_command_rule(&mut rules, "srm", Category::DestructiveFile);
    push_command_rule(&mut rules, "unlink", Category::DestructiveFile);
    push_command_rule(&mut rules, "dd", Category::DestructiveFile);
    rules.push(
        Rule::new("(?:^|[|;&])\\s*truncate\\s+.*-s\\s*0", Category::DestructiveFile, "truncate"),
    );
    rules.push(Rule::new("(?:^|[|;&])\\s*>\\s*\\S", Category::DestructiveFile, "> redirect"));
    assert(rule_views(rules@) =~= destructive_rules());
    rules
}

/// The system modification rules: permissions and ownership, disks and
/// filesystems, power and runlevel, users and groups, services, kernel
/// modules, access-control modes, and `mkfs` with its variants.
fn build_system_modification_rules() -> (r: Vec<Rule>)
    ensures
        rule_views(r@) == system_rules(),
        forall|i: int| 0 <= i < r@.len() ==> (#[trigger] r@[i]).wf(),
{
    let mut rules: Vec<Rule> = Vec::new();
    let c = Category::SystemModification;
    push_command_rule(&mut rules, "chmod", c);
    push_command_rule(&mut rules, "chown", c);
    push_command_rule(&mut rules, "chgrp", c);
    push_command_rule(&mut rules, "chattr", c);
    push_command_rule(&mut rules, "fdisk", c);
    push_command_rule(&mut rules, "parted", c);
    push_command_rule(&mut rules, "mount", c);
    push_command_rule(&mut rules, "umount", c);
    push_command_rule(&mut rules, "fsck", c);
    push_command_rule(&mut rules, "shutdown", c);
    push_command_rule(&mut rules, "reboot", c);
    push_command_rule(&mut rules, "poweroff", c);
    push_command_rule(&mut rules, "halt", c);
    push_command_rule(&mut rules, "init", c);
    push_command_rule(&mut rules, "useradd", c);
    push_command_rule(&mut rules, "userdel", c);
    push_command_rule(&mut rules, "usermod", c);
    push_command_rule(&mut rules, "groupadd", c);
    push_command_rule(&mut rules, "groupdel", c);
    push_command_rule(&mut rules, "groupmod", c);
    push_command_rule(&mut rules, "passwd", c);
    push_command_rule(&mut rules, "systemctl", c);
    push_command_rule(&mut rules, "service", c);
    push_command_rule(&mut rules, "insmod", c);
    push_command_rule(&mut rules, "rmmod", c);
    push_command_rule(&mut rules, "modprobe", c);
    push_command_rule(&mut rules, "setenforce", c);
    push_command_rule(&mut rules, "aa-enforce", c);
    push_command_rule(&mut rules, "aa-complain", c);
    rules.push(Rule::new("(?:^|[|;&])\\s*mkfs(?:\\.\\w+)?\\s", c, "mkfs"));
    assert(rule_views(rules@) =~= system_rules());
    rules
}

/// The outcome of a check: whether the command may run and, if not, the
/// rule that refused it.
pub struct CheckResult<'a> {
    pub allowed: bool,
    pub rule: Option<&'a Rule>,
}

impl<'a> CheckResult<'a> {
    /// The command name of the refusing rule, if any.
    pub fn command(&self) -> (r: Option<&str>)
        ensures
            match self.rule {
                Some(rule) => r matches Some(c) && c@ == rule@.command,
                None => r is None,
            },
    {
        match self.rule {
            Some(rule) => Some(rule.command()),
            None => None,
        }
    }

    /// The category of the refusing rule, if any.
    pub fn category(&self) -> (r: Option<Category>)
        ensures
            match self.rule {
                Some(rule) => r == Some(rule@.category),
                None => r is None,
            },
    {
        match self.rule {
            Some(rule) => Some(rule.category()),
            None => None,
        }
    }
}

/// The restriction policy: the rule table and whether it is enforced.
pub struct Checker {
    rules: Vec<Rule>,
    enabled: bool,
}

/// The decision the policy takes on `cmd`: `None` to allow it, or the index
/// of the refusing rule.
pub open spec fn policy_verdict(
    enabled: bool,
    rules: Seq<RuleView>,
    cmd: Seq<char>,
    verdict: Option<int>,
) -> bool {
    let text = trim_seq(cmd);
    if !enabled || text.len() == 0 {
        verdict is None
    } else {
        match verdict {
            None => none_rejects(rules, text),
            Some(i) => first_rejecting(rules, text, i),
        }
    }
}

impl Checker {
    /// The rules, in the order in which they are tried.
    pub closed spec fn rules(&self) -> Seq<RuleView> {
        rule_views(self.rules@)
    }

    /// Whether the policy is enforced.
    pub closed spec fn enabled(&self) -> bool {
        self.enabled
    }

    /// Every rule's compiled pattern comes from its own text.
    pub closed spec fn wf(&self) -> bool {
        forall|i: int| 0 <= i < self.rules@.len() ==> (#[trigger] self.rules@[i]).wf()
    }

    /// A disabled policy with the default rule table.
    pub fn new() -> (r: Checker)
        ensures
            r.wf(),
            r.rules() == default_rules(),
            !r.enabled(),
    {
        let mut rules = build_privilege_escalation_rules();
        let mut more = build_destructive_file_rules();
        let ghost a = rules@;
        let ghost b = more@;
        rules.append(&mut more);
        assert(rules@ == a + b);
        assert(rule_views(rules@) =~= rule_views(a) + rule_views(b));
        let mut last = build_system_modification_rules();
        let ghost ab = rules@;
        let ghost c = last@;
        rules.append(&mut last);
        assert(rule_views(rules@) =~= rule_views(ab) + rule_views(c));
        assert(rule_views(rules@) =~= default_rules());
        Checker { rules, enabled: false }
    }

    /// The rules, in the order in which they are tried.
    pub fn rule_list(&self) -> (r: &Vec<Rule>)
        ensures
            rule_views(r@) == self.rules(),
    {
        &self.rules
    }

    /// Turns enforcement on or off; the rule table is kept.
    pub fn set_enabled(&mut self, enabled: bool)
        ensures
            final(self).enabled() == enabled,
            final(self).rules() == old(self).rules(),
            final(self).wf() == old(self).wf(),
    {
        self.enabled = enabled;
    }

    /// Whether the policy is enforced.
    pub fn is_enabled(&self) -> (r: bool)
        ensures
            r == self.enabled(),
    {
        self.enabled
    }

    /// Checks `cmd`: allowed when the policy is off, when the trimmed text is
    /// empty, or when no rule rejects the trimmed text; otherwise refused by
    /// the first rule that does.
    pub fn check(&self, cmd: &str) -> (r: CheckResult<'_>)
        requires
            self.wf(),
        ensures
            r.allowed == (r.rule is None),
            r.rule is None ==> policy_verdict(self.enabled(), self.rules(), cmd@, None),
            r.rule matches Some(rule) ==> exists|i: int|
                policy_verdict(self.enabled(), self.rules(), cmd@, Some(i))
                && rule@ == #[trigger] self.rules()[i],
    {
        if !self.enabled {
            return CheckResult { allowed: true, rule: None };
        }
        let text = trim_str(cmd);
        if text.unicode_len() == 0 {
            return CheckResult { allowed: true, rule: None };
        }
        let mut i: usize = 0;
        while i < self.rules.len()
            invariant
                self.wf(),
                self.enabled,
                text@ == trim_seq(cmd@),
                text@.len() > 0,
                i <= self.rules@.len(),
                forall|j: int| 0 <= j < i ==> !rule_rejects(#[trigger] self.rules()[j], text@),
            decreases self.rules@.len() - i,
        {
            let rule = &self.rules[i];
            if rule.rejects(text) {
                assert(self.rules()[i as int] == rule@);
                assert(policy_verdict(self.enabled(), self.rules(), cmd@, Some(i as int)));
                return CheckResult { allowed: false, rule: Some(rule) };
            }
            assert(self.rules()[i as int] == rule@);
            i = i + 1;
        }
        CheckResult { allowed: true, rule: None }
    }
}

/// With enforcement off, every command is allowed, whatever the rules.
pub proof fn lemma_disabled_allows_all(rules: Seq<RuleView>, cmd: Seq<char>)
    ensures
        policy_verdict(false, rules, cmd, None),
        forall|i: int| !policy_verdict(false, rules, cmd, Some(i)),
{
}

/// The policy's decision on a command is unique: it is either to allow it or
/// to refuse it by one rule, never both, never two rules.
pub proof fn lemma_verdict_unique(enabled: bool, rules: Seq<RuleView>, cmd: Seq<char>, a: Option<int>, b: Option<int>)
    requires
        policy_verdict(enabled, rules, cmd, a),
        policy_verdict(enabled, rules, cmd, b),
    ensures
        a == b,
{
    let text = trim_seq(cmd);
    if enabled && text.len() > 0 {
        match (a, b) {
            (Some(i), Some(j)) => {
                if i < j {
                    assert(!rule_rejects(rules[i], text));
                } else if j < i {
                    assert(!rule_rejects(rules[j], text));
                }
            },
            (Some(i), None) => {
                assert(!rule_rejects(rules[i], text));
            },
            (None, Some(j)) => {
                assert(!rule_rejects(rules[j], text));
            },
            (None, None) => {},
        }
    }
}

impl Default for Checker {
    fn default() -> (r: Checker)
        ensures
            r.wf(),
            r.rules() == default_rules(),
            !r.enabled(),
    {
        Checker::new()
    }
}

} // verus!
