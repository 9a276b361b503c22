//! The parser of SSH client configuration text: `Host` blocks with their
//! `HostName`, `User`, `Port`, `IdentityFile`, `ProxyJump` and
//! `ForwardAgent` settings, and lookups by host alias.
use vstd::prelude::*;
use crate::logger::{lowercase_of, to_lowercase as lowercase};
use crate::text::{has_prefix, is_whitespace, opt_view, same_text, starts_with, trim_seq, trim_str, whitespace_char};

verus! {

/// The settings of one `Host` block.
#[derive(Debug, Clone)]
pub struct SshConfigEntry {
    pub hostname: Option<String>,
    pub user: Option<String>,
    pub port: Option<u16>,
    pub identity_file: Option<String>,
    pub proxy_jump: Option<String>,
    pub forward_agent: bool,
}

/// The settings of one `Host` block, as plain text.
pub struct EntryView {
    pub hostname: Option<Seq<char>>,
    pub user: Option<Seq<char>>,
    pub port: Option<u16>,
    pub identity_file: Option<Seq<char>>,
    pub proxy_jump: Option<Seq<char>>,
    pub forward_agent: bool,
}

impl View for SshConfigEntry {
    type V = EntryView;

    open spec fn view(&self) -> EntryView {
        EntryView {
            hostname: opt_view(self.hostname),
            user: opt_view(self.user),
            port: self.port,
            identity_file: opt_view(self.identity_file),
            proxy_jump: opt_view(self.proxy_jump),
            forward_agent: self.forward_agent,
        }
    }
}

/// A block with nothing set.
pub open spec fn empty_entry() -> EntryView {
    EntryView {
        hostname: None,
        user: None,
        port: None,
        identity_file: None,
        proxy_jump: None,
        forward_agent: false,
    }
}

fn new_entry() -> (r: SshConfigEntry)
    ensures
        r@ == empty_entry(),
{
    SshConfigEntry {
        hostname: None,
        user: None,
        port: None,
        identity_file: None,
        proxy_jump: None,
        forward_agent: false,
    }
}

/// The lines of a text, as `str::lines` yields them.
pub uninterp spec fn text_lines(s: Seq<char>) -> Seq<Seq<char>>;

/// Relies on `str::lines`: the lines depend on the text alone.
#[verifier::external_body]
fn split_lines(s: &str) -> (r: Vec<String>)
    ensures
        r@.len() == text_lines(s@).len(),
        forall|i: int| 0 <= i < r@.len() ==> (#[trigger] r@[i])@ == text_lines(s@)[i],
{
    s.lines().map(|l| l.to_string()).collect()
}

/// The path `rest` taken from the directory `base`, as `Path::join` makes it.
pub uninterp spec fn joined_path(base: Seq<char>, rest: Seq<char>) -> Seq<char>;

/// Relies on `std::path::Path::join`: the joined path depends on its two parts alone.
#[verifier::external_body]
pub(crate) fn join_path(base: &str, rest: &str) -> (r: String)
    ensures
        r@ == joined_path(base@, rest@),
{
    std::path::Path::new(base).join(rest).to_string_lossy().to_string()
}

/// `s` without leading and trailing `"`.
pub open spec fn strip_quotes(s: Seq<char>) -> Seq<char>
    decreases s.len(),
{
    if s.len() > 0 && s[0] == '"' {
        strip_quotes(s.drop_first())
    } else if s.len() > 0 && s.last() == '"' {
        strip_quotes(s.drop_last())
    } else {
        s
    }
}

fn strip_quotes_exec(s: &str) -> (r: String)
    ensures
        r@ == strip_quotes(s@),
{
    let n = s.unicode_len();
    let mut lo: usize = 0;
    let mut hi: usize = n;
    assert(s@.subrange(0, n as int) =~= s@);
    while lo < hi && s.get_char(lo) == '"'
        invariant
            n == s@.len(),
            lo <= hi <= n,
            hi == n,
            strip_quotes(s@) == strip_quotes(s@.subrange(lo as int, hi as int)),
        decreases hi - lo,
    {
        assert(s@.subrange(lo as int, hi as int).drop_first() =~= s@.subrange(lo + 1, hi as int));
        lo = lo + 1;
    }
    while lo < hi && s.get_char(hi - 1) == '"'
        invariant
            n == s@.len(),
            lo <= hi <= n,
            strip_quotes(s@) == strip_quotes(s@.subrange(lo as int, hi as int)),
            lo < hi ==> s@[lo as int] != '"',
        decreases hi - lo,
    {
        assert(s@.subrange(lo as int, hi as int).drop_last() =~= s@.subrange(lo as int, hi - 1));
        hi = hi - 1;
    }
    let r = s.substring_char(lo, hi);
    String::from_str(r)
}

/// The value of a decimal digit string.
pub open spec fn digits_value(d: Seq<char>) -> nat
    decreases d.len(),
{
    if d.len() == 0 {
        0
    } else {
        digits_value(d.drop_last()) * 10 + ((d.last() as nat) - ('0' as nat)) as nat
    }
}

/// Whether every character is an ASCII digit.
pub open spec fn all_digits(d: Seq<char>) -> bool {
    forall|i: int| 0 <= i < d.len() ==> '0' <= #[trigger] d[i] <= '9'
}

/// The port a text names, as `str::parse::<u16>` reads it: an optional `+`,
/// then one or more decimal digits, with a value below 65536.
pub open spec fn port_value(s: Seq<char>) -> Option<u16> {
    let d = if s.len() > 0 && s[0] == '+' { s.drop_first() } else { s };
    if d.len() > 0 && all_digits(d) && digits_value(d) <= 65535 {
        Some(digits_value(d) as u16)
    } else {
        None
    }
}

proof fn lemma_digits_value_grows(d: Seq<char>, i: int)
    requires
        0 <= i <= d.len(),
        all_digits(d),
    ensures
        digits_value(d.subrange(0, i)) <= digits_value(d),
    decreases d.len() - i,
{
    if i < d.len() {
        lemma_digits_value_grows(d, i + 1);
        let p = d.subrange(0, i + 1);
        assert(p.drop_last() =~= d.subrange(0, i));
        assert(p.last() == d[i]);
        assert('0' <= d[i] <= '9');
        assert(digits_value(p) == digits_value(d.subrange(0, i)) * 10 + ((d[i] as nat) - ('0' as nat)) as nat);
    } else {
        assert(d.subrange(0, i) =~= d);
    }
}

/// Reads a port number.
pub fn parse_port(s: &str) -> (r: Option<u16>)
    ensures
        r == port_value(s@),
{
    let n = s.unicode_len();
    let start: usize = if n > 0 && s.get_char(0) == '+' { 1 } else { 0 };
    let ghost d = if s@.len() > 0 && s@[0] == '+' { s@.drop_first() } else { s@ };
    assert(d =~= s@.subrange(start as int, n as int));
    assert(port_value(s@) == (if d.len() > 0 && all_digits(d) && digits_value(d) <= 65535 {
        Some(digits_value(d) as u16)
    } else {
        None
    }));
    if start >= n {
        return None;
    }
    let mut value: u32 = 0;
    let mut i: usize = start;
    while i < n
        invariant
            n == s@.len(),
            start <= i <= n,
            d == s@.subrange(start as int, n as int),
            port_value(s@) == (if d.len() > 0 && all_digits(d) && digits_value(d) <= 65535 {
                Some(digits_value(d) as u16)
            } else {
                None
            }),
            value as nat == digits_value(d.subrange(0, i - start)),
            value <= 65535,
            all_digits(d.subrange(0, i - start)),
        decreases n - i,
    {
        let c = s.get_char(i);
        if c < '0' || c > '9' {
            assert(!all_digits(d)) by {
                assert(d[i - start] == s@[i as int]);
            }
            return None;
        }
        let ghost p = d.subrange(0, i - start + 1);
        assert(p.drop_last() =~= d.subrange(0, i - start));
        assert(p.last() == c);
        let next: u32 = value * 10 + (c as u32 - '0' as u32);
        assert(all_digits(p)) by {
            assert forall|j: int| 0 <= j < p.len() implies '0' <= #[trigger] p[j] <= '9' by {
                if j < p.len() - 1 {
                    assert(p[j] == d.subrange(0, i - start)[j]);
                }
            }
        }
        assert(next as nat == digits_value(p));
        if next > 65535 {
            proof {
                if all_digits(d) {
                    lemma_digits_value_grows(d, i - start + 1);
                }
            }
            return None;
        }
        value = next;
        i = i + 1;
    }
    assert(d.subrange(0, n - start) =~= d);
    Some(value as u16)
}

/// Where the first whitespace character of `t` is.
pub open spec fn first_space_at(t: Seq<char>, k: int) -> bool {
    &&& 0 <= k < t.len()
    &&& whitespace_char(t[k])
    &&& forall|j: int| 0 <= j < k ==> !whitespace_char(#[trigger] t[j])
}

/// The keyword, in lower case, and the value of a configuration line; `None`
/// for a blank line, a comment, or a line with no value.
pub open spec fn directive(line: Seq<char>) -> Option<(Seq<char>, Seq<char>)> {
    let t = trim_seq(line);
    if t.len() == 0 || t[0] == '#' {
        None
    } else if exists|k: int| first_space_at(t, k) {
        let k = choose|k: int| first_space_at(t, k);
        Some((lowercase_of(t.subrange(0, k)), strip_quotes(trim_seq(t.subrange(k + 1, t.len() as int)))))
    } else {
        None
    }
}

/// The parser's state between lines.
pub struct ParseState {
    pub host: Option<Seq<char>>,
    pub entry: EntryView,
    pub done: Seq<(Seq<char>, EntryView)>,
}

/// The identity file a value names: `~/` stands for the home directory when
/// there is one.
pub open spec fn identity_path(value: Seq<char>, home: Option<Seq<char>>) -> Seq<char> {
    if has_prefix(value, "~/"@) {
        match home {
            Some(h) => joined_path(h, value.subrange(2, value.len() as int)),
            None => value,
        }
    } else {
        value
    }
}

/// The state after one directive.
pub open spec fn apply_directive(st: ParseState, keyword: Seq<char>, value: Seq<char>, home: Option<Seq<char>>) -> ParseState {
    let e = st.entry;
    if keyword == "host"@ {
        ParseState {
            host: Some(value),
            entry: empty_entry(),
            done: match st.host {
                Some(h) => st.done.push((h, e)),
                None => st.done,
            },
        }
    } else if keyword == "hostname"@ {
        ParseState { entry: EntryView { hostname: Some(value), ..e }, ..st }
    } else if keyword == "user"@ {
        ParseState { entry: EntryView { user: Some(value), ..e }, ..st }
    } else if keyword == "port"@ {
        match port_value(value) {
            Some(p) => ParseState { entry: EntryView { port: Some(p), ..e }, ..st },
            None => st,
        }
    } else if keyword == "identityfile"@ {
        ParseState { entry: EntryView { identity_file: Some(identity_path(value, home)), ..e }, ..st }
    } else if keyword == "proxyjump"@ {
        ParseState { entry: EntryView { proxy_jump: Some(value), ..e }, ..st }
    } else if keyword == "forwardagent"@ {
        ParseState { entry: EntryView { forward_agent: lowercase_of(value) == "yes"@, ..e }, ..st }
    } else {
        st
    }
}

/// The state after a sequence of lines.
pub open spec fn parse_lines(st: ParseState, lines: Seq<Seq<char>>, home: Option<Seq<char>>) -> ParseState
    decreases lines.len(),
{
    if lines.len() == 0 {
        st
    } else {
        let before = parse_lines(st, lines.drop_last(), home);
        match directive(lines.last()) {
            Some((k, v)) => apply_directive(before, k, v, home),
            None => before,
        }
    }
}

/// The blocks a text defines, in order; `home` stands for `~/` in identity files.
pub open spec fn parsed_blocks(content: Seq<char>, home: Option<Seq<char>>) -> Seq<(Seq<char>, EntryView)> {
    let st = parse_lines(
        ParseState { host: None, entry: empty_entry(), done: Seq::empty() },
        text_lines(content),
        home,
    );
    match st.host {
        Some(h) => st.done.push((h, st.entry)),
        None => st.done,
    }
}

/// The views of stored blocks.
pub open spec fn block_views(v: Seq<(String, SshConfigEntry)>) -> Seq<(Seq<char>, EntryView)> {
    v.map_values(|b: (String, SshConfigEntry)| (b.0@, b.1@))
}

/// The settings for `host`: those of its last block.
pub open spec fn lookup(blocks: Seq<(Seq<char>, EntryView)>, host: Seq<char>) -> Option<EntryView>
    decreases blocks.len(),
{
    if blocks.len() == 0 {
        None
    } else if blocks.last().0 == host {
        Some(blocks.last().1)
    } else {
        lookup(blocks.drop_last(), host)
    }
}

/// Parsed SSH client configuration.
pub struct SshConfigParser {
    entries: Vec<(String, SshConfigEntry)>,
}

impl SshConfigParser {
    /// The blocks, in the order they were read.
    pub closed spec fn blocks(&self) -> Seq<(Seq<char>, EntryView)> {
        block_views(self.entries@)
    }

    /// A parser with no blocks.
    pub fn empty() -> (r: Self)
        ensures
            r.blocks().len() == 0,
    {
        let r = SshConfigParser { entries: Vec::new() };
        assert(r.blocks() =~= Seq::<(Seq<char>, EntryView)>::empty());
        r
    }

    /// A parser holding the blocks of `content`.
    pub fn from_text(content: &str, home: Option<String>) -> (r: Self)
        ensures
            r.blocks() == parsed_blocks(content@, opt_view(home)),
    {
        let mut p = Self::empty();
        p.parse(content, home);
        assert(p.blocks() =~= parsed_blocks(content@, opt_view(home)));
        p
    }

    /// The keyword and value of one line, if it has both.
    fn split_directive(line: &str) -> (r: Option<(String, String)>)
        ensures
            match directive(line@) {
                Some((k, v)) => r matches Some(x) && x.0@ == k && x.1@ == v,
                None => r is None,
            },
    {
        let t = trim_str(line);
        let n = t.unicode_len();
        if n == 0 || t.get_char(0) == '#' {
            return None;
        }
        let mut i: usize = 0;
        while i < n
            invariant
                n == t@.len(),
                i <= n,
                t@ == trim_seq(line@),
                t@.len() > 0 && t@[0] != '#',
                forall|j: int| 0 <= j < i ==> !whitespace_char(#[trigger] t@[j]),
            decreases n - i,
        {
            if is_whitespace(t.get_char(i)) {
                proof {
                    assert(first_space_at(t@, i as int));
                    let k = choose|k: int| first_space_at(t@, k);
                    assert(k == i as int) by {
                        if k < i {
                        } else if k > i {
                            assert(!whitespace_char(t@[i as int]));
                        }
                    }
                }
                let keyword = lowercase(t.substring_char(0, i));
                let rest = t.substring_char(i + 1, n);
                let value = strip_quotes_exec(trim_str(rest));
                return Some((keyword, value));
            }
            i = i + 1;
        }
        None
    }

    /// Applies one directive to the block being read.
    fn apply(
        done: &mut Vec<(String, SshConfigEntry)>,
        host: &mut Option<String>,
        entry: &mut SshConfigEntry,
        keyword: &str,
        value: String,
        home: &Option<String>,
    )
        ensures
            ({
                let st = ParseState { host: opt_view(*old(host)), entry: old(entry)@, done: block_views(old(done)@) };
                let nx = apply_directive(st, keyword@, value@, opt_view(*home));
                &&& opt_view(*final(host)) == nx.host
                &&& final(entry)@ == nx.entry
                &&& block_views(final(done)@) == nx.done
            }),
    {
        if same_text(keyword, "host") {
            let ghost before = done@;
            match host.take() {
                Some(h) => {
                    let mut e = new_entry();
                    core::mem::swap(entry, &mut e);
                    done.push((h, e));
                    assert(block_views(done@) =~= block_views(before).push((h@, e@)));
                },
                None => {
                    *entry = new_entry();
                },
            }
            *host = Some(value);
        } else if same_text(keyword, "hostname") {
            entry.hostname = Some(value);
        } else if same_text(keyword, "user") {
            entry.user = Some(value);
        } else if same_text(keyword, "port") {
            match parse_port(value.as_str()) {
                Some(p) => entry.port = Some(p),
                None => {},
            }
        } else if same_text(keyword, "identityfile") {
            let path = if starts_with(value.as_str(), "~/") {
                match home {
                    Some(h) => {
                        let n = value.as_str().unicode_len();
                        proof {
                            reveal_strlit("~/");
                        }
                        join_path(h.as_str(), value.as_str().substring_char(2, n))
                    },
                    None => value,
                }
            } else {
                value
            };
            entry.identity_file = Some(path);
        } else if same_text(keyword, "proxyjump") {
            entry.proxy_jump = Some(value);
        } else if same_text(keyword, "forwardagent") {
            let v = lowercase(value.as_str());
            entry.forward_agent = same_text(v.as_str(), "yes");
        }
    }

    /// Reads configuration text, adding its blocks after those already held.
    pub fn parse(&mut self, content: &str, home: Option<String>)
        ensures
            final(self).blocks() == old(self).blocks() + parsed_blocks(content@, opt_view(home)),
    {
        let lines = split_lines(content);
        let ghost start = self.blocks();
        let ghost init = ParseState { host: None, entry: empty_entry(), done: Seq::empty() };
        let mut done: Vec<(String, SshConfigEntry)> = Vec::new();
        let mut host: Option<String> = None;
        let mut entry = new_entry();
        let mut i: usize = 0;
        assert(block_views(done@) =~= Seq::<(Seq<char>, EntryView)>::empty());
        assert(text_lines(content@).subrange(0, 0) =~= Seq::<Seq<char>>::empty());
        while i < lines.len()
            invariant
                i <= lines@.len(),
                lines@.len() == text_lines(content@).len(),
                forall|j: int| 0 <= j < lines@.len() ==> (#[trigger] lines@[j])@ == text_lines(content@)[j],
                ({
                    let st = parse_lines(init, text_lines(content@).subrange(0, i as int), opt_view(home));
                    &&& opt_view(host) == st.host
                    &&& entry@ == st.entry
                    &&& block_views(done@) == st.done
                }),
            decreases lines@.len() - i,
        {
            let ghost ls = text_lines(content@).subrange(0, i + 1);
            assert(ls.drop_last() =~= text_lines(content@).subrange(0, i as int));
            assert(ls.last() == lines@[i as int]@);
            match Self::split_directive(lines[i].as_str()) {
                Some((k, v)) => Self::apply(&mut done, &mut host, &mut entry, k.as_str(), v, &home),
                None => {},
            }
            i = i + 1;
        }
        assert(text_lines(content@).subrange(0, i as int) =~= text_lines(content@));
        let ghost mid = block_views(done@);
        match host {
            Some(h) => {
                done.push((h, entry));
                assert(block_views(done@) =~= mid.push((h@, entry@)));
            },
            None => {},
        }
        let ghost parsed = block_views(done@);
        self.entries.append(&mut done);
        assert(block_views(self.entries@) =~= start + parsed);
    }

    /// The settings of `host`, from its last block.
    pub fn get(&self, host: &str) -> (r: Option<&SshConfigEntry>)
        ensures
            match lookup(self.blocks(), host@) {
                Some(e) => r matches Some(x) && x@ == e,
                None => r is None,
            },
    {
        let mut i: usize = self.entries.len();
        assert(self.entries@.subrange(0, i as int) =~= self.entries@);
        while i > 0
            invariant
                i <= self.entries@.len(),
                lookup(self.blocks(), host@) == lookup(block_views(self.entries@.subrange(0, i as int)), host@),
            decreases i,
        {
            let ghost s = block_views(self.entries@.subrange(0, i as int));
            assert(s.drop_last() =~= block_views(self.entries@.subrange(0, i - 1)));
            assert(s.last() == (self.entries@[i - 1].0@, self.entries@[i - 1].1@));
            if same_text(self.entries[i - 1].0.as_str(), host) {
                return Some(&self.entries[i - 1].1);
            }
            i = i - 1;
        }
        None
    }

    /// The real host name of `host`: its `HostName`, or `host` itself.
    pub fn resolve_hostname(&self, host: &str) -> (r: String)
        ensures
            r@ == (match lookup(self.blocks(), host@) {
                Some(e) => match e.hostname {
                    Some(h) => h,
                    None => host@,
                },
                None => host@,
            }),
    {
        match self.get(host) {
            Some(e) => match &e.hostname {
                Some(h) => h.clone(),
                None => String::from_str(host),
            },
            None => String::from_str(host),
        }
    }

    /// The `User` of `host`.
    pub fn resolve_user(&self, host: &str) -> (r: Option<String>)
        ensures
            opt_view(r) == (match lookup(self.blocks(), host@) {
                Some(e) => e.user,
                None => None,
            }),
    {
        match self.get(host) {
            Some(e) => e.user.clone(),
            None => None,
        }
    }

    /// The `Port` of `host`, 22 when not set.
    pub fn resolve_port(&self, host: &str) -> (r: u16)
        ensures
            r == (match lookup(self.blocks(), host@) {
                Some(e) => match e.port {
                    Some(p) => p,
                    None => 22,
                },
                None => 22,
            }),
    {
        match self.get(host) {
            Some(e) => match e.port {
                Some(p) => p,
                None => 22,
            },
            None => 22,
        }
    }

    /// The `IdentityFile` of `host`.
    pub fn resolve_identity_file(&self, host: &str) -> (r: Option<String>)
        ensures
            opt_view(r) == (match lookup(self.blocks(), host@) {
                Some(e) => e.identity_file,
                None => None,
            }),
    {
        match self.get(host) {
            Some(e) => e.identity_file.clone(),
            None => None,
        }
    }

    /// The `ProxyJump` of `host`.
    pub fn resolve_proxy_jump(&self, host: &str) -> (r: Option<String>)
        ensures
            opt_view(r) == (match lookup(self.blocks(), host@) {
                Some(e) => e.proxy_jump,
                None => None,
            }),
    {
        match self.get(host) {
            Some(e) => e.proxy_jump.clone(),
            None => None,
        }
    }

    /// Whether `ForwardAgent yes` is set for `host`.
    pub fn forward_agent(&self, host: &str) -> (r: bool)
        ensures
            r == (match lookup(self.blocks(), host@) {
                Some(e) => e.forward_agent,
                None => false,
            }),
    {
        match self.get(host) {
            Some(e) => e.forward_agent,
            None => false,
        }
    }
}

} // verus!
