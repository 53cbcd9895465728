//! The flat `key=value` configuration file of the worker.
//!
//! A configuration is a sequence of key/value pairs with pairwise distinct
//! keys; inserting an existing key replaces its value in place, so the last
//! assignment of a file wins.  Parsing takes the file's text line by line,
//! ignores blank lines and `#`-prefixed comments, splits each remaining line
//! at its first `=`, and trims ASCII whitespace around key and value.  The
//! file itself is read and written outside the library.

use vstd::prelude::*;

use crate::text::{
    contains_str,
    find_char,
    join_lines,
    spec_contains,
    spec_find,
    spec_join_lines,
    spec_lines,
    spec_starts_with,
    spec_trim,
    split_lines,
    starts_with_str,
    trim_str,
};

verus! {

/// Pairwise distinct keys.
pub open spec fn spec_keys_unique(pairs: Seq<(Seq<char>, Seq<char>)>) -> bool {
    forall|i: int, j: int|
        0 <= i < j < pairs.len() ==> (#[trigger] pairs[i]).0 != (#[trigger] pairs[j]).0
}

/// Whether some pair carries the key `k`.
pub open spec fn spec_env_has(pairs: Seq<(Seq<char>, Seq<char>)>, k: Seq<char>) -> bool {
    exists|i: int| 0 <= i < pairs.len() && (#[trigger] pairs[i]).0 == k
}

/// The position of the pair carrying the key `k`.
pub open spec fn spec_env_index(pairs: Seq<(Seq<char>, Seq<char>)>, k: Seq<char>) -> int {
    choose|i: int| 0 <= i < pairs.len() && (#[trigger] pairs[i]).0 == k
}

/// The pairs after an insert of `k = v`: an existing key keeps its place and
/// takes the new value, a new key goes to the end.
pub open spec fn spec_env_insert(
    pairs: Seq<(Seq<char>, Seq<char>)>,
    k: Seq<char>,
    v: Seq<char>,
) -> Seq<(Seq<char>, Seq<char>)> {
    if spec_env_has(pairs, k) {
        pairs.update(spec_env_index(pairs, k), (k, v))
    } else {
        pairs.push((k, v))
    }
}

/// The value under the key `k`, if any.
pub open spec fn spec_env_lookup(pairs: Seq<(Seq<char>, Seq<char>)>, k: Seq<char>) -> Option<
    Seq<char>,
> {
    if spec_env_has(pairs, k) {
        Some(pairs[spec_env_index(pairs, k)].1)
    } else {
        None
    }
}

/// A key that some pair carries is carried at exactly one position.
proof fn lemma_env_index_is(pairs: Seq<(Seq<char>, Seq<char>)>, k: Seq<char>, i: int)
    requires
        spec_keys_unique(pairs),
        0 <= i < pairs.len(),
        pairs[i].0 == k,
    ensures
        spec_env_has(pairs, k),
        spec_env_index(pairs, k) == i,
{
    assert(spec_env_has(pairs, k));
    let ci = spec_env_index(pairs, k);
    assert(0 <= ci < pairs.len() && pairs[ci].0 == k);
}

/// An insert preserves pairwise distinct keys.
proof fn lemma_env_insert_unique(pairs: Seq<(Seq<char>, Seq<char>)>, k: Seq<char>, v: Seq<char>)
    requires
        spec_keys_unique(pairs),
    ensures
        spec_keys_unique(spec_env_insert(pairs, k, v)),
{
    if spec_env_has(pairs, k) {
        let ci = spec_env_index(pairs, k);
        assert(0 <= ci < pairs.len() && pairs[ci].0 == k);
    }
}

/// The configuration: key/value pairs with pairwise distinct keys, in the
/// order the keys were first assigned.
pub struct ConfigMap {
    pub pairs: Vec<(String, String)>,
}

impl ConfigMap {
    /// The pairs as character sequences.
    pub open spec fn entries(&self) -> Seq<(Seq<char>, Seq<char>)> {
        self.pairs@.map_values(|p: (String, String)| (p.0@, p.1@))
    }

    /// Pairwise distinct keys.
    pub open spec fn wf(&self) -> bool {
        spec_keys_unique(self.entries())
    }

    /// An empty configuration.
    pub fn new() -> (r: ConfigMap)
        ensures
            r.wf(),
            r.entries() == Seq::<(Seq<char>, Seq<char>)>::empty(),
    {
        let r = ConfigMap { pairs: Vec::new() };
        proof {
            assert(r.entries() =~= Seq::<(Seq<char>, Seq<char>)>::empty());
        }
        r
    }

    /// Assigns `k = v`: replaces the value of an existing key in place, or
    /// appends a new pair.
    pub fn insert(&mut self, k: String, v: String)
        requires
            old(self).wf(),
        ensures
            final(self).wf(),
            final(self).entries() == spec_env_insert(old(self).entries(), k@, v@),
    {
        let n = self.pairs.len();
        let mut i: usize = 0;
        while i < n
            invariant
                i <= n,
                n == self.pairs@.len(),
                *self == *old(self),
                self.wf(),
                forall|j: int| 0 <= j < i ==> (#[trigger] self.entries()[j]).0 != k@,
            decreases n - i,
        {
            if crate::text::eq_str(self.pairs[i].0.as_str(), k.as_str()) {
                proof {
                    lemma_env_index_is(self.entries(), k@, i as int);
                    lemma_env_insert_unique(self.entries(), k@, v@);
                }
                let ghost pre = self.entries();
                self.pairs.set(i, (k, v));
                proof {
                    assert(self.entries() =~= spec_env_insert(pre, k@, v@));
                }
                return ;
            }
            i = i + 1;
        }
        proof {
            assert(!spec_env_has(self.entries(), k@));
            lemma_env_insert_unique(self.entries(), k@, v@);
        }
        let ghost pre = self.entries();
        self.pairs.push((k, v));
        proof {
            assert(self.entries() =~= pre.push((k@, v@)));
        }
    }

    /// The value under the key `k`, if any.
    pub fn get(&self, k: &String) -> (r: Option<String>)
        requires
            self.wf(),
        ensures
            match r {
                Some(v) => spec_env_lookup(self.entries(), k@) == Some(v@),
                None => spec_env_lookup(self.entries(), k@) is None,
            },
    {
        let n = self.pairs.len();
        let mut i: usize = 0;
        while i < n
            invariant
                i <= n,
                n == self.pairs@.len(),
                self.wf(),
                forall|j: int| 0 <= j < i ==> (#[trigger] self.entries()[j]).0 != k@,
            decreases n - i,
        {
            if crate::text::eq_str(self.pairs[i].0.as_str(), k.as_str()) {
                proof {
                    lemma_env_index_is(self.entries(), k@, i as int);
                }
                return Some(self.pairs[i].1.clone());
            }
            i = i + 1;
        }
        proof {
            assert(!spec_env_has(self.entries(), k@));
        }
        None
    }

    /// How many keys are assigned.
    pub fn len(&self) -> (r: usize)
        ensures
            r == self.entries().len(),
    {
        self.pairs.len()
    }
}

/// What one line of the file contributes: nothing for a blank line, a
/// comment, or a line without `=`; otherwise the trimmed key and value on
/// either side of the first `=` of the trimmed line.
pub open spec fn spec_parse_line(line: Seq<char>) -> Option<(Seq<char>, Seq<char>)> {
    let t = spec_trim(line);
    if t.len() == 0 || t[0] == '#' {
        None
    } else {
        let k = spec_find(t, '=');
        if k >= t.len() {
            None
        } else {
            Some(
                (
                    spec_trim(t.subrange(0, k as int)),
                    spec_trim(t.subrange(k as int + 1, t.len() as int)),
                ),
            )
        }
    }
}

/// The configuration the lines assign, one insert per assignment line, in
/// order — so of two assignments to one key the later wins.
pub open spec fn spec_parse_env_lines(ls: Seq<Seq<char>>) -> Seq<(Seq<char>, Seq<char>)>
    decreases ls.len(),
{
    if ls.len() == 0 {
        Seq::empty()
    } else {
        let acc = spec_parse_env_lines(ls.drop_last());
        match spec_parse_line(ls.last()) {
            Some(kv) => spec_env_insert(acc, kv.0, kv.1),
            None => acc,
        }
    }
}

/// The configuration a file's text assigns.
pub open spec fn spec_parse_env(content: Seq<char>) -> Seq<(Seq<char>, Seq<char>)> {
    spec_parse_env_lines(spec_lines(content))
}

/// What one line contributes, as `spec_parse_line` says.
pub fn parse_env_line(line: &str) -> (r: Option<(String, String)>)
    ensures
        r is Some <==> spec_parse_line(line@) is Some,
        r matches Some(kv) ==> spec_parse_line(line@) == Some((kv.0@, kv.1@)),
{
    let t = trim_str(line);
    let tn = t.unicode_len();
    if tn == 0 {
        return None;
    }
    if t.get_char(0) == '#' {
        return None;
    }
    let k = find_char(t, '=');
    if k == tn {
        return None;
    }
    let key = trim_str(t.substring_char(0, k));
    let value = trim_str(t.substring_char(k + 1, tn));
    Some((String::from_str(key), String::from_str(value)))
}

/// Parses a configuration file's text, as `spec_parse_env` says.
pub fn parse_env(content: &str) -> (r: ConfigMap)
    ensures
        r.wf(),
        r.entries() == spec_parse_env(content@),
{
    let lines = split_lines(content);
    let mut cfg = ConfigMap::new();
    proof {
        assert(lines.deep_view().take(0) =~= Seq::<Seq<char>>::empty());
    }
    let n = lines.len();
    let mut i: usize = 0;
    while i < n
        invariant
            i <= n,
            n == lines@.len(),
            lines.deep_view() == spec_lines(content@),
            cfg.wf(),
            cfg.entries() == spec_parse_env_lines(lines.deep_view().take(i as int)),
        decreases n - i,
    {
        proof {
            assert(lines.deep_view().take(i + 1).drop_last() =~= lines.deep_view().take(i as int));
            assert(lines.deep_view().take(i + 1).last() == lines@[i as int]@);
        }
        match parse_env_line(lines[i].as_str()) {
            Some(kv) => {
                cfg.insert(kv.0, kv.1);
            },
            None => {},
        }
        i = i + 1;
    }
    proof {
        assert(lines.deep_view().take(n as int) =~= lines.deep_view());
    }
    cfg
}

/// The file text a configuration is saved as: one `key=value` line per pair,
/// in order, joined by single line feeds with no trailing one.
pub open spec fn spec_render_env(pairs: Seq<(Seq<char>, Seq<char>)>) -> Seq<char>
    decreases pairs.len(),
{
    if pairs.len() == 0 {
        Seq::empty()
    } else if pairs.len() == 1 {
        pairs[0].0 + "="@ + pairs[0].1
    } else {
        spec_render_env(pairs.drop_last()) + "\n"@ + pairs.last().0 + "="@ + pairs.last().1
    }
}

/// Renders a configuration as file text, as `spec_render_env` says.
pub fn render_env(cfg: &ConfigMap) -> (r: String)
    ensures
        r@ == spec_render_env(cfg.entries()),
{
    let mut r = String::new();
    let n = cfg.pairs.len();
    proof {
        assert(r@ =~= spec_render_env(cfg.entries().take(0)));
    }
    let mut i: usize = 0;
    while i < n
        invariant
            i <= n,
            n == cfg.pairs@.len(),
            r@ == spec_render_env(cfg.entries().take(i as int)),
        decreases n - i,
    {
        proof {
            assert(cfg.entries().take(i + 1).drop_last() =~= cfg.entries().take(i as int));
            assert(cfg.entries().take(i + 1).last() == cfg.entries()[i as int]);
        }
        if i > 0 {
            r.append("\n");
        }
        r.append(cfg.pairs[i].0.as_str());
        r.append("=");
        r.append(cfg.pairs[i].1.as_str());
        proof {
            assert(r@ =~= spec_render_env(cfg.entries().take(i + 1)));
        }
        i = i + 1;
    }
    proof {
        assert(cfg.entries().take(n as int) =~= cfg.entries());
    }
    r
}

/// How one line fares under the update `k = v`: a line that assigns the key
/// — or assigns it behind a `# ` comment marker — becomes the fresh
/// assignment; every other line stays.
pub open spec fn spec_replace_line(
    line: Seq<char>,
    pattern: Seq<char>,
    replacement: Seq<char>,
) -> Seq<char> {
    if spec_starts_with(line, pattern) || spec_starts_with(line, "# "@ + pattern) {
        replacement
    } else {
        line
    }
}

/// The file text after the single update `k = v`: when `k=` occurs anywhere
/// in the text, every line opening with `k=` or `# k=` is replaced and the
/// lines are joined back; otherwise the fresh assignment is appended on a
/// new line.
pub open spec fn spec_apply_update(content: Seq<char>, k: Seq<char>, v: Seq<char>) -> Seq<char> {
    let pattern = k + "="@;
    let replacement = k + "="@ + v;
    if spec_contains(content, pattern) {
        spec_join_lines(
            spec_lines(content).map_values(
                |line: Seq<char>| spec_replace_line(line, pattern, replacement),
            ),
        )
    } else {
        content + "\n"@ + replacement
    }
}

/// The file text after all updates of a configuration, applied in order.
pub open spec fn spec_merge_env(
    template: Seq<char>,
    pairs: Seq<(Seq<char>, Seq<char>)>,
) -> Seq<char>
    decreases pairs.len(),
{
    if pairs.len() == 0 {
        template
    } else {
        spec_apply_update(
            spec_merge_env(template, pairs.drop_last()),
            pairs.last().0,
            pairs.last().1,
        )
    }
}

/// Applies the single update `k = v` to file text, as `spec_apply_update`
/// says.
pub fn apply_env_update(content: String, k: &String, v: &String) -> (r: String)
    ensures
        r@ == spec_apply_update(content@, k@, v@),
{
    let pattern = k.clone().concat("=");
    let commented = String::from_str("# ").concat(pattern.as_str());
    let replacement = pattern.clone().concat(v.as_str());
    if contains_str(content.as_str(), pattern.as_str()) {
        let lines = split_lines(content.as_str());
        let ghost mapped = spec_lines(content@).map_values(
            |line: Seq<char>| spec_replace_line(line, k@ + "="@, k@ + "="@ + v@),
        );
        let mut out: Vec<String> = Vec::new();
        let n = lines.len();
        proof {
            assert(out.deep_view() =~= mapped.take(0));
        }
        let mut i: usize = 0;
        while i < n
            invariant
                i <= n,
                n == lines@.len(),
                lines.deep_view() == spec_lines(content@),
                mapped == spec_lines(content@).map_values(
                    |line: Seq<char>| spec_replace_line(line, k@ + "="@, k@ + "="@ + v@),
                ),
                pattern@ == k@ + "="@,
                commented@ == "# "@ + (k@ + "="@),
                replacement@ == k@ + "="@ + v@,
                out.deep_view() == mapped.take(i as int),
            decreases n - i,
        {
            let ghost pre = out.deep_view();
            if starts_with_str(lines[i].as_str(), pattern.as_str()) || starts_with_str(
                lines[i].as_str(),
                commented.as_str(),
            ) {
                out.push(replacement.clone());
            } else {
                out.push(lines[i].clone());
            }
            proof {
                assert(out.deep_view() =~= pre.push(mapped[i as int]));
                assert(out.deep_view() =~= mapped.take(i + 1));
            }
            i = i + 1;
        }
        proof {
            assert(mapped.take(n as int) =~= mapped);
        }
        join_lines(&out)
    } else {
        content.concat("\n").concat(replacement.as_str())
    }
}

/// Fills a configuration file template with the given updates, in order, as
/// `spec_merge_env` says: existing (or commented-out) assignments of a key
/// are overwritten in place, new keys are appended.
pub fn merge_env_template(template: &str, updates: &ConfigMap) -> (r: String)
    ensures
        r@ == spec_merge_env(template@, updates.entries()),
{
    let mut content = String::from_str(template);
    let n = updates.pairs.len();
    proof {
        assert(content@ =~= spec_merge_env(template@, updates.entries().take(0)));
    }
    let mut i: usize = 0;
    while i < n
        invariant
            i <= n,
            n == updates.pairs@.len(),
            content@ == spec_merge_env(template@, updates.entries().take(i as int)),
        decreases n - i,
    {
        proof {
            assert(updates.entries().take(i + 1).drop_last() =~= updates.entries().take(i as int));
            assert(updates.entries().take(i + 1).last() == updates.entries()[i as int]);
        }
        content = apply_env_update(content, &updates.pairs[i].0, &updates.pairs[i].1);
        i = i + 1;
    }
    proof {
        assert(updates.entries().take(n as int) =~= updates.entries());
    }
    content
}

/// The template a fresh configuration file starts from when the worker's
/// directory offers no example file.
pub open spec fn spec_default_env_template() -> Seq<char> {
    "# Telegram Bot Token (required)\nTG_BOT_TOKEN=\n\n# Coding agent binary path (required)\nAGENT_PATH=\n\n# Working directory for projects\nWORK_DIR=\n\n# Storage type: redis or memory\nSTORAGE_TYPE=memory\n\n# Redis URL (optional, for production)\n# REDIS_URL=redis://localhost:6379\n"@
}

/// The default configuration file template.
pub fn default_env_template() -> (r: String)
    ensures
        r@ == spec_default_env_template(),
{
    String::from_str(
        "# Telegram Bot Token (required)\nTG_BOT_TOKEN=\n\n# Coding agent binary path (required)\nAGENT_PATH=\n\n# Working directory for projects\nWORK_DIR=\n\n# Storage type: redis or memory\nSTORAGE_TYPE=memory\n\n# Redis URL (optional, for production)\n# REDIS_URL=redis://localhost:6379\n",
    )
}

/// The error text when the configuration file cannot be read.
pub fn env_read_error(e: &String) -> (r: String)
    ensures
        r@ == "Failed to read .env file: "@ + e@,
{
    String::from_str("Failed to read .env file: ").concat(e.as_str())
}

/// The error text when the configuration file cannot be written.
pub fn env_write_error(e: &String) -> (r: String)
    ensures
        r@ == "Failed to write .env file: "@ + e@,
{
    String::from_str("Failed to write .env file: ").concat(e.as_str())
}

/// Whether a configuration file's text assigns both keys the worker needs:
/// the bot token and the path of the coding agent binary.  In `AGENT_PATH`
/// — here and in the default template — `AGENT` is a deliberate stand-in
/// for the agent's own name, which this crate's text cannot spell out; a
/// build against the real binary substitutes its key.
pub fn env_configured(content: &str) -> (r: bool)
    ensures
        r == (spec_contains(content@, "TG_BOT_TOKEN="@) && spec_contains(
            content@,
            "AGENT_PATH="@,
        )),
{
    contains_str(content, "TG_BOT_TOKEN=") && contains_str(content, "AGENT_PATH=")
}

} // verus!
