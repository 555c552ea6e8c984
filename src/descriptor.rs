//! Script descriptors: the header block of a descriptor file, the user's
//! selection of tags, and which descriptors a run executes.
use vstd::prelude::*;
use vstd::string::*;
use crate::text::{is_comment, starts_with_mark, strip_marks, remove_marks, trim_text, trimmed};

verus! {

/// Which scripts a run executes.
#[derive(Debug, Clone, Copy, PartialEq, Eq)]
pub enum ScriptsRequired {
    /// No script runs.
    Disabled,
    /// The built-in script alone runs.
    Default,
    /// The descriptors found on disk whose tags cover the selection run.
    Custom,
}

/// One script definition, read from the header of its file or built in.
#[derive(Debug, Clone)]
pub struct ScriptFile {
    pub path: Option<String>,
    pub tags: Option<Vec<String>>,
    pub developer: Option<Vec<String>>,
    pub port: Option<String>,
    pub ports_separator: Option<String>,
    pub call_format: Option<String>,
}

/// The user's selection: the tags that a descriptor must all carry to run.
#[derive(Debug, Clone)]
pub struct ScriptConfig {
    pub tags: Option<Vec<String>>,
    pub ports: Option<Vec<String>>,
    pub developer: Option<Vec<String>>,
}

/// The character sequences of a list of strings.
pub open spec fn texts(v: Seq<String>) -> Seq<Seq<char>> {
    v.map_values(|s: String| s@)
}

/// Every required tag occurs among `tags`.
pub open spec fn covers(tags: Seq<Seq<char>>, required: Seq<Seq<char>>) -> bool {
    forall|k: int| 0 <= k < required.len() ==> tags.contains(#[trigger] required[k])
}

/// A descriptor runs in custom mode when the selection has tags, the
/// descriptor has tags, and the descriptor's tags include every selected one.
pub open spec fn is_selected(config: ScriptConfig, script: ScriptFile) -> bool {
    match (config.tags, script.tags) {
        (Some(required), Some(tags)) => covers(texts(tags@), texts(required@)),
        _ => false,
    }
}

/// The selected descriptors of `s`, in their order.
pub open spec fn picked(config: ScriptConfig, s: Seq<ScriptFile>) -> Seq<ScriptFile>
    decreases s.len(),
{
    if s.len() == 0 {
        Seq::empty()
    } else if is_selected(config, s[0]) {
        seq![s[0]] + picked(config, s.drop_first())
    } else {
        picked(config, s.drop_first())
    }
}

/// The present values of `s`, in their order.
pub open spec fn somes(s: Seq<Option<ScriptFile>>) -> Seq<ScriptFile>
    decreases s.len(),
{
    if s.len() == 0 {
        Seq::empty()
    } else {
        match s[0] {
            Some(f) => seq![f] + somes(s.drop_first()),
            None => somes(s.drop_first()),
        }
    }
}

/// The contiguous run of comment lines at the front of `lines`, each with its
/// `#` marks removed, trimmed, and ended by a newline.
pub open spec fn comment_block(lines: Seq<Seq<char>>) -> Seq<char>
    decreases lines.len(),
{
    if lines.len() == 0 || !is_comment(lines[0]) {
        Seq::empty()
    } else {
        trimmed(strip_marks(lines[0])) + seq!['\n'] + comment_block(lines.drop_first())
    }
}

/// The header of a descriptor file: the comment block that follows its
/// first line, whatever that first line holds.
pub open spec fn header_of(lines: Seq<Seq<char>>) -> Seq<char> {
    if lines.len() == 0 {
        Seq::empty()
    } else {
        comment_block(lines.drop_first())
    }
}

/// `d` with its path set to `p`.
pub open spec fn with_path(d: ScriptFile, p: String) -> ScriptFile {
    ScriptFile { path: Some(p), ..d }
}

/// Whether every tag of `required` occurs in `tags`.
pub fn tags_cover(tags: &Vec<String>, required: &Vec<String>) -> (r: bool)
    ensures
        r == covers(texts(tags@), texts(required@)),
{
    let mut k: usize = 0;
    while k < required.len()
        invariant
            k <= required@.len(),
            forall|m: int| 0 <= m < k ==> texts(tags@).contains(#[trigger] texts(required@)[m]),
        decreases required@.len() - k,
    {
        let mut found = false;
        let mut j: usize = 0;
        while j < tags.len()
            invariant
                k < required@.len(),
                j <= tags@.len(),
                found ==> texts(tags@).contains(texts(required@)[k as int]),
                !found ==> forall|m: int| 0 <= m < j ==> #[trigger] tags@[m]@ != required@[k as int]@,
            decreases tags@.len() - j,
        {
            if tags[j] == required[k] {
                found = true;
                assert(texts(tags@)[j as int] == texts(required@)[k as int]);
            }
            j = j + 1;
        }
        if !found {
            assert(!texts(tags@).contains(texts(required@)[k as int]));
            return false;
        }
        k = k + 1;
    }
    true
}

impl ScriptConfig {
    /// Whether `script` runs under this selection.
    pub fn selects(&self, script: &ScriptFile) -> (r: bool)
        ensures
            r == is_selected(*self, *script),
            script.tags is None ==> !r,
            self.tags is None ==> !r,
    {
        match (&self.tags, &script.tags) {
            (Some(required), Some(tags)) => tags_cover(tags, required),
            _ => false,
        }
    }
}

/// The descriptors of `parsed` that `config` selects, in their order.
pub fn select_scripts(config: &ScriptConfig, parsed: Vec<ScriptFile>) -> (r: Vec<ScriptFile>)
    ensures
        r@ == picked(*config, parsed@),
{
    let mut rest = parsed;
    let mut r: Vec<ScriptFile> = Vec::new();
    while rest.len() > 0
        invariant
            r@ + picked(*config, rest@) == picked(*config, parsed@),
        decreases rest@.len(),
    {
        let ghost before = rest@;
        let script = rest.remove(0);
        assert(rest@ =~= before.drop_first());
        if config.selects(&script) {
            r.push(script);
            assert(r@ + picked(*config, rest@) =~= picked(*config, parsed@));
        }
    }
    assert(r@ + picked(*config, rest@) =~= r@);
    r
}

/// Keeps the descriptors that parsed, in their order, and drops the files
/// that did not.
pub fn parse_scripts(scripts: Vec<Option<ScriptFile>>) -> (r: Vec<ScriptFile>)
    ensures
        r@ == somes(scripts@),
{
    let mut rest = scripts;
    let mut r: Vec<ScriptFile> = Vec::new();
    while rest.len() > 0
        invariant
            r@ + somes(rest@) == somes(scripts@),
        decreases rest@.len(),
    {
        let ghost before = rest@;
        let outcome = rest.remove(0);
        assert(rest@ =~= before.drop_first());
        if let Some(script) = outcome {
            r.push(script);
            assert(r@ + somes(rest@) =~= somes(scripts@));
        }
    }
    assert(r@ + somes(rest@) =~= r@);
    r
}

proof fn lemma_block_step(lines: Seq<Seq<char>>, i: int)
    requires
        0 <= i < lines.len(),
    ensures
        is_comment(lines[i]) ==> comment_block(lines.subrange(i, lines.len() as int))
            == trimmed(strip_marks(lines[i])) + seq!['\n'] + comment_block(
            lines.subrange(i + 1, lines.len() as int),
        ),
        !is_comment(lines[i]) ==> comment_block(lines.subrange(i, lines.len() as int)).len()
            == 0,
{
    let tail = lines.subrange(i, lines.len() as int);
    assert(tail.drop_first() =~= lines.subrange(i + 1, lines.len() as int));
}

/// The header of a descriptor file given as its lines: the comment block that
/// follows the first line, each comment with its `#` marks removed, trimmed
/// and ended by a newline.
pub fn header_block(lines: &Vec<String>) -> (r: String)
    ensures
        r@ == header_of(texts(lines@)),
{
    let ghost all = texts(lines@);
    let n = lines.len();
    let mut r = String::new();
    if n == 0 {
        return r;
    }
    proof {
        assert(all.drop_first() =~= all.subrange(1, n as int));
    }
    let mut i: usize = 1;
    while i < n && starts_with_mark(lines[i].as_str())
        invariant
            n == lines@.len(),
            all == texts(lines@),
            1 <= i <= n,
            r@ + comment_block(all.subrange(i as int, n as int)) == header_of(all),
        decreases n - i,
    {
        let piece = trim_text(remove_marks(lines[i].as_str()).as_str());
        proof {
            lemma_block_step(all, i as int);
        }
        let ghost before = r@;
        r.append(piece.as_str());
        r.append("\n");
        proof {
            reveal_strlit("\n");
            assert(r@ + comment_block(all.subrange(i + 1, n as int)) =~= before
                + comment_block(all.subrange(i as int, n as int)));
        }
        i = i + 1;
    }
    proof {
        if i < n {
            lemma_block_step(all, i as int);
        } else {
            assert(all.subrange(i as int, n as int).len() == 0);
        }
        assert(r@ + comment_block(all.subrange(i as int, n as int)) =~= r@);
    }
    r
}

impl ScriptFile {
    /// The descriptor of the file at `path`, given its header text and what
    /// decoding that header produced: none where the header is empty or did
    /// not decode, else the decoded descriptor with its path set.
    pub fn from_header(path: String, header: &String, decoded: Option<ScriptFile>) -> (r: Option<
        ScriptFile,
    >)
        ensures
            header@.len() == 0 ==> r is None,
            header@.len() > 0 ==> r == match decoded {
                Some(d) => Some(with_path(d, path)),
                None => None,
            },
    {
        if header.unicode_len() == 0 {
            return None;
        }
        match decoded {
            Some(d) => Some(ScriptFile { path: Some(path), ..d }),
            None => None,
        }
    }
}

/// The built-in descriptor: tags `core_approved`, `RustScan` and `default`,
/// separator `,`, and a call of nmap on the ports and the address.
pub open spec fn is_builtin(f: ScriptFile) -> bool {
    &&& f.path is None
    &&& f.port is None
    &&& f.tags matches Some(t) && texts(t@) == seq!["core_approved"@, "RustScan"@, "default"@]
    &&& f.developer matches Some(d) && texts(d@) == seq![
        "RustScan"@,
        "https://github.com/RustScan"@,
    ]
    &&& f.ports_separator matches Some(s) && s@ == ","@
    &&& f.call_format matches Some(c) && c@ == "nmap -vvv -p {{port}} {{ip}}"@
}

/// The built-in descriptor that default mode runs.
pub fn default_script() -> (r: ScriptFile)
    ensures
        is_builtin(r),
{
    let mut tags: Vec<String> = Vec::new();
    tags.push(String::from_str("core_approved"));
    tags.push(String::from_str("RustScan"));
    tags.push(String::from_str("default"));
    let mut developer: Vec<String> = Vec::new();
    developer.push(String::from_str("RustScan"));
    developer.push(String::from_str("https://github.com/RustScan"));
    let r = ScriptFile {
        path: None,
        tags: Some(tags),
        developer: Some(developer),
        port: None,
        ports_separator: Some(String::from_str(",")),
        call_format: Some(String::from_str("nmap -vvv -p {{port}} {{ip}}")),
    };
    assert(texts(r.tags->0@) =~= seq!["core_approved"@, "RustScan"@, "default"@]);
    assert(texts(r.developer->0@) =~= seq!["RustScan"@, "https://github.com/RustScan"@]);
    r
}

/// The descriptors that a run executes. `config` and `parsed` are the
/// selection and the descriptors that custom mode read, which custom mode
/// cannot do without; the other modes do not look at them.
pub fn init_scripts(scripts: ScriptsRequired, config: Option<ScriptConfig>, parsed: Vec<ScriptFile>) -> (r: Vec<ScriptFile>)
    requires
        scripts is Custom ==> config is Some,
    ensures
        scripts is Disabled ==> r@.len() == 0,
        scripts is Default ==> r@.len() == 1 && is_builtin(r@[0]),
        scripts is Custom ==> r@ == picked(config->0, parsed@),
{
    let mut r: Vec<ScriptFile> = Vec::new();
    match scripts {
        ScriptsRequired::Disabled => r,
        ScriptsRequired::Default => {
            r.push(default_script());
            r
        },
        ScriptsRequired::Custom => match config {
            Some(c) => select_scripts(&c, parsed),
            None => r,
        },
    }
}

/// Tags beyond the selection never take a descriptor out of it: where every
/// tag of `a` is also a tag of `b` and `a` is selected, `b` is selected too.
pub proof fn lemma_more_tags_stay_selected(config: ScriptConfig, a: ScriptFile, b: ScriptFile)
    requires
        is_selected(config, a),
        b.tags is Some,
        forall|i: int|
            0 <= i < a.tags->0@.len() ==> texts(b.tags->0@).contains(
                #[trigger] texts(a.tags->0@)[i],
            ),
    ensures
        is_selected(config, b),
{
    let required = texts(config.tags->0@);
    let ta = texts(a.tags->0@);
    let tb = texts(b.tags->0@);
    assert forall|k: int| 0 <= k < required.len() implies tb.contains(#[trigger] required[k]) by {
        assert(ta.contains(required[k]));
        let i = choose|i: int| 0 <= i < ta.len() && ta[i] == required[k];
        assert(tb.contains(ta[i]));
    }
}

/// The subset rule: a lone descriptor is kept exactly when the selection has
/// tags, the descriptor has tags, and every selected tag is among the
/// descriptor's own; a descriptor without tags is never kept.
pub proof fn lemma_subset_rule(config: ScriptConfig, d: ScriptFile)
    ensures
        picked(config, seq![d]) == if config.tags is Some && d.tags is Some && covers(
            texts(d.tags->0@),
            texts(config.tags->0@),
        ) {
            seq![d]
        } else {
            Seq::<ScriptFile>::empty()
        },
        d.tags is None ==> picked(config, seq![d]).len() == 0,
{
    let one = seq![d];
    assert(one[0] == d);
    assert(one.drop_first() =~= Seq::<ScriptFile>::empty());
    assert(picked(config, one.drop_first()) == Seq::<ScriptFile>::empty());
    assert(one + Seq::<ScriptFile>::empty() =~= one);
}

/// A descriptor file whose second line is no comment has an empty header,
/// so it yields no descriptor, whatever the rest of the file holds.
pub proof fn lemma_uncommented_second_line(lines: Seq<Seq<char>>)
    requires
        lines.len() >= 2,
        !is_comment(lines[1]),
    ensures
        header_of(lines).len() == 0,
{
}

} // verus!
