//! A descriptor bound to a scan's address and ports: its command line, its
//! argument vector, and what a finished run of it returns.
use vstd::prelude::*;
use vstd::string::*;
use crate::descriptor::texts;
use crate::text::{contains_token, has_token, join_ports, joined};

verus! {

/// Why one script did not produce output.
#[derive(Debug, Clone, PartialEq, Eq)]
pub enum ScriptError {
    /// The descriptor has no call format.
    MissingFormat,
    /// The call format names `{{script}}` but the descriptor has no path.
    MissingPath,
    /// The call format names a placeholder that no value fills.
    Placeholder,
    /// The command line has unbalanced quotes or a trailing escape.
    Quoting,
    /// The command line holds no word.
    EmptyCommand,
    /// The command ended with this nonzero code.
    Exit(i32),
    /// The command could not be started; the system's message.
    Spawn(String),
}

/// How a command ended.
#[derive(Debug, Clone, Copy, PartialEq, Eq, Structural)]
pub enum Termination {
    /// It exited with this code.
    Exited(u32),
    /// A signal with this number ended it.
    Signaled(u8),
    /// A status that is neither an exit nor a signal, with its raw value.
    Other(i32),
    /// It ended with no status known.
    Undetermined,
}

/// A descriptor bound to the address and open ports of one scan.
#[derive(Debug, Clone)]
pub struct Script {
    /// Where the descriptor file lies.
    pub path: Option<String>,
    /// The scanned address, in its textual form.
    pub ip: String,
    /// The open ports, in the order the scan gave them.
    pub open_ports: Vec<u16>,
    /// A port list that, when present, replaces the open ports.
    pub trigger_port: Option<String>,
    /// What goes between two ports; `,` when absent.
    pub ports_separator: Option<String>,
    /// The descriptor's tags.
    pub tags: Option<Vec<String>>,
    /// The command template.
    pub call_format: Option<String>,
}

/// The placeholder that stands for the descriptor's own path.
pub open spec fn script_token() -> Seq<char> {
    "{{script}}"@
}

/// The separator between ports: the descriptor's own, else `,`.
pub open spec fn separator_of(s: Script) -> Seq<char> {
    match s.ports_separator {
        Some(sep) => sep@,
        None => ","@,
    }
}

/// The text that fills `{{port}}`: the trigger port verbatim, else the open
/// ports joined with the separator.
pub open spec fn port_text(s: Script) -> Seq<char> {
    match s.trigger_port {
        Some(p) => p@,
        None => joined(s.open_ports@, separator_of(s)),
    }
}

/// Name and value pairs as character sequences.
pub open spec fn pair_texts(v: Seq<(String, String)>) -> Seq<(Seq<char>, Seq<char>)> {
    v.map_values(|p: (String, String)| (p.0@, p.1@))
}

/// The values that fill a script's template: `script`, `ip` and `port` where
/// the template names `{{script}}`, else `ip` and `port`.
pub open spec fn substitutions_of(s: Script) -> Result<Seq<(Seq<char>, Seq<char>)>, ScriptError> {
    match s.call_format {
        None => Err(ScriptError::MissingFormat),
        Some(f) => if has_token(f@, script_token()) {
            match s.path {
                None => Err(ScriptError::MissingPath),
                Some(p) => Ok(seq![("script"@, p@), ("ip"@, s.ip@), ("port"@, port_text(s))]),
            }
        } else {
            Ok(seq![("ip"@, s.ip@), ("port"@, port_text(s))])
        },
    }
}

/// A placeholder name that the template engine reads back as written: no
/// braces and no spaces.
pub open spec fn is_plain_name(k: Seq<char>) -> bool {
    forall|i: int| 0 <= i < k.len() ==> #[trigger] k[i] != '{' && k[i] != '}' && k[i] != ' '
}

/// `format` holds `{{k}}` for a plain name `k` that no pair of `values`
/// names, while no name of `values` holds a `{`.
pub open spec fn unfilled_placeholder(format: Seq<char>, values: Seq<(Seq<char>, Seq<char>)>) -> bool {
    &&& forall|i: int, j: int|
        0 <= i < values.len() && 0 <= j < values[i].0.len() ==> #[trigger] values[i].0[j] != '{'
    &&& exists|k: Seq<char>|
        is_plain_name(k) && has_token(format, seq!['{', '{'] + k + seq!['}', '}'])
            && forall|i: int| 0 <= i < values.len() ==> #[trigger] values[i].0 != k
}

/// What filling the template `format` with the named values gives, or none
/// where a placeholder has no value.
pub uninterp spec fn filled_of(format: Seq<char>, values: Seq<(Seq<char>, Seq<char>)>) -> Option<
    Seq<char>,
>;

/// What splitting `s` into words by shell quoting rules gives, or none where
/// its quoting is malformed.
pub uninterp spec fn words_of(s: Seq<char>) -> Option<Seq<Seq<char>>>;

/// The command line of a script: its template filled with its values.
pub open spec fn rendered(s: Script) -> Result<Seq<char>, ScriptError> {
    match substitutions_of(s) {
        Err(e) => Err(e),
        Ok(values) => match filled_of(s.call_format->0@, values) {
            Some(t) => Ok(t),
            None => Err(ScriptError::Placeholder),
        },
    }
}

/// The argument vector made of the words of a command line.
pub open spec fn argv_of(words: Option<Seq<Seq<char>>>) -> Result<Seq<Seq<char>>, ScriptError> {
    match words {
        None => Err(ScriptError::Quoting),
        Some(w) => if w.len() == 0 {
            Err(ScriptError::EmptyCommand)
        } else {
            Ok(w)
        },
    }
}

/// The integer code of a termination: the exit code (read as a signed 32-bit
/// value), the signal number, or -1 for any other termination.
pub open spec fn code_of(t: Termination) -> int {
    match t {
        Termination::Exited(c) => if c <= i32::MAX {
            c as int
        } else {
            c - 0x1_0000_0000
        },
        Termination::Signaled(n) => n as int,
        Termination::Other(_) => -1,
        Termination::Undetermined => -1,
    }
}

/// Relies on `text_placeholder::Template::new` and its
/// `fill_with_hashmap_strict`: the filled text, or an error where a
/// placeholder has no value; the result depends on the arguments alone. A
/// `{{k}}` in the format either is read as the placeholder `k` or falls inside
/// a placeholder whose name holds a `{`; either way a name missing from the
/// map fails the fill.
#[verifier::external_body]
fn fill_template(format: &str, values: &Vec<(String, String)>) -> (r: Option<String>)
    ensures
        match r {
            Some(t) => filled_of(format@, pair_texts(values@)) == Some(t@),
            None => filled_of(format@, pair_texts(values@)) is None,
        },
        unfilled_placeholder(format@, pair_texts(values@)) ==> r is None,
{
    let map: std::collections::HashMap<&str, &str> = values.iter().map(
        |p| (p.0.as_str(), p.1.as_str()),
    ).collect();
    text_placeholder::Template::new(format).fill_with_hashmap_strict(&map).ok()
}

/// Relies on `shell_words::split`: the words of `s` under shell quoting, or
/// an error where the quoting is malformed; the result depends on `s` alone.
#[verifier::external_body]
fn split_words(s: &str) -> (r: Option<Vec<String>>)
    ensures
        match r {
            Some(w) => words_of(s@) == Some(texts(w@)),
            None => words_of(s@) is None,
        },
{
    shell_words::split(s).ok()
}

impl Script {
    /// Binds a descriptor's fields to a scan's address and open ports.
    pub fn build(
        path: Option<String>,
        ip: String,
        open_ports: Vec<u16>,
        trigger_port: Option<String>,
        ports_separator: Option<String>,
        tags: Option<Vec<String>>,
        call_format: Option<String>,
    ) -> (r: Self)
        ensures
            r.path == path,
            r.ip == ip,
            r.open_ports == open_ports,
            r.trigger_port == trigger_port,
            r.ports_separator == ports_separator,
            r.tags == tags,
            r.call_format == call_format,
    {
        Script { path, ip, open_ports, trigger_port, ports_separator, tags, call_format }
    }

    /// The text that fills `{{port}}`.
    pub fn port_string(&self) -> (r: String)
        ensures
            r@ == port_text(*self),
    {
        match &self.trigger_port {
            Some(p) => p.clone(),
            None => match &self.ports_separator {
                Some(sep) => join_ports(&self.open_ports, sep.as_str()),
                None => join_ports(&self.open_ports, ","),
            },
        }
    }

    /// The named values that fill this script's template.
    pub fn substitutions(&self) -> (r: Result<Vec<(String, String)>, ScriptError>)
        ensures
            match r {
                Ok(v) => substitutions_of(*self) == Ok::<_, ScriptError>(pair_texts(v@)),
                Err(e) => substitutions_of(*self) == Err::<Seq<(Seq<char>, Seq<char>)>, _>(e),
            },
    {
        let format = match &self.call_format {
            Some(f) => f,
            None => return Err(ScriptError::MissingFormat),
        };
        let mut values: Vec<(String, String)> = Vec::new();
        if contains_token(format.as_str(), "{{script}}") {
            match &self.path {
                Some(p) => values.push((String::from_str("script"), p.clone())),
                None => return Err(ScriptError::MissingPath),
            }
        }
        values.push((String::from_str("ip"), self.ip.clone()));
        values.push((String::from_str("port"), self.port_string()));
        proof {
            let sub = substitutions_of(*self);
            assert(sub matches Ok(w) && pair_texts(values@) =~= w);
        }
        Ok(values)
    }

    /// The command line: the template filled with this script's values.
    pub fn render(&self) -> (r: Result<String, ScriptError>)
        ensures
            match r {
                Ok(t) => rendered(*self) == Ok::<_, ScriptError>(t@),
                Err(e) => rendered(*self) == Err::<Seq<char>, _>(e),
            },
            self.call_format is None ==> r == Err::<String, _>(ScriptError::MissingFormat),
            self.call_format matches Some(f) && substitutions_of(*self) matches Ok(v)
                && unfilled_placeholder(f@, v) ==> r == Err::<String, _>(ScriptError::Placeholder),
    {
        let format = match &self.call_format {
            Some(f) => f,
            None => return Err(ScriptError::MissingFormat),
        };
        let values = match self.substitutions() {
            Ok(v) => v,
            Err(e) => return Err(e),
        };
        match fill_template(format.as_str(), &values) {
            Some(t) => Ok(t),
            None => Err(ScriptError::Placeholder),
        }
    }

    /// The argument vector to run: the words of the command line, the first
    /// naming the program.
    pub fn arguments(&self) -> (r: Result<Vec<String>, ScriptError>)
        ensures
            match r {
                Ok(argv) => rendered(*self) matches Ok(t) && argv_of(words_of(t))
                    == Ok::<_, ScriptError>(texts(argv@)),
                Err(e) => match rendered(*self) {
                    Err(e2) => e == e2,
                    Ok(t) => argv_of(words_of(t)) == Err::<Seq<Seq<char>>, _>(e),
                },
            },
    {
        let line = match self.render() {
            Ok(t) => t,
            Err(e) => return Err(e),
        };
        command_words(split_words(line.as_str()))
    }
}

/// The argument vector made of the words of a command line: an error where
/// the line did not split or holds no word.
pub fn command_words(words: Option<Vec<String>>) -> (r: Result<Vec<String>, ScriptError>)
    ensures
        match r {
            Ok(argv) => argv_of(
                match words {
                    Some(w) => Some(texts(w@)),
                    None => None,
                },
            ) == Ok::<_, ScriptError>(texts(argv@)),
            Err(e) => argv_of(
                match words {
                    Some(w) => Some(texts(w@)),
                    None => None,
                },
            ) == Err::<Seq<Seq<char>>, _>(e),
        },
{
    match words {
        None => Err(ScriptError::Quoting),
        Some(w) => if w.len() == 0 {
            Err(ScriptError::EmptyCommand)
        } else {
            Ok(w)
        },
    }
}

/// The integer code of a termination.
pub fn exit_code(status: Termination) -> (r: i32)
    ensures
        r as int == code_of(status),
{
    match status {
        Termination::Exited(c) => if c <= 0x7fff_ffff {
            c as i32
        } else {
            (c - 0x8000_0000) as i32 + i32::MIN
        },
        Termination::Signaled(n) => n as i32,
        Termination::Other(_) => -1,
        Termination::Undetermined => -1,
    }
}

/// What a finished run returns: its output where the code is zero, else an
/// error with the code, the output dropped.
pub fn script_result(status: Termination, stdout: String) -> (r: Result<String, ScriptError>)
    ensures
        code_of(status) == 0 ==> r == Ok::<_, ScriptError>(stdout),
        code_of(status) != 0 ==> r == Err::<String, _>(ScriptError::Exit(code_of(status) as i32)),
{
    let code = exit_code(status);
    if code != 0 {
        Err(ScriptError::Exit(code))
    } else {
        Ok(stdout)
    }
}

} // verus!
