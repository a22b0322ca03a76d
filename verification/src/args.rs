//! Command-line arguments for the `oom-edit` binary.
//!
//! Hand-parsed, left to right. Parsing runs before any terminal setup, so
//! `--help`, `--version` and error paths print to a normal screen.

use vstd::prelude::*;
use crate::text::{chars_of, concat, string_from_chars, to_string};

verus! {

/// The parsed command-line arguments.
#[derive(Debug, Clone, PartialEq, Eq)]
pub struct Args {
    /// Positional file path to open, if any.
    pub path: Option<String>,
    /// `--theme NAME`: theme name.
    pub theme: Option<String>,
    /// Hidden debug flag: trigger a panic to check terminal restoration.
    pub panic_test: bool,
}

impl Default for Args {
    fn default() -> (r: Self)
        ensures
            r.path is None,
            r.theme is None,
            !r.panic_test,
    {
        Args { path: None, theme: None, panic_test: false }
    }
}

/// The result of parsing: run with the given args, or print a message
/// (`--help`/`--version`) and exit successfully.
#[derive(Debug, Clone, PartialEq, Eq)]
pub enum ParseOutcome {
    /// Proceed to run the editor with these args.
    Run(Args),
    /// Print this message to stdout and exit 0.
    Message(String),
}

/// The meaning of a command line, over character sequences.
pub ghost enum SpecOutcome {
    Run { path: Option<Seq<char>>, theme: Option<Seq<char>>, panic_test: bool },
    Message(Seq<char>),
    Error(Seq<char>),
}

/// What has been read so far.
pub ghost struct ParseState {
    pub path: Option<Seq<char>>,
    pub theme: Option<Seq<char>>,
    pub panic_test: bool,
    pub positionals: nat,
    pub positionals_only: bool,
}

/// The help text.
pub open spec fn spec_help_text() -> Seq<char> {
    "oom-edit \u{2014} a console/TUI markdown editor with Vim-style modal editing\n\nUSAGE:\n    oom-edit [OPTIONS] [--] [path]\n\nOPTIONS:\n    --theme NAME        Theme name (built-in: default-dark)\n    -h, --help          Print this help and exit\n    -V, --version       Print version and exit\n\nIf no path is given, oom-edit opens a new buffer titled by the given path.\nThe file is created on the first save (:w).\n"@
}

/// The version text.
pub open spec fn spec_version_text() -> Seq<char> {
    "oom-edit 0.1.0\n"@
}

/// An error message: the problem, then the help text.
pub open spec fn spec_usage(problem: Seq<char>) -> Seq<char> {
    "error: "@ + problem + "\n\n"@ + spec_help_text()
}

/// The problem reported for a second positional argument.
pub open spec fn spec_extra_positional() -> Seq<char> {
    "unexpected argument (only one positional path allowed)"@
}

/// The problem reported for an unknown flag.
pub open spec fn spec_unknown_flag(flag: Seq<char>) -> Seq<char> {
    "unknown flag '"@ + flag + "'"@
}

/// The problem reported for a value-taking flag without a value.
pub open spec fn spec_requires_value(flag: Seq<char>) -> Seq<char> {
    "flag '"@ + flag + "' requires a value"@
}

/// The problem reported for a boolean flag given `=value`.
pub open spec fn spec_takes_no_value(flag: Seq<char>) -> Seq<char> {
    "flag '"@ + flag + "' takes no value"@
}

/// The position of the first `=` at or after `i`, or the length.
pub open spec fn spec_eq_pos(s: Seq<char>, i: int) -> int
    decreases s.len() - i,
{
    if i >= s.len() || i < 0 {
        s.len() as int
    } else if s[i] == '=' {
        i
    } else {
        spec_eq_pos(s, i + 1)
    }
}

/// `--flag=value` split at its first `=` into the flag and the inline value.
pub open spec fn spec_split_inline(s: Seq<char>) -> (Seq<char>, Option<Seq<char>>) {
    let p = spec_eq_pos(s, 0);
    if p < s.len() {
        (s.subrange(0, p), Some(s.subrange(p + 1, s.len() as int)))
    } else {
        (s, None)
    }
}

/// Whether a text begins with `-`.
pub open spec fn spec_is_dashed(s: Seq<char>) -> bool {
    s.len() > 0 && s[0] == '-'
}

/// Take the whole argument `arg` as the positional path (an `=` in it is
/// part of the path).
pub open spec fn spec_with_path(st: ParseState, arg: Seq<char>) -> ParseState {
    ParseState { path: Some(arg), positionals: st.positionals + 1, ..st }
}

/// The outcome of reading `argv` from position `i` on, in state `st`.
pub open spec fn spec_parse_from(argv: Seq<Seq<char>>, i: int, st: ParseState) -> SpecOutcome
    decreases argv.len() - i,
{
    if i >= argv.len() || i < 0 {
        SpecOutcome::Run { path: st.path, theme: st.theme, panic_test: st.panic_test }
    } else if st.positionals_only {
        if st.positionals >= 1 {
            SpecOutcome::Error(spec_usage(spec_extra_positional()))
        } else {
            spec_parse_from(argv, i + 1, spec_with_path(st, argv[i]))
        }
    } else {
        let (flag, inline) = spec_split_inline(argv[i]);
        if flag == "--help"@ || flag == "-h"@ {
            SpecOutcome::Message(spec_help_text())
        } else if flag == "--version"@ || flag == "-V"@ {
            SpecOutcome::Message(spec_version_text())
        } else if flag == "--theme"@ {
            match inline {
                Some(v) => spec_parse_from(argv, i + 1, ParseState { theme: Some(v), ..st }),
                None => if i + 1 < argv.len() {
                    spec_parse_from(argv, i + 2, ParseState { theme: Some(argv[i + 1]), ..st })
                } else {
                    SpecOutcome::Error(spec_usage(spec_requires_value(flag)))
                },
            }
        } else if flag == "--panic-test"@ {
            if inline is Some {
                SpecOutcome::Error(spec_usage(spec_takes_no_value(flag)))
            } else {
                spec_parse_from(argv, i + 1, ParseState { panic_test: true, ..st })
            }
        } else if flag == "--"@ {
            if inline is Some {
                SpecOutcome::Error(spec_usage(spec_takes_no_value(flag)))
            } else {
                spec_parse_from(argv, i + 1, ParseState { positionals_only: true, ..st })
            }
        } else if spec_is_dashed(flag) {
            SpecOutcome::Error(spec_usage(spec_unknown_flag(flag)))
        } else if st.positionals >= 1 {
            SpecOutcome::Error(spec_usage(spec_extra_positional()))
        } else {
            spec_parse_from(argv, i + 1, spec_with_path(st, argv[i]))
        }
    }
}

/// The outcome of a command line whose first word is the program name.
pub open spec fn spec_parse(argv: Seq<Seq<char>>) -> SpecOutcome {
    spec_parse_from(
        argv,
        1,
        ParseState { path: None, theme: None, panic_test: false, positionals: 0, positionals_only: false },
    )
}

/// The view of an optional string.
pub open spec fn opt_view(o: Option<String>) -> Option<Seq<char>> {
    match o {
        Some(s) => Some(s@),
        None => None,
    }
}

/// Whether a parse result is the given meaning.
pub open spec fn spec_result_is(r: Result<ParseOutcome, String>, o: SpecOutcome) -> bool {
    match r {
        Ok(ParseOutcome::Run(a)) => o == SpecOutcome::Run {
            path: opt_view(a.path),
            theme: opt_view(a.theme),
            panic_test: a.panic_test,
        },
        Ok(ParseOutcome::Message(m)) => o == SpecOutcome::Message(m@),
        Err(e) => o == SpecOutcome::Error(e@),
    }
}

/// Whether a character sequence equals a string literal.
fn chars_equal(a: &Vec<char>, lit: &str) -> (r: bool)
    ensures
        r == (a@ == lit@),
{
    let b = chars_of(lit);
    if a.len() != b.len() {
        return false;
    }
    let mut i: usize = 0;
    while i < a.len()
        invariant
            a@.len() == b@.len(),
            b@ == lit@,
            i <= a@.len(),
            forall|k: int| 0 <= k < i ==> a@[k] == b@[k],
        decreases a@.len() - i,
    {
        if a[i] != b[i] {
            return false;
        }
        i = i + 1;
    }
    proof {
        assert(a@ =~= b@);
    }
    true
}

/// The characters of `v` from `from` up to `to`.
fn slice_chars(v: &Vec<char>, from: usize, to: usize) -> (r: Vec<char>)
    requires
        from <= to <= v@.len(),
    ensures
        r@ == v@.subrange(from as int, to as int),
{
    let mut r: Vec<char> = Vec::new();
    let mut i = from;
    while i < to
        invariant
            from <= i <= to <= v@.len(),
            r@ == v@.subrange(from as int, i as int),
        decreases to - i,
    {
        r.push(v[i]);
        i = i + 1;
        proof {
            assert(r@ =~= v@.subrange(from as int, i as int));
        }
    }
    r
}

/// Split `--flag=value` at its first `=`.
fn split_inline(arg: &Vec<char>) -> (r: (Vec<char>, Option<Vec<char>>))
    ensures
        r.0@ == spec_split_inline(arg@).0,
        match r.1 {
            Some(v) => spec_split_inline(arg@).1 == Some(v@),
            None => spec_split_inline(arg@).1 is None,
        },
{
    let mut p: usize = 0;
    while p < arg.len() && arg[p] != '='
        invariant
            p <= arg@.len(),
            spec_eq_pos(arg@, 0) == spec_eq_pos(arg@, p as int),
        decreases arg@.len() - p,
    {
        p = p + 1;
    }
    if p < arg.len() {
        (slice_chars(arg, 0, p), Some(slice_chars(arg, p + 1, arg.len())))
    } else {
        proof {
            assert(arg@.subrange(0, arg@.len() as int) =~= arg@);
        }
        (slice_chars(arg, 0, arg.len()), None)
    }
}

/// The help text.
pub fn help_text() -> (r: String)
    ensures
        r@ == spec_help_text(),
{
    to_string("oom-edit \u{2014} a console/TUI markdown editor with Vim-style modal editing\n\nUSAGE:\n    oom-edit [OPTIONS] [--] [path]\n\nOPTIONS:\n    --theme NAME        Theme name (built-in: default-dark)\n    -h, --help          Print this help and exit\n    -V, --version       Print version and exit\n\nIf no path is given, oom-edit opens a new buffer titled by the given path.\nThe file is created on the first save (:w).\n")
}

/// The version text.
pub fn version_text() -> (r: String)
    ensures
        r@ == spec_version_text(),
{
    to_string("oom-edit 0.1.0\n")
}

/// An error message: the problem, then the help text.
pub fn usage(problem: &str) -> (r: String)
    ensures
        r@ == spec_usage(problem@),
{
    let a = concat("error: ", problem);
    let b = concat(a.as_str(), "\n\n");
    let h = help_text();
    let r = concat(b.as_str(), h.as_str());
    proof {
        assert(r@ =~= spec_usage(problem@));
    }
    r
}

/// `prefix`, the flag's text, then `suffix`.
fn quote_flag(prefix: &str, flag: &Vec<char>, suffix: &str) -> (r: String)
    ensures
        r@ == prefix@ + flag@ + suffix@,
{
    let f = string_from_chars(flag);
    let a = concat(prefix, f.as_str());
    concat(a.as_str(), suffix)
}

impl Args {
    /// Parse a command line whose first word (the program name) is skipped.
    /// Returns a message for `--help`/`--version`, or `Err(usage)` for an
    /// unknown flag, a missing value, a value given to a boolean flag, or a
    /// second positional argument.
    pub fn parse(argv: Vec<String>) -> (r: Result<ParseOutcome, String>)
        ensures
            spec_result_is(r, spec_parse(argv@.map_values(|s: String| s@))),
    {
        let ghost words = argv@.map_values(|s: String| s@);
        let ghost init = ParseState { path: None, theme: None, panic_test: false, positionals: 0, positionals_only: false };
        let mut path: Option<String> = None;
        let mut theme: Option<String> = None;
        let mut panic_test = false;
        let mut positionals: usize = 0;
        let mut positionals_only = false;
        let mut i: usize = 1;
        while i < argv.len()
            invariant
                words == argv@.map_values(|s: String| s@),
                init == (ParseState { path: None, theme: None, panic_test: false, positionals: 0, positionals_only: false }),
                1 <= i,
                positionals <= 1,
                spec_parse_from(words, 1, init) == spec_parse_from(
                    words,
                    i as int,
                    ParseState {
                        path: opt_view(path),
                        theme: opt_view(theme),
                        panic_test,
                        positionals: positionals as nat,
                        positionals_only,
                    },
                ),
            decreases argv@.len() - i,
        {
            let arg = chars_of(argv[i].as_str());
            assert(arg@ == words[i as int]);
            if positionals_only {
                if positionals >= 1 {
                    return Err(usage("unexpected argument (only one positional path allowed)"));
                }
                positionals = positionals + 1;
                path = Some(string_from_chars(&arg));
                i = i + 1;
                continue;
            }
            let (flag, inline) = split_inline(&arg);
            if chars_equal(&flag, "--help") || chars_equal(&flag, "-h") {
                return Ok(ParseOutcome::Message(help_text()));
            } else if chars_equal(&flag, "--version") || chars_equal(&flag, "-V") {
                return Ok(ParseOutcome::Message(version_text()));
            } else if chars_equal(&flag, "--theme") {
                match inline {
                    Some(v) => {
                        theme = Some(string_from_chars(&v));
                        i = i + 1;
                    },
                    None => {
                        if i + 1 < argv.len() {
                            let value = chars_of(argv[i + 1].as_str());
                            assert(value@ == words[i + 1]);
                            theme = Some(string_from_chars(&value));
                            i = i + 2;
                        } else {
                            let problem = quote_flag("flag '", &flag, "' requires a value");
                            return Err(usage(problem.as_str()));
                        }
                    },
                }
            } else if chars_equal(&flag, "--panic-test") {
                if inline.is_some() {
                    let problem = quote_flag("flag '", &flag, "' takes no value");
                    return Err(usage(problem.as_str()));
                }
                panic_test = true;
                i = i + 1;
            } else if chars_equal(&flag, "--") {
                if inline.is_some() {
                    let problem = quote_flag("flag '", &flag, "' takes no value");
                    return Err(usage(problem.as_str()));
                }
                positionals_only = true;
                i = i + 1;
            } else if flag.len() > 0 && flag[0] == '-' {
                let problem = quote_flag("unknown flag '", &flag, "'");
                return Err(usage(problem.as_str()));
            } else {
                if positionals >= 1 {
                    return Err(usage("unexpected argument (only one positional path allowed)"));
                }
                positionals = positionals + 1;
                path = Some(string_from_chars(&arg));
                i = i + 1;
            }
        }
        Ok(ParseOutcome::Run(Args { path, theme, panic_test }))
    }
}

/// `spec_eq_pos` from `i` stops at the first `=` at or after `i`, or at the
/// end.
proof fn lemma_eq_pos_bounds(s: Seq<char>, i: int)
    requires
        0 <= i <= s.len(),
    ensures
        i <= spec_eq_pos(s, i) <= s.len(),
        forall|j: int| i <= j < spec_eq_pos(s, i) ==> s[j] != '=',
        spec_eq_pos(s, i) < s.len() ==> s[spec_eq_pos(s, i)] == '=',
    decreases s.len() - i,
{
    if i < s.len() && s[i] != '=' {
        lemma_eq_pos_bounds(s, i + 1);
    }
}

/// A word without `=` is its own flag, with no inline value.
proof fn lemma_split_without_eq(s: Seq<char>)
    requires
        forall|j: int| 0 <= j < s.len() ==> s[j] != '=',
    ensures
        spec_split_inline(s) == (s, None::<Seq<char>>),
{
    lemma_eq_pos_bounds(s, 0);
}

/// The flag part of a word that does not begin with `-` does not begin with
/// `-` either, so it is never a flag.
proof fn lemma_plain_word_is_no_flag(p: Seq<char>)
    requires
        !spec_is_dashed(p),
    ensures
        !spec_is_dashed(spec_split_inline(p).0),
{
    lemma_eq_pos_bounds(p, 0);
    let pos = spec_eq_pos(p, 0);
    if pos < p.len() && pos > 0 {
        assert(p.subrange(0, pos)[0] == p[0]);
    }
}

/// The value of a separate `--theme VALUE` is never taken for the path: a
/// theme and one path that does not begin with `-` parse to a run with that
/// path and that theme, whichever comes first.
pub proof fn lemma_theme_value_is_not_a_path(program: Seq<char>, value: Seq<char>, path: Seq<char>)
    requires
        !spec_is_dashed(path),
    ensures
        spec_parse(seq![program, "--theme"@, value, path])
            == (SpecOutcome::Run { path: Some(path), theme: Some(value), panic_test: false }),
        spec_parse(seq![program, path, "--theme"@, value])
            == (SpecOutcome::Run { path: Some(path), theme: Some(value), panic_test: false }),
{
    reveal_strlit("--theme");
    reveal_strlit("--help");
    reveal_strlit("-h");
    reveal_strlit("--version");
    reveal_strlit("-V");
    reveal_strlit("--panic-test");
    reveal_strlit("--");
    lemma_split_without_eq("--theme"@);
    lemma_plain_word_is_no_flag(path);
    let f = spec_split_inline(path).0;
    assert(spec_is_dashed("--help"@) && spec_is_dashed("-h"@) && spec_is_dashed("--version"@));
    assert(spec_is_dashed("-V"@) && spec_is_dashed("--panic-test"@) && spec_is_dashed("--"@));
    assert(f != "--help"@ && f != "-h"@ && f != "--version"@ && f != "-V"@);
    assert(f != "--theme"@ && f != "--panic-test"@ && f != "--"@);
    assert("--theme"@ != "--help"@ && "--theme"@ != "-h"@ && "--theme"@ != "--version"@ && "--theme"@ != "-V"@) by {
        assert("--theme"@.len() != "--help"@.len());
        assert("--theme"@[1] != "-h"@[1]);
        assert("--theme"@[2] != "--version"@[2]);
        assert("--theme"@[1] != "-V"@[1]);
    }
    let st0 = ParseState { path: None, theme: None, panic_test: false, positionals: 0, positionals_only: false };
    let a = seq![program, "--theme"@, value, path];
    let st1 = ParseState { theme: Some(value), ..st0 };
    assert(spec_parse_from(a, 4, spec_with_path(st1, path))
        == SpecOutcome::Run { path: Some(path), theme: Some(value), panic_test: false });
    assert(spec_parse_from(a, 3, st1) == spec_parse_from(a, 4, spec_with_path(st1, path)));
    assert(spec_parse_from(a, 1, st0) == spec_parse_from(a, 3, st1));
    let b = seq![program, path, "--theme"@, value];
    let st2 = spec_with_path(st0, path);
    assert(spec_parse_from(b, 2, st2) == spec_parse_from(b, 4, ParseState { theme: Some(value), ..st2 }));
    assert(spec_parse_from(b, 1, st0) == spec_parse_from(b, 2, st2));
}

} // verus!
