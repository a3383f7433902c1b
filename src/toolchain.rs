use vstd::prelude::*;
use crate::error::LinkerError;
use crate::text::{has_prefix, starts_with};

verus! {

/// An external program to run, with its arguments.
#[derive(Clone, Debug)]
pub struct Command {
    pub program: String,
    pub args: Vec<String>,
}

impl View for Command {
    type V = (Seq<char>, Seq<Seq<char>>);

    open spec fn view(&self) -> (Seq<char>, Seq<Seq<char>>) {
        (self.program@, self.args@.map_values(|a: String| a@))
    }
}

/// What an external program left behind when it exited.
#[derive(Clone, Debug)]
pub struct ToolOutput {
    /// The exit code; `None` where the program was ended by a signal.
    pub status: Option<i32>,
    pub stdout: String,
    pub stderr: String,
}

/// Whether the program exited with code zero.
pub open spec fn succeeded(o: ToolOutput) -> bool {
    o.status == Some(0i32)
}

impl ToolOutput {
    /// Tells whether the program exited with code zero.
    pub fn success(&self) -> (r: bool)
        ensures
            r == succeeded(*self),
    {
        match self.status {
            Some(code) => code == 0,
            None => false,
        }
    }
}

/// Number of characters before the first `c` in `s` (all of them if none).
pub open spec fn run_until(s: Seq<char>, c: char) -> nat
    decreases s.len(),
{
    if s.len() == 0 || s[0] == c {
        0
    } else {
        1 + run_until(s.drop_first(), c)
    }
}

pub proof fn lemma_run_until_bound(s: Seq<char>, c: char)
    ensures
        run_until(s, c) <= s.len(),
        run_until(s, c) < s.len() ==> s[run_until(s, c) as int] == c,
    decreases s.len(),
{
    if s.len() > 0 && s[0] != c {
        lemma_run_until_bound(s.drop_first(), c);
    }
}

/// Finds the first `c` in `s` at or after `from`; the length of `s` if none.
fn find_char(s: &str, from: usize, c: char) -> (j: usize)
    requires
        from <= s@.len(),
    ensures
        from <= j <= s@.len(),
        j - from == run_until(s@.skip(from as int), c),
{
    let n = s.unicode_len();
    let mut j = from;
    while j < n && s.get_char(j) != c
        invariant
            n == s@.len(),
            from <= j <= n,
            run_until(s@.skip(from as int), c) == (j - from) + run_until(s@.skip(j as int), c),
        decreases n - j,
    {
        assert(s@.skip(j as int).drop_first() =~= s@.skip(j + 1));
        j = j + 1;
    }
    j
}

/// The text a report line starts with where it names the LLVM version.
pub open spec fn version_prefix() -> Seq<char> {
    "LLVM version: "@
}

/// Whether `s` is a number: one or more ASCII digits.
pub open spec fn is_number(s: Seq<char>) -> bool {
    s.len() > 0 && forall|i: int| 0 <= i < s.len() ==> '0' <= #[trigger] s[i] && s[i] <= '9'
}

/// The major version a line of the report names: what follows the prefix,
/// up to its first dot, where that is a number; nothing where the line has
/// no prefix, no dot, or no number before the dot.
pub open spec fn line_major(l: Seq<char>) -> Option<Seq<char>> {
    if has_prefix(l, version_prefix()) {
        let rest = l.skip(version_prefix().len() as int);
        let k = run_until(rest, '.');
        if k < rest.len() && is_number(rest.take(k as int)) {
            Some(rest.take(k as int))
        } else {
            None
        }
    } else {
        None
    }
}

/// The major LLVM version a version report names: that of its first line
/// (lines end at `\n`) that names one.
pub open spec fn llvm_major(s: Seq<char>) -> Option<Seq<char>>
    decreases s.len(),
{
    if s.len() == 0 {
        None
    } else {
        let n = run_until(s, '\n');
        match line_major(s.take(n as int)) {
            Some(m) => Some(m),
            None => if n < s.len() {
                proof {
                    lemma_run_until_bound(s, '\n');
                }
                llvm_major(s.skip(n as int + 1))
            } else {
                None
            },
        }
    }
}

/// The optional string's text.
pub open spec fn opt_view(o: Option<String>) -> Option<Seq<char>> {
    match o {
        Some(s) => Some(s@),
        None => None,
    }
}

fn major_of_line(line: &str) -> (r: Option<String>)
    ensures
        opt_view(r) == line_major(line@),
{
    let p = "LLVM version: ";
    proof {
        reveal_strlit("LLVM version: ");
    }
    if !starts_with(line, p) {
        return None;
    }
    let plen = p.unicode_len();
    let k = find_char(line, plen, '.');
    let n = line.unicode_len();
    proof {
        lemma_run_until_bound(line@.skip(plen as int), '.');
    }
    if k < n {
        let m = line.substring_char(plen, k);
        assert(m@ =~= line@.skip(plen as int).take(k - plen));
        if is_digits(m) {
            Some(String::from_str(m))
        } else {
            None
        }
    } else {
        None
    }
}

/// Tells whether `s` is a number (see `is_number`).
fn is_digits(s: &str) -> (r: bool)
    ensures
        r == is_number(s@),
{
    let n = s.unicode_len();
    if n == 0 {
        return false;
    }
    let mut i: usize = 0;
    while i < n
        invariant
            n == s@.len(),
            i <= n,
            forall|j: int| 0 <= j < i ==> '0' <= #[trigger] s@[j] && s@[j] <= '9',
        decreases n - i,
    {
        let c = s.get_char(i);
        if c < '0' || c > '9' {
            return false;
        }
        i = i + 1;
    }
    true
}

/// Reads the major LLVM version out of the host compiler's verbose version
/// report.
pub fn llvm_major_version(report: &str) -> (r: Option<String>)
    ensures
        opt_view(r) == llvm_major(report@),
{
    let n = report.unicode_len();
    let mut i: usize = 0;
    assert(report@.skip(0) =~= report@);
    while i < n
        invariant
            n == report@.len(),
            i <= n,
            llvm_major(report@.skip(i as int)) == llvm_major(report@),
        decreases n - i,
    {
        let j = find_char(report, i, '\n');
        let line = report.substring_char(i, j);
        let ghost t = report@.skip(i as int);
        assert(line@ =~= t.take(j - i));
        proof {
            lemma_run_until_bound(t, '\n');
        }
        match major_of_line(line) {
            Some(m) => {
                return Some(m);
            },
            None => {},
        }
        if j == n {
            return None;
        }
        assert(t.skip(j - i + 1) =~= report@.skip(j + 1));
        i = j + 1;
    }
    None
}

/// The suffix every tool name carries: `-<major>` where the version-pinned
/// linker could be started, else empty where the default one could.
pub open spec fn suffix_for(major: Seq<char>, pinned_found: bool, default_found: bool) -> Option<Seq<char>> {
    if pinned_found {
        Some("-"@ + major)
    } else if default_found {
        Some(Seq::empty())
    } else {
        None
    }
}

/// Settles the tool-name suffix from the outcome of the two probes.
pub fn version_suffix(major: &str, pinned_found: bool, default_found: bool) -> (r: Result<String, LinkerError>)
    ensures
        match r {
            Ok(s) => suffix_for(major@, pinned_found, default_found) == Some(s@),
            Err(e) => suffix_for(major@, pinned_found, default_found) is None
                && (e matches LinkerError::ToolchainNotFound { major: m } && m@ == major@),
        },
{
    if pinned_found {
        Ok(String::from_str("-").concat(major))
    } else if default_found {
        Ok(String::new())
    } else {
        Err(LinkerError::ToolchainNotFound { major: String::from_str(major) })
    }
}

/// The command that probes the version-pinned linker.
pub fn pinned_probe(major: &str) -> (r: Command)
    ensures
        r@ == ("llvm-link-"@ + major@, seq!["--version"@]),
{
    let mut args: Vec<String> = Vec::new();
    args.push(String::from_str("--version"));
    let r = Command { program: String::from_str("llvm-link-").concat(major), args };
    assert(r@.1 =~= seq!["--version"@]);
    r
}

/// The command that probes the default linker.
pub fn default_probe() -> (r: Command)
    ensures
        r@ == ("llvm-link"@, seq!["--version"@]),
{
    let mut args: Vec<String> = Vec::new();
    args.push(String::from_str("--version"));
    let r = Command { program: String::from_str("llvm-link"), args };
    assert(r@.1 =~= seq!["--version"@]);
    r
}

/// The command that asks the host compiler for its verbose version report.
pub fn host_version_query() -> (r: Command)
    ensures
        r@ == ("rustc"@, seq!["--version"@, "--verbose"@]),
{
    let mut args: Vec<String> = Vec::new();
    args.push(String::from_str("--version"));
    args.push(String::from_str("--verbose"));
    let r = Command { program: String::from_str("rustc"), args };
    assert(r@.1 =~= seq!["--version"@, "--verbose"@]);
    r
}

/// Resolves the major LLVM version from the host compiler's report.
pub fn resolve_major(report: &str) -> (r: Result<String, LinkerError>)
    ensures
        match r {
            Ok(m) => llvm_major(report@) == Some(m@),
            Err(e) => llvm_major(report@) is None
                && (e matches LinkerError::ToolchainVersionUnresolved { report: t } && t@ == report@),
        },
{
    match llvm_major_version(report) {
        Some(m) => Ok(m),
        None => Err(LinkerError::ToolchainVersionUnresolved { report: String::from_str(report) }),
    }
}

} // verus!
