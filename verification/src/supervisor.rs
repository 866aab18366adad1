//! The clone invocation and what is learned from its diagnostics.
//!
//! `jj git clone` says on its diagnostic stream where it put the repository:
//! a line `Fetching into new repo in "<path>"`. When the user named no
//! destination, that line is the only source of the directory.

use vstd::prelude::*;
use crate::text::{chars_of, trim_bounds, trimmed};

verus! {

/// The external tool.
pub const TOOL: &'static str = "jj";

/// What stands before the path in the line that reports the directory,
/// opening quote included.
pub const REPORT_PREFIX: &'static str = "Fetching into new repo in \"";

/// A program and its arguments.
#[derive(Debug, PartialEq, Eq)]
pub struct Invocation {
    pub program: String,
    pub args: Vec<String>,
}

/// An invocation, over character sequences.
pub struct InvocationView {
    pub program: Seq<char>,
    pub args: Seq<Seq<char>>,
}

impl View for Invocation {
    type V = InvocationView;

    open spec fn view(&self) -> InvocationView {
        InvocationView { program: self.program@, args: self.args.deep_view() }
    }
}

/// What is known of the clone while it runs, and once it has ended.
#[derive(Debug, PartialEq, Eq)]
pub struct CloneOutcome {
    /// The directory that the clone reported, from the first line that
    /// reported one.
    pub discovered_directory: Option<String>,
    /// Whether the clone has exited, and successfully.
    pub exit_success: bool,
}

/// A clone outcome, over character sequences.
pub struct CloneOutcomeView {
    pub discovered_directory: Option<Seq<char>>,
    pub exit_success: bool,
}

impl View for CloneOutcome {
    type V = CloneOutcomeView;

    open spec fn view(&self) -> CloneOutcomeView {
        CloneOutcomeView {
            discovered_directory: self.discovered_directory.deep_view(),
            exit_success: self.exit_success,
        }
    }
}

/// The directory that a line without surrounding white space reports: the
/// line is the prefix, a path free of line breaks, and a closing quote.
pub open spec fn reported(line: Seq<char>) -> Option<Seq<char>> {
    let prefix = REPORT_PREFIX@;
    if line.len() > prefix.len() && line.take(prefix.len() as int) == prefix && line.last() == '"'
        && !line.subrange(prefix.len() as int, line.len() - 1).contains('\n') {
        Some(line.subrange(prefix.len() as int, line.len() - 1))
    } else {
        None
    }
}

/// The directory that a diagnostic line reports, white space at its ends
/// set aside.
pub open spec fn reported_directory(line: Seq<char>) -> Option<Seq<char>> {
    reported(trimmed(line))
}

/// The arguments of the clone: the subcommand, the colocate flag if asked
/// for, the URL, the destination if one was named, then what the user
/// passed through, unchanged and last.
pub open spec fn clone_arguments(
    url: Seq<char>,
    destination: Option<Seq<char>>,
    colocate: bool,
    rest: Seq<Seq<char>>,
) -> Seq<Seq<char>> {
    seq!["git"@, "clone"@] + (if colocate {
        seq!["--colocate"@]
    } else {
        Seq::empty()
    }) + seq![url] + (match destination {
        Some(directory) => seq![directory],
        None => Seq::empty(),
    }) + rest
}

/// The clone invocation, over character sequences.
pub open spec fn clone_invocation(
    url: Seq<char>,
    destination: Option<Seq<char>>,
    colocate: bool,
    rest: Seq<Seq<char>>,
) -> InvocationView {
    InvocationView { program: TOOL@, args: clone_arguments(url, destination, colocate, rest) }
}

/// What is known before the clone has said anything.
pub open spec fn unobserved() -> CloneOutcomeView {
    CloneOutcomeView { discovered_directory: None, exit_success: false }
}

/// The outcome after one more diagnostic line: a directory is taken from
/// the line only while none is known.
pub open spec fn observed(outcome: CloneOutcomeView, line: Seq<char>) -> CloneOutcomeView {
    CloneOutcomeView {
        discovered_directory: match outcome.discovered_directory {
            Some(directory) => Some(directory),
            None => reported_directory(line),
        },
        ..outcome
    }
}

/// The outcome after the lines `lines`, in order.
pub open spec fn observed_all(outcome: CloneOutcomeView, lines: Seq<Seq<char>>) -> CloneOutcomeView
    decreases lines.len(),
{
    if lines.len() == 0 {
        outcome
    } else {
        observed(observed_all(outcome, lines.drop_last()), lines.last())
    }
}

/// Reads the directory out of a diagnostic line, if the line reports one.
pub fn parse_directory(line: &str) -> (directory: Option<String>)
    ensures
        directory.deep_view() == reported_directory(line@),
{
    let v = chars_of(line);
    let (a, b) = trim_bounds(&v);
    let p = chars_of(REPORT_PREFIX);
    let ghost t = trimmed(line@);
    if b - a <= p.len() {
        return None;
    }
    let mut i: usize = 0;
    while i < p.len()
        invariant
            a <= b <= v.len(),
            b - a > p.len(),
            i <= p.len(),
            p@ == REPORT_PREFIX@,
            t == trimmed(line@),
            t == v@.subrange(a as int, b as int),
            forall|j: int| 0 <= j < i ==> #[trigger] t[j] == p@[j],
        decreases p.len() - i,
    {
        if v[a + i] != p[i] {
            return None;
        }
        i += 1;
    }
    assert(t.take(p.len() as int) =~= p@);
    if v[b - 1] != '"' {
        return None;
    }
    let from: usize = a + p.len();
    let to: usize = b - 1;
    let ghost path = t.subrange(p.len() as int, t.len() - 1);
    let mut k: usize = from;
    while k < to
        invariant
            from <= k <= to <= v.len(),
            p@ == REPORT_PREFIX@,
            t == trimmed(line@),
            path == t.subrange(p.len() as int, t.len() - 1),
            path == v@.subrange(from as int, to as int),
            forall|j: int| 0 <= j < k - from ==> #[trigger] path[j] != '\n',
        decreases to - k,
    {
        if v[k] == '\n' {
            assert(path[k - from] == '\n');
            return None;
        }
        k += 1;
    }
    Some(line.substring_char(from, to).to_owned())
}

/// Builds the clone invocation.
pub fn clone_command(
    url: &str,
    destination: Option<&str>,
    colocate: bool,
    rest: &Vec<String>,
) -> (invocation: Invocation)
    ensures
        invocation@ == clone_invocation(url@, destination.deep_view(), colocate, rest.deep_view()),
{
    let mut args: Vec<String> = Vec::new();
    args.push("git".to_owned());
    args.push("clone".to_owned());
    if colocate {
        args.push("--colocate".to_owned());
    }
    args.push(url.to_owned());
    if let Some(directory) = destination {
        args.push(directory.to_owned());
    }
    let ghost head = args.deep_view();
    let mut i: usize = 0;
    while i < rest.len()
        invariant
            i <= rest.len(),
            args.deep_view() == head + rest.deep_view().take(i as int),
        decreases rest.len() - i,
    {
        let ghost before = args.deep_view();
        args.push(rest[i].clone());
        assert(args.deep_view() =~= before.push(rest@[i as int]@));
        assert(rest.deep_view().take(i + 1) =~= rest.deep_view().take(i as int).push(
            rest@[i as int]@,
        ));
        i += 1;
    }
    assert(rest.deep_view().take(rest.len() as int) =~= rest.deep_view());
    assert(head + rest.deep_view() =~= clone_arguments(
        url@,
        destination.deep_view(),
        colocate,
        rest.deep_view(),
    ));
    Invocation { program: TOOL.to_owned(), args }
}

impl CloneOutcome {
    /// The outcome of a clone that has said nothing yet.
    pub fn new() -> (outcome: Self)
        ensures
            outcome@ == unobserved(),
    {
        CloneOutcome { discovered_directory: None, exit_success: false }
    }

    /// Takes note of one diagnostic line. Only the first line that reports
    /// a directory counts.
    pub fn observe_line(&mut self, line: &str)
        ensures
            final(self)@ == observed(old(self)@, line@),
    {
        if self.discovered_directory.is_none() {
            self.discovered_directory = parse_directory(line);
        }
    }

    /// Records how the clone exited.
    pub fn finish(&mut self, success: bool)
        ensures
            final(self)@ == (CloneOutcomeView { exit_success: success, ..old(self)@ }),
    {
        self.exit_success = success;
    }
}

/// A line seen twice counts once: the second time changes nothing.
pub proof fn law_observing_twice(outcome: CloneOutcomeView, line: Seq<char>)
    ensures
        observed(observed(outcome, line), line) == observed(outcome, line),
{
}

/// A directory, once discovered, is never replaced, whatever lines follow.
pub proof fn law_first_report_stays(outcome: CloneOutcomeView, lines: Seq<Seq<char>>)
    requires
        outcome.discovered_directory is Some,
    ensures
        observed_all(outcome, lines) == outcome,
    decreases lines.len(),
{
    if lines.len() > 0 {
        law_first_report_stays(outcome, lines.drop_last());
    }
}

} // verus!
