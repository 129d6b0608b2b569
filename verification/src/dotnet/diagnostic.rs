//! The diagnostics that a build reports.

use vstd::prelude::*;
use vstd::string::StringExecFns;

use crate::path::{below, file_name, file_name_of, strip_prefix};
use crate::text::{decimal, decimal_text, parse_decimal, parsed_decimal};

verus! {

/// How grave a diagnostic is.
#[derive(Clone, Copy, Debug, PartialEq, Eq, Structural)]
pub enum Severity {
    Warning,
    Error,
}

/// One message of the compiler: where, how grave, which code and what.
#[derive(Debug, PartialEq, Eq)]
pub struct Diagnostic {
    pub filename: String,
    pub line: usize,
    pub column: usize,
    pub severity: Severity,
    pub code: String,
    pub message: String,
}

/// A diagnostic with its texts as plain sequences.
pub ghost struct DiagnosticView {
    pub filename: Seq<char>,
    pub line: usize,
    pub column: usize,
    pub severity: Severity,
    pub code: Seq<char>,
    pub message: Seq<char>,
}

impl View for Diagnostic {
    type V = DiagnosticView;

    open spec fn view(&self) -> DiagnosticView {
        DiagnosticView {
            filename: self.filename@,
            line: self.line,
            column: self.column,
            severity: self.severity,
            code: self.code@,
            message: self.message@,
        }
    }
}

/// The shape of a diagnostic line in a build log: file, line and column in
/// brackets, severity, code, message, and the project in square brackets.
pub open spec fn line_pattern() -> Seq<char> {
    r"(.+)\((\d+),(\d+)\): (warning|error) (CS\d+): (.+) \[[^\]]+\]"@
}

/// What `regex::Regex::captures` finds in a text for a pattern: nothing
/// where the pattern is invalid or does not match, else every capture group
/// from the whole match on, a group that took no part being none.
pub uninterp spec fn regex_captures(pattern: Seq<char>, text: Seq<char>) -> Option<
    Seq<Option<Seq<char>>>,
>;

/// The texts of a list of capture groups.
pub open spec fn group_texts(groups: Seq<Option<String>>) -> Seq<Option<Seq<char>>> {
    groups.map_values(
        |group: Option<String>|
            match group {
                Some(text) => Some(text@),
                None => None,
            },
    )
}

/// Matches `text` against `pattern` with `regex::Regex::new` and
/// `regex::Regex::captures` and hands back the text of each group of
/// `regex::Captures::iter`. What is found goes by the name `regex_captures`.
#[verifier::external_body]
fn captures(pattern: &str, text: &str) -> (groups: Option<Vec<Option<String>>>)
    ensures
        (match groups {
            Some(found) => regex_captures(pattern@, text@) == Some(group_texts(found@)),
            None => regex_captures(pattern@, text@).is_none(),
        }),
{
    let regex = regex::Regex::new(pattern).ok()?;
    let found = regex.captures(text)?;
    Some(found.iter().map(|group| group.map(|part| part.as_str().to_string())).collect())
}

/// The diagnostic that the capture groups of a log line make. There is one
/// where all six groups besides the whole match are there and line and
/// column are numbers that fit; whatever is not a warning is an error.
pub open spec fn diagnostic_of_groups(groups: Seq<Option<Seq<char>>>) -> Option<DiagnosticView> {
    if groups.len() == 7 && groups[1].is_some() && groups[2].is_some() && groups[3].is_some()
        && groups[4].is_some() && groups[5].is_some() && groups[6].is_some() {
        match (
            parsed_decimal(groups[2].unwrap(), usize::MAX as nat),
            parsed_decimal(groups[3].unwrap(), usize::MAX as nat),
        ) {
            (Some(line), Some(column)) => Some(
                DiagnosticView {
                    filename: groups[1].unwrap(),
                    line: line as usize,
                    column: column as usize,
                    severity: if groups[4].unwrap() == "warning"@ {
                        Severity::Warning
                    } else {
                        Severity::Error
                    },
                    code: groups[5].unwrap(),
                    message: groups[6].unwrap(),
                },
            ),
            _ => None,
        }
    } else {
        None
    }
}

/// The diagnostic that a line of a build log reports, if it reports one.
pub open spec fn diagnostic_of_line(line: Seq<char>) -> Option<DiagnosticView> {
    match regex_captures(line_pattern(), line) {
        Some(groups) => diagnostic_of_groups(groups),
        None => None,
    }
}

/// The diagnostics that the lines of a build log report, in their order.
pub open spec fn diagnostics_of_lines(lines: Seq<Seq<char>>) -> Seq<DiagnosticView>
    decreases lines.len(),
{
    if lines.len() == 0 {
        Seq::empty()
    } else {
        let before = diagnostics_of_lines(lines.drop_last());
        match diagnostic_of_line(lines.last()) {
            Some(diagnostic) => before.push(diagnostic),
            None => before,
        }
    }
}

/// The line that is logged for a diagnostic, given how its file is shown.
pub open spec fn report_text(diagnostic: DiagnosticView, shown: Seq<char>) -> Seq<char> {
    "[msbuild "@ + diagnostic.code + "] "@ + shown + " "@ + decimal_text(diagnostic.line as nat)
        + ","@ + decimal_text(diagnostic.column as nat) + ": "@ + diagnostic.message
}

impl Diagnostic {
    /// Makes a diagnostic of the capture groups of a log line.
    pub fn from_groups(groups: &Vec<Option<String>>) -> (diagnostic: Option<Diagnostic>)
        ensures
            (match diagnostic {
                Some(made) => diagnostic_of_groups(group_texts(groups@)) == Some(made@),
                None => diagnostic_of_groups(group_texts(groups@)).is_none(),
            }),
    {
        if groups.len() != 7 {
            return None;
        }
        match (&groups[1], &groups[2], &groups[3], &groups[4], &groups[5], &groups[6]) {
            (Some(filename), Some(line), Some(column), Some(severity), Some(code), Some(message)) => {
                let line = parse_decimal(line.as_str(), usize::MAX as u64);
                let column = parse_decimal(column.as_str(), usize::MAX as u64);
                match (line, column) {
                    (Some(line), Some(column)) => {
                        let grave = if *severity == "warning".to_owned() {
                            Severity::Warning
                        } else {
                            Severity::Error
                        };
                        Some(
                            Diagnostic {
                                filename: filename.clone(),
                                line: line as usize,
                                column: column as usize,
                                severity: grave,
                                code: code.clone(),
                                message: message.clone(),
                            },
                        )
                    },
                    _ => None,
                }
            },
            _ => None,
        }
    }

    /// Reads the diagnostic that a line of a build log reports, if it reports
    /// one.
    pub fn parse(line: &str) -> (diagnostic: Option<Diagnostic>)
        ensures
            (match diagnostic {
                Some(made) => diagnostic_of_line(line@) == Some(made@),
                None => diagnostic_of_line(line@).is_none(),
            }),
    {
        match captures(r"(.+)\((\d+),(\d+)\): (warning|error) (CS\d+): (.+) \[[^\]]+\]", line) {
            Some(groups) => Diagnostic::from_groups(&groups),
            None => None,
        }
    }

    /// Reads the diagnostics that the lines of a build log report.
    pub fn parse_all(lines: &Vec<String>) -> (diagnostics: Vec<Diagnostic>)
        ensures
            diagnostics@.map_values(|made: Diagnostic| made@) == diagnostics_of_lines(
                crate::path::texts(lines@),
            ),
    {
        let mut diagnostics: Vec<Diagnostic> = Vec::new();
        let mut at: usize = 0;
        let ghost all = crate::path::texts(lines@);
        assert(all.take(0) =~= Seq::<Seq<char>>::empty());
        while at < lines.len()
            invariant
                at <= lines@.len(),
                all == crate::path::texts(lines@),
                diagnostics@.map_values(|made: Diagnostic| made@) == diagnostics_of_lines(
                    all.take(at as int),
                ),
            decreases lines@.len() - at,
        {
            let ghost before = diagnostics@.map_values(|made: Diagnostic| made@);
            proof {
                assert(all.take(at + 1).drop_last() =~= all.take(at as int));
                assert(all.take(at + 1).last() == lines@[at as int]@);
            }
            match Diagnostic::parse(lines[at].as_str()) {
                Some(made) => {
                    let ghost view = made@;
                    diagnostics.push(made);
                    assert(diagnostics@.map_values(|made: Diagnostic| made@) =~= before.push(view));
                },
                None => {},
            }
            at = at + 1;
        }
        assert(all.take(at as int) =~= all);
        diagnostics
    }

    /// The line that is logged for the diagnostic, with the file shown by
    /// its name alone.
    pub fn log(&self) -> (line: String)
        requires
            file_name_of(self.filename@).is_some(),
        ensures
            line@ == report_text(self@, file_name_of(self.filename@).unwrap()),
    {
        match file_name(self.filename.as_str()) {
            Some(shown) => self.report(shown.as_str()),
            None => String::new(),
        }
    }

    /// The line that is logged for the diagnostic where its file has a name,
    /// and nothing where it has none.
    pub fn try_log(&self) -> (line: Option<String>)
        ensures
            (match line {
                Some(text) => file_name_of(self.filename@).is_some() && text@ == report_text(
                    self@,
                    file_name_of(self.filename@).unwrap(),
                ),
                None => file_name_of(self.filename@).is_none(),
            }),
    {
        match file_name(self.filename.as_str()) {
            Some(_) => Some(self.log()),
            None => None,
        }
    }

    /// The line that is logged for the diagnostic, with the file shown
    /// relative to `base` where it lies below it and in full where not.
    /// `base` is taken as it is: whoever asks resolves it first.
    pub fn log_with_base(&self, base: &str) -> (line: String)
        ensures
            line@ == report_text(
                self@,
                match below(self.filename@, base@) {
                    Some(rest) => rest,
                    None => self.filename@,
                },
            ),
    {
        match strip_prefix(self.filename.as_str(), base) {
            Some(rest) => self.report(rest.as_str()),
            None => self.report(self.filename.as_str()),
        }
    }

    /// The line that is logged for the diagnostic, with the file shown as
    /// `shown`.
    pub fn report(&self, shown: &str) -> (line: String)
        ensures
            line@ == report_text(self@, shown@),
    {
        String::from_str("[msbuild ").concat(self.code.as_str()).concat("] ").concat(shown).concat(
            " ",
        ).concat(decimal(self.line as u64).as_str()).concat(",").concat(
            decimal(self.column as u64).as_str(),
        ).concat(": ").concat(self.message.as_str())
    }
}

} // verus!
