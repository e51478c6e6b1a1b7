//! The `doctor` report: one line per diagnostic check, and a verdict that
//! fails as soon as one check fails. Running the checks (files, sockets,
//! the environment) happens outside the library.
use vstd::prelude::*;

use crate::text::{contains_text, occurs_in};

verus! {

/// The report line of one check: `[OK]` or `[FAIL]`, the check's label, and
/// its detail after a colon where there is one.
pub open spec fn check_line_spec(label: Seq<char>, ok: bool, detail: Option<Seq<char>>) -> Seq<
    char,
> {
    let marker = if ok {
        "[OK]"@
    } else {
        "[FAIL]"@
    };
    match detail {
        Some(d) => marker + " "@ + label + ": "@ + d,
        None => marker + " "@ + label,
    }
}

/// The closing line of the report.
pub open spec fn verdict_spec(all_ok: bool) -> Seq<char> {
    if all_ok {
        "all checks passed"@
    } else {
        "one or more checks failed"@
    }
}

/// The word a shell's startup file must mention for its hook to count as
/// installed.
pub open spec fn hook_marker() -> Seq<char> {
    "shellagotchi"@
}

/// The running tally of a `doctor` report: whether every check recorded so
/// far passed.
pub struct DoctorReport {
    pub all_ok: bool,
}

impl DoctorReport {
    /// A report with no check recorded yet.
    pub fn new() -> (r: DoctorReport)
        ensures
            r.all_ok,
    {
        DoctorReport { all_ok: true }
    }

    /// Records one check and returns its report line; a failed check makes
    /// the whole report fail.
    pub fn record(&mut self, label: &str, ok: bool, detail: Option<&str>) -> (line: String)
        ensures
            final(self).all_ok == (old(self).all_ok && ok),
            line@ == check_line_spec(
                label@,
                ok,
                match detail {
                    Some(d) => Some(d@),
                    None => None,
                },
            ),
    {
        if !ok {
            self.all_ok = false;
        }
        let mut line = String::from_str(
            if ok {
                "[OK]"
            } else {
                "[FAIL]"
            },
        );
        line.append(" ");
        line.append(label);
        match detail {
            Some(d) => {
                line.append(": ");
                line.append(d);
            },
            None => {},
        }
        line
    }

    /// The closing line: whether all checks passed.
    pub fn verdict(&self) -> (text: &'static str)
        ensures
            text@ == verdict_spec(self.all_ok),
    {
        if self.all_ok {
            "all checks passed"
        } else {
            "one or more checks failed"
        }
    }
}

/// Whether a shell startup file with these `contents` has the shell hook
/// installed: it mentions `shellagotchi` somewhere.
pub fn hook_installed(contents: &str) -> (found: bool)
    ensures
        found == occurs_in(hook_marker(), contents@),
{
    contains_text(contents, "shellagotchi")
}

} // verus!
