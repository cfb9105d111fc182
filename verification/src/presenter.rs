//! What a lookup prints, and how the program ends.

use crate::model::{AsData, AsPrefix, AsPrefixView, LookupResult, LookupResultView};
use vstd::prelude::*;
use vstd::seq_lib::lemma_flatten_concat;

verus! {

/// How the program ends.
#[derive(Debug, Clone, Copy, PartialEq, Eq)]
pub enum ExitStatus {
    /// The lookup gave an answer.
    Success,
    /// The provider could not be reached, or gave nothing of use.
    Unavailable,
}

/// All that one run writes, and how it ends. Both texts hold whole lines:
/// each line is followed by a line feed.
#[derive(Debug, PartialEq, Eq)]
pub struct Report {
    /// The text for the standard output.
    pub stdout: String,
    /// The text for the error stream.
    pub stderr: String,
    pub status: ExitStatus,
}

pub struct ReportView {
    pub stdout: Seq<char>,
    pub stderr: Seq<char>,
    pub status: ExitStatus,
}

impl View for Report {
    type V = ReportView;

    open spec fn view(&self) -> ReportView {
        ReportView { stdout: self.stdout@, stderr: self.stderr@, status: self.status }
    }
}

/// The exit code of each status, as `sysexits.h` numbers them.
pub open spec fn code_of(status: ExitStatus) -> int {
    match status {
        ExitStatus::Success => 0,
        ExitStatus::Unavailable => 69,
    }
}

/// The line that verbose output gives to a prefix.
pub open spec fn line_text(prefix: AsPrefixView) -> Seq<char> {
    prefix.asn.name + " - "@ + prefix.asn.description + " - "@ + prefix.asn.country_code
}

/// The lines of the prefixes: one line for each prefix, in the order of
/// the prefixes, each followed by a line feed.
pub open spec fn lines_of(prefixes: Seq<AsPrefixView>) -> Seq<Seq<char>> {
    Seq::new(prefixes.len(), |i: int| line_text(prefixes[i]) + "\n"@)
}

/// The lines of the prefixes, one after the other.
pub open spec fn listing(prefixes: Seq<AsPrefixView>) -> Seq<char> {
    lines_of(prefixes).flatten()
}

/// The report of a lookup that failed for the given reason.
pub open spec fn failure_report(reason: Seq<char>) -> ReportView {
    ReportView { stdout: Seq::empty(), stderr: reason + "\n"@, status: ExitStatus::Unavailable }
}

/// The report of a lookup that gave the given text.
pub open spec fn success_report(text: Seq<char>) -> ReportView {
    ReportView { stdout: text, stderr: Seq::empty(), status: ExitStatus::Success }
}

/// The report for an outcome.
///
/// A failure is reported with its reason. A success without any prefix is
/// reported as a failure of its own. Otherwise the output is the name of the
/// first prefix's Autonomous System, or, when verbose, one line per prefix.
pub open spec fn report_of(result: LookupResultView, verbose: bool) -> ReportView {
    match result {
        LookupResultView::Failure(reason) => failure_report(reason),
        LookupResultView::Success(prefixes) => if prefixes.len() == 0 {
            failure_report("No AS information found"@)
        } else if verbose {
            success_report(listing(prefixes))
        } else {
            success_report(prefixes[0].asn.name + "\n"@)
        },
    }
}

/// The listing of a single prefix is its line.
pub proof fn lemma_listing_one(prefix: AsPrefixView)
    ensures
        listing(seq![prefix]) == line_text(prefix) + "\n"@,
{
    let lines = lines_of(seq![prefix]);
    assert(lines =~= Seq::<Seq<char>>::empty().push(line_text(prefix) + "\n"@));
    Seq::<Seq<char>>::empty().lemma_flatten_push(line_text(prefix) + "\n"@);
    assert(Seq::<Seq<char>>::empty().flatten() =~= Seq::<char>::empty());
}

/// Listing keeps the order of the prefixes: the listing of two lists, one
/// after the other, is the listing of the first followed by that of the
/// second.
pub proof fn lemma_listing_concat(first: Seq<AsPrefixView>, second: Seq<AsPrefixView>)
    ensures
        listing(first + second) == listing(first) + listing(second),
{
    assert(lines_of(first + second) =~= lines_of(first) + lines_of(second));
    lemma_flatten_concat(lines_of(first), lines_of(second));
}

/// The listing of some prefixes and one more is the listing of the former
/// followed by the line of the latter.
pub proof fn lemma_listing_push(prefixes: Seq<AsPrefixView>, prefix: AsPrefixView)
    ensures
        listing(prefixes.push(prefix)) == listing(prefixes) + line_text(prefix) + "\n"@,
{
    assert(prefixes.push(prefix) =~= prefixes + seq![prefix]);
    lemma_listing_concat(prefixes, seq![prefix]);
    lemma_listing_one(prefix);
    assert(listing(prefixes) + (line_text(prefix) + "\n"@) =~= listing(prefixes) + line_text(
        prefix,
    ) + "\n"@);
}

/// `exitcode::OK`, the code of a run that succeeded.
///
/// Not verified: the contract repeats the constant's value.
#[verifier::external_body]
fn ok_code() -> (code: i32)
    ensures
        code == 0,
{
    exitcode::OK
}

/// `exitcode::UNAVAILABLE`, the code of a run whose service was unavailable.
///
/// Not verified: the contract repeats the constant's value.
#[verifier::external_body]
fn unavailable_code() -> (code: i32)
    ensures
        code == 69,
{
    exitcode::UNAVAILABLE
}

impl ExitStatus {
    /// The exit code to end the process with: zero only for a success.
    pub fn code(&self) -> (code: i32)
        ensures
            code == code_of(*self),
    {
        match self {
            ExitStatus::Success => ok_code(),
            ExitStatus::Unavailable => unavailable_code(),
        }
    }
}

/// Formats the line of one prefix: name, description and country code of
/// its Autonomous System.
pub fn format_line(prefix: &AsPrefix) -> (line: String)
    ensures
        line@ == line_text(prefix@),
{
    prefix.asn.name.clone().concat(" - ").concat(prefix.asn.description.as_str()).concat(
        " - ",
    ).concat(prefix.asn.country_code.as_str())
}

/// Formats the lines of all prefixes.
pub fn format_listing(data: &AsData) -> (text: String)
    ensures
        text@ == listing(data@),
{
    let mut text = String::new();
    let mut i: usize = 0;
    proof {
        assert(lines_of(data@.take(0)) =~= Seq::<Seq<char>>::empty());
    }
    while i < data.prefixes.len()
        invariant
            i <= data.prefixes.len(),
            text@ == listing(data@.take(i as int)),
        decreases data.prefixes.len() - i,
    {
        let line = format_line(&data.prefixes[i]);
        proof {
            assert(data@.take(i as int + 1) =~= data@.take(i as int).push(data@[i as int]));
            lemma_listing_push(data@.take(i as int), data@[i as int]);
        }
        text = text.concat(line.as_str()).concat("\n");
        i += 1;
    }
    proof {
        assert(data@.take(i as int) =~= data@);
    }
    text
}

/// Builds the report of a failure.
pub fn report_failure(reason: &str) -> (report: Report)
    ensures
        report@ == failure_report(reason@),
{
    Report {
        stdout: String::new(),
        stderr: String::from_str(reason).concat("\n"),
        status: ExitStatus::Unavailable,
    }
}

/// Lays out what is printed for an outcome, and how the program ends.
pub fn present(result: &LookupResult, verbose: bool) -> (report: Report)
    ensures
        report@ == report_of(result@, verbose),
{
    match result {
        LookupResult::Failure(reason) => report_failure(reason.as_str()),
        LookupResult::Success(data) => {
            if data.prefixes.len() == 0 {
                report_failure("No AS information found")
            } else if verbose {
                Report {
                    stdout: format_listing(data),
                    stderr: String::new(),
                    status: ExitStatus::Success,
                }
            } else {
                Report {
                    stdout: data.prefixes[0].asn.name.clone().concat("\n"),
                    stderr: String::new(),
                    status: ExitStatus::Success,
                }
            }
        },
    }
}

} // verus!
