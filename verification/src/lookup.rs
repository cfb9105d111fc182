//! A whole lookup, from what the request brought back to what is printed,
//! and what holds of it on every input.

use crate::json::{viewed, JsonView};
use crate::presenter::{
    code_of, failure_report, listing, present, report_of, ExitStatus, Report, ReportView,
};
use crate::resolver::{
    connect_failure, parse_failure, reply_resolution, resolution, resolve_reply, status_failure,
};
use crate::schema::{lacks_required_member, lemma_missing_member_rejected, message_text, response_of};
use vstd::prelude::*;

verus! {

/// The report for what came back from the request.
pub open spec fn answer_of(reply: Result<Seq<char>, Seq<char>>, verbose: bool) -> ReportView {
    report_of(reply_resolution(reply), verbose)
}

/// `text` ends with `tail`.
pub open spec fn ends_with(text: Seq<char>, tail: Seq<char>) -> bool {
    text.len() >= tail.len() && text.subrange(text.len() - tail.len(), text.len() as int) == tail
}

/// Resolves what came back from the request and lays out the report.
/// `reply` holds the body, or the text of the transport error.
pub fn answer(reply: Result<String, String>, verbose: bool) -> (report: Report)
    ensures
        report@ == answer_of(viewed(reply), verbose),
{
    let result = resolve_reply(reply);
    present(&result, verbose)
}

/// A reply with status `ok` and at least one prefix is answered on the
/// standard output alone, and the run succeeds. The output is the name of
/// the first prefix's Autonomous System on a line of its own, or, when
/// verbose, the listing of all prefixes.
pub proof fn lemma_success_output(body: Seq<char>, doc: JsonView, verbose: bool)
    requires
        response_of(doc) is Ok,
        response_of(doc)->Ok_0.status == "ok"@,
        response_of(doc)->Ok_0.prefixes.len() >= 1,
    ensures
        ({
            let prefixes = response_of(doc)->Ok_0.prefixes;
            let report = report_of(resolution(body, Ok(doc)), verbose);
            &&& report.status == ExitStatus::Success
            &&& code_of(report.status) == 0
            &&& report.stderr == Seq::<char>::empty()
            &&& !verbose ==> report.stdout == prefixes[0].asn.name + "\n"@
            &&& verbose ==> report.stdout == listing(prefixes)
        }),
{
}

/// A reply with a status other than `ok` is reported as a failure that ends
/// with the status; nothing is printed and the exit code is not zero,
/// whether verbose or not.
pub proof fn lemma_status_reported(body: Seq<char>, doc: JsonView, verbose: bool)
    requires
        response_of(doc) is Ok,
        response_of(doc)->Ok_0.status != "ok"@,
    ensures
        ({
            let status = response_of(doc)->Ok_0.status;
            let report = report_of(resolution(body, Ok(doc)), verbose);
            &&& report == failure_report(status_failure(status))
            &&& ends_with(status_failure(status), status)
            &&& report.stdout == Seq::<char>::empty()
            &&& code_of(report.status) != 0
        }),
{
    let status = response_of(doc)->Ok_0.status;
    let reason = status_failure(status);
    assert(reason.subrange(reason.len() - status.len(), reason.len() as int) =~= status);
}

/// A transport failure is reported as a connection failure that ends with
/// the error's text; nothing is printed and the exit code is not zero.
pub proof fn lemma_transport_failure_reported(error: Seq<char>, verbose: bool)
    ensures
        ({
            let report = answer_of(Err(error), verbose);
            &&& report == failure_report(connect_failure(error))
            &&& ends_with(connect_failure(error), error)
            &&& report.stdout == Seq::<char>::empty()
            &&& code_of(report.status) != 0
        }),
{
    let reason = connect_failure(error);
    assert(reason.subrange(reason.len() - error.len(), reason.len() as int) =~= error);
}

/// A body that the parser rejects is reported as a parse failure that ends
/// with the body, unchanged; nothing is printed and the exit code is not
/// zero.
pub proof fn lemma_unparsed_body_reported(body: Seq<char>, error: Seq<char>, verbose: bool)
    ensures
        ({
            let report = report_of(resolution(body, Err(error)), verbose);
            &&& report == failure_report(parse_failure(error, body))
            &&& ends_with(parse_failure(error, body), body)
            &&& report.stdout == Seq::<char>::empty()
            &&& code_of(report.status) != 0
        }),
{
    let reason = parse_failure(error, body);
    assert(reason.subrange(reason.len() - body.len(), reason.len() as int) =~= body);
}

/// A document in which a required member is missing is reported as a parse
/// failure that ends with the body; nothing is printed and the exit code is
/// not zero.
pub proof fn lemma_missing_member_reported(body: Seq<char>, doc: JsonView, verbose: bool)
    requires
        lacks_required_member(doc),
    ensures
        response_of(doc) is Err,
        ({
            let reason = parse_failure(message_text(response_of(doc)->Err_0), body);
            let report = report_of(resolution(body, Ok(doc)), verbose);
            &&& report == failure_report(reason)
            &&& ends_with(reason, body)
            &&& report.stdout == Seq::<char>::empty()
            &&& code_of(report.status) != 0
        }),
{
    lemma_missing_member_rejected(doc);
    let reason = parse_failure(message_text(response_of(doc)->Err_0), body);
    assert(reason.subrange(reason.len() - body.len(), reason.len() as int) =~= body);
}

/// The same reply is answered by the same report, whenever it is asked:
/// two reports that `answer` gives for replies of the same value have the
/// same value.
pub proof fn lemma_answer_repeats(
    first_reply: Result<String, String>,
    second_reply: Result<String, String>,
    verbose: bool,
    first: Report,
    second: Report,
)
    requires
        viewed(first_reply) == viewed(second_reply),
        first@ == answer_of(viewed(first_reply), verbose),
        second@ == answer_of(viewed(second_reply), verbose),
    ensures
        first@ == second@,
{
}

} // verus!
