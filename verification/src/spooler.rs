//! Commands that go through the operating system's spooler: listing the
//! installed printers and printing a ticket on one of them.

use crate::payload::{decode_failure_prefix, decode_payload, standard_decoding};
use vstd::prelude::*;
use vstd::string::*;

verus! {

/// A printer as the operating system reports it.
#[derive(Debug, PartialEq, Eq)]
pub struct InstalledPrinter {
    pub name: String,
}

/// One job for the spooler: which printer, which bytes, under which label.
#[derive(Debug, PartialEq, Eq)]
pub struct PrintJob {
    pub printer: String,
    pub bytes: Vec<u8>,
    pub label: String,
}

/// A print job as plain data.
pub struct PrintJobView {
    pub printer: Seq<char>,
    pub bytes: Seq<u8>,
    pub label: Seq<char>,
}

impl View for PrintJob {
    type V = PrintJobView;

    open spec fn view(&self) -> PrintJobView {
        PrintJobView { printer: self.printer@, bytes: self.bytes@, label: self.label@ }
    }
}

/// What became of a job that was handed to the spooler.
#[derive(Debug, PartialEq, Eq)]
pub enum Submission {
    /// The spooler took the job.
    Accepted,
    /// No installed printer has the job's printer name.
    PrinterNotFound,
    /// The spooler refused the job, with its reason.
    Rejected(String),
}

/// The label under which tickets are queued.
pub open spec fn ticket_label() -> Seq<char> {
    "Ticket Venta"@
}

/// The job that prints `bytes` as a ticket on `printer`.
pub open spec fn ticket_job_of(printer: Seq<char>, bytes: Seq<u8>) -> PrintJobView {
    PrintJobView { printer, bytes, label: ticket_label() }
}

/// The reply for a printer name that the system does not know.
pub open spec fn printer_not_found_text(name: Seq<char>) -> Seq<char> {
    "Impresora '"@ + name + "' no encontrada"@
}

/// The confirmation sent back by `imprimir_ticket`.
pub open spec fn ticket_printed_text() -> Seq<char> {
    "Impreso correctamente"@
}

/// The confirmation sent back by `imprimir_ticket_sistema`.
pub open spec fn ticket_printed_by_system_text() -> Seq<char> {
    "Impreso por Sistema"@
}

/// What stands before the spooler's reason when it refuses a ticket.
pub open spec fn ticket_rejection_prefix() -> Seq<char> {
    "Error al imprimir: "@
}

/// The reply that a command gives for each fate of its job: `confirmation`
/// when the spooler took it, the not-found text when the printer is
/// unknown, and the spooler's reason behind `rejection_prefix` otherwise.
pub open spec fn submission_reply(
    printer: Seq<char>,
    outcome: Submission,
    confirmation: Seq<char>,
    rejection_prefix: Seq<char>,
) -> Result<Seq<char>, Seq<char>> {
    match outcome {
        Submission::Accepted => Ok(confirmation),
        Submission::PrinterNotFound => Err(printer_not_found_text(printer)),
        Submission::Rejected(detail) => Err(rejection_prefix + detail@),
    }
}

/// Whether an executable reply carries the texts of `expected`, on the same
/// side.
pub open spec fn reply_is(reply: Result<String, String>, expected: Result<Seq<char>, Seq<char>>) -> bool {
    match expected {
        Ok(text) => reply matches Ok(s) && s@ == text,
        Err(text) => reply matches Err(s) && s@ == text,
    }
}

/// The names of the reported printers, in the order reported, duplicates
/// kept; none where the enumeration failed.
pub open spec fn printer_names(enumeration: Result<Vec<InstalledPrinter>, String>) -> Seq<Seq<char>> {
    match enumeration {
        Ok(printers) => Seq::new(printers@.len(), |i: int| printers@[i].name@),
        Err(_) => Seq::empty(),
    }
}

/// The views of a list of strings.
pub open spec fn texts(names: Seq<String>) -> Seq<Seq<char>> {
    Seq::new(names.len(), |i: int| names[i]@)
}

/// Lists the installed printers by name. Never fails: a failed enumeration
/// counts as no printers.
pub fn obtener_impresoras(enumeration: &Result<Vec<InstalledPrinter>, String>) -> (names: Vec<String>)
    ensures
        texts(names@) == printer_names(*enumeration),
{
    let mut names: Vec<String> = Vec::new();
    match enumeration {
        Ok(printers) => {
            let mut i: usize = 0;
            while i < printers.len()
                invariant
                    i <= printers.len(),
                    names.len() == i,
                    forall|k: int| 0 <= k < i ==> names@[k]@ == (#[trigger] printers@[k]).name@,
                decreases printers.len() - i,
            {
                names.push(printers[i].name.clone());
                i += 1;
            }
            assert(texts(names@) =~= printer_names(*enumeration));
        },
        Err(_) => {
            assert(texts(names@) =~= printer_names(*enumeration));
        },
    }
    names
}

/// The same listing under the command's other name.
pub fn listar_impresoras_sistema(enumeration: &Result<Vec<InstalledPrinter>, String>) -> (names: Vec<String>)
    ensures
        texts(names@) == printer_names(*enumeration),
{
    obtener_impresoras(enumeration)
}

/// Builds the job that prints already decoded bytes as a ticket.
pub fn ticket_job(impresora: &str, bytes: Vec<u8>) -> (job: PrintJob)
    ensures
        job@ == ticket_job_of(impresora@, bytes@),
{
    PrintJob {
        printer: String::from_str(impresora),
        bytes,
        label: String::from_str("Ticket Venta"),
    }
}

/// First half of the ticket command: decodes the payload and builds the
/// job. A payload that is not standard base64 yields no job, only the
/// reply; any other payload yields the job that carries its bytes to the
/// named printer under the ticket label.
pub fn imprimir_ticket(impresora: &str, contenido_base64: &str) -> (r: Result<PrintJob, String>)
    ensures
        match standard_decoding(contenido_base64@) {
            Some(bytes) => r matches Ok(job) && job@ == ticket_job_of(impresora@, bytes),
            None => r matches Err(msg) && decode_failure_prefix().is_prefix_of(msg@),
        },
{
    match decode_payload(contenido_base64) {
        Ok(bytes) => Ok(ticket_job(impresora, bytes)),
        Err(msg) => Err(msg),
    }
}

/// The first half under the command's other name: the same job.
pub fn imprimir_ticket_sistema(impresora: &str, contenido_base64: &str) -> (r: Result<PrintJob, String>)
    ensures
        match standard_decoding(contenido_base64@) {
            Some(bytes) => r matches Ok(job) && job@ == ticket_job_of(impresora@, bytes),
            None => r matches Err(msg) && decode_failure_prefix().is_prefix_of(msg@),
        },
{
    imprimir_ticket(impresora, contenido_base64)
}

/// Builds the reply for an unknown printer.
pub fn printer_not_found(impresora: &str) -> (msg: String)
    ensures
        msg@ == printer_not_found_text(impresora@),
{
    String::from_str("Impresora '").concat(impresora).concat("' no encontrada")
}

/// Turns the fate of a job into a reply, given the command's confirmation
/// and the prefix it puts before the spooler's reason.
pub fn reply_to_submission(
    impresora: &str,
    outcome: &Submission,
    confirmation: &str,
    rejection_prefix: &str,
) -> (reply: Result<String, String>)
    ensures
        reply_is(reply, submission_reply(impresora@, *outcome, confirmation@, rejection_prefix@)),
{
    match outcome {
        Submission::Accepted => Ok(String::from_str(confirmation)),
        Submission::PrinterNotFound => Err(printer_not_found(impresora)),
        Submission::Rejected(detail) => Err(String::from_str(rejection_prefix).concat(detail.as_str())),
    }
}

/// Second half of the ticket command: the reply for what the spooler did
/// with the job.
pub fn imprimir_ticket_resultado(impresora: &str, outcome: &Submission) -> (reply: Result<String, String>)
    ensures
        reply_is(
            reply,
            submission_reply(impresora@, *outcome, ticket_printed_text(), ticket_rejection_prefix()),
        ),
        *outcome is PrinterNotFound ==> (reply matches Err(msg) && msg@ == printer_not_found_text(
            impresora@,
        )),
{
    reply_to_submission(impresora, outcome, "Impreso correctamente", "Error al imprimir: ")
}

/// The second half under the command's other name, which confirms with a
/// text of its own.
pub fn imprimir_ticket_sistema_resultado(impresora: &str, outcome: &Submission) -> (reply: Result<
    String,
    String,
>)
    ensures
        reply_is(
            reply,
            submission_reply(
                impresora@,
                *outcome,
                ticket_printed_by_system_text(),
                ticket_rejection_prefix(),
            ),
        ),
        *outcome is PrinterNotFound ==> (reply matches Err(msg) && msg@ == printer_not_found_text(
            impresora@,
        )),
{
    reply_to_submission(impresora, outcome, "Impreso por Sistema", "Error al imprimir: ")
}

/// Where a print job stands between the request and the reply.
#[derive(Debug, PartialEq, Eq)]
pub enum JobState {
    /// The job is built and nothing has been asked of the system.
    Ready,
    /// The system has been asked for the printer of that name.
    Searching,
    /// The printer was found and the job handed to it.
    Submitting,
    /// The outcome has been handed out.
    Done,
}

/// What the caller reports after doing what it was asked.
#[derive(Debug, PartialEq, Eq)]
pub enum JobEvent {
    /// The job is to start.
    Begin,
    /// The system has a printer of the job's name.
    Found,
    /// The system has no printer of the job's name.
    NotFound,
    /// The spooler took the job.
    Accepted,
    /// The spooler refused the job, with its reason.
    Rejected(String),
}

/// What the caller is asked to do next.
#[derive(Debug, PartialEq, Eq)]
pub enum JobAction {
    /// Ask the system for the printer whose name is exactly the job's.
    FindPrinter,
    /// Hand the job's bytes to that printer under the job's label, with no
    /// other options.
    Submit,
    /// Answer the request with the reply for this outcome.
    Reply(Submission),
    /// The event came out of turn: do nothing.
    Nothing,
}

/// The state that follows `state` on `event`. An event that is out of turn
/// changes nothing.
pub open spec fn next_job_state(state: JobState, event: JobEvent) -> JobState {
    match (state, event) {
        (JobState::Ready, JobEvent::Begin) => JobState::Searching,
        (JobState::Searching, JobEvent::Found) => JobState::Submitting,
        (JobState::Searching, JobEvent::NotFound) => JobState::Done,
        (JobState::Submitting, JobEvent::Accepted) => JobState::Done,
        (JobState::Submitting, JobEvent::Rejected(_)) => JobState::Done,
        (unchanged, _) => unchanged,
    }
}

/// What is asked of the caller when `event` arrives in `state`.
pub open spec fn next_job_action(state: JobState, event: JobEvent) -> JobAction {
    match (state, event) {
        (JobState::Ready, JobEvent::Begin) => JobAction::FindPrinter,
        (JobState::Searching, JobEvent::Found) => JobAction::Submit,
        (JobState::Searching, JobEvent::NotFound) => JobAction::Reply(Submission::PrinterNotFound),
        (JobState::Submitting, JobEvent::Accepted) => JobAction::Reply(Submission::Accepted),
        (JobState::Submitting, JobEvent::Rejected(detail)) => JobAction::Reply(
            Submission::Rejected(detail),
        ),
        (_, _) => JobAction::Nothing,
    }
}

/// The state reached from `state` after the events of `events`, in order.
pub open spec fn job_state_after(state: JobState, events: Seq<JobEvent>) -> JobState
    decreases events.len(),
{
    if events.len() == 0 {
        state
    } else {
        next_job_state(job_state_after(state, events.drop_last()), events.last())
    }
}

/// How often the caller is asked to submit the job while `events` arrive,
/// starting in `state`.
pub open spec fn submissions_asked(state: JobState, events: Seq<JobEvent>) -> nat
    decreases events.len(),
{
    if events.len() == 0 {
        0
    } else {
        let earlier = events.drop_last();
        let asked_now: nat = if next_job_action(job_state_after(state, earlier), events.last())
            is Submit {
            1
        } else {
            0
        };
        submissions_asked(state, earlier) + asked_now
    }
}

/// One step of a print job: takes the caller's report and says what to do
/// next.
pub fn job_step(state: JobState, event: JobEvent) -> (r: (JobState, JobAction))
    ensures
        r.0 == next_job_state(state, event),
        r.1 == next_job_action(state, event),
{
    match (state, event) {
        (JobState::Ready, JobEvent::Begin) => (JobState::Searching, JobAction::FindPrinter),
        (JobState::Searching, JobEvent::Found) => (JobState::Submitting, JobAction::Submit),
        (JobState::Searching, JobEvent::NotFound) => (
            JobState::Done,
            JobAction::Reply(Submission::PrinterNotFound),
        ),
        (JobState::Submitting, JobEvent::Accepted) => (
            JobState::Done,
            JobAction::Reply(Submission::Accepted),
        ),
        (JobState::Submitting, JobEvent::Rejected(detail)) => (
            JobState::Done,
            JobAction::Reply(Submission::Rejected(detail)),
        ),
        (unchanged, _) => (unchanged, JobAction::Nothing),
    }
}

/// Whatever the caller reports, and in whatever order, a job is submitted
/// at most once, and not at all unless its printer was found.
pub proof fn lemma_at_most_one_submission(events: Seq<JobEvent>)
    ensures
        submissions_asked(JobState::Ready, events) <= 1,
        job_state_after(JobState::Ready, events) is Ready || job_state_after(
            JobState::Ready,
            events,
        ) is Searching ==> submissions_asked(JobState::Ready, events) == 0,
        submissions_asked(JobState::Ready, events) == 1 ==> events.contains(JobEvent::Found),
    decreases events.len(),
{
    if events.len() > 0 {
        let earlier = events.drop_last();
        lemma_at_most_one_submission(earlier);
        if submissions_asked(JobState::Ready, events) == 1 {
            if submissions_asked(JobState::Ready, earlier) == 1 {
                let i = choose|i: int| 0 <= i < earlier.len() && earlier[i] == JobEvent::Found;
                assert(events[i] == JobEvent::Found);
            } else {
                assert(events[events.len() - 1] == JobEvent::Found);
            }
        }
    }
}

/// An unknown printer is answered at once: nothing is submitted on the way
/// to that reply, and the job is over.
pub proof fn lemma_unknown_printer_ends_the_job(state: JobState)
    ensures
        next_job_action(state, JobEvent::NotFound) is Submit == false,
        state is Searching ==> next_job_action(state, JobEvent::NotFound) == JobAction::Reply(
            Submission::PrinterNotFound,
        ) && next_job_state(state, JobEvent::NotFound) is Done,
{
}

} // verus!
