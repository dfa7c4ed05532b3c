//! The command that kicks the cash drawer open through a printer.

use crate::spooler::{printer_not_found_text, reply_is, reply_to_submission, submission_reply, PrintJob, PrintJobView, Submission};
use vstd::prelude::*;
use vstd::string::*;

verus! {

/// The pulse that opens the drawer: ESC `p`, pin 0, on-time 0x19, off-time
/// 0xFA. It is fixed; nothing a caller sends changes it.
pub open spec fn drawer_pulse() -> Seq<u8> {
    seq![0x1Bu8, 0x70u8, 0x00u8, 0x19u8, 0xFAu8]
}

/// The label under which the pulse is queued.
pub open spec fn drawer_label() -> Seq<char> {
    "Abrir Cajon"@
}

/// The confirmation sent back once the pulse is queued.
pub open spec fn drawer_opened_text() -> Seq<char> {
    "Cajón abierto"@
}

/// What stands before the spooler's reason when it refuses the pulse.
pub open spec fn drawer_rejection_prefix() -> Seq<char> {
    "Error abriendo cajón: "@
}

/// The job that sends the pulse to `printer`.
pub open spec fn drawer_job_of(printer: Seq<char>) -> PrintJobView {
    PrintJobView { printer, bytes: drawer_pulse(), label: drawer_label() }
}

/// The pulse as bytes to send.
pub fn drawer_pulse_bytes() -> (bytes: Vec<u8>)
    ensures
        bytes@ == drawer_pulse(),
{
    let mut bytes: Vec<u8> = Vec::new();
    bytes.push(0x1B);
    bytes.push(0x70);
    bytes.push(0x00);
    bytes.push(0x19);
    bytes.push(0xFA);
    assert(bytes@ =~= drawer_pulse());
    bytes
}

/// First half of the drawer command: the job for the named printer. Its
/// bytes are the pulse and its label the drawer label, whatever the name.
pub fn abrir_cajon(impresora: &str) -> (job: PrintJob)
    ensures
        job@ == drawer_job_of(impresora@),
{
    PrintJob {
        printer: String::from_str(impresora),
        bytes: drawer_pulse_bytes(),
        label: String::from_str("Abrir Cajon"),
    }
}

/// Second half of the drawer command: the reply for what the spooler did
/// with the pulse.
pub fn abrir_cajon_resultado(impresora: &str, outcome: &Submission) -> (reply: Result<String, String>)
    ensures
        reply_is(
            reply,
            submission_reply(impresora@, *outcome, drawer_opened_text(), drawer_rejection_prefix()),
        ),
        *outcome is PrinterNotFound ==> (reply matches Err(msg) && msg@ == printer_not_found_text(
            impresora@,
        )),
{
    reply_to_submission(impresora, outcome, "Cajón abierto", "Error abriendo cajón: ")
}

} // verus!
