use printer_bridge::drawer::{abrir_cajon, abrir_cajon_resultado, drawer_pulse_bytes};
use printer_bridge::payload::{decode_failure, decode_payload};
use printer_bridge::spooler::{
    imprimir_ticket, imprimir_ticket_resultado, imprimir_ticket_sistema,
    imprimir_ticket_sistema_resultado, listar_impresoras_sistema, obtener_impresoras,
    printer_not_found, reply_to_submission, ticket_job, InstalledPrinter, PrintJob, Submission,
};

fn installed(names: &[&str]) -> Vec<InstalledPrinter> {
    names.iter().map(|n| InstalledPrinter { name: n.to_string() }).collect()
}

#[test]
fn listing_keeps_the_reported_order() {
    let reported = Ok(installed(&["HP-LaserJet", "EPSON-TM-T20"]));
    assert_eq!(
        obtener_impresoras(&reported),
        vec!["HP-LaserJet".to_string(), "EPSON-TM-T20".to_string()]
    );
    assert_eq!(
        listar_impresoras_sistema(&reported),
        vec!["HP-LaserJet".to_string(), "EPSON-TM-T20".to_string()]
    );
}

#[test]
fn listing_keeps_duplicates() {
    let reported = Ok(installed(&["A", "B", "A"]));
    assert_eq!(
        obtener_impresoras(&reported),
        vec!["A".to_string(), "B".to_string(), "A".to_string()]
    );
}

#[test]
fn listing_of_no_printers_is_empty() {
    let reported = Ok(installed(&[]));
    assert_eq!(obtener_impresoras(&reported), Vec::<String>::new());
    assert_eq!(listar_impresoras_sistema(&reported), Vec::<String>::new());
}

#[test]
fn failed_enumeration_lists_nothing() {
    let reported: Result<Vec<InstalledPrinter>, String> = Err("spooler down".to_string());
    assert_eq!(obtener_impresoras(&reported), Vec::<String>::new());
    assert_eq!(listar_impresoras_sistema(&reported), Vec::<String>::new());
}

#[test]
fn ticket_is_decoded_and_labelled() {
    let job = imprimir_ticket("EPSON-TM-T20", "SGVsbG8=").unwrap();
    assert_eq!(
        job,
        PrintJob {
            printer: "EPSON-TM-T20".to_string(),
            bytes: vec![0x48, 0x65, 0x6C, 0x6C, 0x6F],
            label: "Ticket Venta".to_string(),
        }
    );
    assert_eq!(
        imprimir_ticket_resultado("EPSON-TM-T20", &Submission::Accepted),
        Ok("Impreso correctamente".to_string())
    );
}

#[test]
fn ticket_by_system_confirms_in_its_own_words() {
    let job = imprimir_ticket_sistema("EPSON-TM-T20", "SGVsbG8=").unwrap();
    assert_eq!(job.printer, "EPSON-TM-T20");
    assert_eq!(job.bytes, vec![0x48, 0x65, 0x6C, 0x6C, 0x6F]);
    assert_eq!(job.label, "Ticket Venta");
    assert_eq!(
        imprimir_ticket_sistema_resultado("EPSON-TM-T20", &Submission::Accepted),
        Ok("Impreso por Sistema".to_string())
    );
}

#[test]
fn unknown_printer_is_named_in_the_reply() {
    assert!(imprimir_ticket("Ghost", "SGVsbG8=").is_ok());
    assert_eq!(
        imprimir_ticket_resultado("Ghost", &Submission::PrinterNotFound),
        Err("Impresora 'Ghost' no encontrada".to_string())
    );
    assert_eq!(
        imprimir_ticket_sistema_resultado("Ghost", &Submission::PrinterNotFound),
        Err("Impresora 'Ghost' no encontrada".to_string())
    );
    assert_eq!(
        abrir_cajon_resultado("Ghost", &Submission::PrinterNotFound),
        Err("Impresora 'Ghost' no encontrada".to_string())
    );
    assert_eq!(printer_not_found(""), "Impresora '' no encontrada");
}

#[test]
fn undecodable_ticket_yields_no_job() {
    let reply = imprimir_ticket("EPSON-TM-T20", "!!!not-base64!!!");
    match reply {
        Ok(_) => panic!("a job was built from an undecodable payload"),
        Err(msg) => assert!(msg.starts_with("Error decodificando Base64: ")),
    }
    let reply = imprimir_ticket_sistema("EPSON-TM-T20", "!!!not-base64!!!");
    assert!(matches!(reply, Err(msg) if msg.starts_with("Error decodificando Base64: ")));
}

#[test]
fn undecodable_ticket_reports_the_decoder_reason() {
    assert_eq!(
        imprimir_ticket("EPSON-TM-T20", "!!!not-base64!!!"),
        Err("Error decodificando Base64: Invalid symbol 33, offset 0.".to_string())
    );
    assert_eq!(
        decode_payload("SGk"),
        Err("Error decodificando Base64: Invalid padding".to_string())
    );
    assert_eq!(decode_failure("x"), "Error decodificando Base64: x");
}

#[test]
fn rejected_ticket_carries_the_spooler_reason() {
    let outcome = Submission::Rejected("out of paper".to_string());
    assert_eq!(
        imprimir_ticket_resultado("EPSON-TM-T20", &outcome),
        Err("Error al imprimir: out of paper".to_string())
    );
    assert_eq!(
        imprimir_ticket_sistema_resultado("EPSON-TM-T20", &outcome),
        Err("Error al imprimir: out of paper".to_string())
    );
}

#[test]
fn empty_ticket_is_forwarded_as_no_bytes() {
    let job = imprimir_ticket("EPSON-TM-T20", "").unwrap();
    assert_eq!(job.bytes, Vec::<u8>::new());
    assert_eq!(job.label, "Ticket Venta");
}

#[test]
fn ticket_job_takes_the_bytes_as_they_are() {
    let job = ticket_job("P", vec![0, 255, 10, 13]);
    assert_eq!(job.printer, "P");
    assert_eq!(job.bytes, vec![0, 255, 10, 13]);
    assert_eq!(job.label, "Ticket Venta");
}

#[test]
fn drawer_pulse_is_fixed() {
    assert_eq!(drawer_pulse_bytes(), vec![0x1B, 0x70, 0x00, 0x19, 0xFA]);
    for name in ["EPSON-TM-T20", "", "Ghost", "SGVsbG8="] {
        let job = abrir_cajon(name);
        assert_eq!(job.printer, name);
        assert_eq!(job.bytes, vec![0x1B, 0x70, 0x00, 0x19, 0xFA]);
        assert_eq!(job.label, "Abrir Cajon");
    }
}

#[test]
fn drawer_opens_through_the_spooler() {
    let job = abrir_cajon("EPSON-TM-T20");
    assert_eq!(
        job,
        PrintJob {
            printer: "EPSON-TM-T20".to_string(),
            bytes: vec![27, 112, 0, 25, 250],
            label: "Abrir Cajon".to_string(),
        }
    );
    assert_eq!(
        abrir_cajon_resultado("EPSON-TM-T20", &Submission::Accepted),
        Ok("Cajón abierto".to_string())
    );
}

#[test]
fn rejected_pulse_carries_the_spooler_reason() {
    assert_eq!(
        abrir_cajon_resultado("EPSON-TM-T20", &Submission::Rejected("offline".to_string())),
        Err("Error abriendo cajón: offline".to_string())
    );
}

#[test]
fn reply_follows_the_outcome() {
    assert_eq!(reply_to_submission("P", &Submission::Accepted, "ok", "bad: "), Ok("ok".to_string()));
    assert_eq!(
        reply_to_submission("P", &Submission::PrinterNotFound, "ok", "bad: "),
        Err("Impresora 'P' no encontrada".to_string())
    );
    assert_eq!(
        reply_to_submission("P", &Submission::Rejected("why".to_string()), "ok", "bad: "),
        Err("bad: why".to_string())
    );
}
