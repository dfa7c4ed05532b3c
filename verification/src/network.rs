//! The command that sends a ticket to a printer on the network: the bytes
//! go out raw over one TCP connection to `host:port`.

use crate::payload::{decode_failure_prefix, decode_payload, standard_decoding};
use crate::spooler::reply_is;
use vstd::prelude::*;
use vstd::string::*;

verus! {

/// Whether `c` is one of `0` to `9`.
pub open spec fn is_decimal_digit(c: char) -> bool {
    '0' <= c <= '9'
}

/// Whether every character of `text` is a decimal digit.
pub open spec fn all_decimal_digits(text: Seq<char>) -> bool {
    forall|i: int| 0 <= i < text.len() ==> is_decimal_digit(#[trigger] text[i])
}

/// The number that a string of decimal digits writes.
pub open spec fn decimal_value(text: Seq<char>) -> nat
    decreases text.len(),
{
    if text.len() == 0 {
        0
    } else {
        (10 * decimal_value(text.drop_last()) + (text.last() as nat - '0' as nat)) as nat
    }
}

/// The port that `text` names: `text` is one or more decimal digits that
/// write a number from 1 to 65535. Signs, blanks and anything else make it
/// no port.
pub open spec fn port_of(text: Seq<char>) -> Option<u16> {
    if text.len() > 0 && all_decimal_digits(text) && 1 <= decimal_value(text) <= 65535 {
        Some(decimal_value(text) as u16)
    } else {
        None
    }
}

/// A longer string of digits writes no smaller number than its beginning.
pub proof fn lemma_decimal_value_grows(text: Seq<char>, i: int)
    requires
        0 <= i <= text.len(),
        all_decimal_digits(text),
    ensures
        decimal_value(text.subrange(0, i)) <= decimal_value(text),
    decreases text.len(),
{
    if i == text.len() {
        assert(text.subrange(0, i) =~= text);
    } else {
        let shorter = text.drop_last();
        assert(shorter.subrange(0, i) =~= text.subrange(0, i));
        assert(is_decimal_digit(text[text.len() - 1]));
        lemma_decimal_value_grows(shorter, i);
    }
}

/// Reads a port from text. Returns the port exactly where `port_of` has
/// one.
pub fn parse_port(text: &str) -> (port: Option<u16>)
    ensures
        port == port_of(text@),
{
    if !text.is_ascii() {
        return None;
    }
    proof {
        is_ascii_spec_bytes(text);
    }
    let bytes = text.as_bytes();
    let n = bytes.len();
    if n == 0 {
        return None;
    }
    let mut value: u32 = 0;
    let mut i: usize = 0;
    while i < n
        invariant
            i <= n,
            n == text@.len(),
            n == bytes@.len(),
            is_ascii(text),
            forall|k: int| 0 <= k < n ==> bytes@[k] == text@[k] as u8,
            all_decimal_digits(text@.subrange(0, i as int)),
            value == decimal_value(text@.subrange(0, i as int)),
            value <= 65535,
        decreases n - i,
    {
        let b = bytes[i];
        if b < 48 || b > 57 {
            assert(!is_decimal_digit(text@[i as int]));
            return None;
        }
        let ghost before = text@.subrange(0, i as int);
        let ghost after = text@.subrange(0, i + 1);
        assert(after.drop_last() =~= before);
        value = value * 10 + (b - 48) as u32;
        assert(all_decimal_digits(after)) by {
            assert forall|k: int| 0 <= k < after.len() implies is_decimal_digit(
                #[trigger] after[k],
            ) by {
                if k < i {
                    assert(after[k] == before[k]);
                }
            }
        }
        if value > 65535 {
            proof {
                if all_decimal_digits(text@) {
                    lemma_decimal_value_grows(text@, i + 1);
                }
            }
            return None;
        }
        i += 1;
    }
    assert(text@.subrange(0, n as int) =~= text@);
    if value == 0 {
        None
    } else {
        Some(value as u16)
    }
}

/// The endpoint that a host and a port text name together.
pub open spec fn endpoint_text(host: Seq<char>, port: Seq<char>) -> Seq<char> {
    host + ":"@ + port
}

/// The reply for a port text that names no port.
pub open spec fn bad_port_text(port: Seq<char>) -> Seq<char> {
    "Puerto inválido: '"@ + port + "'"@
}

/// The confirmation sent back once the bytes are on the wire.
pub open spec fn sent_over_network_text() -> Seq<char> {
    "Impreso por Red"@
}

/// The reply when no connection to `endpoint` could be opened.
pub open spec fn connect_failure_text(endpoint: Seq<char>, detail: Seq<char>) -> Seq<char> {
    "No se pudo conectar a "@ + endpoint + ": "@ + detail
}

/// The reply when the bytes could not be written to `endpoint`.
pub open spec fn write_failure_text(endpoint: Seq<char>, detail: Seq<char>) -> Seq<char> {
    "Error enviando datos a "@ + endpoint + ": "@ + detail
}

/// One delivery over the network: where to connect and what to write.
#[derive(Debug, PartialEq, Eq)]
pub struct NetworkJob {
    pub host: String,
    pub port: u16,
    pub endpoint: String,
    pub bytes: Vec<u8>,
}

/// A network job as plain data.
pub struct NetworkJobView {
    pub host: Seq<char>,
    pub port: u16,
    pub endpoint: Seq<char>,
    pub bytes: Seq<u8>,
}

impl View for NetworkJob {
    type V = NetworkJobView;

    open spec fn view(&self) -> NetworkJobView {
        NetworkJobView { host: self.host@, port: self.port, endpoint: self.endpoint@, bytes: self.bytes@ }
    }
}

/// What became of a network job.
#[derive(Debug, PartialEq, Eq)]
pub enum Transmission {
    /// The connection opened and took every byte.
    Delivered,
    /// No connection could be opened, with the reason.
    ConnectFailed(String),
    /// The connection opened but did not take every byte, with the reason.
    WriteFailed(String),
}

/// The job that a request asks for once its payload is decoded: the reply
/// for a bad port, or the delivery of `bytes` to `host:port`.
pub open spec fn network_job_of(host: Seq<char>, port: Seq<char>, bytes: Seq<u8>) -> Result<
    NetworkJobView,
    Seq<char>,
> {
    match port_of(port) {
        Some(number) => Ok(
            NetworkJobView { host, port: number, endpoint: endpoint_text(host, port), bytes },
        ),
        None => Err(bad_port_text(port)),
    }
}

/// The reply for each fate of a network job.
pub open spec fn transmission_reply(endpoint: Seq<char>, outcome: Transmission) -> Result<
    Seq<char>,
    Seq<char>,
> {
    match outcome {
        Transmission::Delivered => Ok(sent_over_network_text()),
        Transmission::ConnectFailed(detail) => Err(connect_failure_text(endpoint, detail@)),
        Transmission::WriteFailed(detail) => Err(write_failure_text(endpoint, detail@)),
    }
}

/// Builds the network job for already decoded bytes, or the reply for a
/// port text that names no port.
pub fn network_job(ip: &str, puerto: &str, bytes: Vec<u8>) -> (r: Result<NetworkJob, String>)
    ensures
        match network_job_of(ip@, puerto@, bytes@) {
            Ok(expected) => r matches Ok(job) && job@ == expected,
            Err(text) => r matches Err(msg) && msg@ == text,
        },
{
    match parse_port(puerto) {
        Some(number) => Ok(
            NetworkJob {
                host: String::from_str(ip),
                port: number,
                endpoint: String::from_str(ip).concat(":").concat(puerto),
                bytes,
            },
        ),
        None => Err(String::from_str("Puerto inválido: '").concat(puerto).concat("'")),
    }
}

/// First half of the network command: decodes the payload, then reads the
/// port. An undecodable payload is answered first; then a bad port; any
/// other request yields the job that delivers the decoded bytes.
pub fn imprimir_ticket_red(ip: &str, puerto: &str, contenido_base64: &str) -> (r: Result<
    NetworkJob,
    String,
>)
    ensures
        match standard_decoding(contenido_base64@) {
            Some(bytes) => match network_job_of(ip@, puerto@, bytes) {
                Ok(expected) => r matches Ok(job) && job@ == expected,
                Err(text) => r matches Err(msg) && msg@ == text,
            },
            None => r matches Err(msg) && decode_failure_prefix().is_prefix_of(msg@),
        },
{
    match decode_payload(contenido_base64) {
        Ok(bytes) => network_job(ip, puerto, bytes),
        Err(msg) => Err(msg),
    }
}

/// Second half of the network command: the reply for what happened on the
/// wire.
pub fn imprimir_ticket_red_resultado(endpoint: &str, outcome: &Transmission) -> (reply: Result<
    String,
    String,
>)
    ensures
        reply_is(reply, transmission_reply(endpoint@, *outcome)),
{
    match outcome {
        Transmission::Delivered => Ok(String::from_str("Impreso por Red")),
        Transmission::ConnectFailed(detail) => Err(
            String::from_str("No se pudo conectar a ").concat(endpoint).concat(": ").concat(
                detail.as_str(),
            ),
        ),
        Transmission::WriteFailed(detail) => Err(
            String::from_str("Error enviando datos a ").concat(endpoint).concat(": ").concat(
                detail.as_str(),
            ),
        ),
    }
}

/// Where a delivery stands between the request and the reply.
#[derive(Debug, PartialEq, Eq)]
pub enum SendState {
    /// The job is built and nothing has been asked of the network.
    Ready,
    /// A connection to the endpoint has been asked for.
    Connecting,
    /// The connection is open and the bytes are being written.
    Writing,
    /// The connection is being closed; the outcome waits to be reported.
    Closing(Transmission),
    /// The reply has been handed out.
    Done,
}

/// What the caller reports after doing what it was asked.
#[derive(Debug, PartialEq, Eq)]
pub enum SendEvent {
    /// The delivery is to start.
    Begin,
    /// The connection is open.
    Connected,
    /// No connection could be opened, with the reason.
    ConnectFailed(String),
    /// Every byte was written.
    Written,
    /// Not every byte could be written, with the reason.
    WriteFailed(String),
    /// The connection is closed.
    Closed,
}

/// What the caller is asked to do next.
#[derive(Debug, PartialEq, Eq)]
pub enum SendAction {
    /// Open one connection to the job's endpoint.
    Connect,
    /// Write the job's bytes to the open connection.
    Write,
    /// Close the connection.
    Close,
    /// Answer the request with the reply for this outcome.
    Reply(Transmission),
    /// The event came out of turn: do nothing.
    Nothing,
}

/// The state that follows `state` on `event`. An event that is out of turn
/// changes nothing.
pub open spec fn next_send_state(state: SendState, event: SendEvent) -> SendState {
    match (state, event) {
        (SendState::Ready, SendEvent::Begin) => SendState::Connecting,
        (SendState::Connecting, SendEvent::Connected) => SendState::Writing,
        (SendState::Connecting, SendEvent::ConnectFailed(_)) => SendState::Done,
        (SendState::Writing, SendEvent::Written) => SendState::Closing(Transmission::Delivered),
        (SendState::Writing, SendEvent::WriteFailed(detail)) => SendState::Closing(
            Transmission::WriteFailed(detail),
        ),
        (SendState::Closing(_), SendEvent::Closed) => SendState::Done,
        (unchanged, _) => unchanged,
    }
}

/// What is asked of the caller when `event` arrives in `state`.
pub open spec fn next_send_action(state: SendState, event: SendEvent) -> SendAction {
    match (state, event) {
        (SendState::Ready, SendEvent::Begin) => SendAction::Connect,
        (SendState::Connecting, SendEvent::Connected) => SendAction::Write,
        (SendState::Connecting, SendEvent::ConnectFailed(detail)) => SendAction::Reply(
            Transmission::ConnectFailed(detail),
        ),
        (SendState::Writing, SendEvent::Written) => SendAction::Close,
        (SendState::Writing, SendEvent::WriteFailed(_)) => SendAction::Close,
        (SendState::Closing(outcome), SendEvent::Closed) => SendAction::Reply(outcome),
        (_, _) => SendAction::Nothing,
    }
}

/// Whether the caller holds an open connection in `state`: from the report
/// that it opened until the report that it closed.
pub open spec fn connection_is_open(state: SendState) -> bool {
    state is Writing || state is Closing
}

/// The state reached from `state` after the events of `events`, in order.
pub open spec fn send_state_after(state: SendState, events: Seq<SendEvent>) -> SendState
    decreases events.len(),
{
    if events.len() == 0 {
        state
    } else {
        next_send_state(send_state_after(state, events.drop_last()), events.last())
    }
}

/// How often the caller is asked to connect while `events` arrive, starting
/// in `state`.
pub open spec fn connections_asked(state: SendState, events: Seq<SendEvent>) -> nat
    decreases events.len(),
{
    if events.len() == 0 {
        0
    } else {
        let earlier = events.drop_last();
        let asked_now: nat = if next_send_action(send_state_after(state, earlier), events.last())
            is Connect {
            1
        } else {
            0
        };
        connections_asked(state, earlier) + asked_now
    }
}

/// One step of a delivery: takes the caller's report and says what to do
/// next.
pub fn send_step(state: SendState, event: SendEvent) -> (r: (SendState, SendAction))
    ensures
        r.0 == next_send_state(state, event),
        r.1 == next_send_action(state, event),
{
    match (state, event) {
        (SendState::Ready, SendEvent::Begin) => (SendState::Connecting, SendAction::Connect),
        (SendState::Connecting, SendEvent::Connected) => (SendState::Writing, SendAction::Write),
        (SendState::Connecting, SendEvent::ConnectFailed(detail)) => (
            SendState::Done,
            SendAction::Reply(Transmission::ConnectFailed(detail)),
        ),
        (SendState::Writing, SendEvent::Written) => (
            SendState::Closing(Transmission::Delivered),
            SendAction::Close,
        ),
        (SendState::Writing, SendEvent::WriteFailed(detail)) => (
            SendState::Closing(Transmission::WriteFailed(detail)),
            SendAction::Close,
        ),
        (SendState::Closing(outcome), SendEvent::Closed) => (
            SendState::Done,
            SendAction::Reply(outcome),
        ),
        (unchanged, _) => (unchanged, SendAction::Nothing),
    }
}

/// Whatever the caller reports, and in whatever order, a delivery asks for
/// at most one connection.
pub proof fn lemma_at_most_one_connection(events: Seq<SendEvent>)
    ensures
        connections_asked(SendState::Ready, events) <= 1,
        !(send_state_after(SendState::Ready, events) is Ready) || connections_asked(
            SendState::Ready,
            events,
        ) == 0,
    decreases events.len(),
{
    if events.len() > 0 {
        lemma_at_most_one_connection(events.drop_last());
    }
}

/// The open connection follows the reports: it opens when `Connected` is
/// taken, closes when `Closed` is taken, and no other event changes it.
pub proof fn lemma_connection_follows_reports(state: SendState, event: SendEvent)
    ensures
        connection_is_open(next_send_state(state, event)) == if state is Connecting
            && event is Connected {
            true
        } else if state is Closing && event is Closed {
            false
        } else {
            connection_is_open(state)
        },
{
}

/// A reply is handed out only with no connection left open: either none
/// was ever opened, or it has been reported closed. After the reply the
/// delivery is over and asks for nothing more.
pub proof fn lemma_reply_leaves_no_connection(state: SendState, event: SendEvent)
    ensures
        next_send_action(state, event) is Reply ==> {
            &&& !connection_is_open(next_send_state(state, event))
            &&& next_send_state(state, event) is Done
            &&& connection_is_open(state) ==> event is Closed
        },
        state is Done ==> next_send_action(state, event) is Nothing && next_send_state(
            state,
            event,
        ) is Done,
{
}

} // verus!
