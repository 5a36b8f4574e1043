//! The output relay: what is done with each event of the running backend.
//!
//! The relay receives the backend's events one at a time, in the order the
//! process produced them. Every line of standard output is published to the
//! user interface as one `message` event, and answered with a fixed
//! acknowledgement on the backend's standard input. Every other event is
//! passed over. When the stream of events ends, so does the relay.

use vstd::prelude::*;
use vstd::utf8::{decode_utf8, encode_utf8, valid_utf8};
use crate::text::{decode_lossy, utf8_lossy};

verus! {

/// The name of the event published for each line of output.
pub const MESSAGE_EVENT: &'static str = "message";

/// The text written to the backend after each line it printed.
pub const ACKNOWLEDGEMENT: &'static str = "message from Rust\n";

/// An event reported by the running backend.
#[derive(Clone, Debug, PartialEq, Eq)]
pub enum OutputEvent {
    /// A line written to standard output, as raw bytes.
    StandardOutputLine(Vec<u8>),
    /// A line written to standard error, as raw bytes.
    StandardErrorLine(Vec<u8>),
    /// An error while reading from the process.
    ProcessError(String),
    /// The process ended, with its exit code and signal where known.
    ProcessExited { code: Option<i32>, signal: Option<i32> },
    /// An event of a kind this relay has no name for.
    Other,
}

/// The mathematical value of an `OutputEvent`.
pub ghost enum OutputEventView {
    StandardOutputLine(Seq<u8>),
    StandardErrorLine(Seq<u8>),
    ProcessError(Seq<char>),
    ProcessExited { code: Option<i32>, signal: Option<i32> },
    Other,
}

impl View for OutputEvent {
    type V = OutputEventView;

    open spec fn view(&self) -> OutputEventView {
        match self {
            OutputEvent::StandardOutputLine(bytes) => OutputEventView::StandardOutputLine(bytes@),
            OutputEvent::StandardErrorLine(bytes) => OutputEventView::StandardErrorLine(bytes@),
            OutputEvent::ProcessError(reason) => OutputEventView::ProcessError(reason@),
            OutputEvent::ProcessExited { code, signal } => OutputEventView::ProcessExited {
                code: *code,
                signal: *signal,
            },
            OutputEvent::Other => OutputEventView::Other,
        }
    }
}

/// One relayed line: the event to publish, then the bytes to write to the
/// backend's standard input.
#[derive(Clone, Debug, PartialEq, Eq)]
pub struct Emission {
    pub event: String,
    pub payload: String,
    pub acknowledgement: Vec<u8>,
}

/// The mathematical value of an `Emission`.
pub ghost struct EmissionView {
    pub event: Seq<char>,
    pub payload: Seq<char>,
    pub acknowledgement: Seq<u8>,
}

impl View for Emission {
    type V = EmissionView;

    open spec fn view(&self) -> EmissionView {
        EmissionView {
            event: self.event@,
            payload: self.payload@,
            acknowledgement: self.acknowledgement@,
        }
    }
}

/// What the relay does next.
#[derive(Clone, Debug, PartialEq, Eq)]
pub enum RelayAction {
    /// Publish the event, then write the acknowledgement, then receive again.
    Forward(Emission),
    /// Nothing to publish: receive again.
    Skip,
    /// The stream has ended: stop receiving.
    Stop,
}

/// The mathematical value of a `RelayAction`.
pub ghost enum RelayActionView {
    Forward(EmissionView),
    Skip,
    Stop,
}

impl View for RelayAction {
    type V = RelayActionView;

    open spec fn view(&self) -> RelayActionView {
        match self {
            RelayAction::Forward(emission) => RelayActionView::Forward(emission@),
            RelayAction::Skip => RelayActionView::Skip,
            RelayAction::Stop => RelayActionView::Stop,
        }
    }
}

/// The mathematical value of what was received: `None` once the stream ended.
pub open spec fn received_view(received: Option<OutputEvent>) -> Option<OutputEventView> {
    match received {
        Some(event) => Some(event@),
        None => None,
    }
}

/// A line between single quotes, as it is shown to the user.
pub open spec fn quoted(line: Seq<char>) -> Seq<char> {
    seq!['\''] + line + seq!['\'']
}

/// What is published and written back for a line of output.
pub open spec fn emission_of(line: Seq<char>) -> EmissionView {
    EmissionView {
        event: MESSAGE_EVENT@,
        payload: quoted(line),
        acknowledgement: encode_utf8(ACKNOWLEDGEMENT@),
    }
}

/// What the relay does with what it received.
pub open spec fn relay_action(received: Option<OutputEventView>) -> RelayActionView {
    match received {
        Some(OutputEventView::StandardOutputLine(bytes)) => RelayActionView::Forward(
            emission_of(utf8_lossy(bytes)),
        ),
        Some(_) => RelayActionView::Skip,
        None => RelayActionView::Stop,
    }
}

/// Puts a line between single quotes.
pub fn message_payload(line: &str) -> (payload: String)
    ensures
        payload@ == quoted(line@),
{
    let mut payload = "'".to_owned();
    payload.append(line);
    payload.append("'");
    proof {
        reveal_strlit("'");
        assert("'"@ =~= seq!['\'']);
    }
    payload
}

/// Builds what is published and written back for a decoded line: one
/// `message` event with the quoted line, and the acknowledgement.
pub fn emission(line: &str) -> (emission: Emission)
    ensures
        emission@ == emission_of(line@),
{
    Emission {
        event: MESSAGE_EVENT.to_owned(),
        payload: message_payload(line),
        acknowledgement: ACKNOWLEDGEMENT.as_bytes_vec(),
    }
}

/// Decides what to do with what the relay received.
///
/// A line of standard output is always forwarded, whatever bytes it holds:
/// bytes that are not valid text are replaced, never refused, so every line
/// yields exactly one emission. A line that is valid UTF-8 is forwarded
/// character for character. Any other event is skipped, and the end of the
/// stream stops the relay.
pub fn relay_step(received: Option<OutputEvent>) -> (action: RelayAction)
    ensures
        action@ == relay_action(received_view(received)),
        action is Forward <==> received matches Some(OutputEvent::StandardOutputLine(_)),
        action is Stop <==> received is None,
        received matches Some(OutputEvent::StandardOutputLine(bytes)) ==> (valid_utf8(bytes@)
            ==> action@ == RelayActionView::Forward(emission_of(decode_utf8(bytes@)))),
{
    match received {
        Some(OutputEvent::StandardOutputLine(bytes)) => {
            let line = decode_lossy(bytes.as_slice());
            RelayAction::Forward(emission(line.as_str()))
        },
        Some(_) => RelayAction::Skip,
        None => RelayAction::Stop,
    }
}

/// What a relay publishes for a stream of events, one event after the other.
pub open spec fn emissions_of(events: Seq<OutputEventView>) -> Seq<EmissionView>
    decreases events.len(),
{
    if events.len() == 0 {
        Seq::empty()
    } else {
        match relay_action(Some(events.last())) {
            RelayActionView::Forward(emission) => emissions_of(events.drop_last()).push(emission),
            _ => emissions_of(events.drop_last()),
        }
    }
}

/// The relay neither reorders nor batches: what it publishes for a stream is
/// what it publishes for the beginning of the stream, followed by what it
/// publishes for the rest.
pub proof fn lemma_emissions_keep_order(first: Seq<OutputEventView>, second: Seq<OutputEventView>)
    ensures
        emissions_of(first + second) == emissions_of(first) + emissions_of(second),
    decreases second.len(),
{
    if second.len() > 0 {
        assert((first + second).drop_last() =~= first + second.drop_last());
        lemma_emissions_keep_order(first, second.drop_last());
    }
}

/// Every line of standard output is published exactly once, in its place:
/// a stream of lines gives as many emissions as it has lines, the i-th for
/// the i-th line.
pub proof fn lemma_one_emission_per_line(lines: Seq<Seq<u8>>)
    ensures
        emissions_of(lines.map_values(|line: Seq<u8>| OutputEventView::StandardOutputLine(line)))
            == lines.map_values(|line: Seq<u8>| emission_of(utf8_lossy(line))),
    decreases lines.len(),
{
    let events = lines.map_values(|line: Seq<u8>| OutputEventView::StandardOutputLine(line));
    if lines.len() > 0 {
        lemma_one_emission_per_line(lines.drop_last());
        assert(events.drop_last() =~= lines.drop_last().map_values(
            |line: Seq<u8>| OutputEventView::StandardOutputLine(line),
        ));
        assert(emissions_of(events) =~= lines.map_values(
            |line: Seq<u8>| emission_of(utf8_lossy(line)),
        ));
    }
}

} // verus!
