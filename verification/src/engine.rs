//! The protocol engine: what the device remembers between polls, and what it
//! decides on each event of the transport.
//!
//! The engine does no I/O. Whoever owns the USB class pulls a report and tells
//! the engine with `poll`; the engine answers with the report to submit, if one
//! is due. The outcome of each submission goes to `push_ready_data`, which
//! answers with the report to submit after it. A report stays queued until
//! its submission has succeeded.

use crate::aura::constants::AURA_FIRMWARE_VERSION_LEN;
use crate::aura::constants::AURA_HID_REPORT_ID;
use crate::aura::constants::AURA_MAX_DIRECT_LED_COUNT;
use crate::aura::constants::AURA_OUTPUT_REPORT_SIZE;
use crate::aura::AuraInputReport;
use crate::aura::AuraOutputReport;
use crate::aura::InvalidReportError;
use crate::codec::decode_report;
use crate::codec::decoded;
use crate::codec::encode_ready_data;
use crate::codec::config_table_report;
use crate::codec::encoded;
use crate::codec::firmware_version_report;
use crate::codec::DecodedContent;
use crate::codec::DecodedReport;
use crate::codec::ROG_AURA_DEFAULT_FIRMWARE_VERSION;
use crate::message::content_of;
use crate::message::MessageContent;
use crate::message::RogTerminalMessage;
use crate::ready_queue::dequeued;
use crate::ready_queue::enqueued;
use crate::ready_queue::oldest;
use crate::ready_queue::ReadyQueue;
use crate::ready_queue::RogTerminalReadyData;
use crate::ready_queue::READY_QUEUE_CAPACITY;
use vstd::prelude::*;

verus! {

/// Why the transport did not complete a transfer.
#[derive(Copy, Clone, Debug, PartialEq, Eq, Structural)]
pub enum TransportError {
    /// Nothing to read, or no room to write, right now. This is expected.
    WouldBlock,
    /// Any other failure.
    Other,
}

/// What the engine remembers.
pub struct EngineState {
    /// The answers owed to the host, oldest first.
    pub data_rdy: Seq<RogTerminalReadyData>,
    /// The latest command that nobody has fetched yet.
    pub next_message: Option<MessageContent>,
    /// The firmware version that the engine reports.
    pub firmware_version: Seq<u8>,
}

impl EngineState {
    /// The state after a report from the host has been looked at. A query
    /// joins the queue, a command replaces whatever command was waiting, and
    /// a report that does not decode leaves no trace.
    pub open spec fn handle_report(self, report: Seq<u8>) -> EngineState {
        match decoded(report) {
            Ok(DecodedContent::ReadyData(ready)) => EngineState {
                data_rdy: enqueued(self.data_rdy, ready),
                ..self
            },
            Ok(DecodedContent::Message(message)) => EngineState {
                next_message: Some(message),
                ..self
            },
            Err(_) => self,
        }
    }

    /// The state after the transport was asked for a report.
    pub open spec fn polled(self, pulled: Result<Seq<u8>, TransportError>) -> EngineState {
        match pulled {
            Ok(report) => self.handle_report(report),
            Err(_) => self,
        }
    }

    /// The report that is due: the answer that has waited longest, encoded.
    pub open spec fn ready_report(self) -> Option<Seq<u8>> {
        match oldest(self.data_rdy) {
            Some(ready) => Some(encoded(ready, self.firmware_version)),
            None => None,
        }
    }

    /// The state after the transport has tried to send the report that was
    /// due. Only a report that was sent leaves the queue.
    pub open spec fn submitted(self, outcome: Result<(), TransportError>) -> EngineState {
        match outcome {
            Ok(_) => EngineState { data_rdy: dequeued(self.data_rdy), ..self },
            Err(_) => self,
        }
    }

    /// The report to send after a submission: the next one that is due after
    /// a success, none after a failure, so that the rest waits for the next
    /// poll.
    pub open spec fn report_after(self, outcome: Result<(), TransportError>) -> Option<Seq<u8>> {
        match outcome {
            Ok(_) => self.submitted(outcome).ready_report(),
            Err(_) => None,
        }
    }

    /// The state after the waiting command has been fetched.
    pub open spec fn taken(self) -> EngineState {
        EngineState { next_message: None, ..self }
    }

    /// The state after `count` submissions in a row have succeeded.
    pub open spec fn after_submissions(self, count: nat) -> EngineState
        decreases count,
    {
        if count == 0 {
            self
        } else {
            self.submitted(Ok(())).after_submissions((count - 1) as nat)
        }
    }

    /// What holds of the state of every engine: the queue is within its
    /// capacity, a waiting direct update carries no more colors than the
    /// protocol allows, and the firmware version has its fixed length.
    pub open spec fn wf(self) -> bool {
        &&& self.data_rdy.len() <= READY_QUEUE_CAPACITY
        &&& self.firmware_version.len() == AURA_FIRMWARE_VERSION_LEN
        &&& self.next_message matches Some(MessageContent::UpdateLeds { led_data, .. })
            ==> led_data.len() <= AURA_MAX_DIRECT_LED_COUNT
    }
}

/// The bytes of a report that may be absent.
pub open spec fn bytes_of(report: Option<AuraInputReport>) -> Option<Seq<u8>> {
    match report {
        Some(bytes) => Some(bytes@),
        None => None,
    }
}

/// The bytes of a pulled report, or why there is none.
pub open spec fn pulled_bytes(pulled: Result<AuraOutputReport, TransportError>) -> Result<
    Seq<u8>,
    TransportError,
> {
    match pulled {
        Ok(report) => Ok(report@),
        Err(e) => Err(e),
    }
}

/// Why a pulled report was dropped, if one was pulled and dropped.
pub open spec fn rejection(pulled: Result<Seq<u8>, TransportError>) -> Option<InvalidReportError> {
    match pulled {
        Ok(report) => match decoded(report) {
            Ok(_) => None,
            Err(e) => Some(e),
        },
        Err(_) => None,
    }
}

/// What one poll has come to.
#[derive(Copy, Clone, Debug)]
pub struct PollOutcome {
    /// Why the pulled report was dropped, if it was.
    pub rejected: Option<InvalidReportError>,
    /// The report to submit to the host, if one is due.
    pub ready: Option<AuraInputReport>,
}

/// The protocol state of an emulated ROG Aura Terminal.
pub struct AsusRogTerminalHidClass {
    data_rdy: ReadyQueue,
    next_message: Option<RogTerminalMessage>,
    firmware_version: &'static [u8; 15],
}

impl View for AsusRogTerminalHidClass {
    type V = EngineState;

    closed spec fn view(&self) -> EngineState {
        EngineState {
            data_rdy: self.data_rdy@,
            next_message: content_of(self.next_message),
            firmware_version: self.firmware_version@,
        }
    }
}

impl AsusRogTerminalHidClass {
    #[verifier::type_invariant]
    spec fn well_formed(self) -> bool {
        self@.wf()
    }

    /// An engine that reports the default firmware version.
    pub fn new_with_defaults() -> (engine: Self)
        ensures
            engine@ == (EngineState {
                data_rdy: Seq::empty(),
                next_message: None,
                firmware_version: ROG_AURA_DEFAULT_FIRMWARE_VERSION@,
            }),
            engine@.wf(),
    {
        Self::new(ROG_AURA_DEFAULT_FIRMWARE_VERSION)
    }

    /// An engine with nothing queued and no command waiting.
    pub fn new(firmware_version: &'static [u8; 15]) -> (engine: Self)
        ensures
            engine@ == (EngineState {
                data_rdy: Seq::empty(),
                next_message: None,
                firmware_version: firmware_version@,
            }),
            engine@.wf(),
    {
        AsusRogTerminalHidClass {
            data_rdy: ReadyQueue::new(),
            next_message: None,
            firmware_version,
        }
    }

    /// Looks at one report from the host. A report that does not decode
    /// changes nothing, and the reason comes back.
    pub fn handle_report(&mut self, report: &AuraOutputReport) -> (outcome: Result<
        (),
        InvalidReportError,
    >)
        ensures
            final(self)@ == old(self)@.handle_report(report@),
            final(self)@.wf(),
            outcome == match decoded(report@) {
                Ok(_) => Ok::<(), InvalidReportError>(()),
                Err(e) => Err(e),
            },
    {
        proof {
            use_type_invariant(&*self);
        }
        match decode_report(report) {
            Ok(DecodedReport::ReadyData(ready)) => {
                self.data_rdy.enqueue(ready);
                Ok(())
            },
            Ok(DecodedReport::Message(message)) => {
                self.next_message = Some(message);
                Ok(())
            },
            Err(e) => Err(e),
        }
    }

    /// The report that is due, if any. It stays due until `push_ready_data`
    /// hears that it was sent.
    pub fn ready_report(&self) -> (report: Option<AuraInputReport>)
        ensures
            bytes_of(report) == self@.ready_report(),
            self@.wf(),
    {
        proof {
            use_type_invariant(self);
        }
        match self.data_rdy.peek() {
            Some(ready) => Some(encode_ready_data(ready, self.firmware_version)),
            None => None,
        }
    }

    /// Takes the outcome of submitting the report that was due, and hands
    /// out the one to submit next.
    pub fn push_ready_data(&mut self, submitted: Result<(), TransportError>) -> (next: Option<
        AuraInputReport,
    >)
        ensures
            final(self)@ == old(self)@.submitted(submitted),
            final(self)@.wf(),
            bytes_of(next) == old(self)@.report_after(submitted),
    {
        proof {
            use_type_invariant(&*self);
        }
        match submitted {
            Ok(_) => {
                self.data_rdy.dequeue();
                self.ready_report()
            },
            Err(_) => None,
        }
    }

    /// One poll cycle: takes what the transport had to read, and hands out
    /// the first report to submit.
    pub fn poll(&mut self, pulled: Result<AuraOutputReport, TransportError>) -> (outcome:
        PollOutcome)
        ensures
            final(self)@ == old(self)@.polled(pulled_bytes(pulled)),
            final(self)@.wf(),
            outcome.rejected == rejection(pulled_bytes(pulled)),
            bytes_of(outcome.ready) == final(self)@.ready_report(),
    {
        let rejected = match pulled {
            Ok(report) => match self.handle_report(&report) {
                Ok(_) => None,
                Err(e) => Some(e),
            },
            Err(_) => None,
        };
        PollOutcome { rejected, ready: self.ready_report() }
    }

    /// Fetches the waiting command, which is then no longer waiting.
    pub fn poll_next_message(&mut self) -> (message: Option<RogTerminalMessage>)
        ensures
            content_of(message) == old(self)@.next_message,
            final(self)@ == old(self)@.taken(),
            final(self)@.wf(),
    {
        proof {
            use_type_invariant(&*self);
        }
        let mut message: Option<RogTerminalMessage> = None;
        core::mem::swap(&mut self.next_message, &mut message);
        message
    }
}

/// Whatever happens to an engine, its state stays well formed.
pub proof fn lemma_events_keep_state_well_formed(
    state: EngineState,
    report: Seq<u8>,
    outcome: Result<(), TransportError>,
)
    requires
        state.wf(),
        report.len() == AURA_OUTPUT_REPORT_SIZE,
    ensures
        state.handle_report(report).wf(),
        state.submitted(outcome).wf(),
        state.taken().wf(),
{
}

/// A report whose first byte is not the Aura report id has no effect on the
/// engine: nothing is queued and the waiting command stays.
pub proof fn lemma_foreign_report_changes_nothing(state: EngineState, report: Seq<u8>)
    requires
        report[0] != AURA_HID_REPORT_ID,
    ensures
        state.handle_report(report) == state,
        rejection(Ok(report)) == Some(InvalidReportError::InvalidReportId),
{
}

/// The mailbox keeps the latest command only: of two commands that arrive
/// with no fetch between them, the second is the one that a fetch returns,
/// and after that fetch nothing is waiting.
pub proof fn lemma_latest_command_wins(state: EngineState, first: Seq<u8>, second: Seq<u8>)
    requires
        decoded(first) matches Ok(DecodedContent::Message(_)),
        decoded(second) matches Ok(DecodedContent::Message(_)),
    ensures
        decoded(second) matches Ok(DecodedContent::Message(latest)) && state.handle_report(
            first,
        ).handle_report(second).next_message == Some(latest),
        state.handle_report(first).handle_report(second).taken().next_message.is_none(),
{
}

/// A submission that fails loses nothing: the same report is due again, now
/// and after a poll that pulled nothing.
pub proof fn lemma_failed_submission_is_retried(
    state: EngineState,
    failure: TransportError,
    nothing_pulled: TransportError,
)
    ensures
        state.submitted(Err(failure)).ready_report() == state.ready_report(),
        state.submitted(Err(failure)).polled(Err(nothing_pulled)).ready_report()
            == state.ready_report(),
{
}

/// Answers leave in the order in which their requests arrived: after `sent`
/// successful submissions the report that is due answers the request at that
/// place of the queue, and once all are sent none is due.
pub proof fn lemma_answers_leave_in_arrival_order(state: EngineState, sent: nat)
    requires
        sent <= state.data_rdy.len(),
    ensures
        state.after_submissions(sent).data_rdy == state.data_rdy.skip(sent as int),
        state.after_submissions(sent).ready_report() == if sent < state.data_rdy.len() {
            Some(encoded(state.data_rdy[sent as int], state.firmware_version))
        } else {
            None
        },
    decreases sent,
{
    if sent > 0 {
        let next = state.submitted(Ok(()));
        lemma_answers_leave_in_arrival_order(next, (sent - 1) as nat);
    } else {
    }
}

/// A firmware version request followed by a configuration table request,
/// with nothing sent in between, is answered in that order: first the
/// firmware version report, then the configuration table report, then
/// nothing.
pub proof fn lemma_version_is_answered_before_table(
    state: EngineState,
    version_request: Seq<u8>,
    table_request: Seq<u8>,
)
    requires
        state.data_rdy.len() == 0,
        decoded(version_request) == Ok::<_, InvalidReportError>(
            DecodedContent::ReadyData(RogTerminalReadyData::FirmwareVersion),
        ),
        decoded(table_request) == Ok::<_, InvalidReportError>(
            DecodedContent::ReadyData(RogTerminalReadyData::ConfigTable),
        ),
    ensures
        ({
            let queued = state.handle_report(version_request).handle_report(table_request);
            &&& queued.ready_report() == Some(firmware_version_report(state.firmware_version))
            &&& queued.report_after(Ok(())) == Some(config_table_report())
            &&& queued.submitted(Ok(())).report_after(Ok(())).is_none()
        }),
{
}

} // verus!
