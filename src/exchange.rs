//! One download exchange with the bootloader: request header, payload, a
//! status poll that must report busy, a wait, and a status poll that must
//! report idle. The exchange is a state machine: the caller performs each
//! action on the transport and hands back what happened.
use vstd::prelude::*;
use crate::cipher::{obfuscate, obfuscated};
use crate::codec::{build_download_request, request_header, DownloadType, MAX_PAYLOAD};
use crate::status::{parse_status_reply, status_of, DeviceState, DeviceStatus, StatusParseError};

verus! {

/// Why a USB operation failed, as the transport reports it.
#[derive(PartialEq, Eq, Structural, Clone, Copy, Debug)]
pub enum TransportError {
    Io,
    InvalidParam,
    Access,
    NoDevice,
    NotFound,
    Busy,
    Timeout,
    Overflow,
    Pipe,
    Interrupted,
    NoMem,
    NotSupported,
    BadDescriptor,
    Other,
}

/// The step of an exchange at which the transport failed.
#[derive(PartialEq, Eq, Structural, Clone, Copy, Debug)]
pub enum TransferStep {
    /// Opening the device or claiming its interface, before the exchange.
    Claim,
    /// Writing the request header.
    Header,
    /// Writing the payload.
    Payload,
    /// Sending a status query or reading its reply.
    StatusQuery,
}

/// Why a download exchange failed.
#[derive(PartialEq, Eq, Structural, Clone, Copy, Debug)]
pub enum DownloadError {
    /// A USB operation of the exchange failed, at this step, with this error.
    TransferFailed(TransferStep, TransportError),
    /// A status reply could not be decoded.
    MalformedStatus(StatusParseError),
    /// The status right after the payload was not busy without error.
    UnexpectedStatus(DeviceState, DeviceStatus),
    /// The device reported a vendor error: write or read-only protection is active.
    ReadOnlyProtection,
    /// The device reported a target error: the address is invalid.
    InvalidAddress,
    /// The device reported any other error.
    DeviceError(DeviceStatus),
    /// A data block was requested before the session key was derived.
    MissingSessionKey,
    /// The payload does not fit the 16-bit length field.
    PayloadTooLong,
}

/// The error a failed final status stands for.
pub open spec fn failure_of(status: DeviceStatus) -> DownloadError {
    match status {
        DeviceStatus::ErrVendor => DownloadError::ReadOnlyProtection,
        DeviceStatus::ErrTarget => DownloadError::InvalidAddress,
        _ => DownloadError::DeviceError(status),
    }
}

/// Decodes the status code of a failed exchange.
pub fn decode_failure(status: DeviceStatus) -> (r: DownloadError)
    ensures
        r == failure_of(status),
{
    match status {
        DeviceStatus::ErrVendor => DownloadError::ReadOnlyProtection,
        DeviceStatus::ErrTarget => DownloadError::InvalidAddress,
        _ => DownloadError::DeviceError(status),
    }
}

/// What the status reply after the payload means: the wait it asks for when
/// the device is busy without error, else the failure.
pub open spec fn busy_outcome(reply: Seq<u8>) -> Result<u32, DownloadError> {
    match status_of(reply) {
        Err(e) => Err(DownloadError::MalformedStatus(e)),
        Ok(s) => if s.state == DeviceState::DfuDnbusy && s.status == DeviceStatus::NoError {
            Ok(s.poll_timeout_ms)
        } else {
            Err(DownloadError::UnexpectedStatus(s.state, s.status))
        },
    }
}

/// What the status reply after the wait means: success when the device is
/// idle again, else the decoded failure.
pub open spec fn idle_outcome(reply: Seq<u8>) -> Result<(), DownloadError> {
    match status_of(reply) {
        Err(e) => Err(DownloadError::MalformedStatus(e)),
        Ok(s) => if s.state == DeviceState::DfuDnloadIdle {
            Ok(())
        } else {
            Err(failure_of(s.status))
        },
    }
}

/// Checks the status reply that follows the payload.
pub fn check_busy_reply(reply: &[u8]) -> (r: Result<u32, DownloadError>)
    ensures
        r == busy_outcome(reply@),
{
    match parse_status_reply(reply) {
        Err(e) => Err(DownloadError::MalformedStatus(e)),
        Ok(s) => {
            if s.state == DeviceState::DfuDnbusy && s.status == DeviceStatus::NoError {
                Ok(s.poll_timeout_ms)
            } else {
                Err(DownloadError::UnexpectedStatus(s.state, s.status))
            }
        },
    }
}

/// Checks the status reply that follows the wait.
pub fn check_idle_reply(reply: &[u8]) -> (r: Result<(), DownloadError>)
    ensures
        r == idle_outcome(reply@),
{
    match parse_status_reply(reply) {
        Err(e) => Err(DownloadError::MalformedStatus(e)),
        Ok(s) => {
            if s.state == DeviceState::DfuDnloadIdle {
                Ok(())
            } else {
                Err(decode_failure(s.status))
            }
        },
    }
}

/// Where an exchange stands.
#[derive(Clone, Copy, Debug)]
pub enum Phase {
    SendHeader,
    SendPayload,
    AwaitBusy,
    /// Waiting the given number of milliseconds before the last poll.
    Wait(u32),
    AwaitIdle,
    Finished(Result<(), DownloadError>),
}

/// What the transport did with the last action.
#[derive(Debug)]
pub enum Event {
    /// The write or the wait completed.
    Completed,
    /// The transfer failed with this error.
    Failed(TransportError),
    /// A status reply was read.
    Reply(Vec<u8>),
}

/// What the caller is to do next.
#[derive(Debug)]
pub enum Action {
    /// Write these bytes to the bulk-out endpoint.
    Write(Vec<u8>),
    /// Send the status query and read the reply.
    QueryStatus,
    /// Sleep this many milliseconds.
    Sleep(u32),
    /// The exchange is over, with this outcome.
    Done(Result<(), DownloadError>),
}

/// The phase that follows `phase` on `event`. An event that does not fit the
/// phase leaves it unchanged.
pub open spec fn next_phase(phase: Phase, event: Event) -> Phase {
    match (phase, event) {
        (Phase::SendHeader, Event::Completed) => Phase::SendPayload,
        (Phase::SendPayload, Event::Completed) => Phase::AwaitBusy,
        (Phase::AwaitBusy, Event::Reply(reply)) => match busy_outcome(reply@) {
            Ok(ms) => Phase::Wait(ms),
            Err(e) => Phase::Finished(Err(e)),
        },
        (Phase::Wait(_), Event::Completed) => Phase::AwaitIdle,
        (Phase::AwaitIdle, Event::Reply(reply)) => Phase::Finished(idle_outcome(reply@)),
        (Phase::SendHeader, Event::Failed(e)) => Phase::Finished(
            Err(DownloadError::TransferFailed(TransferStep::Header, e)),
        ),
        (Phase::SendPayload, Event::Failed(e)) => Phase::Finished(
            Err(DownloadError::TransferFailed(TransferStep::Payload, e)),
        ),
        (Phase::AwaitBusy, Event::Failed(e)) => Phase::Finished(
            Err(DownloadError::TransferFailed(TransferStep::StatusQuery, e)),
        ),
        (Phase::AwaitIdle, Event::Failed(e)) => Phase::Finished(
            Err(DownloadError::TransferFailed(TransferStep::StatusQuery, e)),
        ),
        _ => phase,
    }
}

/// An exchange whose writes and wait complete ends in success exactly when
/// the first status reply says busy without error and the second says idle;
/// otherwise it ends in the failure the first bad reply stands for.
pub proof fn lemma_exchange_outcome(busy_reply: Vec<u8>, idle_reply: Vec<u8>)
    ensures
        ({
            let p1 = next_phase(Phase::SendHeader, Event::Completed);
            let p2 = next_phase(p1, Event::Completed);
            let p3 = next_phase(p2, Event::Reply(busy_reply));
            let p4 = next_phase(p3, Event::Completed);
            let p5 = next_phase(p4, Event::Reply(idle_reply));
            p5 == match busy_outcome(busy_reply@) {
                Ok(_) => Phase::Finished(idle_outcome(idle_reply@)),
                Err(e) => Phase::Finished(Err(e)),
            }
        }),
{
}

/// The bytes a block puts on the wire after its header: a data block
/// obfuscated under the session key, a command as it is.
pub open spec fn wire_body(download_type: DownloadType, payload: Seq<u8>, key: Seq<u8>) -> Seq<u8> {
    match download_type {
        DownloadType::Data => obfuscated(key, payload),
        DownloadType::Command => payload,
    }
}

/// One download exchange in progress.
pub struct BlockExchange {
    pub phase: Phase,
    /// The request header.
    pub header: Vec<u8>,
    /// The bytes sent after the header.
    pub body: Vec<u8>,
}

impl BlockExchange {
    /// Starts the exchange that sends `payload`; a data payload is
    /// obfuscated under the 16-byte session `key`, which a command ignores.
    pub fn new(download_type: DownloadType, payload: &[u8], key: &[u8]) -> (r: BlockExchange)
        requires
            payload@.len() <= MAX_PAYLOAD,
            download_type == DownloadType::Data ==> key@.len() == 16,
        ensures
            r.phase == Phase::SendHeader,
            r.header@ == request_header(download_type, payload@),
            r.body@ == wire_body(download_type, payload@, key@),
    {
        let header = build_download_request(download_type, payload);
        let body = match download_type {
            DownloadType::Data => obfuscate(key, payload),
            DownloadType::Command => {
                let mut copy: Vec<u8> = Vec::with_capacity(payload.len());
                copy.extend_from_slice(payload);
                assert(copy@ =~= payload@);
                copy
            },
        };
        BlockExchange { phase: Phase::SendHeader, header, body }
    }

    /// The action the current phase asks for.
    pub fn action(&self) -> (r: Action)
        ensures
            self.phase == Phase::SendHeader ==> (r matches Action::Write(b) && b@ == self.header@),
            self.phase == Phase::SendPayload ==> (r matches Action::Write(b) && b@ == self.body@),
            self.phase == Phase::AwaitBusy || self.phase == Phase::AwaitIdle ==> r
                is QueryStatus,
            self.phase matches Phase::Wait(ms) ==> r == Action::Sleep(ms),
            self.phase matches Phase::Finished(res) ==> r == Action::Done(res),
    {
        match self.phase {
            Phase::SendHeader => {
                let b = self.header.clone();
                assert(b@ =~= self.header@);
                Action::Write(b)
            },
            Phase::SendPayload => {
                let b = self.body.clone();
                assert(b@ =~= self.body@);
                Action::Write(b)
            },
            Phase::AwaitBusy => Action::QueryStatus,
            Phase::Wait(ms) => Action::Sleep(ms),
            Phase::AwaitIdle => Action::QueryStatus,
            Phase::Finished(res) => Action::Done(res),
        }
    }

    /// Moves the exchange on by what the transport reports.
    pub fn advance(&mut self, event: Event)
        ensures
            final(self).phase == next_phase(old(self).phase, event),
            final(self).header == old(self).header,
            final(self).body == old(self).body,
    {
        let next = match (self.phase, event) {
            (Phase::SendHeader, Event::Completed) => Phase::SendPayload,
            (Phase::SendPayload, Event::Completed) => Phase::AwaitBusy,
            (Phase::AwaitBusy, Event::Reply(reply)) => match check_busy_reply(reply.as_slice()) {
                Ok(ms) => Phase::Wait(ms),
                Err(e) => Phase::Finished(Err(e)),
            },
            (Phase::Wait(_), Event::Completed) => Phase::AwaitIdle,
            (Phase::AwaitIdle, Event::Reply(reply)) => Phase::Finished(
                check_idle_reply(reply.as_slice()),
            ),
            (Phase::SendHeader, Event::Failed(e)) => Phase::Finished(
                Err(DownloadError::TransferFailed(TransferStep::Header, e)),
            ),
            (Phase::SendPayload, Event::Failed(e)) => Phase::Finished(
                Err(DownloadError::TransferFailed(TransferStep::Payload, e)),
            ),
            (Phase::AwaitBusy, Event::Failed(e)) => Phase::Finished(
                Err(DownloadError::TransferFailed(TransferStep::StatusQuery, e)),
            ),
            (Phase::AwaitIdle, Event::Failed(e)) => Phase::Finished(
                Err(DownloadError::TransferFailed(TransferStep::StatusQuery, e)),
            ),
            (p, _) => p,
        };
        self.phase = next;
    }
}

} // verus!
