//! The decisions of the scan loop: a state machine from the loop's state and
//! what the advertisement source reported to the next state and the action
//! that the caller performs (receive, fetch manufacturer data, forward).
use vstd::prelude::*;
use crate::address::DeviceAddress;
use crate::reading::{decode, decoded, DecodeError, SensorReading};

verus! {

/// An advertisement event, keyed by the device address it concerns.
#[derive(Debug, Clone, Copy)]
pub enum AdvertisementEvent {
    Discovered(DeviceAddress),
    Connected(DeviceAddress),
    Disconnected(DeviceAddress),
    /// The only kind after which manufacturer data is fetched.
    Updated(DeviceAddress),
    /// Any other event of the source (a device lost, for one).
    Other(DeviceAddress),
}

/// Why the scan ended in failure.
#[derive(Debug, Clone, Copy, PartialEq, Eq, Structural)]
pub enum ScanLoopError {
    /// The advertisement source closed its event stream.
    StreamClosed,
}

/// What the loop is fixed to before scanning begins.
#[derive(Debug, Clone, Copy)]
pub struct ScanConfig {
    /// The only device whose updates are decoded.
    pub target: DeviceAddress,
}

/// Where the loop stands.
#[derive(Debug, Clone, Copy)]
pub enum ScanState {
    /// Waiting for the source to confirm that scanning is active.
    Idle,
    /// Blocked on receiving the next event.
    Scanning,
    /// Waiting for the manufacturer data of the target device.
    Dispatching(DeviceAddress),
    /// Finished: `Ok` when cancelled, `Err` when the source failed.
    Stopped(Result<(), ScanLoopError>),
}

/// What the caller observed and hands to the loop.
#[derive(Debug, Clone)]
pub enum ScanInput {
    /// The source confirmed that scanning is active.
    ScanStarted,
    /// The blocking receive returned an event.
    Received(AdvertisementEvent),
    /// The blocking receive failed: the stream is closed.
    ReceiveFailed,
    /// Cancellation was requested.
    Cancelled,
    /// The manufacturer data fetched for the device, if it had any.
    ManufacturerData(Option<Vec<u8>>),
}

/// What the caller does next.
#[derive(Debug, Clone, Copy)]
pub enum ScanAction {
    /// Wait until scanning is confirmed active.
    AwaitScanStart,
    /// Block on receiving the next event.
    Receive,
    /// Fetch the current manufacturer data of this device.
    FetchManufacturerData(DeviceAddress),
    /// Hand this event to the sink, then receive the next one.
    ForwardEvent(AdvertisementEvent),
    /// Hand this decode result to the sink, then receive the next event.
    ForwardReading(Result<SensorReading, DecodeError>),
    /// End the loop with this outcome.
    Finish(Result<(), ScanLoopError>),
}

/// The next state and action of a loop configured by `config`, in `state`,
/// on `input`.
pub open spec fn next(config: ScanConfig, state: ScanState, input: ScanInput) -> (
    ScanState,
    ScanAction,
) {
    match state {
        ScanState::Stopped(end) => (state, ScanAction::Finish(end)),
        _ => match input {
            ScanInput::Cancelled => (ScanState::Stopped(Ok(())), ScanAction::Finish(Ok(()))),
            ScanInput::ReceiveFailed => (
                ScanState::Stopped(Err(ScanLoopError::StreamClosed)),
                ScanAction::Finish(Err(ScanLoopError::StreamClosed)),
            ),
            _ => match state {
                ScanState::Idle => match input {
                    ScanInput::ScanStarted => (ScanState::Scanning, ScanAction::Receive),
                    _ => (ScanState::Idle, ScanAction::AwaitScanStart),
                },
                ScanState::Scanning => match input {
                    ScanInput::Received(ev) => match ev {
                        AdvertisementEvent::Updated(a) => if a@ == config.target@ {
                            (ScanState::Dispatching(a), ScanAction::FetchManufacturerData(a))
                        } else {
                            (ScanState::Scanning, ScanAction::ForwardEvent(ev))
                        },
                        _ => (ScanState::Scanning, ScanAction::ForwardEvent(ev)),
                    },
                    _ => (ScanState::Scanning, ScanAction::Receive),
                },
                ScanState::Dispatching(a) => match input {
                    ScanInput::ManufacturerData(Some(d)) => (
                        ScanState::Scanning,
                        ScanAction::ForwardReading(decoded(d@)),
                    ),
                    ScanInput::ManufacturerData(None) => (
                        ScanState::Scanning,
                        ScanAction::ForwardReading(Err(DecodeError::SourceUnavailable)),
                    ),
                    _ => (state, ScanAction::FetchManufacturerData(a)),
                },
                ScanState::Stopped(end) => (state, ScanAction::Finish(end)),
            },
        },
    }
}

/// The scan loop's decisions, for one target device.
#[derive(Debug, Clone, Copy)]
pub struct ScanLoop {
    pub config: ScanConfig,
    pub state: ScanState,
}

impl ScanLoop {
    /// A loop that waits for scanning to start.
    pub fn new(config: ScanConfig) -> (r: ScanLoop)
        ensures
            r.config == config,
            r.state is Idle,
    {
        ScanLoop { config, state: ScanState::Idle }
    }

    /// Whether the loop has ended.
    pub fn is_stopped(&self) -> (r: bool)
        ensures
            r == self.state is Stopped,
    {
        match self.state {
            ScanState::Stopped(_) => true,
            _ => false,
        }
    }

    /// Takes in what the caller observed, moves to the next state and says
    /// what the caller does next.
    pub fn step(&mut self, input: ScanInput) -> (r: ScanAction)
        ensures
            final(self).config == old(self).config,
            (final(self).state, r) == next(old(self).config, old(self).state, input),
    {
        let (state, action) = match self.state {
            ScanState::Stopped(end) => (self.state, ScanAction::Finish(end)),
            _ => match input {
                ScanInput::Cancelled => (ScanState::Stopped(Ok(())), ScanAction::Finish(Ok(()))),
                ScanInput::ReceiveFailed => (
                    ScanState::Stopped(Err(ScanLoopError::StreamClosed)),
                    ScanAction::Finish(Err(ScanLoopError::StreamClosed)),
                ),
                ScanInput::ScanStarted => match self.state {
                    ScanState::Idle => (ScanState::Scanning, ScanAction::Receive),
                    ScanState::Dispatching(a) => (self.state, ScanAction::FetchManufacturerData(a)),
                    _ => (self.state, ScanAction::Receive),
                },
                ScanInput::Received(ev) => match self.state {
                    ScanState::Idle => (ScanState::Idle, ScanAction::AwaitScanStart),
                    ScanState::Dispatching(a) => (self.state, ScanAction::FetchManufacturerData(a)),
                    _ => match ev {
                        AdvertisementEvent::Updated(a) => if a.matches(&self.config.target) {
                            (ScanState::Dispatching(a), ScanAction::FetchManufacturerData(a))
                        } else {
                            (ScanState::Scanning, ScanAction::ForwardEvent(ev))
                        },
                        _ => (ScanState::Scanning, ScanAction::ForwardEvent(ev)),
                    },
                },
                ScanInput::ManufacturerData(data) => match self.state {
                    ScanState::Idle => (ScanState::Idle, ScanAction::AwaitScanStart),
                    ScanState::Dispatching(_) => match data {
                        Some(d) => (
                            ScanState::Scanning,
                            ScanAction::ForwardReading(decode(d.as_slice())),
                        ),
                        None => (
                            ScanState::Scanning,
                            ScanAction::ForwardReading(Err(DecodeError::SourceUnavailable)),
                        ),
                    },
                    _ => (self.state, ScanAction::Receive),
                },
            },
        };
        self.state = state;
        action
    }
}

/// Cancelling a loop that has not ended stops it at once, with no reading
/// forwarded: whatever it was waiting for, no payload is decoded.
pub proof fn lemma_cancel_stops(config: ScanConfig, state: ScanState)
    requires
        !(state is Stopped),
    ensures
        next(config, state, ScanInput::Cancelled) == (
            ScanState::Stopped(Ok(())),
            ScanAction::Finish(Ok(())),
        ),
{
}

/// A loop that has ended stays ended with the same outcome, whatever it is
/// handed.
pub proof fn lemma_stopped_absorbs(config: ScanConfig, end: Result<(), ScanLoopError>, input: ScanInput)
    ensures
        next(config, ScanState::Stopped(end), input) == (
            ScanState::Stopped(end),
            ScanAction::Finish(end),
        ),
{
}

/// A payload that fails to decode is forwarded as an error and the loop goes
/// on receiving: one bad advertisement does not end the scan.
pub proof fn lemma_decode_error_continues(config: ScanConfig, a: DeviceAddress, data: Vec<u8>)
    requires
        decoded(data@) is Err,
    ensures
        next(config, ScanState::Dispatching(a), ScanInput::ManufacturerData(Some(data))) == (
            ScanState::Scanning,
            ScanAction::ForwardReading(decoded(data@)),
        ),
{
}

} // verus!
