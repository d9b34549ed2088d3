//! The capture pipeline: the decisions of the producer, one call per event.
//!
//! The loop that reads frames from the capture source and asks the model for
//! scores runs outside this library. It reports each event here — the session
//! starts, a frame arrives, a scored record is ready, the source ends — and
//! acts on what comes back.

use crate::capture::channel::{try_send, SendOutcome};
use crate::capture::sniffer::{iat_after, CaptureState};
use crate::capture::types::{PacketFiled, RawFrame, FEATURE_DIMENSION};
use crossbeam_channel::Sender;
use vstd::prelude::*;

verus! {

/// Number of bytes captured of each frame at most.
pub const SNAPLEN: u32 = 1000;

/// Where a pipeline stands in its life.
#[derive(Clone, Copy, Debug, PartialEq, Eq)]
pub enum PipelineState {
    /// Made, not started: no capture source is held.
    Idle,
    /// Started: frames are read from the capture source.
    Capturing,
    /// Ended for good: the capture source has been released.
    Stopped,
}

/// How the capture source is to be opened.
#[derive(Clone, Copy, Debug, PartialEq, Eq)]
pub struct CaptureConfig {
    /// Receive every frame on the link, not only those addressed to the host.
    pub promiscuous: bool,
    /// Number of bytes captured of each frame at most.
    pub snaplen: u32,
}

/// Why a pipeline did not start.
#[derive(Clone, Copy, Debug, PartialEq, Eq)]
pub enum StartError {
    /// The model expects feature vectors of another width than the extractor
    /// makes.
    DimensionMismatch,
    /// The pipeline has been started before.
    NotIdle,
}

/// Why a capture session ends.
#[derive(Clone, Copy, Debug, PartialEq, Eq)]
pub enum StopCause {
    /// The capture source has no more frames.
    EndOfStream,
    /// Someone asked the pipeline to stop.
    StopRequested,
    /// The capture source failed: the device disappeared, a permission was
    /// revoked.
    SourceFailure,
}

/// What the capture source says when it hands out no frame.
#[derive(Clone, Copy, Debug, PartialEq, Eq)]
pub enum SourceSignal {
    /// No frame arrived within the read timeout.
    TimeoutExpired,
    /// The source has no more frames.
    NoMorePackets,
    /// Any other error of the source.
    Failed,
}

/// Why a session ends on a signal of the capture source, if it does: a
/// timeout ends nothing.
pub open spec fn spec_stop_cause(signal: SourceSignal) -> Option<StopCause> {
    match signal {
        SourceSignal::TimeoutExpired => None,
        SourceSignal::NoMorePackets => Some(StopCause::EndOfStream),
        SourceSignal::Failed => Some(StopCause::SourceFailure),
    }
}

/// What the caller is to do when a session ends.
#[derive(Clone, Copy, Debug, PartialEq, Eq)]
pub struct StopReport {
    /// The capture source is held and must be released.
    pub release_source: bool,
    /// The session ended on a failure that is to be reported upward.
    pub fatal: bool,
}

/// What a pipeline is, as plain values.
pub struct PipelineView {
    pub state: PipelineState,
    /// Arrival time of the latest frame of the session.
    pub last_arrival: Option<u64>,
    /// Number of scored records offered to the delivery channel.
    pub processed: nat,
    /// Number of those that the channel did not take.
    pub dropped: nat,
}

impl PipelineView {
    /// A pipeline that has not been started.
    pub open spec fn idle() -> PipelineView {
        PipelineView { state: PipelineState::Idle, last_arrival: None, processed: 0, dropped: 0 }
    }

    /// Number of scored records that the delivery channel took.
    pub open spec fn delivered(self) -> int {
        self.processed - self.dropped
    }

    /// The result of a start: a session begins on an idle pipeline if the
    /// model's width is the extractor's.
    pub open spec fn start_result(self, model_dimension: usize) -> Result<
        CaptureConfig,
        StartError,
    > {
        if model_dimension != FEATURE_DIMENSION {
            Err(StartError::DimensionMismatch)
        } else if !(self.state is Idle) {
            Err(StartError::NotIdle)
        } else {
            Ok(CaptureConfig { promiscuous: true, snaplen: SNAPLEN })
        }
    }

    /// The pipeline after a start.
    pub open spec fn after_start(self, model_dimension: usize) -> PipelineView {
        if self.start_result(model_dimension) is Ok {
            PipelineView { state: PipelineState::Capturing, last_arrival: None, ..self }
        } else {
            self
        }
    }

    /// The record that a frame yields: none unless the pipeline is capturing
    /// and the frame parses; else the frame's record, with the time since the
    /// frame before it, parsed or not.
    pub open spec fn record_of(self, frame: RawFrame) -> Option<PacketFiled> {
        if self.state is Capturing {
            PacketFiled::spec_from_packet(
                frame.data@,
                frame.wire_len,
                iat_after(self.last_arrival, frame.arrival),
            )
        } else {
            None
        }
    }

    /// The pipeline after a frame that arrived at `arrival`: while capturing,
    /// every frame moves the timer, whether it parses or not.
    pub open spec fn after_frame(self, arrival: u64) -> PipelineView {
        if self.state is Capturing {
            PipelineView { last_arrival: Some(arrival), ..self }
        } else {
            self
        }
    }

    /// The pipeline after one scored record was offered to the delivery
    /// channel: the record counts as processed whatever became of it.
    pub open spec fn after_delivery(self, outcome: SendOutcome) -> PipelineView {
        PipelineView {
            processed: self.processed + 1,
            dropped: if outcome is Sent {
                self.dropped
            } else {
                self.dropped + 1
            },
            ..self
        }
    }

    /// What a stop reports: a capturing pipeline holds a source to release,
    /// and a failure of the source is fatal.
    pub open spec fn stop_report(self, cause: StopCause) -> StopReport {
        StopReport {
            release_source: self.state is Capturing,
            fatal: self.state is Capturing && cause is SourceFailure,
        }
    }

    /// The pipeline after a stop.
    pub open spec fn after_stop(self) -> PipelineView {
        if self.state is Capturing {
            PipelineView { state: PipelineState::Stopped, ..self }
        } else {
            self
        }
    }

    /// What a signal of the capture source brings about: nothing on a
    /// timeout, else the report of the stop it causes.
    pub open spec fn signal_report(self, signal: SourceSignal) -> Option<StopReport> {
        match spec_stop_cause(signal) {
            Some(cause) => Some(self.stop_report(cause)),
            None => None,
        }
    }

    /// The pipeline after a signal of the capture source.
    pub open spec fn after_signal(self, signal: SourceSignal) -> PipelineView {
        if spec_stop_cause(signal) is Some {
            self.after_stop()
        } else {
            self
        }
    }
}

/// The producer's state: where the session stands, its flow timer, and the
/// producer-side counters.
pub struct Pipeline {
    state: PipelineState,
    timer: CaptureState,
    processed: u64,
    dropped: u64,
}

impl Pipeline {
    #[verifier::type_invariant]
    spec fn well_formed(self) -> bool {
        self.dropped <= self.processed
    }

    /// The pipeline as plain values.
    pub closed spec fn view(&self) -> PipelineView {
        PipelineView {
            state: self.state,
            last_arrival: self.timer.last_arrival(),
            processed: self.processed as nat,
            dropped: self.dropped as nat,
        }
    }

    /// An idle pipeline.
    pub fn new() -> (pipeline: Self)
        ensures
            pipeline@ == PipelineView::idle(),
    {
        Pipeline {
            state: PipelineState::Idle,
            timer: CaptureState::new(),
            processed: 0,
            dropped: 0,
        }
    }

    /// Starts the session for a model that scores vectors of
    /// `model_dimension` columns. On success the caller opens the capture
    /// source as the returned configuration says.
    pub fn start(&mut self, model_dimension: usize) -> (result: Result<CaptureConfig, StartError>)
        ensures
            result == old(self)@.start_result(model_dimension),
            final(self)@ == old(self)@.after_start(model_dimension),
    {
        proof {
            use_type_invariant(&*self);
        }
        if model_dimension != FEATURE_DIMENSION {
            return Err(StartError::DimensionMismatch);
        }
        match self.state {
            PipelineState::Idle => {
                self.state = PipelineState::Capturing;
                self.timer = CaptureState::new();
                Ok(CaptureConfig { promiscuous: true, snaplen: SNAPLEN })
            },
            _ => Err(StartError::NotIdle),
        }
    }

    /// Takes one frame from the capture source. Returns the unscored record
    /// of the frame, or `None` for a frame that is to be skipped.
    pub fn observe(&mut self, frame: &RawFrame) -> (record: Option<PacketFiled>)
        ensures
            record == old(self)@.record_of(*frame),
            final(self)@ == old(self)@.after_frame(frame.arrival),
    {
        proof {
            use_type_invariant(&*self);
        }
        match self.state {
            PipelineState::Capturing => {
                let iat = self.timer.update_and_get_iat(frame.arrival);
                PacketFiled::from_packet(frame, iat)
            },
            _ => None,
        }
    }

    /// Counts one scored record that was offered to the delivery channel.
    pub fn record_delivery(&mut self, outcome: SendOutcome)
        requires
            old(self)@.processed < u64::MAX,
        ensures
            final(self)@ == old(self)@.after_delivery(outcome),
    {
        proof {
            use_type_invariant(&*self);
        }
        self.processed = self.processed + 1;
        match outcome {
            SendOutcome::Sent => {},
            _ => {
                self.dropped = self.dropped + 1;
            },
        }
    }

    /// Offers a scored record to the delivery channel without waiting for the
    /// consumer: a record that the channel does not take at once is dropped.
    /// Either way the record counts as processed.
    pub fn deliver(&mut self, tx: &Sender<PacketFiled>, record: PacketFiled) -> (outcome:
        SendOutcome)
        requires
            old(self)@.processed < u64::MAX,
        ensures
            final(self)@ == old(self)@.after_delivery(outcome),
    {
        let outcome = try_send(tx, record);
        self.record_delivery(outcome);
        outcome
    }

    /// Ends the session. A pipeline that is not capturing stays as it is.
    pub fn stop(&mut self, cause: StopCause) -> (report: StopReport)
        ensures
            report == old(self)@.stop_report(cause),
            final(self)@ == old(self)@.after_stop(),
    {
        proof {
            use_type_invariant(&*self);
        }
        match self.state {
            PipelineState::Capturing => {
                self.state = PipelineState::Stopped;
                let fatal: bool = match cause {
                    StopCause::SourceFailure => true,
                    _ => false,
                };
                StopReport { release_source: true, fatal }
            },
            _ => StopReport { release_source: false, fatal: false },
        }
    }

    /// Takes a signal of the capture source that came instead of a frame.
    /// Returns `None` where the caller is to go on reading, else the report
    /// of the stop that the signal caused.
    pub fn on_source_signal(&mut self, signal: SourceSignal) -> (report: Option<StopReport>)
        ensures
            report == old(self)@.signal_report(signal),
            final(self)@ == old(self)@.after_signal(signal),
    {
        match signal {
            SourceSignal::TimeoutExpired => None,
            SourceSignal::NoMorePackets => Some(self.stop(StopCause::EndOfStream)),
            SourceSignal::Failed => Some(self.stop(StopCause::SourceFailure)),
        }
    }

    /// Where the pipeline stands.
    pub fn state(&self) -> (state: PipelineState)
        ensures
            state == self@.state,
    {
        self.state
    }

    /// Number of scored records offered to the delivery channel so far.
    pub fn frames_processed(&self) -> (count: u64)
        ensures
            count == self@.processed,
    {
        self.processed
    }

    /// Number of scored records that the delivery channel took.
    pub fn records_delivered(&self) -> (count: u64)
        ensures
            count == self@.delivered(),
    {
        proof {
            use_type_invariant(self);
        }
        self.processed - self.dropped
    }

    /// Number of scored records that the delivery channel did not take.
    pub fn records_dropped(&self) -> (count: u64)
        ensures
            count == self@.dropped,
            count <= self@.processed,
    {
        proof {
            use_type_invariant(self);
        }
        self.dropped
    }
}

} // verus!
