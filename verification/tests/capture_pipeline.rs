use crossbeam_channel::bounded;
use etherparse::PacketBuilder;
use net_sentinel::capture::channel::{delivery_channel, SendOutcome, CHANNEL_CAPACITY};
use net_sentinel::capture::parser::IpAddress;
use net_sentinel::capture::pipeline::{
    CaptureConfig, Pipeline, PipelineState, SourceSignal, StartError, StopCause, StopReport,
    SNAPLEN,
};
use net_sentinel::capture::types::{PacketFiled, RawFrame, FEATURE_DIMENSION};
use net_sentinel::ml::engine::Score;
use std::time::{Duration, Instant};

fn udp_frame(arrival: u64) -> RawFrame {
    let builder = PacketBuilder::ethernet2([1, 2, 3, 4, 5, 6], [7, 8, 9, 10, 11, 12])
        .ipv4([192, 168, 0, 10], [192, 168, 0, 1], 64)
        .udp(4000, 53);
    let payload = [0u8; 22];
    let mut data = Vec::with_capacity(builder.size(payload.len()));
    builder.write(&mut data, &payload).unwrap();
    let wire_len = data.len() as u32;
    RawFrame { data, wire_len, arrival }
}

fn malformed_frame(arrival: u64) -> RawFrame {
    RawFrame { data: vec![0xff; 9], wire_len: 9, arrival }
}

fn record(len: u32) -> PacketFiled {
    PacketFiled {
        len,
        score: Score::from_bits(0.5f64.to_bits()),
        protocol: 17,
        iat: 0,
        src_port: 1,
        dst_port: 2,
        src_ip: IpAddress::V4([1, 1, 1, 1]),
        dst_ip: IpAddress::V4([2, 2, 2, 2]),
    }
}

fn started() -> Pipeline {
    let mut pipeline = Pipeline::new();
    pipeline.start(FEATURE_DIMENSION).unwrap();
    pipeline
}

#[test]
fn new_pipeline_is_idle() {
    let pipeline = Pipeline::new();
    assert_eq!(pipeline.state(), PipelineState::Idle);
    assert_eq!(pipeline.frames_processed(), 0);
    assert_eq!(pipeline.records_dropped(), 0);
}

#[test]
fn start_opens_promiscuous_capture_with_fixed_snaplen() {
    let mut pipeline = Pipeline::new();
    assert_eq!(
        pipeline.start(5),
        Ok(CaptureConfig { promiscuous: true, snaplen: 1000 })
    );
    assert_eq!(SNAPLEN, 1000);
    assert_eq!(pipeline.state(), PipelineState::Capturing);
}

#[test]
fn start_refuses_a_model_of_another_width() {
    let mut pipeline = Pipeline::new();
    assert_eq!(pipeline.start(2), Err(StartError::DimensionMismatch));
    assert_eq!(pipeline.start(7), Err(StartError::DimensionMismatch));
    assert_eq!(pipeline.start(0), Err(StartError::DimensionMismatch));
    assert_eq!(pipeline.state(), PipelineState::Idle);
    assert!(pipeline.start(5).is_ok());
}

#[test]
fn start_twice_is_refused() {
    let mut pipeline = started();
    assert_eq!(pipeline.start(5), Err(StartError::NotIdle));
    assert_eq!(pipeline.state(), PipelineState::Capturing);
}

#[test]
fn stopped_pipeline_does_not_restart() {
    let mut pipeline = started();
    pipeline.stop(StopCause::EndOfStream);
    assert_eq!(pipeline.start(5), Err(StartError::NotIdle));
    assert_eq!(pipeline.state(), PipelineState::Stopped);
}

#[test]
fn dimension_is_checked_before_the_state() {
    let mut pipeline = started();
    assert_eq!(pipeline.start(4), Err(StartError::DimensionMismatch));
}

#[test]
fn idle_pipeline_ignores_frames() {
    let mut pipeline = Pipeline::new();
    assert_eq!(pipeline.observe(&udp_frame(10)), None);
    pipeline.start(5).unwrap();
    // The ignored frame did not start the timer.
    assert_eq!(pipeline.observe(&udp_frame(50)).unwrap().iat, 0);
}

#[test]
fn stopped_pipeline_ignores_frames() {
    let mut pipeline = started();
    pipeline.stop(StopCause::StopRequested);
    assert_eq!(pipeline.observe(&udp_frame(10)), None);
}

#[test]
fn observe_gives_unscored_records_with_iat() {
    let mut pipeline = started();
    let first = pipeline.observe(&udp_frame(1_000_000)).unwrap();
    assert_eq!(first.iat, 0);
    assert_eq!(first.len, 64);
    assert_eq!(first.protocol, 17);
    assert_eq!(first.src_port, 4000);
    assert_eq!(first.dst_port, 53);
    assert_eq!(first.src_ip, IpAddress::V4([192, 168, 0, 10]));
    assert_eq!(first.dst_ip, IpAddress::V4([192, 168, 0, 1]));
    assert_eq!(first.score, Score::zero());
    let second = pipeline.observe(&udp_frame(11_000_000)).unwrap();
    assert_eq!(second.iat, 10_000_000);
}

#[test]
fn skipped_frames_still_move_the_timer() {
    let mut pipeline = started();
    assert!(pipeline.observe(&udp_frame(0)).is_some());
    assert_eq!(pipeline.observe(&malformed_frame(7_000)), None);
    assert_eq!(pipeline.observe(&udp_frame(10_000)).unwrap().iat, 3_000);
}

#[test]
fn skipped_frames_are_not_counted() {
    let mut pipeline = started();
    assert_eq!(pipeline.observe(&malformed_frame(1)), None);
    assert_eq!(pipeline.observe(&malformed_frame(2)), None);
    assert_eq!(pipeline.frames_processed(), 0);
    assert_eq!(pipeline.records_dropped(), 0);
}

#[test]
fn restart_of_timer_at_session_start() {
    let mut pipeline = started();
    assert_eq!(pipeline.observe(&udp_frame(500)).unwrap().iat, 0);
}

#[test]
fn delivered_record_arrives_unchanged() {
    let mut pipeline = started();
    let (tx, rx) = delivery_channel();
    assert_eq!(pipeline.deliver(&tx, record(321)), SendOutcome::Sent);
    assert_eq!(rx.try_recv(), Ok(record(321)));
    assert_eq!(pipeline.frames_processed(), 1);
    assert_eq!(pipeline.records_dropped(), 0);
}

#[test]
fn records_arrive_in_order() {
    let mut pipeline = started();
    let (tx, rx) = delivery_channel();
    for len in 0..50u32 {
        assert_eq!(pipeline.deliver(&tx, record(len)), SendOutcome::Sent);
    }
    for len in 0..50u32 {
        assert_eq!(rx.try_recv().unwrap().len, len);
    }
    assert!(rx.try_recv().is_err());
}

#[test]
fn delivery_channel_holds_one_hundred_records() {
    let (tx, rx) = delivery_channel();
    assert_eq!(CHANNEL_CAPACITY, 100);
    assert_eq!(tx.capacity(), Some(100));
    assert_eq!(rx.capacity(), Some(100));
    assert!(tx.is_empty());
}

#[test]
fn full_channel_drops_the_record_and_counts_the_frame() {
    let mut pipeline = started();
    let (tx, rx) = delivery_channel();
    for len in 0..100u32 {
        assert_eq!(pipeline.deliver(&tx, record(len)), SendOutcome::Sent);
    }
    assert!(tx.is_full());
    assert_eq!(pipeline.deliver(&tx, record(100)), SendOutcome::Full);
    assert_eq!(pipeline.deliver(&tx, record(101)), SendOutcome::Full);
    assert_eq!(pipeline.frames_processed(), 102);
    assert_eq!(pipeline.records_dropped(), 2);
    assert_eq!(pipeline.records_delivered(), 100);
    // What was queued is still there, in order, and the dropped ones are not.
    for len in 0..100u32 {
        assert_eq!(rx.try_recv().unwrap().len, len);
    }
    assert!(rx.try_recv().is_err());
}

#[test]
fn producer_does_not_block_on_a_full_channel() {
    let mut pipeline = started();
    let (tx, _rx) = delivery_channel();
    let begin = Instant::now();
    for len in 0..10_000u32 {
        pipeline.deliver(&tx, record(len));
    }
    assert!(begin.elapsed() < Duration::from_secs(5));
    assert_eq!(pipeline.frames_processed(), 10_000);
    assert_eq!(pipeline.records_dropped(), 9_900);
}

#[test]
fn delivery_resumes_when_the_consumer_catches_up() {
    let mut pipeline = started();
    let (tx, rx) = bounded(2);
    assert_eq!(pipeline.deliver(&tx, record(1)), SendOutcome::Sent);
    assert_eq!(pipeline.deliver(&tx, record(2)), SendOutcome::Sent);
    assert_eq!(pipeline.deliver(&tx, record(3)), SendOutcome::Full);
    assert_eq!(rx.try_recv().unwrap().len, 1);
    assert_eq!(pipeline.deliver(&tx, record(4)), SendOutcome::Sent);
    assert_eq!(rx.try_recv().unwrap().len, 2);
    assert_eq!(rx.try_recv().unwrap().len, 4);
    assert_eq!(pipeline.frames_processed(), 4);
    assert_eq!(pipeline.records_dropped(), 1);
}

#[test]
fn disconnected_channel_drops_the_record() {
    let mut pipeline = started();
    let (tx, rx) = delivery_channel();
    drop(rx);
    assert_eq!(pipeline.deliver(&tx, record(1)), SendOutcome::Disconnected);
    assert_eq!(pipeline.frames_processed(), 1);
    assert_eq!(pipeline.records_dropped(), 1);
}

#[test]
fn record_delivery_counts_each_outcome() {
    let mut pipeline = started();
    pipeline.record_delivery(SendOutcome::Sent);
    assert_eq!((pipeline.frames_processed(), pipeline.records_dropped()), (1, 0));
    pipeline.record_delivery(SendOutcome::Full);
    assert_eq!((pipeline.frames_processed(), pipeline.records_dropped()), (2, 1));
    pipeline.record_delivery(SendOutcome::Disconnected);
    assert_eq!((pipeline.frames_processed(), pipeline.records_dropped()), (3, 2));
    pipeline.record_delivery(SendOutcome::Sent);
    assert_eq!((pipeline.frames_processed(), pipeline.records_dropped()), (4, 2));
}

#[test]
fn end_of_stream_stops_without_failure() {
    let mut pipeline = started();
    assert_eq!(
        pipeline.stop(StopCause::EndOfStream),
        StopReport { release_source: true, fatal: false }
    );
    assert_eq!(pipeline.state(), PipelineState::Stopped);
}

#[test]
fn stop_request_stops_without_failure() {
    let mut pipeline = started();
    assert_eq!(
        pipeline.stop(StopCause::StopRequested),
        StopReport { release_source: true, fatal: false }
    );
    assert_eq!(pipeline.state(), PipelineState::Stopped);
}

#[test]
fn source_failure_is_fatal() {
    let mut pipeline = started();
    assert_eq!(
        pipeline.stop(StopCause::SourceFailure),
        StopReport { release_source: true, fatal: true }
    );
    assert_eq!(pipeline.state(), PipelineState::Stopped);
}

#[test]
fn stop_of_an_idle_pipeline_changes_nothing() {
    let mut pipeline = Pipeline::new();
    assert_eq!(
        pipeline.stop(StopCause::SourceFailure),
        StopReport { release_source: false, fatal: false }
    );
    assert_eq!(pipeline.state(), PipelineState::Idle);
    assert!(pipeline.start(5).is_ok());
}

#[test]
fn second_stop_releases_nothing() {
    let mut pipeline = started();
    pipeline.stop(StopCause::EndOfStream);
    assert_eq!(
        pipeline.stop(StopCause::SourceFailure),
        StopReport { release_source: false, fatal: false }
    );
    assert_eq!(pipeline.state(), PipelineState::Stopped);
}

#[test]
fn counters_survive_the_stop() {
    let mut pipeline = started();
    pipeline.record_delivery(SendOutcome::Sent);
    pipeline.record_delivery(SendOutcome::Full);
    pipeline.stop(StopCause::EndOfStream);
    assert_eq!(pipeline.frames_processed(), 2);
    assert_eq!(pipeline.records_dropped(), 1);
}

#[test]
fn timeout_of_the_source_ends_nothing() {
    let mut pipeline = started();
    assert_eq!(pipeline.on_source_signal(SourceSignal::TimeoutExpired), None);
    assert_eq!(pipeline.state(), PipelineState::Capturing);
    assert!(pipeline.observe(&udp_frame(5)).is_some());
}

#[test]
fn end_of_packets_stops_the_session() {
    let mut pipeline = started();
    assert_eq!(
        pipeline.on_source_signal(SourceSignal::NoMorePackets),
        Some(StopReport { release_source: true, fatal: false })
    );
    assert_eq!(pipeline.state(), PipelineState::Stopped);
}

#[test]
fn failure_of_the_source_stops_the_session_fatally() {
    let mut pipeline = started();
    assert_eq!(
        pipeline.on_source_signal(SourceSignal::Failed),
        Some(StopReport { release_source: true, fatal: true })
    );
    assert_eq!(pipeline.state(), PipelineState::Stopped);
}

#[test]
fn signal_to_an_idle_pipeline_releases_nothing() {
    let mut pipeline = Pipeline::new();
    assert_eq!(
        pipeline.on_source_signal(SourceSignal::Failed),
        Some(StopReport { release_source: false, fatal: false })
    );
    assert_eq!(pipeline.state(), PipelineState::Idle);
}
