//! What a capture session does from end to end: the laws that tie the
//! pipeline's frames to the dashboard's counters.

use crate::capture::channel::SendOutcome;
use crate::capture::parser::has_ip_layer;
use crate::capture::pipeline::{PipelineView, SourceSignal};
use crate::capture::sniffer::iat_after;
use crate::capture::types::{PacketFiled, RawFrame};
use crate::tui::app::{lemma_tick_all_counts, AppView};
use vstd::prelude::*;

verus! {

/// The pipeline after a run of frames, taken in order.
pub open spec fn after_frames(pipeline: PipelineView, frames: Seq<RawFrame>) -> PipelineView
    decreases frames.len(),
{
    if frames.len() == 0 {
        pipeline
    } else {
        after_frames(pipeline, frames.drop_last()).after_frame(frames.last().arrival)
    }
}

/// The unscored records that the pipeline makes of a run of frames, in the
/// order in which the frames arrived.
pub open spec fn records_of(pipeline: PipelineView, frames: Seq<RawFrame>) -> Seq<PacketFiled>
    decreases frames.len(),
{
    if frames.len() == 0 {
        Seq::empty()
    } else {
        let earlier = records_of(pipeline, frames.drop_last());
        match after_frames(pipeline, frames.drop_last()).record_of(frames.last()) {
            Some(record) => earlier.push(record),
            None => earlier,
        }
    }
}

/// The pipeline after a run of deliveries with the given outcomes.
pub open spec fn after_deliveries(pipeline: PipelineView, outcomes: Seq<SendOutcome>) -> PipelineView
    decreases outcomes.len(),
{
    if outcomes.len() == 0 {
        pipeline
    } else {
        after_deliveries(pipeline, outcomes.drop_last()).after_delivery(outcomes.last())
    }
}

/// Number of deliveries of a run in which the channel did not take the
/// record.
pub open spec fn refused(outcomes: Seq<SendOutcome>) -> nat {
    outcomes.filter(|outcome: SendOutcome| !(outcome is Sent)).len()
}

/// Number of frames of a run that have an IP layer the slicer can read.
pub open spec fn parsed_frames(frames: Seq<RawFrame>) -> nat {
    frames.filter(|frame: RawFrame| has_ip_layer(frame.data@)).len()
}

/// Whether a batch holds the given records, each with some score attached.
pub open spec fn scored(batch: Seq<PacketFiled>, records: Seq<PacketFiled>) -> bool {
    &&& batch.len() == records.len()
    &&& forall|i: int|
        0 <= i < batch.len() ==> #[trigger] batch[i] == (PacketFiled {
            score: batch[i].score,
            ..records[i]
        })
}

/// A capturing pipeline keeps capturing through any run of frames, and its
/// timer stands at the arrival of the last frame of the run, whether that
/// frame parsed or not.
pub proof fn lemma_after_frames(pipeline: PipelineView, frames: Seq<RawFrame>)
    requires
        pipeline.state is Capturing,
    ensures
        after_frames(pipeline, frames) == (PipelineView {
            last_arrival: if frames.len() == 0 {
                pipeline.last_arrival
            } else {
                Some(frames.last().arrival)
            },
            ..pipeline
        }),
    decreases frames.len(),
{
    if frames.len() > 0 {
        lemma_after_frames(pipeline, frames.drop_last());
    }
}

/// A capturing pipeline makes one record of each frame with a readable IP
/// layer, and none of any other frame.
pub proof fn lemma_records_match_parsed_frames(pipeline: PipelineView, frames: Seq<RawFrame>)
    requires
        pipeline.state is Capturing,
    ensures
        records_of(pipeline, frames).len() == parsed_frames(frames),
        records_of(pipeline, frames).len() <= frames.len(),
    decreases frames.len(),
{
    reveal(Seq::filter);
    if frames.len() > 0 {
        lemma_records_match_parsed_frames(pipeline, frames.drop_last());
        lemma_after_frames(pipeline, frames.drop_last());
    }
}

/// A frame without a readable IP layer yields no record, and so leaves the
/// dashboard's packet count as it is: once every record of a run of frames
/// has been scored and taken in, the dashboard has counted exactly the frames
/// with a readable IP layer.
pub proof fn lemma_dashboard_counts_parsed_frames(
    pipeline: PipelineView,
    frames: Seq<RawFrame>,
    dashboard: AppView,
    batch: Seq<PacketFiled>,
)
    requires
        pipeline.state is Capturing,
        scored(batch, records_of(pipeline, frames)),
    ensures
        dashboard.tick_all(batch).total_packets == dashboard.total_packets + parsed_frames(frames),
        parsed_frames(frames) == 0 ==> dashboard.tick_all(batch) == dashboard,
{
    lemma_records_match_parsed_frames(pipeline, frames);
    lemma_tick_all_counts(dashboard, batch);
}

/// In a session every frame after the first carries the time since the frame
/// right before it, and the first frame carries 0: the record of the last
/// frame of a run, if that frame has one, holds that time.
pub proof fn lemma_record_carries_gap(pipeline: PipelineView, frames: Seq<RawFrame>)
    requires
        pipeline.state is Capturing,
        frames.len() > 0,
    ensures
        ({
            let before = if frames.len() == 1 {
                pipeline.last_arrival
            } else {
                Some(frames[frames.len() - 2].arrival)
            };
            after_frames(pipeline, frames.drop_last()).record_of(frames.last())
                == PacketFiled::spec_from_packet(
                frames.last().data@,
                frames.last().wire_len,
                iat_after(before, frames.last().arrival),
            )
        }),
{
    lemma_after_frames(pipeline, frames.drop_last());
}

/// The producer's frame count advances by one with every delivery, whatever
/// the channel does with the record: a full or abandoned channel adds to the
/// dropped records and holds nothing back.
pub proof fn lemma_every_delivery_counts(pipeline: PipelineView, outcomes: Seq<SendOutcome>)
    ensures
        after_deliveries(pipeline, outcomes) == (PipelineView {
            processed: pipeline.processed + outcomes.len(),
            dropped: pipeline.dropped + refused(outcomes),
            ..pipeline
        }),
        after_deliveries(pipeline, outcomes).delivered() == pipeline.delivered() + outcomes.len()
            - refused(outcomes),
    decreases outcomes.len(),
{
    reveal(Seq::filter);
    if outcomes.len() > 0 {
        lemma_every_delivery_counts(pipeline, outcomes.drop_last());
    }
}

/// A stopped pipeline does not start again: it refuses every start, yields no
/// record, and no frame, signal or stop changes it.
pub proof fn lemma_stopped_is_final(
    pipeline: PipelineView,
    model_dimension: usize,
    frame: RawFrame,
    signal: SourceSignal,
)
    requires
        pipeline.state is Stopped,
    ensures
        pipeline.start_result(model_dimension) is Err,
        pipeline.after_start(model_dimension) == pipeline,
        pipeline.record_of(frame) is None,
        pipeline.after_frame(frame.arrival) == pipeline,
        pipeline.after_signal(signal) == pipeline,
        pipeline.after_stop() == pipeline,
{
}

} // verus!
