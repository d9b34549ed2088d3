//! The flow timer: inter-arrival times of the frames of one capture session.

use vstd::prelude::*;

verus! {

/// Inter-arrival time, in nanoseconds, of a frame seen at `now` when the frame
/// before it was seen at `last` (`None`: no frame before it).
///
/// The first frame of a session has inter-arrival time 0. A clock that steps
/// backwards yields 0 as well, never a negative time.
pub open spec fn iat_after(last: Option<u64>, now: u64) -> u64 {
    match last {
        Some(prev) => if now >= prev {
            (now - prev) as u64
        } else {
            0
        },
        None => 0,
    }
}

/// Per-session timing state. Timestamps are nanoseconds on a monotonic clock.
pub struct CaptureState {
    last_packet_time: Option<u64>,
}

impl CaptureState {
    /// Arrival time of the latest frame seen, `None` before the first one.
    pub closed spec fn last_arrival(&self) -> Option<u64> {
        self.last_packet_time
    }

    /// A timer that has seen no frame yet.
    pub fn new() -> (state: Self)
        ensures
            state.last_arrival() is None,
    {
        Self { last_packet_time: None }
    }

    /// Records a frame seen at `now` and returns its inter-arrival time in
    /// nanoseconds.
    pub fn update_and_get_iat(&mut self, now: u64) -> (iat: u64)
        ensures
            iat == iat_after(old(self).last_arrival(), now),
            final(self).last_arrival() == Some(now),
        no_unwind
    {
        let iat: u64 = match self.last_packet_time {
            Some(prev) => if now >= prev {
                now - prev
            } else {
                0
            },
            None => 0,
        };
        self.last_packet_time = Some(now);
        iat
    }
}

/// The first frame of a session has inter-arrival time 0, and a frame that
/// arrives `gap` nanoseconds after the frame before it has inter-arrival
/// time `gap`.
pub proof fn lemma_iat_of_spaced_frames(first: u64, gap: u64)
    requires
        first + gap <= u64::MAX,
    ensures
        iat_after(None, first) == 0,
        iat_after(Some(first), (first + gap) as u64) == gap,
{
}

} // verus!
