//! The dashboard state: the latest scored records and the session's counters.

use crate::capture::channel::try_recv;
use crate::capture::parser::IpAddress;
use crate::capture::types::PacketFiled;
use crate::ml::engine::{is_anomaly, spec_is_anomaly, Score};
use crossbeam_channel::Receiver;
use vstd::prelude::*;

verus! {

/// Number of records that the dashboard keeps for display.
pub const RECENT_CAPACITY: usize = 20;

/// Time between two refreshes of the display, in milliseconds.
pub const TICK_MILLIS: u64 = 100;

/// The key that ends the display loop.
pub const QUIT_KEY: char = 'q';

/// The last `limit` items of a sequence: all of it when it has no more.
pub open spec fn latest<T>(items: Seq<T>, limit: nat) -> Seq<T> {
    if items.len() > limit {
        items.skip(items.len() - limit)
    } else {
        items
    }
}

/// Number of records of a batch that are anomalies.
pub open spec fn anomalies_in(packets: Seq<PacketFiled>) -> nat {
    packets.filter(|p: PacketFiled| spec_is_anomaly(p.score)).len()
}

/// One line of the live traffic list.
#[derive(Clone, Copy, Debug, PartialEq, Eq)]
pub struct PacketRow {
    pub protocol: u8,
    pub src_ip: IpAddress,
    pub dst_ip: IpAddress,
    pub len: u32,
    pub score: Score,
    /// Whether the line is shown as an alert.
    pub alert: bool,
}

/// The line that shows a record.
pub open spec fn row_of(packet: PacketFiled) -> PacketRow {
    PacketRow {
        protocol: packet.protocol,
        src_ip: packet.src_ip,
        dst_ip: packet.dst_ip,
        len: packet.len,
        score: packet.score,
        alert: spec_is_anomaly(packet.score),
    }
}

/// What a dashboard is, as plain values.
pub struct AppView {
    /// The records kept for display, oldest first.
    pub recent: Seq<PacketFiled>,
    pub total_packets: nat,
    pub total_anomalies: nat,
    pub pps: nat,
    pub should_quit: bool,
}

impl AppView {
    /// The dashboard at the start of a session.
    pub open spec fn initial() -> AppView {
        AppView {
            recent: Seq::empty(),
            total_packets: 0,
            total_anomalies: 0,
            pps: 0,
            should_quit: false,
        }
    }

    /// The dashboard after one more scored record: the record is counted,
    /// counted as an anomaly if it is one, and appended to the recent
    /// records, of which the oldest leaves when there are more than
    /// `RECENT_CAPACITY`.
    pub open spec fn tick(self, packet: PacketFiled) -> AppView {
        let grown = self.recent.push(packet);
        AppView {
            recent: if grown.len() > RECENT_CAPACITY {
                grown.drop_first()
            } else {
                grown
            },
            total_packets: self.total_packets + 1,
            total_anomalies: if spec_is_anomaly(packet.score) {
                self.total_anomalies + 1
            } else {
                self.total_anomalies
            },
            ..self
        }
    }

    /// The dashboard after a batch of scored records, taken in order.
    pub open spec fn tick_all(self, packets: Seq<PacketFiled>) -> AppView
        decreases packets.len(),
    {
        if packets.len() == 0 {
            self
        } else {
            self.tick_all(packets.drop_last()).tick(packets.last())
        }
    }

    /// The dashboard with another packet rate.
    pub open spec fn with_pps(self, rate: u64) -> AppView {
        AppView { pps: rate as nat, ..self }
    }

    /// The dashboard after a key press: the quit key asks the display loop to
    /// end, every other key is ignored.
    pub open spec fn key(self, key: char) -> AppView {
        AppView { should_quit: self.should_quit || key == QUIT_KEY, ..self }
    }

    /// The lines of the live traffic list, newest record first.
    pub open spec fn rows(self) -> Seq<PacketRow> {
        Seq::new(self.recent.len(), |i: int| row_of(self.recent[self.recent.len() - 1 - i]))
    }
}

/// The dashboard state of one session.
pub struct App {
    recent_packets: Vec<PacketFiled>,
    total_packets: u64,
    total_anomalies: u64,
    pps: u64,
    should_quit: bool,
}

impl App {
    #[verifier::type_invariant]
    spec fn well_formed(self) -> bool {
        &&& self.recent_packets@.len() <= RECENT_CAPACITY
        &&& self.total_anomalies <= self.total_packets
    }

    /// The dashboard as plain values.
    pub closed spec fn view(&self) -> AppView {
        AppView {
            recent: self.recent_packets@,
            total_packets: self.total_packets as nat,
            total_anomalies: self.total_anomalies as nat,
            pps: self.pps as nat,
            should_quit: self.should_quit,
        }
    }

    /// A dashboard that has seen no record.
    pub fn new() -> (app: Self)
        ensures
            app@ == AppView::initial(),
    {
        App {
            recent_packets: Vec::new(),
            total_packets: 0,
            total_anomalies: 0,
            pps: 0,
            should_quit: false,
        }
    }

    /// Takes in one scored record.
    pub fn on_tick(&mut self, packet: PacketFiled)
        requires
            old(self)@.total_packets < u64::MAX,
        ensures
            final(self)@ == old(self)@.tick(packet),
    {
        proof {
            use_type_invariant(&*self);
        }
        self.total_packets = self.total_packets + 1;
        if is_anomaly(packet.score) {
            self.total_anomalies = self.total_anomalies + 1;
        }
        let mut recent: Vec<PacketFiled> = Vec::new();
        core::mem::swap(&mut recent, &mut self.recent_packets);
        recent.push(packet);
        if recent.len() > RECENT_CAPACITY {
            recent.remove(0);
        }
        core::mem::swap(&mut recent, &mut self.recent_packets);
    }

    /// Takes in the records that are queued on the delivery channel, oldest
    /// first, without waiting for more: at most `limit` of them, and no more
    /// than the packet counter can still count. Returns how many were taken.
    pub fn drain(&mut self, rx: &Receiver<PacketFiled>, limit: usize) -> (taken: usize)
        ensures
            taken <= limit,
            final(self)@.total_packets == old(self)@.total_packets + taken,
            exists|batch: Seq<PacketFiled>|
                batch.len() == taken && final(self)@ == #[trigger] old(self)@.tick_all(batch),
    {
        let ghost mut batch: Seq<PacketFiled> = Seq::empty();
        let mut taken: usize = 0;
        while taken < limit && self.total_packets < u64::MAX
            invariant
                taken <= limit,
                batch.len() == taken,
                self@ == old(self)@.tick_all(batch),
            decreases limit - taken,
        {
            match try_recv(rx) {
                Some(packet) => {
                    proof {
                        lemma_tick_all_push(old(self)@, batch, packet);
                        batch = batch.push(packet);
                    }
                    self.on_tick(packet);
                    taken = taken + 1;
                },
                None => {
                    break ;
                },
            }
        }
        proof {
            lemma_tick_all_counts(old(self)@, batch);
        }
        taken
    }

    /// The lines of the live traffic list, newest record first.
    pub fn rows(&self) -> (rows: Vec<PacketRow>)
        ensures
            rows@ == self@.rows(),
    {
        let mut rows: Vec<PacketRow> = Vec::new();
        let mut i: usize = self.recent_packets.len();
        while i > 0
            invariant
                i <= self.recent_packets@.len(),
                rows@.len() == self.recent_packets@.len() - i,
                forall|k: int|
                    0 <= k < rows@.len() ==> rows@[k] == row_of(
                        self.recent_packets@[self.recent_packets@.len() - 1 - k],
                    ),
            decreases i,
        {
            i = i - 1;
            let packet = &self.recent_packets[i];
            rows.push(
                PacketRow {
                    protocol: packet.protocol,
                    src_ip: packet.src_ip,
                    dst_ip: packet.dst_ip,
                    len: packet.len,
                    score: packet.score,
                    alert: is_anomaly(packet.score),
                },
            );
        }
        assert(rows@ =~= self@.rows());
        rows
    }

    /// Takes in a key press.
    pub fn on_key(&mut self, key: char)
        ensures
            final(self)@ == old(self)@.key(key),
    {
        proof {
            use_type_invariant(&*self);
        }
        if key == QUIT_KEY {
            self.should_quit = true;
        }
    }

    /// Sets the packet rate that the display shows, in packets per second.
    pub fn set_pps(&mut self, rate: u64)
        ensures
            final(self)@ == old(self)@.with_pps(rate),
    {
        proof {
            use_type_invariant(&*self);
        }
        self.pps = rate;
    }

    /// The records kept for display, oldest first: never more than
    /// `RECENT_CAPACITY`.
    pub fn recent_packets(&self) -> (recent: &Vec<PacketFiled>)
        ensures
            recent@ == self@.recent,
            recent@.len() <= RECENT_CAPACITY,
    {
        proof {
            use_type_invariant(self);
        }
        &self.recent_packets
    }

    /// Number of records taken in so far.
    pub fn total_packets(&self) -> (count: u64)
        ensures
            count == self@.total_packets,
    {
        self.total_packets
    }

    /// Number of anomalies among the records taken in so far.
    pub fn total_anomalies(&self) -> (count: u64)
        ensures
            count == self@.total_anomalies,
            count <= self@.total_packets,
    {
        proof {
            use_type_invariant(self);
        }
        self.total_anomalies
    }

    /// Packets per second, as last set.
    pub fn pps(&self) -> (rate: u64)
        ensures
            rate == self@.pps,
    {
        self.pps
    }

    /// Whether the display loop has been asked to end.
    pub fn should_quit(&self) -> (quit: bool)
        ensures
            quit == self@.should_quit,
    {
        self.should_quit
    }
}

/// Taking in a batch and then one more record is taking in the batch with
/// that record appended.
pub proof fn lemma_tick_all_push(view: AppView, batch: Seq<PacketFiled>, packet: PacketFiled)
    ensures
        view.tick_all(batch.push(packet)) == view.tick_all(batch).tick(packet),
{
    assert(batch.push(packet).drop_last() =~= batch);
}

/// Every record taken in is counted once, the anomalies among them once more,
/// and nothing else about the dashboard changes but the recent records.
pub proof fn lemma_tick_all_counts(view: AppView, batch: Seq<PacketFiled>)
    ensures
        view.tick_all(batch).total_packets == view.total_packets + batch.len(),
        view.tick_all(batch).total_anomalies == view.total_anomalies + anomalies_in(batch),
        view.tick_all(batch).pps == view.pps,
        view.tick_all(batch).should_quit == view.should_quit,
    decreases batch.len(),
{
    reveal(Seq::filter);
    if batch.len() > 0 {
        lemma_tick_all_counts(view, batch.drop_last());
    }
}

/// The dashboard keeps the latest records and no others: after a batch, the
/// recent records are the last `RECENT_CAPACITY` of those it held followed by
/// the batch, in arrival order.
pub proof fn lemma_recent_holds_latest(view: AppView, batch: Seq<PacketFiled>)
    requires
        view.recent.len() <= RECENT_CAPACITY,
    ensures
        view.tick_all(batch).recent == latest(view.recent + batch, RECENT_CAPACITY as nat),
        view.tick_all(batch).recent.len() <= RECENT_CAPACITY,
    decreases batch.len(),
{
    if batch.len() == 0 {
        assert(view.recent + batch =~= view.recent);
    } else {
        let front = batch.drop_last();
        lemma_recent_holds_latest(view, front);
        assert(view.recent + batch =~= (view.recent + front).push(batch.last()));
        assert(view.tick_all(batch).recent =~= latest(
            view.recent + batch,
            RECENT_CAPACITY as nat,
        ));
    }
}

/// A session's dashboard never shows more than `RECENT_CAPACITY` records, and
/// it shows exactly the latest ones: whatever records a new dashboard takes
/// in, the last `RECENT_CAPACITY` of them stay, oldest first.
pub proof fn lemma_session_recent(batch: Seq<PacketFiled>)
    ensures
        AppView::initial().tick_all(batch).recent == latest(batch, RECENT_CAPACITY as nat),
        AppView::initial().tick_all(batch).recent.len() <= RECENT_CAPACITY,
        AppView::initial().tick_all(batch).total_packets == batch.len(),
{
    lemma_recent_holds_latest(AppView::initial(), batch);
    lemma_tick_all_counts(AppView::initial(), batch);
    assert(AppView::initial().recent + batch =~= batch);
}

} // verus!
