use net_sentinel::capture::channel::delivery_channel;
use net_sentinel::capture::parser::IpAddress;
use net_sentinel::capture::types::PacketFiled;
use net_sentinel::ml::engine::Score;
use net_sentinel::tui::app::{App, PacketRow, QUIT_KEY, RECENT_CAPACITY, TICK_MILLIS};

fn record(len: u32, score: f64) -> PacketFiled {
    PacketFiled {
        len,
        score: Score::from_bits(score.to_bits()),
        protocol: 6,
        iat: 1_000 * len as u64,
        src_port: 1000,
        dst_port: 80,
        src_ip: IpAddress::V4([10, 0, 0, 1]),
        dst_ip: IpAddress::V4([10, 0, 0, 2]),
    }
}

fn lengths(app: &App) -> Vec<u32> {
    app.recent_packets().iter().map(|p| p.len).collect()
}

#[test]
fn new_dashboard_is_empty() {
    let app = App::new();
    assert!(app.recent_packets().is_empty());
    assert_eq!(app.total_packets(), 0);
    assert_eq!(app.total_anomalies(), 0);
    assert_eq!(app.pps(), 0);
    assert!(!app.should_quit());
}

#[test]
fn tick_counts_and_keeps_the_record() {
    let mut app = App::new();
    app.on_tick(record(64, 0.3));
    assert_eq!(app.total_packets(), 1);
    assert_eq!(app.total_anomalies(), 0);
    assert_eq!(app.recent_packets().as_slice(), &[record(64, 0.3)]);
}

#[test]
fn tick_counts_anomalies_above_the_threshold_only() {
    let mut app = App::new();
    app.on_tick(record(1, 0.59));
    app.on_tick(record(2, 0.6));
    assert_eq!(app.total_anomalies(), 0);
    app.on_tick(record(3, 0.600_000_000_000_000_1));
    assert_eq!(app.total_anomalies(), 1);
    app.on_tick(record(4, 0.95));
    app.on_tick(record(5, 1.0));
    app.on_tick(record(6, 0.0));
    assert_eq!(app.total_anomalies(), 3);
    assert_eq!(app.total_packets(), 6);
}

#[test]
fn recent_fills_up_to_capacity() {
    let mut app = App::new();
    for len in 0..20u32 {
        app.on_tick(record(len, 0.1));
        assert_eq!(app.recent_packets().len() as u32, len + 1);
    }
    assert_eq!(RECENT_CAPACITY, 20);
    assert_eq!(lengths(&app), (0..20).collect::<Vec<u32>>());
}

#[test]
fn recent_keeps_the_last_twenty_of_twenty_five() {
    let mut app = App::new();
    for len in 0..25u32 {
        app.on_tick(record(len, 0.1));
        assert!(app.recent_packets().len() <= 20);
    }
    assert_eq!(app.recent_packets().len(), 20);
    assert_eq!(lengths(&app), (5..25).collect::<Vec<u32>>());
    assert_eq!(app.total_packets(), 25);
}

#[test]
fn twenty_first_record_evicts_the_oldest() {
    let mut app = App::new();
    for len in 0..21u32 {
        app.on_tick(record(len, 0.1));
    }
    assert_eq!(lengths(&app), (1..21).collect::<Vec<u32>>());
}

#[test]
fn eviction_does_not_touch_the_counters() {
    let mut app = App::new();
    for len in 0..100u32 {
        app.on_tick(record(len, if len % 4 == 0 { 0.9 } else { 0.2 }));
    }
    assert_eq!(app.total_packets(), 100);
    assert_eq!(app.total_anomalies(), 25);
    assert_eq!(lengths(&app), (80..100).collect::<Vec<u32>>());
}

#[test]
fn drain_takes_all_queued_records_in_order() {
    let (tx, rx) = delivery_channel();
    for len in 0..7u32 {
        tx.try_send(record(len, 0.7)).unwrap();
    }
    let mut app = App::new();
    assert_eq!(app.drain(&rx, 100), 7);
    assert_eq!(app.total_packets(), 7);
    assert_eq!(app.total_anomalies(), 7);
    assert_eq!(lengths(&app), (0..7).collect::<Vec<u32>>());
    assert!(rx.is_empty());
}

#[test]
fn drain_of_an_empty_channel_changes_nothing() {
    let (_tx, rx) = delivery_channel();
    let mut app = App::new();
    app.on_tick(record(1, 0.9));
    assert_eq!(app.drain(&rx, 100), 0);
    assert_eq!(app.total_packets(), 1);
    assert_eq!(app.total_anomalies(), 1);
    assert_eq!(lengths(&app), vec![1]);
}

#[test]
fn drain_stops_at_its_limit() {
    let (tx, rx) = delivery_channel();
    for len in 0..10u32 {
        tx.try_send(record(len, 0.1)).unwrap();
    }
    let mut app = App::new();
    assert_eq!(app.drain(&rx, 4), 4);
    assert_eq!(lengths(&app), vec![0, 1, 2, 3]);
    assert_eq!(rx.len(), 6);
    assert_eq!(app.drain(&rx, 0), 0);
    assert_eq!(app.drain(&rx, 100), 6);
    assert_eq!(app.total_packets(), 10);
}

#[test]
fn drain_of_a_full_channel_keeps_the_last_twenty() {
    let (tx, rx) = delivery_channel();
    for len in 0..100u32 {
        tx.try_send(record(len, 0.1)).unwrap();
    }
    let mut app = App::new();
    assert_eq!(app.drain(&rx, 100), 100);
    assert_eq!(app.total_packets(), 100);
    assert_eq!(lengths(&app), (80..100).collect::<Vec<u32>>());
}

#[test]
fn drain_after_the_producer_left_takes_what_is_queued() {
    let (tx, rx) = delivery_channel();
    tx.try_send(record(1, 0.1)).unwrap();
    tx.try_send(record(2, 0.1)).unwrap();
    drop(tx);
    let mut app = App::new();
    assert_eq!(app.drain(&rx, 100), 2);
    assert_eq!(app.drain(&rx, 100), 0);
    assert_eq!(lengths(&app), vec![1, 2]);
}

#[test]
fn rows_are_newest_first_with_alerts() {
    let mut app = App::new();
    app.on_tick(record(1, 0.2));
    app.on_tick(record(2, 0.8));
    app.on_tick(record(3, 0.6));
    let rows = app.rows();
    assert_eq!(rows.len(), 3);
    assert_eq!(
        rows[0],
        PacketRow {
            protocol: 6,
            src_ip: IpAddress::V4([10, 0, 0, 1]),
            dst_ip: IpAddress::V4([10, 0, 0, 2]),
            len: 3,
            score: Score::from_bits(0.6f64.to_bits()),
            alert: false,
        }
    );
    assert_eq!((rows[1].len, rows[1].alert), (2, true));
    assert_eq!((rows[2].len, rows[2].alert), (1, false));
}

#[test]
fn rows_of_a_new_dashboard_are_empty() {
    assert!(App::new().rows().is_empty());
}

#[test]
fn rows_never_exceed_capacity() {
    let mut app = App::new();
    for len in 0..30u32 {
        app.on_tick(record(len, 0.1));
    }
    let rows = app.rows();
    assert_eq!(rows.len(), 20);
    assert_eq!(rows[0].len, 29);
    assert_eq!(rows[19].len, 10);
}

#[test]
fn quit_key_sets_the_flag_only() {
    let mut app = App::new();
    app.on_tick(record(1, 0.9));
    app.on_key('q');
    assert!(app.should_quit());
    assert_eq!(app.total_packets(), 1);
    assert_eq!(app.total_anomalies(), 1);
    assert_eq!(lengths(&app), vec![1]);
}

#[test]
fn other_keys_are_ignored() {
    let mut app = App::new();
    for key in ['Q', 'x', ' ', '\n', '0'] {
        app.on_key(key);
        assert!(!app.should_quit());
    }
}

#[test]
fn quit_request_stays() {
    let mut app = App::new();
    app.on_key('q');
    app.on_key('x');
    assert!(app.should_quit());
}

#[test]
fn display_refreshes_ten_times_a_second() {
    assert_eq!(TICK_MILLIS, 100);
    assert_eq!(QUIT_KEY, 'q');
}

#[test]
fn packet_rate_is_what_was_set() {
    let mut app = App::new();
    app.on_tick(record(1, 0.9));
    app.set_pps(1234);
    assert_eq!(app.pps(), 1234);
    assert_eq!(app.total_packets(), 1);
    assert_eq!(lengths(&app), vec![1]);
    assert!(!app.should_quit());
}
