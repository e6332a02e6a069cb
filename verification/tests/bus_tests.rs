use can_viewer::bus::{bitrate, p_can_bitrate, Baudrate, BusLoad, BusLoadTracker, BusState};

#[test]
fn ten_full_frames_in_a_second_at_500k() {
    let mut tracker = BusLoadTracker::new(5_000);
    for _ in 0..10 {
        tracker.observe(8);
    }
    assert_eq!(tracker.total_bits(), 10 * (8 + 6) * 8);
    let load = tracker.poll(6_000, 500_000);
    assert_eq!(load, BusLoad { bits: 1120, bitrate: 500_000 });

    let percent = load.bits as f64 / load.bitrate as f64 * 100.0;
    let formula = (10.0 * (8.0 + 6.0) * 8.0) / 500_000.0 * 100.0;
    assert!((percent - formula).abs() < 1e-12);
    assert!((percent - 0.224).abs() < 1e-9);
    assert_eq!(load.percent_times(1000), Some(224));
    assert_eq!(load.percent_times(1), Some(0));
    assert!(load.shows());
}

#[test]
fn load_is_reported_at_window_ends_only() {
    let mut tracker = BusLoadTracker::new(1_000);
    tracker.observe(8);
    assert_eq!(tracker.poll(1_500, 125_000), BusLoad { bits: 0, bitrate: 125_000 });
    assert_eq!(tracker.poll(1_999, 125_000).bits, 0);
    assert_eq!(tracker.total_bits(), 112);
    tracker.observe(0);
    assert_eq!(tracker.total_bits(), 112 + 48);

    let load = tracker.poll(2_000, 125_000);
    assert_eq!(load.bits, 160);
    assert_eq!(tracker.total_bits(), 0);
    assert_eq!(tracker.window_start_ms(), 2_000);

    assert_eq!(tracker.poll(2_999, 125_000).bits, 0);
    assert_eq!(tracker.poll(3_500, 125_000).bits, 0);
    assert_eq!(tracker.window_start_ms(), 3_500);
}

#[test]
fn a_clock_that_runs_backwards_ends_no_window() {
    let mut tracker = BusLoadTracker::new(10_000);
    tracker.observe(4);
    assert_eq!(tracker.poll(0, 500_000).bits, 0);
    assert_eq!(tracker.total_bits(), 80);
    assert_eq!(tracker.window_start_ms(), 10_000);
}

#[test]
fn a_silent_window_shows_nothing() {
    let mut tracker = BusLoadTracker::new(0);
    let load = tracker.poll(1_000, 500_000);
    assert_eq!(load.bits, 0);
    assert!(!load.shows());
    assert_eq!(load.percent_times(1), Some(0));
}

#[test]
fn percent_of_a_load() {
    assert_eq!(BusLoad { bits: 250_000, bitrate: 500_000 }.percent_times(1), Some(50));
    assert_eq!(BusLoad { bits: 500_000, bitrate: 500_000 }.percent_times(1), Some(100));
    assert_eq!(BusLoad { bits: 1, bitrate: 3 }.percent_times(1), Some(33));
    assert_eq!(BusLoad { bits: 1, bitrate: 3 }.percent_times(100), Some(3333));
    assert_eq!(BusLoad { bits: 7, bitrate: 0 }.percent_times(1), None);
    assert!(!BusLoad { bits: 7, bitrate: 0 }.shows());
    assert_eq!(
        BusLoad { bits: u64::MAX, bitrate: 1 }.percent_times(u32::MAX),
        Some(u64::MAX as u128 * 100 * u32::MAX as u128)
    );
}

#[test]
fn room_for_one_more_frame() {
    let tracker = BusLoadTracker::new(0);
    assert!(tracker.has_room(8));
    assert!(tracker.has_room(usize::MAX / 16));
    assert!(!tracker.has_room(usize::MAX));
}

#[test]
fn every_label_of_the_selection() {
    let table = [
        ("1 Mbit/s", 1_000_000, Baudrate::Baud1M),
        ("800 kbit/s", 800_000, Baudrate::Baud800K),
        ("500 kbit/s", 500_000, Baudrate::Baud500K),
        ("250 kbit/s", 250_000, Baudrate::Baud250K),
        ("125 kbit/s", 125_000, Baudrate::Baud125K),
        ("100 kbit/s", 100_000, Baudrate::Baud100K),
        ("95.238 kbit/s", 95_238, Baudrate::Baud95K),
        ("83.333 kbit/s", 83_333, Baudrate::Baud83),
        ("50 kbit/s", 50_000, Baudrate::Baud50K),
        ("47.619 kbit/s", 47_619, Baudrate::Baud47K),
        ("33.333 kbit/s", 33_333, Baudrate::Baud33K),
        ("20 kbit/s", 20_000, Baudrate::Baud20K),
        ("10 kbit/s", 10_000, Baudrate::Baud10K),
        ("5 kbit/s", 5_000, Baudrate::Baud5K),
    ];
    for (label, rate, named) in table {
        assert_eq!(bitrate(label), Some(rate));
        assert_eq!(p_can_bitrate(label), Some(named));
        assert_eq!(named.bits_per_second(), rate);
    }
}

#[test]
fn other_labels_name_no_bit_rate() {
    for label in ["", "500", "500 kbit/s ", "500 Kbit/s", "1 mbit/s", "2 Mbit/s"] {
        assert_eq!(bitrate(label), None);
        assert_eq!(p_can_bitrate(label), None);
    }
}

#[test]
fn state_labels() {
    assert_eq!(BusState::ErrorActive.label(), "ERR_ACTIVE");
    assert_eq!(BusState::ErrorWarning.label(), "ERR_WARNING");
    assert_eq!(BusState::ErrorPassive.label(), "ERR_PASSIVE");
    assert_eq!(BusState::BusOff.label(), "BUSOFF");
    assert_eq!(BusState::Stopped.label(), "STOPPED");
    assert_eq!(BusState::Sleeping.label(), "SLEEPING");
    assert_eq!(BusState::Unknown.label(), "UNKNOWN");
}
