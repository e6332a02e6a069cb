use can_viewer::database::{
    ByteOrder, MessageDefinition, Multiplexing, SignalDatabase, SignalDefinition, SignalLayout,
    ValueType,
};
use can_viewer::telemetry::{
    find_decoded, DecodedSignal, RowColor, TableState, TelemetryRecord, TelemetryTable,
};

fn signal(name: &str, scale: &str, unit: &str) -> SignalDefinition {
    SignalDefinition {
        name: name.to_string(),
        layout: SignalLayout {
            start_bit: 0,
            size: 8,
            byte_order: ByteOrder::LittleEndian,
            value_type: ValueType::Unsigned,
            multiplexing: Multiplexing::Plain,
        },
        scale_bits: 1.0f64.to_bits(),
        offset_bits: 0.0f64.to_bits(),
        scale: scale.to_string(),
        unit: unit.to_string(),
    }
}

fn database() -> SignalDatabase {
    SignalDatabase::from_messages(vec![
        MessageDefinition::new(
            0x100,
            "Engine".to_string(),
            vec![signal("Speed", "0.1", "km/h"), signal("Temp", "1", "C")],
        ),
        MessageDefinition::new(0x8000_0200, "Gearbox".to_string(), vec![signal("Gear", "1", "")]),
        MessageDefinition::new(0x300, "Empty".to_string(), vec![]),
    ])
    .unwrap()
}

fn other_database() -> SignalDatabase {
    SignalDatabase::from_messages(vec![MessageDefinition::new(
        0x100,
        "Motor".to_string(),
        vec![signal("Rpm", "0.25", "1/min"), signal("Temp", "0.5", "K")],
    )])
    .unwrap()
}

fn decoded(pairs: &[(&str, &str)]) -> Vec<DecodedSignal> {
    pairs
        .iter()
        .map(|(name, value)| DecodedSignal { name: name.to_string(), value: value.to_string() })
        .collect()
}

fn values(record: &TelemetryRecord) -> Vec<(&str, &str)> {
    record.signals.iter().map(|s| (s.name.as_str(), s.value.as_str())).collect()
}

#[test]
fn a_new_table_is_empty() {
    let table = TelemetryTable::new();
    assert!(table.rows().is_empty());
    assert_eq!(table.state(), TableState::Empty);
}

#[test]
fn loading_gives_one_fresh_record_for_each_message() {
    let mut table = TelemetryTable::new();
    table.load_database(&database());
    assert_eq!(table.state(), TableState::Loaded);

    let rows = table.rows();
    assert_eq!(rows.len(), 3);
    assert_eq!(rows[0].id, "00000100");
    assert_eq!(rows[1].id, "00000200");
    assert_eq!(rows[2].id, "00000300");
    assert_eq!(rows[0].name, "Engine");
    assert_eq!(rows[0].color, RowColor::Even);
    assert_eq!(rows[1].color, RowColor::Odd);
    assert_eq!(rows[2].color, RowColor::Even);
    for row in rows {
        assert_eq!(row.counter, 0);
        assert_eq!(row.raw_hex, "");
        assert_eq!(row.cycle_time_micros, 0);
        assert_eq!(row.last_update_micros, 0);
    }
    assert_eq!(values(&rows[0]), vec![("Speed", "default"), ("Temp", "default")]);
    assert_eq!(rows[0].signals[0].scale, "0.1");
    assert_eq!(rows[0].signals[0].unit, "km/h");
    assert_eq!(rows[0].signals[1].scale, "1");
    assert_eq!(rows[0].signals[1].unit, "C");
    assert!(rows[2].signals.is_empty());
}

#[test]
fn fresh_record_of_a_message() {
    let message =
        MessageDefinition::new(0x8000_0ABC, "M".to_string(), vec![signal("S", "2", "V")]);
    let record = TelemetryRecord::fresh(&message, 5);
    assert_eq!(record.id, "00000ABC");
    assert_eq!(record.color, RowColor::Odd);
    assert_eq!(values(&record), vec![("S", "default")]);
}

#[test]
fn a_frame_is_merged_into_its_row() {
    let mut table = TelemetryTable::new();
    table.load_database(&database());

    let updated = table.on_frame(
        0x100,
        &decoded(&[("Speed", "12.5"), ("Temp", "-3")]),
        "7D 25".to_string(),
        1_000_000,
    );
    assert!(updated);
    assert_eq!(table.state(), TableState::Live);

    let row = &table.rows()[0];
    assert_eq!(values(row), vec![("Speed", "12.5"), ("Temp", "-3")]);
    assert_eq!(row.counter, 1);
    assert_eq!(row.raw_hex, "7D 25");
    assert_eq!(row.last_update_micros, 1_000_000);
    assert_eq!(row.cycle_time_micros, 1_000_000);
    assert_eq!(row.color, RowColor::Even);
    assert_eq!(row.id, "00000100");
    assert_eq!(row.name, "Engine");
    assert_eq!(row.signals[0].scale, "0.1");
    assert_eq!(row.signals[0].unit, "km/h");

    assert_eq!(table.rows()[1].counter, 0);
    assert_eq!(values(&table.rows()[1]), vec![("Gear", "default")]);
}

#[test]
fn signals_without_a_decoded_value_keep_theirs() {
    let mut table = TelemetryTable::new();
    table.load_database(&database());
    table.on_frame(0x100, &decoded(&[("Speed", "1"), ("Temp", "2")]), "01 02".to_string(), 10);
    table.on_frame(0x100, &decoded(&[("Temp", "3"), ("Unknown", "9")]), "03".to_string(), 20);

    let row = &table.rows()[0];
    assert_eq!(values(row), vec![("Speed", "1"), ("Temp", "3")]);
    assert_eq!(row.counter, 2);
    assert_eq!(row.raw_hex, "03");

    table.on_frame(0x100, &decoded(&[]), "".to_string(), 30);
    let row = &table.rows()[0];
    assert_eq!(values(row), vec![("Speed", "1"), ("Temp", "3")]);
    assert_eq!(row.counter, 3);
    assert_eq!(row.raw_hex, "");
}

#[test]
fn cycle_time_is_the_time_between_two_updates() {
    let mut table = TelemetryTable::new();
    table.load_database(&database());
    table.on_frame(0x200, &decoded(&[]), String::new(), 1_700_000_000_000_000);
    assert_eq!(table.rows()[1].cycle_time_micros, 1_700_000_000_000_000);
    table.on_frame(0x200, &decoded(&[]), String::new(), 1_700_000_000_012_345);
    assert_eq!(table.rows()[1].cycle_time_micros, 12_345);
    assert_eq!(table.rows()[1].cycle_time_micros / 1000, 12);
    assert_eq!(table.rows()[1].last_update_micros, 1_700_000_000_012_345);
}

#[test]
fn a_clock_that_was_set_back_gives_a_negative_cycle_time() {
    let mut table = TelemetryTable::new();
    table.load_database(&database());
    table.on_frame(0x200, &decoded(&[]), String::new(), 500);
    table.on_frame(0x200, &decoded(&[]), String::new(), 400);
    assert_eq!(table.rows()[1].cycle_time_micros, -100);
    assert_eq!(table.rows()[1].last_update_micros, 400);
    assert_eq!(table.rows()[1].counter, 2);
}

#[test]
fn the_cycle_time_holds_every_difference_of_two_stamps() {
    let mut table = TelemetryTable::new();
    table.load_database(&database());
    table.on_frame(0x200, &decoded(&[]), String::new(), i64::MIN);
    assert_eq!(table.rows()[1].cycle_time_micros, i64::MIN as i128);
    table.on_frame(0x200, &decoded(&[]), String::new(), i64::MAX);
    assert_eq!(table.rows()[1].cycle_time_micros, i64::MAX as i128 - i64::MIN as i128);
    table.on_frame(0x200, &decoded(&[]), String::new(), i64::MIN);
    assert_eq!(table.rows()[1].cycle_time_micros, i64::MIN as i128 - i64::MAX as i128);
}

#[test]
fn a_cycle_of_twelve_and_a_half_milliseconds() {
    let mut table = TelemetryTable::new();
    table.load_database(&database());
    table.on_frame(0x100, &decoded(&[]), String::new(), 1_000_000);
    table.on_frame(0x100, &decoded(&[]), String::new(), 1_012_500);
    let micros = table.rows()[0].cycle_time_micros;
    assert_eq!(micros, 12_500);
    assert_eq!(format!("{:.02} ms", micros as f32 / 1000.0), "12.50 ms");
}

#[test]
fn the_counter_stops_at_its_largest_value() {
    let message = MessageDefinition::new(0x1, "M".to_string(), vec![]);
    let mut record = TelemetryRecord::fresh(&message, 0);
    record.counter = u64::MAX - 1;
    record.merge(&decoded(&[]), String::new(), 1);
    assert_eq!(record.counter, u64::MAX);
    record.merge(&decoded(&[]), String::new(), 2);
    assert_eq!(record.counter, u64::MAX);
}

#[test]
fn a_frame_without_a_row_changes_nothing() {
    let mut table = TelemetryTable::new();
    table.load_database(&database());
    table.on_frame(0x100, &decoded(&[("Speed", "1")]), "01".to_string(), 10);
    let before: Vec<TelemetryRecord> = table.rows().iter().cloned().collect();

    for id in [0x101u32, 0x0, 0x8000_0100, 0x7FFF_FFFF] {
        let updated = table.on_frame(id, &decoded(&[("Speed", "99")]), "63".to_string(), 20);
        assert!(!updated);
        assert_eq!(table.rows().len(), before.len());
        assert_eq!(table.rows(), &before);
    }
}

#[test]
fn frames_before_any_database_are_dropped() {
    let mut table = TelemetryTable::new();
    assert!(!table.on_frame(0x100, &decoded(&[("Speed", "1")]), "01".to_string(), 10));
    assert!(table.rows().is_empty());
    assert_eq!(table.state(), TableState::Empty);
}

#[test]
fn the_first_entry_of_a_name_counts() {
    let entries = decoded(&[("A", "1"), ("B", "2"), ("A", "3")]);
    assert_eq!(find_decoded(&entries, "A"), Some(&"1".to_string()));
    assert_eq!(find_decoded(&entries, "B"), Some(&"2".to_string()));
    assert_eq!(find_decoded(&entries, "C"), None);
}

#[test]
fn find_a_row_by_its_key() {
    let mut table = TelemetryTable::new();
    table.load_database(&database());
    assert_eq!(table.find("00000200"), Some(1));
    assert_eq!(table.find("200"), None);
    assert_eq!(table.find("00000201"), None);
}

#[test]
fn a_new_database_replaces_every_record() {
    let mut table = TelemetryTable::new();
    table.load_database(&database());
    table.on_frame(0x100, &decoded(&[("Speed", "1"), ("Temp", "2")]), "01 02".to_string(), 10);
    table.on_frame(0x200, &decoded(&[("Gear", "3")]), "03".to_string(), 11);

    table.load_database(&other_database());
    assert_eq!(table.state(), TableState::Loaded);
    assert_eq!(table.rows().len(), 1);
    let row = &table.rows()[0];
    assert_eq!(row.name, "Motor");
    assert_eq!(row.counter, 0);
    assert_eq!(row.raw_hex, "");
    assert_eq!(values(row), vec![("Rpm", "default"), ("Temp", "default")]);
    assert_eq!(row.signals[1].scale, "0.5");
    assert_eq!(row.signals[1].unit, "K");

    // A decode made with the old database brings no signal of the old
    // database into the new record.
    table.on_frame(0x100, &decoded(&[("Speed", "7"), ("Temp", "8")]), "07 08".to_string(), 20);
    let row = &table.rows()[0];
    assert_eq!(values(row), vec![("Rpm", "default"), ("Temp", "8")]);
    assert_eq!(row.signals[0].scale, "0.25");
    assert_eq!(row.signals[1].scale, "0.5");
    assert_eq!(row.name, "Motor");
    assert!(!table.on_frame(0x200, &decoded(&[("Gear", "3")]), "03".to_string(), 21));
    assert_eq!(table.rows().len(), 1);
}

#[test]
fn frame_stamped_with_the_clock() {
    let mut table = TelemetryTable::new();
    table.load_database(&database());
    assert!(table.on_frame_now(0x100, &decoded(&[("Speed", "1")]), "01".to_string()));
    let row = &table.rows()[0];
    assert_eq!(row.counter, 1);
    assert_eq!(values(row), vec![("Speed", "1"), ("Temp", "default")]);
    // Some time in this century.
    assert!(row.last_update_micros > 946_684_800_000_000);
    assert_eq!(row.cycle_time_micros, row.last_update_micros as i128);
    assert!(!table.on_frame_now(0x999, &decoded(&[]), String::new()));
}

#[test]
fn every_row_has_a_key_of_its_own() {
    let mut table = TelemetryTable::new();
    table.load_database(&database());
    let rows = table.rows();
    for i in 0..rows.len() {
        for j in 0..rows.len() {
            assert_eq!(rows[i].id == rows[j].id, i == j);
        }
        assert_eq!(table.find(&rows[i].id), Some(i));
    }
}

#[test]
fn every_load_starts_a_generation() {
    let mut table = TelemetryTable::new();
    assert_eq!(table.generation(), 0);
    table.load_database(&database());
    assert_eq!(table.generation(), 1);
    table.on_frame(0x100, &decoded(&[("Speed", "1")]), "01".to_string(), 10);
    assert_eq!(table.generation(), 1);
    table.load_database(&other_database());
    assert_eq!(table.generation(), 2);
    table.load_database(&other_database());
    assert_eq!(table.generation(), 3);
}
