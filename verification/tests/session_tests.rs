use can_viewer::bus::{BusLoad, BusState};
use can_viewer::database::{DecodeError, SignalDatabase};
use can_viewer::filter::{update_ui_with_signals, FilterView};
use can_viewer::frame::RawFrame;
use can_viewer::session::{CanHandler, DBCFile, LoadedDatabase, Poll, Swap};
use can_viewer::telemetry::{DecodedSignal, TableState, TelemetryTable};

const DESCRIPTION: &str = "VERSION \"1.0\"\n\nNS_ :\n\nBS_:\n\nBU_: ECU\n\nBO_ 256 Engine: 8 ECU\n SG_ Speed : 0|8@1+ (0.1,0) [0|25.5] \"km/h\" Vector__XXX\n\n";

const OTHER: &str = "VERSION \"1.0\"\n\nNS_ :\n\nBS_:\n\nBU_: ECU\n\nBO_ 256 Motor: 8 ECU\n SG_ Rpm : 8|8@1+ (4,0) [0|1020] \"1/min\" Vector__XXX\n\n";

fn poll(now_ms: u64, frame: Option<RawFrame>) -> Poll {
    Poll { now_ms, state: BusState::ErrorActive, bitrate: 500_000, frame }
}

fn loaded(text: &str, generation: u64) -> LoadedDatabase {
    LoadedDatabase { database: SignalDatabase::load(text.as_bytes()).unwrap(), generation }
}

fn frame(id: u32, data: &[u8]) -> RawFrame {
    RawFrame { id, data: data.to_vec(), extended: false }
}

/// The physical value as text: `raw * scale + offset` in single precision.
fn physical(raw: i128, scale_bits: u64, offset_bits: u64) -> String {
    let value = raw as f32 * f64::from_bits(scale_bits) as f32 + f64::from_bits(offset_bits) as f32;
    format!("{}", value)
}

#[test]
fn without_a_frame_the_worker_rests() {
    let mut handler = CanHandler::new("500 kbit/s".to_string(), 0);
    let outcome = handler.process_can_messages(&poll(10, None));
    assert_eq!(outcome.idle_ms, Some(1));
    assert_eq!(outcome.update, None);
    assert_eq!(outcome.swap, Swap::Unchanged);
    assert_eq!(outcome.health.state, BusState::ErrorActive);
    assert_eq!(outcome.health.bitrate, 500_000);
    assert_eq!(outcome.health.load, BusLoad { bits: 0, bitrate: 500_000 });
}

#[test]
fn frames_without_a_database_are_counted_and_dropped() {
    let mut handler = CanHandler::new("500 kbit/s".to_string(), 0);
    assert!(handler.database().is_none());
    let outcome = handler.process_can_messages(&poll(10, Some(frame(0x100, &[1, 2]))));
    assert_eq!(outcome.update, None);
    assert_eq!(outcome.idle_ms, None);
    let outcome = handler.process_can_messages(&poll(1_000, None));
    assert_eq!(outcome.health.load.bits, (2 + 6) * 8);
}

#[test]
fn the_first_database_is_no_hot_swap() {
    let mut handler = CanHandler::new("500 kbit/s".to_string(), 0);
    handler.offer_database(loaded(DESCRIPTION, 1));
    assert!(handler.database().is_none());

    let outcome = handler.process_can_messages(&poll(1, None));
    assert_eq!(outcome.swap, Swap::FirstLoad);
    assert_eq!(handler.database().unwrap().database.messages()[0].name, "Engine");

    let outcome = handler.process_can_messages(&poll(2, None));
    assert_eq!(outcome.swap, Swap::Unchanged);

    handler.offer_database(loaded(OTHER, 2));
    let outcome = handler.process_can_messages(&poll(3, None));
    assert_eq!(outcome.swap, Swap::HotSwap);
    assert_eq!(handler.database().unwrap().database.messages()[0].name, "Motor");
}

#[test]
fn a_frame_is_decoded_with_the_database_put_to_use_in_the_same_step() {
    let mut handler = CanHandler::new("500 kbit/s".to_string(), 0);
    handler.offer_database(loaded(DESCRIPTION, 1));
    let outcome = handler.process_can_messages(&poll(1, Some(frame(0x8000_0100, &[100, 50]))));
    assert_eq!(outcome.swap, Swap::FirstLoad);
    let update = outcome.update.unwrap();
    assert_eq!(update.generation, 1);
    assert_eq!(update.masked_id, 0x100);
    assert_eq!(update.raw_hex, "64 32");
    assert_eq!(update.signals.len(), 1);
    assert_eq!(update.signals[0].name, "Speed");
    assert_eq!(update.signals[0].raw, 100);

    handler.offer_database(loaded(OTHER, 2));
    let outcome = handler.process_can_messages(&poll(2, Some(frame(0x100, &[100, 50]))));
    assert_eq!(outcome.swap, Swap::HotSwap);
    let update = outcome.update.unwrap();
    assert_eq!(update.generation, 2);
    assert_eq!(update.signals.len(), 1);
    assert_eq!(update.signals[0].name, "Rpm");
    assert_eq!(update.signals[0].raw, 50);
}

#[test]
fn frames_of_unknown_messages_give_no_update() {
    let mut handler = CanHandler::new("500 kbit/s".to_string(), 0);
    handler.offer_database(loaded(DESCRIPTION, 1));
    let outcome = handler.process_can_messages(&poll(1, Some(frame(0x101, &[1]))));
    assert_eq!(outcome.update, None);
    assert_eq!(outcome.idle_ms, None);
}

#[test]
fn the_bus_load_counts_every_frame() {
    let mut handler = CanHandler::new("500 kbit/s".to_string(), 0);
    handler.offer_database(loaded(DESCRIPTION, 1));
    for step in 0..10u64 {
        let id = if step % 2 == 0 { 0x100 } else { 0x555 };
        let input = poll(step * 10, Some(frame(id, &[0; 8])));
        assert!(handler.has_room(&input));
        let outcome = handler.process_can_messages(&input);
        assert_eq!(outcome.health.load.bits, 0);
    }
    let outcome = handler.process_can_messages(&poll(1_000, Some(frame(0x100, &[0; 8]))));
    assert_eq!(outcome.health.load, BusLoad { bits: 1120, bitrate: 500_000 });
    // The frame of this step already counts for the next window.
    let outcome = handler.process_can_messages(&poll(2_000, None));
    assert_eq!(outcome.health.load.bits, 112);
}

#[test]
fn the_label_of_the_bit_rate() {
    assert_eq!(CanHandler::new("500 kbit/s".to_string(), 0).bitrate(), Some(500_000));
    assert_eq!(CanHandler::new("47.619 kbit/s".to_string(), 0).bitrate(), Some(47_619));
    assert_eq!(CanHandler::new("fast".to_string(), 0).bitrate(), None);
}

#[test]
fn a_frame_too_long_to_count() {
    let handler = CanHandler::new("500 kbit/s".to_string(), 0);
    assert!(handler.has_room(&poll(0, None)));
    assert!(handler.has_room(&poll(0, Some(frame(1, &[0; 64])))));
}

#[test]
fn loading_a_file_resets_table_and_view() {
    let mut table = TelemetryTable::new();
    let mut view = FilterView::new();
    let file = DBCFile { data: DESCRIPTION.as_bytes().to_vec() };
    let db = file.process_dbc_file(&mut table, &mut view).unwrap();
    assert_eq!(db.database.messages().len(), 1);
    assert_eq!(db.generation, 1);
    assert_eq!(table.generation(), 1);
    assert_eq!(table.rows().len(), 1);
    assert_eq!(table.state(), TableState::Loaded);

    view.include_message(&table, "00000100");
    table.on_frame(0x100, &vec![], "00".to_string(), 1);
    assert!(view.is_active());

    let file = DBCFile { data: OTHER.as_bytes().to_vec() };
    let db = file.process_dbc_file(&mut table, &mut view).unwrap();
    assert_eq!(db.generation, 2);
    assert_eq!(table.generation(), 2);
    assert!(!view.is_active());
    assert_eq!(table.rows()[0].name, "Motor");
    assert_eq!(table.rows()[0].counter, 0);
    assert_eq!(table.state(), TableState::Loaded);
}

#[test]
fn a_malformed_file_changes_nothing() {
    let mut table = TelemetryTable::new();
    let mut view = FilterView::new();
    DBCFile { data: DESCRIPTION.as_bytes().to_vec() }
        .process_dbc_file(&mut table, &mut view)
        .unwrap();
    view.include_message(&table, "00000100");
    table.on_frame(0x100, &vec![], "00".to_string(), 1);

    let result = DBCFile { data: b"BO_ broken".to_vec() }.process_dbc_file(&mut table, &mut view);
    assert_eq!(result.unwrap_err(), DecodeError::MalformedDatabase);
    assert_eq!(table.rows().len(), 1);
    assert_eq!(table.rows()[0].name, "Engine");
    assert_eq!(table.rows()[0].counter, 1);
    assert_eq!(table.state(), TableState::Live);
    assert_eq!(table.generation(), 1);
    assert!(view.is_active());
}

#[test]
fn from_a_description_to_the_value_on_display() {
    let text = "VERSION \"1.0\"\n\nNS_ :\n\nBS_:\n\nBU_: ECU\n\nBO_ 256 Engine: 8 ECU\n SG_ Speed : 0|8@1+ (0.1,0) [0|25.5] \"km/h\" Vector__XXX\n\n";
    let mut table = TelemetryTable::new();
    let mut view = FilterView::new();
    let db = DBCFile { data: text.as_bytes().to_vec() }
        .process_dbc_file(&mut table, &mut view)
        .unwrap();
    let mut handler = CanHandler::new("500 kbit/s".to_string(), 0);
    handler.offer_database(db);

    let input = poll(5, Some(frame(0x100, &[100, 0, 0, 0, 0, 0, 0, 0])));
    let update = handler.process_can_messages(&input).update.unwrap();
    let decoded: Vec<DecodedSignal> = update
        .signals
        .iter()
        .map(|s| DecodedSignal {
            name: s.name.clone(),
            value: physical(s.raw, s.scale_bits, s.offset_bits),
        })
        .collect();
    assert!(update_ui_with_signals(
        &mut table,
        &mut view,
        update.generation,
        update.masked_id,
        &decoded,
        update.raw_hex.clone(),
        1_000
    ));

    let row = &table.rows()[0];
    assert_eq!(row.id, "00000100");
    assert_eq!(row.signals[0].name, "Speed");
    assert_eq!(row.signals[0].value, "10");
    assert_eq!(row.signals[0].scale, "0.1");
    assert_eq!(row.signals[0].unit, "km/h");
    assert_eq!(row.raw_hex, "64 00 00 00 00 00 00 00");
    assert_eq!(row.counter, 1);
}

#[test]
fn records_never_mix_two_databases() {
    let mut table = TelemetryTable::new();
    let mut view = FilterView::new();
    let mut handler = CanHandler::new("500 kbit/s".to_string(), 0);

    let first = DBCFile { data: DESCRIPTION.as_bytes().to_vec() }
        .process_dbc_file(&mut table, &mut view)
        .unwrap();
    handler.offer_database(first);

    let decode = |handler: &mut CanHandler, now: u64, data: &[u8]| {
        handler.process_can_messages(&poll(now, Some(frame(0x100, data)))).update.unwrap()
    };
    let texts = |signals: &[can_viewer::decoder::RawSignal]| -> Vec<DecodedSignal> {
        signals
            .iter()
            .map(|s| DecodedSignal {
                name: s.name.clone(),
                value: physical(s.raw, s.scale_bits, s.offset_bits),
            })
            .collect()
    };

    let update = decode(&mut handler, 1, &[10, 20]);
    assert_eq!(update.generation, 1);
    let decoded = texts(&update.signals);
    assert!(update_ui_with_signals(
        &mut table,
        &mut view,
        update.generation,
        update.masked_id,
        &decoded,
        update.raw_hex,
        1
    ));
    assert_eq!(table.rows()[0].signals[0].name, "Speed");
    assert_eq!(table.rows()[0].signals[0].value, "1");

    // An update is decoded with the first database and is still on its
    // way when the second database replaces the table.
    let stale = decode(&mut handler, 2, &[10, 20]);
    assert_eq!(stale.generation, 1);
    let second = DBCFile { data: OTHER.as_bytes().to_vec() }
        .process_dbc_file(&mut table, &mut view)
        .unwrap();
    assert_eq!(table.generation(), 2);
    let before: Vec<_> = table.rows().iter().cloned().collect();

    // It reaches the table and changes nothing.
    let decoded = texts(&stale.signals);
    assert!(!update_ui_with_signals(
        &mut table,
        &mut view,
        stale.generation,
        stale.masked_id,
        &decoded,
        stale.raw_hex,
        3
    ));
    assert_eq!(table.rows(), &before);
    assert_eq!(table.rows()[0].name, "Motor");
    assert_eq!(table.rows()[0].counter, 0);
    assert_eq!(table.rows()[0].signals[0].name, "Rpm");
    assert_eq!(table.rows()[0].signals[0].value, "default");

    // So does an update that the worker decodes before the second
    // database has reached it.
    let late = decode(&mut handler, 4, &[10, 20]);
    assert_eq!(late.generation, 1);
    assert_eq!(late.signals[0].name, "Speed");
    let decoded = texts(&late.signals);
    assert!(!update_ui_with_signals(
        &mut table,
        &mut view,
        late.generation,
        late.masked_id,
        &decoded,
        late.raw_hex,
        5
    ));
    assert_eq!(table.rows(), &before);

    // Once the worker has the second database its updates are merged.
    handler.offer_database(second);
    let update = decode(&mut handler, 6, &[10, 20]);
    assert_eq!(update.generation, 2);
    let decoded = texts(&update.signals);
    assert!(update_ui_with_signals(
        &mut table,
        &mut view,
        update.generation,
        update.masked_id,
        &decoded,
        update.raw_hex,
        7
    ));
    let row = &table.rows()[0];
    assert_eq!(row.signals.len(), 1);
    assert_eq!(row.signals[0].name, "Rpm");
    assert_eq!(row.signals[0].value, "80");
    assert_eq!(row.signals[0].unit, "1/min");
    assert_eq!(row.counter, 1);
}
