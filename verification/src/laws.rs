//! Laws that relate the operations of the library to one another.

use crate::bus::{frame_bits, TrackerModel};
use crate::database::{message_keys, DatabaseModel};
use crate::filter::{display_after, restriped, without_key, FilterModel};
use crate::frame::{masked, FrameModel, ID_FLAG};
use crate::hex::{hex_text, lemma_hex8_is_faithful};
use crate::search::{lemma_first_index_is, lemma_first_index_of};
use crate::session::{FrameUpdateModel, HandlerModel, LoadedModel, PollModel, Swap};
use crate::telemetry::{
    fresh_record, merged_record, record_of, signal_shape, DecodedModel, RecordModel,
    SignalValueModel, TableModel, TableState,
};
use vstd::prelude::*;

verus! {

/// Looking a message up does not depend on the top bit of the identifier:
/// an identifier and the same identifier with the top bit set find the
/// same message, or both find none.
pub proof fn lemma_lookup_ignores_flag(database: DatabaseModel, id: u32)
    ensures
        database.lookup(id) == database.lookup(id | ID_FLAG),
        database.lookup(id) == database.lookup(masked(id)),
{
    assert((id | 0x8000_0000u32) & !0x8000_0000u32 == id & !0x8000_0000u32) by (bit_vector);
    assert((id & !0x8000_0000u32) & !0x8000_0000u32 == id & !0x8000_0000u32) by (bit_vector);
}

/// In a database, whose masked identifiers are distinct, the message
/// found for an identifier is the one and only message with it.
pub proof fn lemma_lookup_finds_the_only_message(database: DatabaseModel, id: u32, i: int)
    requires
        database.wf(),
        0 <= i < database.messages.len(),
        masked(database.messages[i].id) == masked(id),
    ensures
        database.lookup(id) == Some(database.messages[i]),
        forall|j: int|
            0 <= j < database.messages.len() && j != i ==> masked(
                (#[trigger] database.messages[j]).id,
            ) != masked(id),
{
    let keys = message_keys(database.messages);
    assert forall|j: int| 0 <= j < keys.len() && j != i implies keys[j] != masked(id) by {
        assert(keys[i] == masked(id));
    }
    lemma_first_index_is(keys, masked(id), i);
    assert forall|j: int| 0 <= j < database.messages.len() && j != i implies masked(
        (#[trigger] database.messages[j]).id,
    ) != masked(id) by {
        assert(keys[j] == masked(database.messages[j].id));
    }
}

/// A frame whose identifier has no row leaves every row of the table as
/// it was: as many rows, each with the same contents.
pub proof fn lemma_unmatched_frame_changes_no_row(
    table: TableModel,
    masked_id: u32,
    decoded: Seq<DecodedModel>,
    raw_hex: Seq<char>,
    now_micros: i64,
)
    requires
        table.position(hex_text(masked_id as nat, 8)) is None,
    ensures
        table.on_frame(masked_id, decoded, raw_hex, now_micros).rows == table.rows,
{
}

/// Rows that are striped by their positions stay as they are when they
/// are striped anew.
pub proof fn lemma_restriped_is_idle(view: FilterModel)
    requires
        view.striped(),
    ensures
        restriped(view.rows) == view.rows,
{
    assert(restriped(view.rows) =~= view.rows);
}

/// Taking out a key that no row has takes out nothing.
pub proof fn lemma_absent_key(rows: Seq<RecordModel>, key: Seq<char>)
    requires
        forall|i: int| 0 <= i < rows.len() ==> (#[trigger] rows[i]).id != key,
    ensures
        without_key(rows, key) == rows,
    decreases rows.len(),
{
    if rows.len() > 0 {
        lemma_absent_key(rows.drop_last(), key);
        assert(rows.drop_last().push(rows.last()) =~= rows);
    }
}

/// Including a message and then excluding it gives back the view as it
/// was, provided the view did not hold the message before. Neither
/// operation writes to the table.
pub proof fn lemma_include_then_exclude(view: FilterModel, table: TableModel, key: Seq<char>)
    requires
        view.striped(),
        !view.contains_key(key),
    ensures
        view.include_message(table, key).exclude(key) == view,
{
    lemma_absent_key(view.rows, key);
    lemma_restriped_is_idle(view);
    match table.position(key) {
        Some(i) => {
            lemma_first_index_of(table.keys(), key);
            let included = view.include_message(table, key).rows;
            assert(included.last().id == key);
            assert(included.drop_last() =~= view.rows);
        },
        None => {},
    }
}

/// From the empty view, including a message and then excluding it gives
/// the empty view again.
pub proof fn lemma_include_then_exclude_from_empty(table: TableModel, key: Seq<char>)
    ensures
        FilterModel::empty().include_message(table, key).exclude(key) == FilterModel::empty(),
{
    lemma_include_then_exclude(FilterModel::empty(), table, key);
}

/// A table that was just loaded holds, at each position, the record of
/// the database's message at that position.
pub proof fn lemma_loaded_conforms(database: DatabaseModel, generation: u64)
    ensures
        TableModel::loaded(database, generation).conforms_to(database),
{
}

/// A table that was just loaded is striped: its rows alternate, starting
/// with an even one, and nothing is counted yet.
pub proof fn lemma_loaded_is_fresh(database: DatabaseModel, generation: u64)
    ensures
        TableModel::loaded(database, generation).striped(),
        TableModel::loaded(database, generation).rows.len() == database.messages.len(),
        forall|i: int|
            0 <= i < database.messages.len() ==> (#[trigger] TableModel::loaded(
                database,
                generation,
            ).rows[i]) == fresh_record(database.messages[i], i),
{
}

/// The rows of a table that was loaded from a database have keys of their
/// own: no two rows share one, so the row that takes a frame is the only
/// row of the frame's message.
pub proof fn lemma_loaded_keys_are_distinct(database: DatabaseModel, generation: u64)
    requires
        database.wf(),
    ensures
        TableModel::loaded(database, generation).keys().no_duplicates(),
{
    let keys = TableModel::loaded(database, generation).keys();
    let ids = message_keys(database.messages);
    assert forall|i: int, j: int| 0 <= i < keys.len() && 0 <= j < keys.len() && i != j implies keys[i]
        != keys[j] by {
        assert(keys[i] == hex_text(ids[i] as nat, 8));
        assert(keys[j] == hex_text(ids[j] as nat, 8));
        lemma_hex8_is_faithful(ids[i], ids[j]);
    }
}

/// A frame changes values only: every row stays the record of the same
/// message of the same database.
pub proof fn lemma_frame_keeps_conformance(
    table: TableModel,
    database: DatabaseModel,
    masked_id: u32,
    decoded: Seq<DecodedModel>,
    raw_hex: Seq<char>,
    now_micros: i64,
)
    requires
        table.conforms_to(database),
    ensures
        table.on_frame(masked_id, decoded, raw_hex, now_micros).conforms_to(database),
{
    let after = table.on_frame(masked_id, decoded, raw_hex, now_micros);
    match table.position(hex_text(masked_id as nat, 8)) {
        Some(i) => {
            lemma_first_index_of(table.keys(), hex_text(masked_id as nat, 8));
            let before = table.rows[i];
            let merged = merged_record(before, decoded, raw_hex, now_micros);
            assert(merged.signals.map_values(|s: SignalValueModel| signal_shape(s))
                =~= before.signals.map_values(|s: SignalValueModel| signal_shape(s)));
            assert forall|k: int| 0 <= k < after.rows.len() implies record_of(
                #[trigger] after.rows[k],
                database.messages[k],
                k,
            ) by {
                if k != i {
                    assert(after.rows[k] == table.rows[k]);
                } else {
                    assert(record_of(table.rows[i], database.messages[i], i));
                }
            }
        },
        None => {},
    }
}

/// A frame leaves the striping of the table as it is.
pub proof fn lemma_frame_keeps_stripes(
    table: TableModel,
    masked_id: u32,
    decoded: Seq<DecodedModel>,
    raw_hex: Seq<char>,
    now_micros: i64,
)
    requires
        table.striped(),
    ensures
        table.on_frame(masked_id, decoded, raw_hex, now_micros).striped(),
{
    let after = table.on_frame(masked_id, decoded, raw_hex, now_micros);
    match table.position(hex_text(masked_id as nat, 8)) {
        Some(i) => {
            lemma_first_index_of(table.keys(), hex_text(masked_id as nat, 8));
            assert forall|k: int| 0 <= k < after.rows.len() implies (#[trigger] after.rows[k]).color
                == crate::telemetry::stripe(k) by {
                assert(after.rows[k].color == table.rows[k].color);
            }
        },
        None => {},
    }
}

/// Including a row and excluding a message both leave the view striped by
/// position.
pub proof fn lemma_view_stays_striped(view: FilterModel, record: RecordModel, key: Seq<char>)
    requires
        view.striped(),
    ensures
        view.include_record(record).striped(),
        view.exclude(key).striped(),
{
    let included = view.include_record(record);
    assert forall|i: int| 0 <= i < included.rows.len() implies (#[trigger] included.rows[i]).color
        == crate::telemetry::stripe(i) by {
        if i < view.rows.len() {
            assert(included.rows[i] == view.rows[i]);
        }
    }
}

/// Whether two records agree in everything but their striping tags.
pub open spec fn same_but_color(a: RecordModel, b: RecordModel) -> bool {
    a == (RecordModel { color: a.color, ..b })
}

/// A row of the view that is a copy of its row in the table stays one
/// while frames arrive: whatever frame comes, the two take it together or
/// not at all.
pub proof fn lemma_view_follows_table(
    table: TableModel,
    view: FilterModel,
    i: int,
    k: int,
    masked_id: u32,
    decoded: Seq<DecodedModel>,
    raw_hex: Seq<char>,
    now_micros: i64,
)
    requires
        0 <= k < view.rows.len(),
        table.position(view.rows[k].id) == Some(i),
        same_but_color(view.rows[k], table.rows[i]),
    ensures
        same_but_color(
            view.on_frame(masked_id, decoded, raw_hex, now_micros).rows[k],
            table.on_frame(masked_id, decoded, raw_hex, now_micros).rows[i],
        ),
{
    lemma_first_index_of(table.keys(), view.rows[k].id);
    lemma_first_index_of(table.keys(), hex_text(masked_id as nat, 8));
}

/// The tracker after it has observed frames with payloads of the given
/// lengths, one after the other.
pub open spec fn observed_all(tracker: TrackerModel, lengths: Seq<nat>) -> TrackerModel
    decreases lengths.len(),
{
    if lengths.len() == 0 {
        tracker
    } else {
        observed_all(tracker, lengths.drop_last()).observe(lengths.last())
    }
}

/// The bits that frames with payloads of the given lengths are counted
/// with, all together.
pub open spec fn bits_of_all(lengths: Seq<nat>) -> nat
    decreases lengths.len(),
{
    if lengths.len() == 0 {
        0
    } else {
        bits_of_all(lengths.drop_last()) + frame_bits(lengths.last())
    }
}

/// At the end of a window the load that is reported is the sum over the
/// frames observed in it of `(payload length + 6) * 8` bits, against the
/// bit rate that was handed in; and the next window starts with nothing
/// counted.
pub proof fn lemma_window_counts_every_frame(
    start_ms: u64,
    lengths: Seq<nat>,
    now_ms: u64,
    bitrate: u32,
)
    requires
        bits_of_all(lengths) <= u64::MAX,
        now_ms >= start_ms + 1000,
    ensures
        ({
            let tracker = observed_all(
                TrackerModel { total_bits: 0, window_start_ms: start_ms },
                lengths,
            );
            &&& tracker.reading(now_ms, bitrate).bits == bits_of_all(lengths)
            &&& tracker.reading(now_ms, bitrate).bitrate == bitrate
            &&& tracker.poll(now_ms) == (TrackerModel { total_bits: 0, window_start_ms: now_ms })
        }),
{
    lemma_observed_all(start_ms, lengths);
}

proof fn lemma_observed_all(start_ms: u64, lengths: Seq<nat>)
    requires
        bits_of_all(lengths) <= u64::MAX,
    ensures
        observed_all(TrackerModel { total_bits: 0, window_start_ms: start_ms }, lengths) == (
        TrackerModel { total_bits: bits_of_all(lengths) as u64, window_start_ms: start_ms }),
    decreases lengths.len(),
{
    if lengths.len() > 0 {
        lemma_observed_all(start_ms, lengths.drop_last());
    }
}

/// A database that was offered to the worker is put to use by the very
/// next iteration, before that iteration looks at its frame: the frame is
/// decoded with the new database as a whole, and the old one is gone.
pub proof fn lemma_offered_database_is_used_next(
    handler: HandlerModel,
    database: LoadedModel,
    poll: PollModel,
)
    ensures
        handler.offer(database).after(poll).database == Some(database),
        handler.offer(database).after(poll).pending is None,
        handler.offer(database).outcome(poll).swap != Swap::Unchanged,
        poll.frame matches Some(frame) ==> handler.offer(database).outcome(poll).update
            == HandlerModel::update_for(Some(database), frame),
{
}

/// Only the first database that a worker puts to use is no hot-swap.
pub proof fn lemma_only_the_first_load_is_no_hot_swap(
    handler: HandlerModel,
    first: LoadedModel,
    second: LoadedModel,
    poll: PollModel,
    later: PollModel,
)
    requires
        handler.first_load,
    ensures
        handler.offer(first).outcome(poll).swap == Swap::FirstLoad,
        handler.offer(first).after(poll).offer(second).outcome(later).swap == Swap::HotSwap,
        handler.offer(first).after(poll).outcome(later).swap == Swap::Unchanged,
{
}

/// One thing that happens to the table.
pub enum TableEvent {
    /// A database is loaded.
    Load { database: DatabaseModel },
    /// A decoded frame arrives.
    Frame { masked_id: u32, decoded: Seq<DecodedModel>, raw_hex: Seq<char>, now_micros: i64 },
}

/// The table after one event.
pub open spec fn table_after(table: TableModel, event: TableEvent) -> TableModel {
    match event {
        TableEvent::Load { database } => table.load(database),
        TableEvent::Frame { masked_id, decoded, raw_hex, now_micros } => table.on_frame(
            masked_id,
            decoded,
            raw_hex,
            now_micros,
        ),
    }
}

/// The table after a history of events, starting without a database.
pub open spec fn table_after_all(events: Seq<TableEvent>) -> TableModel
    decreases events.len(),
{
    if events.len() == 0 {
        TableModel::empty()
    } else {
        table_after(table_after_all(events.drop_last()), events.last())
    }
}

/// The database that a history loaded last.
pub open spec fn last_loaded(events: Seq<TableEvent>) -> Option<DatabaseModel>
    decreases events.len(),
{
    if events.len() == 0 {
        None
    } else {
        match events.last() {
            TableEvent::Load { database } => Some(database),
            TableEvent::Frame { .. } => last_loaded(events.drop_last()),
        }
    }
}

/// However loads and frames follow one another, every record of the table
/// belongs to the database that was loaded last, with exactly the signals
/// of its message there: no record ever mixes two databases. Before the
/// first load the table has no record.
pub proof fn lemma_swap_is_atomic(events: Seq<TableEvent>)
    ensures
        match last_loaded(events) {
            Some(database) => table_after_all(events).conforms_to(database),
            None => table_after_all(events).rows.len() == 0 && table_after_all(events).state
                == TableState::Empty,
        },
    decreases events.len(),
{
    if events.len() > 0 {
        lemma_swap_is_atomic(events.drop_last());
        let before = table_after_all(events.drop_last());
        match events.last() {
            TableEvent::Load { database } => {
                lemma_loaded_conforms(database, (before.generation + 1) as u64);
            },
            TableEvent::Frame { masked_id, decoded, raw_hex, now_micros } => {
                match last_loaded(events.drop_last()) {
                    Some(database) => {
                        lemma_frame_keeps_conformance(
                            before,
                            database,
                            masked_id,
                            decoded,
                            raw_hex,
                            now_micros,
                        );
                    },
                    None => {
                        lemma_first_index_of(before.keys(), hex_text(masked_id as nat, 8));
                    },
                }
            },
        }
    }
}

/// The monitor as a whole: the table and the view on display, the worker,
/// and what is on its way between them. Loading, decoding and merging
/// happen at different times: a database reaches the worker some time
/// after the table was made from it, and an update reaches the table some
/// time after the worker decoded it.
pub struct MonitorModel {
    pub table: TableModel,
    pub view: FilterModel,
    pub handler: HandlerModel,
    /// The databases on their way to the worker, oldest first.
    pub loaded: Seq<LoadedModel>,
    /// The updates on their way to the table, oldest first.
    pub updates: Seq<FrameUpdateModel>,
    /// The database that the table was made from last.
    pub source: Option<DatabaseModel>,
}

/// One thing that happens in the monitor.
pub enum MonitorEvent {
    /// A description is loaded: the table is made anew at once, and the
    /// database sets out for the worker with the table's generation.
    Load { database: DatabaseModel },
    /// The database that set out first reaches the worker's slot.
    Deliver,
    /// The worker runs one iteration; its update, if any, sets out for the
    /// table.
    Step { poll: PollModel },
    /// The update that set out first reaches the table, with the physical
    /// values that were made of its raw values.
    Merge { decoded: Seq<DecodedModel>, now_micros: i64 },
}

/// The monitor before anything happened, around a worker without a
/// database.
pub open spec fn monitor_start(handler: HandlerModel) -> MonitorModel {
    MonitorModel {
        table: TableModel::empty(),
        view: FilterModel::empty(),
        handler,
        loaded: Seq::empty(),
        updates: Seq::empty(),
        source: None,
    }
}

/// The monitor after one event.
pub open spec fn monitor_after(monitor: MonitorModel, event: MonitorEvent) -> MonitorModel {
    match event {
        MonitorEvent::Load { database } => {
            let table = monitor.table.load(database);
            MonitorModel {
                table,
                view: FilterModel::empty(),
                loaded: monitor.loaded.push(LoadedModel { database, generation: table.generation }),
                source: Some(database),
                ..monitor
            }
        },
        MonitorEvent::Deliver => if monitor.loaded.len() > 0 {
            MonitorModel {
                handler: monitor.handler.offer(monitor.loaded[0]),
                loaded: monitor.loaded.drop_first(),
                ..monitor
            }
        } else {
            monitor
        },
        MonitorEvent::Step { poll } => MonitorModel {
            handler: monitor.handler.after(poll),
            updates: match monitor.handler.outcome(poll).update {
                Some(update) => monitor.updates.push(update),
                None => monitor.updates,
            },
            ..monitor
        },
        MonitorEvent::Merge { decoded, now_micros } => if monitor.updates.len() > 0 {
            let update = monitor.updates[0];
            let shown = display_after(
                monitor.table,
                monitor.view,
                update.generation,
                update.masked_id,
                decoded,
                update.raw_hex,
                now_micros,
            );
            MonitorModel {
                table: shown.0,
                view: shown.1,
                updates: monitor.updates.drop_first(),
                ..monitor
            }
        } else {
            monitor
        },
    }
}

/// The monitor after a history of events.
pub open spec fn monitor_after_all(handler: HandlerModel, events: Seq<MonitorEvent>) -> MonitorModel
    decreases events.len(),
{
    if events.len() == 0 {
        monitor_start(handler)
    } else {
        monitor_after(monitor_after_all(handler, events.drop_last()), events.last())
    }
}

/// Whether a database with a generation is either older than the table
/// or the very database that the table was made from.
pub open spec fn of_its_generation(
    loaded: LoadedModel,
    generation: u64,
    source: Option<DatabaseModel>,
) -> bool {
    &&& loaded.generation <= generation
    &&& loaded.generation == generation ==> source == Some(loaded.database)
}

/// Whether an update is what some frame decodes to against a database,
/// every signal of it.
pub open spec fn decoded_with(update: FrameUpdateModel, database: DatabaseModel) -> bool {
    exists|frame: FrameModel| #[trigger]
        HandlerModel::update_for(
            Some(LoadedModel { database, generation: update.generation }),
            frame,
        ) == Some(update)
}

/// Whether an update is either older than the table or decoded, as a
/// whole, with the database that the table was made from.
pub open spec fn of_the_tables_database(
    update: FrameUpdateModel,
    generation: u64,
    source: Option<DatabaseModel>,
) -> bool {
    &&& update.generation <= generation
    &&& update.generation == generation ==> (source matches Some(database) && decoded_with(
        update,
        database,
    ))
}

/// What holds of the monitor at every time: the table is made from one
/// database; whatever carries the table's generation, be it a database
/// under way, the worker's databases or an update under way, stems from
/// that database.
pub open spec fn generations_apart(monitor: MonitorModel) -> bool {
    let generation = monitor.table.generation;
    let source = monitor.source;
    &&& match source {
        Some(database) => monitor.table.conforms_to(database) && generation >= 1,
        None => monitor.table.rows.len() == 0 && generation == 0,
    }
    &&& forall|i: int|
        0 <= i < monitor.loaded.len() ==> of_its_generation(
            #[trigger] monitor.loaded[i],
            generation,
            source,
        )
    &&& monitor.handler.pending matches Some(loaded) ==> of_its_generation(
        loaded,
        generation,
        source,
    )
    &&& monitor.handler.database matches Some(loaded) ==> of_its_generation(
        loaded,
        generation,
        source,
    )
    &&& forall|i: int|
        0 <= i < monitor.updates.len() ==> of_the_tables_database(
            #[trigger] monitor.updates[i],
            generation,
            source,
        )
}

/// No event lets the generations mix, as long as the count of loads stays
/// within its range.
pub proof fn lemma_event_keeps_generations_apart(monitor: MonitorModel, event: MonitorEvent)
    requires
        generations_apart(monitor),
        monitor.table.generation < u64::MAX,
    ensures
        generations_apart(monitor_after(monitor, event)),
        monitor_after(monitor, event).table.generation <= monitor.table.generation + 1,
{
    let after = monitor_after(monitor, event);
    match event {
        MonitorEvent::Load { database } => {
            lemma_loaded_conforms(database, after.table.generation);
            assert forall|i: int| 0 <= i < after.loaded.len() implies of_its_generation(
                #[trigger] after.loaded[i],
                after.table.generation,
                after.source,
            ) by {
                if i < monitor.loaded.len() {
                    assert(after.loaded[i] == monitor.loaded[i]);
                }
            }
        },
        MonitorEvent::Deliver => {
            if monitor.loaded.len() > 0 {
                assert forall|i: int| 0 <= i < after.loaded.len() implies of_its_generation(
                    #[trigger] after.loaded[i],
                    after.table.generation,
                    after.source,
                ) by {
                    assert(after.loaded[i] == monitor.loaded[i + 1]);
                }
            }
        },
        MonitorEvent::Step { poll } => {
            match monitor.handler.outcome(poll).update {
                Some(update) => {
                    let used = monitor.handler.database_in_step()->0;
                    let frame = poll.frame->0;
                    assert(used == (LoadedModel {
                        database: used.database,
                        generation: update.generation,
                    }));
                    assert(HandlerModel::update_for(
                        Some(LoadedModel { database: used.database, generation: update.generation }),
                        frame,
                    ) == Some(update));
                    assert(decoded_with(update, used.database));
                    assert forall|i: int|
                        0 <= i < after.updates.len() implies of_the_tables_database(
                        #[trigger] after.updates[i],
                        after.table.generation,
                        after.source,
                    ) by {
                        if i < monitor.updates.len() {
                            assert(after.updates[i] == monitor.updates[i]);
                        }
                    }
                },
                None => {},
            }
        },
        MonitorEvent::Merge { decoded, now_micros } => {
            if monitor.updates.len() > 0 {
                let update = monitor.updates[0];
                assert(of_the_tables_database(update, monitor.table.generation, monitor.source));
                if update.generation == monitor.table.generation {
                    lemma_frame_keeps_conformance(
                        monitor.table,
                        monitor.source->0,
                        update.masked_id,
                        decoded,
                        update.raw_hex,
                        now_micros,
                    );
                }
                assert forall|i: int|
                    0 <= i < after.updates.len() implies of_the_tables_database(
                    #[trigger] after.updates[i],
                    after.table.generation,
                    after.source,
                ) by {
                    assert(after.updates[i] == monitor.updates[i + 1]);
                }
            }
        },
    }
}

/// Whatever happens in the monitor, and in whatever order, the
/// generations stay apart: the table is made from one database, and an
/// update changes it only if the worker decoded that update, as a whole,
/// with the same database. An update that was decoded with an older
/// database changes nothing. This holds for every history with fewer
/// events than the count of loads has values.
pub proof fn lemma_generations_stay_apart(handler: HandlerModel, events: Seq<MonitorEvent>)
    requires
        handler.database is None,
        handler.pending is None,
        events.len() < u64::MAX,
    ensures
        generations_apart(monitor_after_all(handler, events)),
        monitor_after_all(handler, events).table.generation <= events.len(),
    decreases events.len(),
{
    if events.len() > 0 {
        lemma_generations_stay_apart(handler, events.drop_last());
        lemma_event_keeps_generations_apart(
            monitor_after_all(handler, events.drop_last()),
            events.last(),
        );
    }
}

/// What reaches the table: an update of the table's generation was
/// decoded with the database that every row of the table stems from, and
/// is merged; any other update leaves table and view as they are.
pub proof fn lemma_merge_is_of_one_database(
    monitor: MonitorModel,
    decoded: Seq<DecodedModel>,
    now_micros: i64,
)
    requires
        generations_apart(monitor),
        monitor.updates.len() > 0,
    ensures
        ({
            let update = monitor.updates[0];
            let after = monitor_after(monitor, MonitorEvent::Merge { decoded, now_micros });
            if update.generation == monitor.table.generation {
                &&& monitor.source matches Some(database)
                &&& decoded_with(update, database)
                &&& monitor.table.conforms_to(database)
                &&& after.table.conforms_to(database)
                &&& after.table == monitor.table.on_frame(
                    update.masked_id,
                    decoded,
                    update.raw_hex,
                    now_micros,
                )
            } else {
                after.table == monitor.table && after.view == monitor.view
            }
        }),
{
    let update = monitor.updates[0];
    assert(of_the_tables_database(update, monitor.table.generation, monitor.source));
    if update.generation == monitor.table.generation {
        lemma_frame_keeps_conformance(
            monitor.table,
            monitor.source->0,
            update.masked_id,
            decoded,
            update.raw_hex,
            now_micros,
        );
    }
}

} // verus!
