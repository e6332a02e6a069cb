//! The filter view: the rows that the user chose to see, in the order in
//! which they were chosen, striped over that order.
//!
//! Rows of the view are copies taken from the table when they are
//! included. While a row is in the view it takes every frame of its
//! message, as the row of the table does.

use crate::clock::now_micros;
use crate::hex::{hex8, hex_text};
use crate::telemetry::{
    merged_record, stripe, stripe_of, DecodedModel, DecodedSignal, RecordModel, TableModel,
    TelemetryRecord, TelemetryTable,
};
use crate::text::same_text;
use vstd::prelude::*;
use vstd::string::*;

verus! {

/// Rows with the striping tag of their position.
pub open spec fn restriped(rows: Seq<RecordModel>) -> Seq<RecordModel> {
    Seq::new(rows.len(), |i: int| RecordModel { color: stripe(i), ..rows[i] })
}

/// The rows whose key is not the given one, in their order.
pub open spec fn without_key(rows: Seq<RecordModel>, key: Seq<char>) -> Seq<RecordModel>
    decreases rows.len(),
{
    if rows.len() == 0 {
        rows
    } else if rows.last().id == key {
        without_key(rows.drop_last(), key)
    } else {
        without_key(rows.drop_last(), key).push(rows.last())
    }
}

/// What a `FilterView` stands for.
pub struct FilterModel {
    pub rows: Seq<RecordModel>,
}

impl FilterModel {
    /// The view with no row chosen.
    pub open spec fn empty() -> FilterModel {
        FilterModel { rows: Seq::empty() }
    }

    /// Every row carries the striping tag of its position.
    pub open spec fn striped(self) -> bool {
        forall|i: int| 0 <= i < self.rows.len() ==> (#[trigger] self.rows[i]).color == stripe(i)
    }

    /// Whether a row of the view has a key.
    pub open spec fn contains_key(self, key: Seq<char>) -> bool {
        exists|i: int| 0 <= i < self.rows.len() && (#[trigger] self.rows[i]).id == key
    }

    /// The view after a record was appended with the tag of its position.
    pub open spec fn include_record(self, record: RecordModel) -> FilterModel {
        FilterModel {
            rows: self.rows.push(RecordModel { color: stripe(self.rows.len() as int), ..record }),
        }
    }

    /// The view after the table's row with a key was included; without
    /// such a row in the table the view stays as it is.
    pub open spec fn include_message(self, table: TableModel, key: Seq<char>) -> FilterModel {
        match table.position(key) {
            Some(i) => self.include_record(table.rows[i]),
            None => self,
        }
    }

    /// The view after every row with a key was taken out and the rest
    /// striped anew.
    pub open spec fn exclude(self, key: Seq<char>) -> FilterModel {
        FilterModel { rows: restriped(without_key(self.rows, key)) }
    }

    /// The view after a frame: every row of the frame's message takes it.
    pub open spec fn on_frame(
        self,
        masked_id: u32,
        decoded: Seq<DecodedModel>,
        raw_hex: Seq<char>,
        now_micros: i64,
    ) -> FilterModel {
        FilterModel {
            rows: self.rows.map_values(
                |r: RecordModel|
                    if r.id == hex_text(masked_id as nat, 8) {
                        merged_record(r, decoded, raw_hex, now_micros)
                    } else {
                        r
                    },
            ),
        }
    }

    /// Whether the view is shown in place of the table: it is as soon as
    /// it holds a row.
    pub open spec fn is_active(self) -> bool {
        self.rows.len() > 0
    }
}

/// The rows on display: those of the view while it holds any, those of the
/// table otherwise.
pub open spec fn displayed(table: TableModel, filter: FilterModel) -> Seq<RecordModel> {
    if filter.is_active() {
        filter.rows
    } else {
        table.rows
    }
}

/// The subset of the table that the user chose to see.
#[derive(Debug, PartialEq, Eq)]
pub struct FilterView {
    rows: Vec<TelemetryRecord>,
}

impl View for FilterView {
    type V = FilterModel;

    closed spec fn view(&self) -> FilterModel {
        FilterModel { rows: self.rows.deep_view() }
    }
}

impl FilterView {
    #[verifier::type_invariant]
    spec fn well_formed(self) -> bool {
        self@.striped()
    }

    /// A view with no row chosen.
    pub fn new() -> (r: Self)
        ensures
            r@ == FilterModel::empty(),
    {
        let r = FilterView { rows: Vec::new() };
        assert(r@.rows =~= Seq::<RecordModel>::empty());
        r
    }

    /// Takes every row out of the view.
    pub fn clear(&mut self)
        ensures
            final(self)@ == FilterModel::empty(),
    {
        let rows: Vec<TelemetryRecord> = Vec::new();
        assert(rows.deep_view() =~= Seq::<RecordModel>::empty());
        self.rows = rows;
    }

    /// The rows of the view in display order, each with the striping tag
    /// of its position.
    pub fn rows(&self) -> (r: &Vec<TelemetryRecord>)
        ensures
            r.deep_view() == self@.rows,
            self@.striped(),
    {
        proof {
            use_type_invariant(self);
        }
        &self.rows
    }

    /// Whether the view is shown in place of the table.
    pub fn is_active(&self) -> (r: bool)
        ensures
            r == self@.is_active(),
    {
        self.rows.len() > 0
    }

    /// Appends a record to the view, with the striping tag of the position
    /// it takes.
    pub fn include_record(&mut self, record: TelemetryRecord)
        ensures
            final(self)@ == old(self)@.include_record(record@),
    {
        proof {
            use_type_invariant(&*self);
        }
        let mut record = record;
        record.color = stripe_of(self.rows.len());
        let mut rows: Vec<TelemetryRecord> = Vec::new();
        std::mem::swap(&mut self.rows, &mut rows);
        rows.push(record);
        assert(rows.deep_view() =~= old(self)@.include_record(record@).rows);
        self.rows = rows;
    }

    /// Includes the message with an identifier: a copy of its row in the
    /// table, as the row is now, goes to the end of the view. The table is
    /// only read. Without such a row in the table nothing changes.
    pub fn include_message(&mut self, table: &TelemetryTable, identifier: &str)
        ensures
            final(self)@ == old(self)@.include_message(table@, identifier@),
    {
        match table.find(identifier) {
            Some(i) => {
                let record = table.rows()[i].clone();
                self.include_record(record);
            },
            None => {},
        }
    }

    /// Excludes the message with an identifier: every row with it leaves
    /// the view, and the rows that stay are striped by their new positions.
    pub fn exclude(&mut self, identifier: &str)
        ensures
            final(self)@ == old(self)@.exclude(identifier@),
    {
        let mut rows: Vec<TelemetryRecord> = Vec::new();
        std::mem::swap(&mut self.rows, &mut rows);
        let ghost before = rows.deep_view();
        let mut kept: Vec<TelemetryRecord> = Vec::new();
        let mut i: usize = 0;
        proof {
            assert(before.take(0) =~= Seq::<RecordModel>::empty());
        }
        while i < rows.len()
            invariant
                i <= rows.len(),
                before == rows.deep_view(),
                kept.deep_view() == restriped(without_key(before.take(i as int), identifier@)),
            decreases rows.len() - i,
        {
            let ghost kept_before = kept.deep_view();
            let ghost old_rest = without_key(before.take(i as int), identifier@);
            let ghost new_rest = without_key(before.take(i + 1), identifier@);
            proof {
                assert(before.take(i + 1).drop_last() =~= before.take(i as int));
                assert(before.take(i + 1).last() == rows@[i as int]@);
                assert(kept_before.len() == old_rest.len());
            }
            if !same_text(rows[i].id.as_str(), identifier) {
                let mut record = rows[i].clone();
                record.color = stripe_of(kept.len());
                kept.push(record);
                proof {
                    assert(new_rest == old_rest.push(before[i as int]));
                    assert(kept.deep_view() =~= kept_before.push(record@));
                    assert(restriped(new_rest) =~= restriped(old_rest).push(record@));
                }
            } else {
                assert(new_rest == old_rest);
            }
            i = i + 1;
        }
        assert(before.take(rows.len() as int) =~= before);
        self.rows = kept;
    }

    /// Merges a decoded frame into every row of the frame's message.
    pub fn on_frame(
        &mut self,
        masked_id: u32,
        decoded: &Vec<DecodedSignal>,
        raw_hex: &str,
        now_micros: i64,
    )
        ensures
            final(self)@ == old(self)@.on_frame(
                masked_id,
                decoded.deep_view(),
                raw_hex@,
                now_micros,
            ),
    {
        proof {
            use_type_invariant(&*self);
        }
        let key = hex8(masked_id);
        let mut rows: Vec<TelemetryRecord> = Vec::new();
        std::mem::swap(&mut self.rows, &mut rows);
        let ghost before = rows.deep_view();
        let ghost after = old(self)@.on_frame(
            masked_id,
            decoded.deep_view(),
            raw_hex@,
            now_micros,
        ).rows;
        let mut i: usize = 0;
        while i < rows.len()
            invariant
                i <= rows.len(),
                rows.len() == before.len(),
                key@ == hex_text(masked_id as nat, 8),
                after == (FilterModel { rows: before }).on_frame(
                    masked_id,
                    decoded.deep_view(),
                    raw_hex@,
                    now_micros,
                ).rows,
                forall|k: int| 0 <= k < i ==> rows@[k]@ == after[k],
                forall|k: int| i <= k < rows.len() ==> rows@[k]@ == before[k],
            decreases rows.len() - i,
        {
            if rows[i].id == key {
                rows[i].merge(decoded, raw_hex.to_owned(), now_micros);
            }
            i = i + 1;
        }
        assert(rows.deep_view() =~= after);
        assert forall|k: int| 0 <= k < after.len() implies (#[trigger] after[k]).color == stripe(
            k,
        ) by {
            assert(after[k].color == before[k].color);
        }
        self.rows = rows;
    }
}

/// The rows on display: those of the view while it holds any, those of the
/// table otherwise.
pub fn visible_rows<'a>(table: &'a TelemetryTable, filter: &'a FilterView) -> (r: &'a Vec<
    TelemetryRecord,
>)
    ensures
        r.deep_view() == displayed(table@, filter@),
{
    if filter.is_active() {
        filter.rows()
    } else {
        table.rows()
    }
}

/// What is on display after a decoded frame of a generation arrived. A
/// frame that was decoded with the database of the table's generation is
/// taken by the row of the table and by every row of the view that belongs
/// to the same message. A frame of any other generation was decoded with a
/// database that the table was not made from: it changes nothing.
pub open spec fn display_after(
    table: TableModel,
    filter: FilterModel,
    generation: u64,
    frame_id: u32,
    decoded: Seq<DecodedModel>,
    raw_hex: Seq<char>,
    now_micros: i64,
) -> (TableModel, FilterModel) {
    if generation == table.generation {
        (
            table.on_frame(frame_id, decoded, raw_hex, now_micros),
            filter.on_frame(frame_id, decoded, raw_hex, now_micros),
        )
    } else {
        (table, filter)
    }
}

/// Brings a decoded frame to everything on display, provided that it was
/// decoded with the database that the table was made from: `generation`
/// is the generation of that database. Returns whether a row of the table
/// took the frame.
pub fn update_ui_with_signals(
    table: &mut TelemetryTable,
    filter: &mut FilterView,
    generation: u64,
    frame_id: u32,
    signal_data: &Vec<DecodedSignal>,
    raw_can: String,
    now_micros: i64,
) -> (updated: bool)
    ensures
        (final(table)@, final(filter)@) == display_after(
            old(table)@,
            old(filter)@,
            generation,
            frame_id,
            signal_data.deep_view(),
            raw_can@,
            now_micros,
        ),
        updated == (generation == old(table)@.generation && old(table)@.position(
            hex_text(frame_id as nat, 8),
        ) is Some),
        generation != old(table)@.generation ==> final(table)@ == old(table)@ && final(filter)@
            == old(filter)@,
{
    if table.generation() != generation {
        return false;
    }
    filter.on_frame(frame_id, signal_data, raw_can.as_str(), now_micros);
    table.on_frame(frame_id, signal_data, raw_can, now_micros)
}

/// Brings a decoded frame to everything on display as
/// `update_ui_with_signals` does, stamped with the time of the system's
/// clock. Whatever the clock says, table and view change as they do with
/// that time.
pub fn update_ui_with_signals_now(
    table: &mut TelemetryTable,
    filter: &mut FilterView,
    generation: u64,
    frame_id: u32,
    signal_data: &Vec<DecodedSignal>,
    raw_can: String,
) -> (updated: bool)
    ensures
        exists|now_micros: i64|
            (final(table)@, final(filter)@) == #[trigger] display_after(
                old(table)@,
                old(filter)@,
                generation,
                frame_id,
                signal_data.deep_view(),
                raw_can@,
                now_micros,
            ),
        updated == (generation == old(table)@.generation && old(table)@.position(
            hex_text(frame_id as nat, 8),
        ) is Some),
        generation != old(table)@.generation ==> final(table)@ == old(table)@ && final(filter)@
            == old(filter)@,
{
    let now = now_micros();
    let updated = update_ui_with_signals(
        table,
        filter,
        generation,
        frame_id,
        signal_data,
        raw_can,
        now,
    );
    assert((table@, filter@) == display_after(
        old(table)@,
        old(filter)@,
        generation,
        frame_id,
        signal_data.deep_view(),
        raw_can@,
        now,
    ));
    updated
}

/// A request of the user to include a record in the view or to exclude it.
#[derive(Debug, PartialEq, Eq)]
pub struct PacketFilter {
    /// The row that the request is about.
    pub filter: TelemetryRecord,
    /// `true` to include the row, `false` to exclude its message.
    pub is_check: bool,
}

impl PacketFilter {
    /// Applies the request to a view and says whether the view is shown
    /// afterwards in place of the table.
    pub fn process_filter(self, view: &mut FilterView) -> (shown: bool)
        ensures
            self.is_check ==> final(view)@ == old(view)@.include_record(self.filter@),
            !self.is_check ==> final(view)@ == old(view)@.exclude(self.filter@.id),
            shown == final(view)@.is_active(),
    {
        if self.is_check {
            view.include_record(self.filter);
        } else {
            view.exclude(self.filter.id.as_str());
        }
        view.is_active()
    }
}

} // verus!
