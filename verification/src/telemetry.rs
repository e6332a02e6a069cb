//! The live table of per-message telemetry: one record for each message of
//! the loaded database, updated from decoded frames.

use crate::clock::now_micros;
use crate::database::{DatabaseModel, MessageDefinition, MessageModel, SignalDatabase, SignalModel};
use crate::frame::masked;
use crate::hex::{hex8, hex_text};
use crate::search::{first_index_of, lemma_first_index_is, lemma_first_index_none};
use crate::text::same_text;
use vstd::prelude::*;
use vstd::string::*;

verus! {

/// The striping tag of a row.
#[derive(Clone, Copy, Debug, PartialEq, Eq, Structural)]
pub enum RowColor {
    Even,
    Odd,
}

/// The tag of the row at a position: rows alternate, starting with `Even`.
pub open spec fn stripe(index: int) -> RowColor {
    if index % 2 == 0 {
        RowColor::Even
    } else {
        RowColor::Odd
    }
}

/// The tag of the row at a position.
pub fn stripe_of(index: usize) -> (r: RowColor)
    ensures
        r == stripe(index as int),
{
    if index % 2 == 0 {
        RowColor::Even
    } else {
        RowColor::Odd
    }
}

/// The text that a signal shows until a frame has brought a value.
pub open spec fn placeholder() -> Seq<char> {
    "default"@
}

/// One decoded signal: its name and its physical value as text.
#[derive(Debug, PartialEq, Eq)]
pub struct DecodedSignal {
    pub name: String,
    pub value: String,
}

/// What a `DecodedSignal` stands for.
pub struct DecodedModel {
    pub name: Seq<char>,
    pub value: Seq<char>,
}

impl View for DecodedSignal {
    type V = DecodedModel;

    open spec fn view(&self) -> DecodedModel {
        DecodedModel { name: self.name@, value: self.value@ }
    }
}

impl DeepView for DecodedSignal {
    type V = DecodedModel;

    open spec fn deep_view(&self) -> DecodedModel {
        self@
    }
}

impl Clone for DecodedSignal {
    fn clone(&self) -> (r: Self)
        ensures
            r@ == self@,
    {
        DecodedSignal { name: self.name.clone(), value: self.value.clone() }
    }
}

/// The current value of one signal of a record.
#[derive(Debug, PartialEq, Eq)]
pub struct SignalValue {
    pub name: String,
    pub value: String,
    pub scale: String,
    pub unit: String,
}

/// What a `SignalValue` stands for.
pub struct SignalValueModel {
    pub name: Seq<char>,
    pub value: Seq<char>,
    pub scale: Seq<char>,
    pub unit: Seq<char>,
}

impl View for SignalValue {
    type V = SignalValueModel;

    open spec fn view(&self) -> SignalValueModel {
        SignalValueModel {
            name: self.name@,
            value: self.value@,
            scale: self.scale@,
            unit: self.unit@,
        }
    }
}

impl DeepView for SignalValue {
    type V = SignalValueModel;

    open spec fn deep_view(&self) -> SignalValueModel {
        self@
    }
}

impl Clone for SignalValue {
    fn clone(&self) -> (r: Self)
        ensures
            r@ == self@,
    {
        SignalValue {
            name: self.name.clone(),
            value: self.value.clone(),
            scale: self.scale.clone(),
            unit: self.unit.clone(),
        }
    }
}

/// One row of the table.
#[derive(Debug, PartialEq, Eq)]
pub struct TelemetryRecord {
    /// The masked identifier as eight upper-case hexadecimal digits.
    pub id: String,
    /// The message's name.
    pub name: String,
    /// The message's signals in the order of their definition.
    pub signals: Vec<SignalValue>,
    /// How many frames have updated this record. It stops at the largest
    /// value instead of wrapping.
    pub counter: u64,
    /// The payload of the last frame as spaced hexadecimal pairs.
    pub raw_hex: String,
    /// Microseconds from the update before the last to the last one; a
    /// thousand of them make a millisecond of cycle time. The time is
    /// negative where the clock was set back between the two.
    pub cycle_time_micros: i128,
    /// Microseconds since the epoch at the last update; zero before the
    /// first.
    pub last_update_micros: i64,
    /// The striping tag.
    pub color: RowColor,
}

/// What a `TelemetryRecord` stands for.
pub struct RecordModel {
    pub id: Seq<char>,
    pub name: Seq<char>,
    pub signals: Seq<SignalValueModel>,
    pub counter: u64,
    pub raw_hex: Seq<char>,
    pub cycle_time_micros: i128,
    pub last_update_micros: i64,
    pub color: RowColor,
}

impl View for TelemetryRecord {
    type V = RecordModel;

    open spec fn view(&self) -> RecordModel {
        RecordModel {
            id: self.id@,
            name: self.name@,
            signals: self.signals.deep_view(),
            counter: self.counter,
            raw_hex: self.raw_hex@,
            cycle_time_micros: self.cycle_time_micros,
            last_update_micros: self.last_update_micros,
            color: self.color,
        }
    }
}

impl DeepView for TelemetryRecord {
    type V = RecordModel;

    open spec fn deep_view(&self) -> RecordModel {
        self@
    }
}

/// The names of a list of decoded signals, in order.
pub open spec fn decoded_names(decoded: Seq<DecodedModel>) -> Seq<Seq<char>> {
    decoded.map_values(|d: DecodedModel| d.name)
}

/// The value that a decode holds for a signal name: that of the first
/// entry with the name.
pub open spec fn decoded_value(decoded: Seq<DecodedModel>, name: Seq<char>) -> Option<Seq<char>> {
    match first_index_of(decoded_names(decoded), name) {
        Some(i) => Some(decoded[i].value),
        None => None,
    }
}

/// A signal after a decode was merged into it: the decoded value where the
/// decode holds one for the signal's name, the previous value otherwise.
pub open spec fn merged_signal(
    signal: SignalValueModel,
    decoded: Seq<DecodedModel>,
) -> SignalValueModel {
    match decoded_value(decoded, signal.name) {
        Some(value) => SignalValueModel { value, ..signal },
        None => signal,
    }
}

/// The time from one update to the next in microseconds: the new stamp
/// less the previous one, whichever is the later.
pub open spec fn elapsed_micros(previous: i64, now: i64) -> i128 {
    (now - previous) as i128
}

/// A counter after one more occurrence: it never wraps.
pub open spec fn counted(counter: u64) -> u64 {
    if counter < u64::MAX {
        (counter + 1) as u64
    } else {
        counter
    }
}

/// A record after a frame was merged into it.
pub open spec fn merged_record(
    record: RecordModel,
    decoded: Seq<DecodedModel>,
    raw_hex: Seq<char>,
    now_micros: i64,
) -> RecordModel {
    RecordModel {
        signals: record.signals.map_values(|s: SignalValueModel| merged_signal(s, decoded)),
        counter: counted(record.counter),
        raw_hex,
        cycle_time_micros: elapsed_micros(record.last_update_micros, now_micros),
        last_update_micros: now_micros,
        ..record
    }
}

/// The signal of a fresh record that belongs to a signal definition.
pub open spec fn fresh_signal(signal: SignalModel) -> SignalValueModel {
    SignalValueModel {
        name: signal.name,
        value: placeholder(),
        scale: signal.scale,
        unit: signal.unit,
    }
}

/// The fresh record of a message at a position of the table.
pub open spec fn fresh_record(message: MessageModel, index: int) -> RecordModel {
    RecordModel {
        id: hex_text(masked(message.id) as nat, 8),
        name: message.name,
        signals: message.signals.map_values(|s: SignalModel| fresh_signal(s)),
        counter: 0,
        raw_hex: Seq::empty(),
        cycle_time_micros: 0,
        last_update_micros: 0,
        color: stripe(index),
    }
}

/// The value that a decode holds for a signal name.
pub fn find_decoded<'a>(decoded: &'a Vec<DecodedSignal>, name: &str) -> (r: Option<&'a String>)
    ensures
        match r {
            Some(value) => decoded_value(decoded.deep_view(), name@) == Some(value@),
            None => decoded_value(decoded.deep_view(), name@) is None,
        },
{
    let ghost names = decoded_names(decoded.deep_view());
    let mut i: usize = 0;
    while i < decoded.len()
        invariant
            i <= decoded.len(),
            names == decoded_names(decoded.deep_view()),
            forall|k: int| 0 <= k < i ==> names[k] != name@,
        decreases decoded.len() - i,
    {
        if same_text(decoded[i].name.as_str(), name) {
            proof {
                assert(names[i as int] == name@);
                lemma_first_index_is(names, name@, i as int);
            }
            return Some(&decoded[i].value);
        }
        i = i + 1;
    }
    proof {
        lemma_first_index_none(names, name@);
    }
    None
}

impl TelemetryRecord {
    /// The fresh record of a message at a position of the table: nothing
    /// counted, no payload, every signal at the placeholder.
    pub fn fresh(message: &MessageDefinition, index: usize) -> (r: Self)
        ensures
            r@ == fresh_record(message@, index as int),
    {
        let mut signals: Vec<SignalValue> = Vec::new();
        let mut k: usize = 0;
        while k < message.signals.len()
            invariant
                k <= message.signals.len(),
                signals.len() == k,
                forall|j: int| 0 <= j < k ==> signals@[j]@ == fresh_signal(message.signals@[j]@),
            decreases message.signals.len() - k,
        {
            let definition = &message.signals[k];
            signals.push(
                SignalValue {
                    name: definition.name.clone(),
                    value: "default".to_owned(),
                    scale: definition.scale.clone(),
                    unit: definition.unit.clone(),
                },
            );
            k = k + 1;
        }
        let r = TelemetryRecord {
            id: hex8(crate::frame::mask_id(message.id)),
            name: message.name.clone(),
            signals,
            counter: 0,
            raw_hex: String::new(),
            cycle_time_micros: 0,
            last_update_micros: 0,
            color: stripe_of(index),
        };
        assert(r@.signals =~= fresh_record(message@, index as int).signals);
        r
    }

    /// Merges a decoded frame into the record. Signals that the decode
    /// holds take the decoded value, the others keep theirs; the counter
    /// goes up by one; the cycle time is the new time less the previous
    /// stamp, in microseconds; payload text and time stamp are replaced.
    /// Identifier, name and striping tag stay.
    pub fn merge(&mut self, decoded: &Vec<DecodedSignal>, raw_hex: String, now_micros: i64)
        ensures
            final(self)@ == merged_record(old(self)@, decoded.deep_view(), raw_hex@, now_micros),
            final(self).cycle_time_micros == now_micros - old(self).last_update_micros,
            final(self).last_update_micros == now_micros,
    {
        let mut k: usize = 0;
        while k < self.signals.len()
            invariant
                k <= self.signals.len(),
                self.signals.len() == old(self).signals.len(),
                self.id == old(self).id,
                self.name == old(self).name,
                self.counter == old(self).counter,
                self.last_update_micros == old(self).last_update_micros,
                self.color == old(self).color,
                forall|j: int|
                    0 <= j < k ==> self.signals@[j]@ == merged_signal(
                        old(self).signals@[j]@,
                        decoded.deep_view(),
                    ),
                forall|j: int|
                    k <= j < self.signals.len() ==> self.signals@[j] == old(self).signals@[j],
            decreases self.signals.len() - k,
        {
            match find_decoded(decoded, self.signals[k].name.as_str()) {
                Some(value) => {
                    self.signals[k].value = value.clone();
                },
                None => {},
            }
            k = k + 1;
        }
        if self.counter < u64::MAX {
            self.counter = self.counter + 1;
        }
        self.cycle_time_micros = now_micros as i128 - self.last_update_micros as i128;
        self.last_update_micros = now_micros;
        self.raw_hex = raw_hex;
        assert(self@.signals =~= merged_record(
            old(self)@,
            decoded.deep_view(),
            raw_hex@,
            now_micros,
        ).signals);
    }
}

impl Clone for TelemetryRecord {
    fn clone(&self) -> (r: Self)
        ensures
            r@ == self@,
    {
        let mut signals: Vec<SignalValue> = Vec::new();
        let mut k: usize = 0;
        while k < self.signals.len()
            invariant
                k <= self.signals.len(),
                signals.len() == k,
                forall|j: int| 0 <= j < k ==> signals@[j]@ == self.signals@[j]@,
            decreases self.signals.len() - k,
        {
            signals.push(self.signals[k].clone());
            k = k + 1;
        }
        assert(signals.deep_view() =~= self.signals.deep_view());
        TelemetryRecord {
            id: self.id.clone(),
            name: self.name.clone(),
            signals,
            counter: self.counter,
            raw_hex: self.raw_hex.clone(),
            cycle_time_micros: self.cycle_time_micros,
            last_update_micros: self.last_update_micros,
            color: self.color,
        }
    }
}

/// Where the table stands in its life.
#[derive(Clone, Copy, Debug, PartialEq, Eq, Structural)]
pub enum TableState {
    /// No database was ever loaded.
    Empty,
    /// A database was loaded and no frame has arrived since.
    Loaded,
    /// Frames are arriving.
    Live,
}

/// The text of a signal that does not change while frames arrive: its
/// name, scale and unit.
pub open spec fn signal_shape(signal: SignalValueModel) -> (Seq<char>, Seq<char>, Seq<char>) {
    (signal.name, signal.scale, signal.unit)
}

/// Whether a record is the record of a message at a position, whatever
/// values it has taken since it was created.
pub open spec fn record_of(record: RecordModel, message: MessageModel, index: int) -> bool {
    let fresh = fresh_record(message, index);
    &&& record.id == fresh.id
    &&& record.name == fresh.name
    &&& record.color == fresh.color
    &&& record.signals.map_values(|s: SignalValueModel| signal_shape(s))
        == fresh.signals.map_values(|s: SignalValueModel| signal_shape(s))
}

/// What a `TelemetryTable` stands for. The generation counts the loads:
/// it names the database that the rows were made from.
pub struct TableModel {
    pub rows: Seq<RecordModel>,
    pub state: TableState,
    pub generation: u64,
}

impl TableModel {
    /// The table before any database was loaded.
    pub open spec fn empty() -> TableModel {
        TableModel { rows: Seq::empty(), state: TableState::Empty, generation: 0 }
    }

    /// The table right after a database was loaded as the load of a
    /// generation: one fresh record for each message, in the order of the
    /// database.
    pub open spec fn loaded(database: DatabaseModel, generation: u64) -> TableModel {
        TableModel {
            rows: Seq::new(
                database.messages.len(),
                |i: int| fresh_record(database.messages[i], i),
            ),
            state: TableState::Loaded,
            generation,
        }
    }

    /// The table after one more database was loaded.
    pub open spec fn load(self, database: DatabaseModel) -> TableModel {
        Self::loaded(database, (self.generation + 1) as u64)
    }

    /// The keys of the rows, in order.
    pub open spec fn keys(self) -> Seq<Seq<char>> {
        self.rows.map_values(|r: RecordModel| r.id)
    }

    /// The position of the first row with a key.
    pub open spec fn position(self, key: Seq<char>) -> Option<int> {
        first_index_of(self.keys(), key)
    }

    /// The state after a frame: a table with a database is live.
    pub open spec fn after_frame(state: TableState) -> TableState {
        if state == TableState::Empty {
            TableState::Empty
        } else {
            TableState::Live
        }
    }

    /// The table after a frame: the first row whose key is the identifier
    /// as eight hexadecimal digits takes the frame; without such a row the
    /// rows stay as they are.
    pub open spec fn on_frame(
        self,
        masked_id: u32,
        decoded: Seq<DecodedModel>,
        raw_hex: Seq<char>,
        now_micros: i64,
    ) -> TableModel {
        match self.position(hex_text(masked_id as nat, 8)) {
            Some(i) => TableModel {
                rows: self.rows.update(
                    i,
                    merged_record(self.rows[i], decoded, raw_hex, now_micros),
                ),
                state: Self::after_frame(self.state),
                generation: self.generation,
            },
            None => TableModel { state: Self::after_frame(self.state), ..self },
        }
    }

    /// Every row carries the striping tag of its position.
    pub open spec fn striped(self) -> bool {
        forall|i: int| 0 <= i < self.rows.len() ==> (#[trigger] self.rows[i]).color == stripe(i)
    }

    /// Every row is the record of the message at its position in one and
    /// the same database, and there is a row for every message.
    pub open spec fn conforms_to(self, database: DatabaseModel) -> bool {
        &&& self.rows.len() == database.messages.len()
        &&& forall|i: int|
            0 <= i < self.rows.len() ==> record_of(#[trigger] self.rows[i], database.messages[i], i)
    }
}

/// The live table: one record for each message of the database that was
/// loaded last.
#[derive(Debug, PartialEq, Eq)]
pub struct TelemetryTable {
    rows: Vec<TelemetryRecord>,
    state: TableState,
    generation: u64,
}

impl View for TelemetryTable {
    type V = TableModel;

    closed spec fn view(&self) -> TableModel {
        TableModel { rows: self.rows.deep_view(), state: self.state, generation: self.generation }
    }
}

impl TelemetryTable {
    #[verifier::type_invariant]
    spec fn well_formed(self) -> bool {
        &&& self@.striped()
        &&& self.state == TableState::Empty ==> self.rows.len() == 0
    }

    /// A table without a database.
    pub fn new() -> (r: Self)
        ensures
            r@ == TableModel::empty(),
    {
        let r = TelemetryTable { rows: Vec::new(), state: TableState::Empty, generation: 0 };
        assert(r@.rows =~= Seq::<RecordModel>::empty());
        r
    }

    /// Replaces every record by a fresh one for each message of a database,
    /// in the order of the database, and moves on to the next generation.
    pub fn load_database(&mut self, database: &SignalDatabase)
        requires
            old(self)@.generation < u64::MAX,
        ensures
            final(self)@ == old(self)@.load(database@),
            final(self)@.conforms_to(database@),
            final(self)@.generation == old(self)@.generation + 1,
    {
        let messages = database.messages();
        let mut rows: Vec<TelemetryRecord> = Vec::new();
        let mut i: usize = 0;
        while i < messages.len()
            invariant
                i <= messages.len(),
                rows.len() == i,
                forall|k: int| 0 <= k < i ==> rows@[k]@ == fresh_record(messages@[k]@, k),
            decreases messages.len() - i,
        {
            rows.push(TelemetryRecord::fresh(&messages[i], i));
            i = i + 1;
        }
        assert(rows.deep_view() =~= old(self)@.load(database@).rows);
        *self = TelemetryTable { rows, state: TableState::Loaded, generation: self.generation + 1 };
    }

    /// The rows in display order. Each carries the striping tag of its
    /// position.
    pub fn rows(&self) -> (r: &Vec<TelemetryRecord>)
        ensures
            r.deep_view() == self@.rows,
            self@.striped(),
            self@.state == TableState::Empty ==> self@.rows.len() == 0,
    {
        proof {
            use_type_invariant(self);
        }
        &self.rows
    }

    /// The generation of the rows: how many databases were loaded so far.
    pub fn generation(&self) -> (r: u64)
        ensures
            r == self@.generation,
    {
        self.generation
    }

    /// Where the table stands in its life.
    pub fn state(&self) -> (r: TableState)
        ensures
            r == self@.state,
    {
        self.state
    }

    /// The position of the first row with a key.
    pub fn find(&self, key: &str) -> (r: Option<usize>)
        ensures
            match r {
                Some(i) => self@.position(key@) == Some(i as int) && i < self@.rows.len(),
                None => self@.position(key@) is None,
            },
    {
        let ghost keys = self@.keys();
        let mut i: usize = 0;
        while i < self.rows.len()
            invariant
                i <= self.rows.len(),
                keys == self@.keys(),
                forall|k: int| 0 <= k < i ==> keys[k] != key@,
            decreases self.rows.len() - i,
        {
            if same_text(self.rows[i].id.as_str(), key) {
                proof {
                    assert(keys[i as int] == key@);
                    lemma_first_index_is(keys, key@, i as int);
                }
                return Some(i);
            }
            i = i + 1;
        }
        proof {
            lemma_first_index_none(keys, key@);
        }
        None
    }

    /// Merges a decoded frame into the row of its message. A frame whose
    /// identifier has no row is dropped: the rows stay exactly as they
    /// were. Returns whether a row took the frame.
    ///
    /// The table merges by signal name and cannot tell with which database
    /// the values were decoded. What the worker decoded goes through
    /// `filter::update_ui_with_signals`, which holds the generation of the
    /// update against that of the table.
    pub fn on_frame(
        &mut self,
        masked_id: u32,
        decoded: &Vec<DecodedSignal>,
        raw_hex: String,
        now_micros: i64,
    ) -> (updated: bool)
        ensures
            final(self)@ == old(self)@.on_frame(
                masked_id,
                decoded.deep_view(),
                raw_hex@,
                now_micros,
            ),
            updated == old(self)@.position(hex_text(masked_id as nat, 8)) is Some,
            !updated ==> final(self)@.rows == old(self)@.rows,
            final(self)@.rows.len() == old(self)@.rows.len(),
    {
        proof {
            use_type_invariant(&*self);
        }
        let key = hex8(masked_id);
        let found = self.find(key.as_str());
        if self.state != TableState::Empty {
            self.state = TableState::Live;
        }
        match found {
            Some(i) => {
                let mut rows: Vec<TelemetryRecord> = Vec::new();
                std::mem::swap(&mut self.rows, &mut rows);
                rows[i].merge(decoded, raw_hex, now_micros);
                assert(rows.deep_view() =~= old(self)@.on_frame(
                    masked_id,
                    decoded.deep_view(),
                    raw_hex@,
                    now_micros,
                ).rows);
                self.rows = rows;
                true
            },
            None => false,
        }
    }

    /// Merges a decoded frame into the row of its message, stamped with
    /// the time of the system's clock. Whatever the clock says, the table
    /// changes as `on_frame` changes it with that time.
    pub fn on_frame_now(
        &mut self,
        masked_id: u32,
        decoded: &Vec<DecodedSignal>,
        raw_hex: String,
    ) -> (updated: bool)
        ensures
            exists|now_micros: i64|
                final(self)@ == #[trigger] old(self)@.on_frame(
                    masked_id,
                    decoded.deep_view(),
                    raw_hex@,
                    now_micros,
                ),
            updated == old(self)@.position(hex_text(masked_id as nat, 8)) is Some,
            !updated ==> final(self)@.rows == old(self)@.rows,
    {
        let now = now_micros();
        let updated = self.on_frame(masked_id, decoded, raw_hex, now);
        assert(self@ == old(self)@.on_frame(masked_id, decoded.deep_view(), raw_hex@, now));
        updated
    }
}

} // verus!
