//! The frame-processing worker, one iteration at a time.
//!
//! The caller owns the bus and the clock. Once in each iteration it hands
//! the worker what it has read and carries out what the worker answers.
//! A database that was loaded meanwhile waits in a slot of the worker and
//! is put to use at the start of an iteration, never between the steps of
//! one.

use crate::bus::{
    bitrate, frame_bits, BusHealthSample, BusLoadTracker, BusState, TrackerModel,
};
use crate::database::{DatabaseModel, DecodeError, SignalDatabase};
use crate::decoder::{decode, decoded, RawSignal, RawSignalModel};
use crate::filter::{FilterModel, FilterView};
use crate::frame::{mask_id, masked, pad_to_8_bytes, padded, FrameModel, RawFrame};
use crate::hex::{array_to_hex_string, spaced_hex};
use crate::telemetry::{TableModel, TelemetryTable};
use vstd::prelude::*;

verus! {

/// How long the worker rests when no frame was ready, in milliseconds.
pub const IDLE_MS: u64 = 1;

/// What the caller has read for one iteration.
#[derive(Debug, PartialEq, Eq)]
pub struct Poll {
    /// Milliseconds of a clock that does not run backwards.
    pub now_ms: u64,
    /// The error state of the bus.
    pub state: BusState,
    /// The bit rate the bus is configured with.
    pub bitrate: u32,
    /// The frame that was ready, if one was.
    pub frame: Option<RawFrame>,
}

/// What a `Poll` stands for.
pub struct PollModel {
    pub now_ms: u64,
    pub state: BusState,
    pub bitrate: u32,
    pub frame: Option<FrameModel>,
}

impl View for Poll {
    type V = PollModel;

    open spec fn view(&self) -> PollModel {
        PollModel {
            now_ms: self.now_ms,
            state: self.state,
            bitrate: self.bitrate,
            frame: match self.frame {
                Some(frame) => Some(frame@),
                None => None,
            },
        }
    }
}

/// Whether an iteration put a waiting database to use.
#[derive(Clone, Copy, Debug, PartialEq, Eq, Structural)]
pub enum Swap {
    /// No database was waiting.
    Unchanged,
    /// The first database of the session was put to use. This is no
    /// hot-swap: nothing was replaced.
    FirstLoad,
    /// A database replaced the one in use while frames keep arriving.
    HotSwap,
}

/// A database with the generation of the table that was made from it.
#[derive(Debug, PartialEq, Eq)]
pub struct LoadedDatabase {
    pub database: SignalDatabase,
    pub generation: u64,
}

/// What a `LoadedDatabase` stands for.
pub struct LoadedModel {
    pub database: DatabaseModel,
    pub generation: u64,
}

impl View for LoadedDatabase {
    type V = LoadedModel;

    open spec fn view(&self) -> LoadedModel {
        LoadedModel { database: self.database@, generation: self.generation }
    }
}

/// A frame of a known message, decoded: what the table is to merge.
#[derive(Debug, PartialEq, Eq)]
pub struct FrameUpdate {
    /// The generation of the database that the frame was decoded with.
    pub generation: u64,
    /// The frame's identifier with the top bit cleared.
    pub masked_id: u32,
    /// The payload as it arrived, as spaced hexadecimal pairs.
    pub raw_hex: String,
    /// The raw value of each signal.
    pub signals: Vec<RawSignal>,
}

/// What a `FrameUpdate` stands for.
pub struct FrameUpdateModel {
    pub generation: u64,
    pub masked_id: u32,
    pub raw_hex: Seq<char>,
    pub signals: Seq<RawSignalModel>,
}

impl View for FrameUpdate {
    type V = FrameUpdateModel;

    open spec fn view(&self) -> FrameUpdateModel {
        FrameUpdateModel {
            generation: self.generation,
            masked_id: self.masked_id,
            raw_hex: self.raw_hex@,
            signals: self.signals.deep_view(),
        }
    }
}

/// What the worker answers to one iteration.
#[derive(Debug, PartialEq, Eq)]
pub struct Outcome {
    /// The health of the bus, to be shown.
    pub health: BusHealthSample,
    /// Whether a waiting database was put to use.
    pub swap: Swap,
    /// The decoded frame, if the frame belongs to a message of the
    /// database.
    pub update: Option<FrameUpdate>,
    /// How long to rest before the next iteration, if no frame was ready.
    pub idle_ms: Option<u64>,
}

/// What an `Outcome` stands for.
pub struct OutcomeModel {
    pub health: BusHealthSample,
    pub swap: Swap,
    pub update: Option<FrameUpdateModel>,
    pub idle_ms: Option<u64>,
}

impl View for Outcome {
    type V = OutcomeModel;

    open spec fn view(&self) -> OutcomeModel {
        OutcomeModel {
            health: self.health,
            swap: self.swap,
            update: match self.update {
                Some(update) => Some(update@),
                None => None,
            },
            idle_ms: self.idle_ms,
        }
    }
}

/// What a `CanHandler` stands for.
pub struct HandlerModel {
    pub bitrate: Seq<char>,
    pub database: Option<LoadedModel>,
    pub pending: Option<LoadedModel>,
    pub first_load: bool,
    pub tracker: TrackerModel,
}

impl HandlerModel {
    /// The worker with a database in its slot. A database that was still
    /// waiting there is replaced.
    pub open spec fn offer(self, loaded: LoadedModel) -> HandlerModel {
        HandlerModel { pending: Some(loaded), ..self }
    }

    /// Whether the next iteration puts a database to use, and as what.
    pub open spec fn swap(self) -> Swap {
        match self.pending {
            Some(_) => if self.first_load {
                Swap::FirstLoad
            } else {
                Swap::HotSwap
            },
            None => Swap::Unchanged,
        }
    }

    /// The database that an iteration decodes with: the waiting one, if
    /// there is one, else the one in use.
    pub open spec fn database_in_step(self) -> Option<LoadedModel> {
        match self.pending {
            Some(loaded) => Some(loaded),
            None => self.database,
        }
    }

    /// What a frame decodes to against a database: nothing without a
    /// database or without a message for the frame's identifier. The
    /// update carries the generation of the database.
    pub open spec fn update_for(loaded: Option<LoadedModel>, frame: FrameModel) -> Option<
        FrameUpdateModel,
    > {
        match loaded {
            Some(loaded) => match loaded.database.lookup(frame.id) {
                Some(message) => Some(
                    FrameUpdateModel {
                        generation: loaded.generation,
                        masked_id: masked(frame.id),
                        raw_hex: spaced_hex(frame.data),
                        signals: decoded(padded(frame.data), message),
                    },
                ),
                None => None,
            },
            None => None,
        }
    }

    /// Whether an iteration can count the frame it was handed.
    pub open spec fn has_room(self, poll: PollModel) -> bool {
        match poll.frame {
            Some(frame) => self.tracker.poll(poll.now_ms).total_bits + frame_bits(frame.data.len())
                <= u64::MAX,
            None => true,
        }
    }

    /// The worker after an iteration.
    pub open spec fn after(self, poll: PollModel) -> HandlerModel {
        let polled = self.tracker.poll(poll.now_ms);
        HandlerModel {
            database: self.database_in_step(),
            pending: None,
            first_load: self.first_load && self.pending is None,
            tracker: match poll.frame {
                Some(frame) => polled.observe(frame.data.len()),
                None => polled,
            },
            ..self
        }
    }

    /// What the worker answers to an iteration.
    pub open spec fn outcome(self, poll: PollModel) -> OutcomeModel {
        OutcomeModel {
            health: BusHealthSample {
                state: poll.state,
                bitrate: poll.bitrate,
                load: self.tracker.reading(poll.now_ms, poll.bitrate),
            },
            swap: self.swap(),
            update: match poll.frame {
                Some(frame) => Self::update_for(self.database_in_step(), frame),
                None => None,
            },
            idle_ms: match poll.frame {
                Some(_) => None,
                None => Some(IDLE_MS),
            },
        }
    }
}

/// The frame-processing worker: the database in use, the slot for the
/// database that is to replace it, and the count of the bus load.
#[derive(Debug)]
pub struct CanHandler {
    bitrate: String,
    dbc: Option<LoadedDatabase>,
    pending: Option<LoadedDatabase>,
    first_load: bool,
    tracker: BusLoadTracker,
}

impl View for CanHandler {
    type V = HandlerModel;

    closed spec fn view(&self) -> HandlerModel {
        HandlerModel {
            bitrate: self.bitrate@,
            database: match self.dbc {
                Some(loaded) => Some(loaded@),
                None => None,
            },
            pending: match self.pending {
                Some(loaded) => Some(loaded@),
                None => None,
            },
            first_load: self.first_load,
            tracker: self.tracker@,
        }
    }
}

impl CanHandler {
    /// A worker without a database, for a bus with the bit rate that a
    /// label names. The first window of the bus load starts at `now_ms`.
    pub fn new(bitrate: String, now_ms: u64) -> (r: Self)
        ensures
            r@ == (HandlerModel {
                bitrate: bitrate@,
                database: None,
                pending: None,
                first_load: true,
                tracker: TrackerModel { total_bits: 0, window_start_ms: now_ms },
            }),
    {
        CanHandler {
            bitrate,
            dbc: None,
            pending: None,
            first_load: true,
            tracker: BusLoadTracker::new(now_ms),
        }
    }

    /// The bit rate in bits per second that the worker's label names.
    pub fn bitrate(&self) -> (r: Option<u32>)
        ensures
            r == crate::bus::label_bits_per_second(self@.bitrate),
    {
        bitrate(self.bitrate.as_str())
    }

    /// The database in use, with its generation.
    pub fn database(&self) -> (r: Option<&LoadedDatabase>)
        ensures
            match r {
                Some(loaded) => self@.database == Some(loaded@),
                None => self@.database is None,
            },
    {
        self.dbc.as_ref()
    }

    /// Puts a database into the slot. The next iteration puts it to use.
    pub fn offer_database(&mut self, loaded: LoadedDatabase)
        ensures
            final(self)@ == old(self)@.offer(loaded@),
    {
        self.pending = Some(loaded);
    }

    /// Whether the worker can count the frame of a poll without its count
    /// of bits leaving its range.
    pub fn has_room(&self, poll: &Poll) -> (r: bool)
        ensures
            r == self@.has_room(poll@),
    {
        match &poll.frame {
            Some(frame) => self.tracker.has_room_after_poll(poll.now_ms, frame.data.len()),
            None => true,
        }
    }

    /// One iteration of the worker. In this order: the load of the bus is
    /// taken; a waiting database is put to use; the frame, if there is
    /// one, is counted and decoded against the database now in use, and
    /// the update carries the generation of that database. Without a
    /// frame the answer asks for a short rest.
    pub fn process_can_messages(&mut self, poll: &Poll) -> (r: Outcome)
        requires
            old(self)@.has_room(poll@),
        ensures
            final(self)@ == old(self)@.after(poll@),
            r@ == old(self)@.outcome(poll@),
    {
        let load = self.tracker.poll(poll.now_ms, poll.bitrate);
        let health = BusHealthSample { state: poll.state, bitrate: poll.bitrate, load };
        let swap = match self.pending.take() {
            Some(loaded) => {
                let swap = if self.first_load {
                    Swap::FirstLoad
                } else {
                    Swap::HotSwap
                };
                self.dbc = Some(loaded);
                self.first_load = false;
                swap
            },
            None => Swap::Unchanged,
        };
        match &poll.frame {
            Some(frame) => {
                self.tracker.observe(frame.data.len());
                let update = match &self.dbc {
                    Some(loaded) => match loaded.database.lookup(frame.id) {
                        Some(message) => {
                            let payload = pad_to_8_bytes(frame.data.as_slice());
                            Some(
                                FrameUpdate {
                                    generation: loaded.generation,
                                    masked_id: mask_id(frame.id),
                                    raw_hex: array_to_hex_string(frame.data.as_slice()),
                                    signals: decode(payload.as_slice(), message),
                                },
                            )
                        },
                        None => None,
                    },
                    None => None,
                };
                Outcome { health, swap, update, idle_ms: None }
            },
            None => Outcome { health, swap, update: None, idle_ms: Some(IDLE_MS) },
        }
    }
}

/// A database description as it was read from a file.
#[derive(Debug, PartialEq, Eq)]
pub struct DBCFile {
    /// The bytes of the file.
    pub data: Vec<u8>,
}

impl DBCFile {
    /// Loads the description and, if that succeeds, puts the table and the
    /// filter view in the state of a fresh load: one fresh record for each
    /// message, no row chosen, the next generation. The database comes
    /// back with that generation, to be offered to the worker. If the
    /// description is malformed nothing changes.
    pub fn process_dbc_file(
        &self,
        table: &mut TelemetryTable,
        filter: &mut FilterView,
    ) -> (r: Result<LoadedDatabase, DecodeError>)
        requires
            old(table)@.generation < u64::MAX,
        ensures
            match r {
                Ok(loaded) => {
                    &&& crate::database::loaded(self.data@) == Ok::<DatabaseModel, DecodeError>(
                        loaded@.database,
                    )
                    &&& final(table)@ == old(table)@.load(loaded@.database)
                    &&& loaded@.generation == final(table)@.generation
                    &&& final(filter)@ == FilterModel::empty()
                },
                Err(e) => {
                    &&& crate::database::loaded(self.data@) == Err::<DatabaseModel, DecodeError>(e)
                    &&& final(table)@ == old(table)@
                    &&& final(filter)@ == old(filter)@
                },
            },
    {
        match SignalDatabase::load(self.data.as_slice()) {
            Ok(database) => {
                filter.clear();
                table.load_database(&database);
                Ok(LoadedDatabase { database, generation: table.generation() })
            },
            Err(e) => Err(e),
        }
    }
}

} // verus!
