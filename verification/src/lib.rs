//! Decoding and live-dispatch core of a CAN-bus monitor.
//!
//! Raw bus frames are matched against a signal database, decoded into raw
//! signal values and merged into a table of per-message telemetry records.
//! Bus health, an inclusion filter over the table and the validation of
//! frames typed in for transmission live here too.
//!
//! Every data type has a mathematical model, its view, and every function a
//! contract over those models that Verus proves. The only code taken on
//! trust is the thin layer that calls the `can-dbc` parser, the clock
//! through `chrono` and `std::str::from_utf8`; it lives in `dbc_text` and
//! `clock`.
//!
//! A database may be replaced while frames keep arriving. Every load
//! starts a generation of the table; the worker stamps what it decodes
//! with the generation of the database it used, and the table takes only
//! what carries its own. `laws` proves that no record ever mixes two
//! databases, however loading, decoding and merging interleave.
//!
//! The library performs no input or output and holds no floating-point
//! number. Reading the bus, the files and the clock is the caller's part,
//! and so is the arithmetic that turns a raw value into a physical one.

pub mod bus;
pub mod capture;
mod clock;
pub mod database;
pub mod dbc_text;
pub mod decoder;
pub mod discovery;
pub mod filter;
pub mod frame;
pub mod hex;
pub mod laws;
pub mod reconnect;
pub mod search;
pub mod session;
pub mod telemetry;
pub mod text;
pub mod transmit;

pub use bus::{p_can_bitrate, BusLoadTracker};
pub use capture::DebugHandler;
pub use database::SignalDatabase;
pub use discovery::Init;
pub use filter::{FilterView, PacketFilter};
pub use session::{CanHandler, DBCFile};
pub use telemetry::TelemetryTable;
pub use transmit::{is_valid_can_data, is_valid_can_id};
