//! Bus health: error state, bit rate and the load of the bus over
//! one-second windows.

use crate::text::same_text;
use vstd::prelude::*;
use vstd::string::*;

verus! {

/// The error state of the bus controller.
#[derive(Clone, Copy, Debug, PartialEq, Eq, Structural)]
pub enum BusState {
    ErrorActive,
    ErrorWarning,
    ErrorPassive,
    BusOff,
    Stopped,
    Sleeping,
    Unknown,
}

/// The short name under which a state is shown.
pub open spec fn state_label(state: BusState) -> Seq<char> {
    match state {
        BusState::ErrorActive => "ERR_ACTIVE"@,
        BusState::ErrorWarning => "ERR_WARNING"@,
        BusState::ErrorPassive => "ERR_PASSIVE"@,
        BusState::BusOff => "BUSOFF"@,
        BusState::Stopped => "STOPPED"@,
        BusState::Sleeping => "SLEEPING"@,
        BusState::Unknown => "UNKNOWN"@,
    }
}

impl BusState {
    /// The short name under which the state is shown.
    pub fn label(&self) -> (r: &'static str)
        ensures
            r@ == state_label(*self),
    {
        match self {
            BusState::ErrorActive => "ERR_ACTIVE",
            BusState::ErrorWarning => "ERR_WARNING",
            BusState::ErrorPassive => "ERR_PASSIVE",
            BusState::BusOff => "BUSOFF",
            BusState::Stopped => "STOPPED",
            BusState::Sleeping => "SLEEPING",
            BusState::Unknown => "UNKNOWN",
        }
    }
}

/// The bit rates that can be chosen, as the driver of the USB adapter
/// names them.
#[derive(Clone, Copy, Debug, PartialEq, Eq, Structural)]
pub enum Baudrate {
    Baud1M,
    Baud800K,
    Baud500K,
    Baud250K,
    Baud125K,
    Baud100K,
    Baud95K,
    Baud83,
    Baud50K,
    Baud47K,
    Baud33K,
    Baud20K,
    Baud10K,
    Baud5K,
}

/// The bit rate that a label of the selection stands for.
pub open spec fn label_baudrate(label: Seq<char>) -> Option<Baudrate> {
    if label == "1 Mbit/s"@ {
        Some(Baudrate::Baud1M)
    } else if label == "800 kbit/s"@ {
        Some(Baudrate::Baud800K)
    } else if label == "500 kbit/s"@ {
        Some(Baudrate::Baud500K)
    } else if label == "250 kbit/s"@ {
        Some(Baudrate::Baud250K)
    } else if label == "125 kbit/s"@ {
        Some(Baudrate::Baud125K)
    } else if label == "100 kbit/s"@ {
        Some(Baudrate::Baud100K)
    } else if label == "95.238 kbit/s"@ {
        Some(Baudrate::Baud95K)
    } else if label == "83.333 kbit/s"@ {
        Some(Baudrate::Baud83)
    } else if label == "50 kbit/s"@ {
        Some(Baudrate::Baud50K)
    } else if label == "47.619 kbit/s"@ {
        Some(Baudrate::Baud47K)
    } else if label == "33.333 kbit/s"@ {
        Some(Baudrate::Baud33K)
    } else if label == "20 kbit/s"@ {
        Some(Baudrate::Baud20K)
    } else if label == "10 kbit/s"@ {
        Some(Baudrate::Baud10K)
    } else if label == "5 kbit/s"@ {
        Some(Baudrate::Baud5K)
    } else {
        None
    }
}

/// A bit rate in bits per second.
pub open spec fn bits_per_second(rate: Baudrate) -> u32 {
    match rate {
        Baudrate::Baud1M => 1_000_000,
        Baudrate::Baud800K => 800_000,
        Baudrate::Baud500K => 500_000,
        Baudrate::Baud250K => 250_000,
        Baudrate::Baud125K => 125_000,
        Baudrate::Baud100K => 100_000,
        Baudrate::Baud95K => 95_238,
        Baudrate::Baud83 => 83_333,
        Baudrate::Baud50K => 50_000,
        Baudrate::Baud47K => 47_619,
        Baudrate::Baud33K => 33_333,
        Baudrate::Baud20K => 20_000,
        Baudrate::Baud10K => 10_000,
        Baudrate::Baud5K => 5_000,
    }
}

/// The bit rate in bits per second that a label of the selection stands
/// for.
pub open spec fn label_bits_per_second(label: Seq<char>) -> Option<u32> {
    match label_baudrate(label) {
        Some(rate) => Some(bits_per_second(rate)),
        None => None,
    }
}

impl Baudrate {
    /// The bit rate in bits per second.
    pub fn bits_per_second(&self) -> (r: u32)
        ensures
            r == bits_per_second(*self),
            r > 0,
    {
        match self {
            Baudrate::Baud1M => 1_000_000,
            Baudrate::Baud800K => 800_000,
            Baudrate::Baud500K => 500_000,
            Baudrate::Baud250K => 250_000,
            Baudrate::Baud125K => 125_000,
            Baudrate::Baud100K => 100_000,
            Baudrate::Baud95K => 95_238,
            Baudrate::Baud83 => 83_333,
            Baudrate::Baud50K => 50_000,
            Baudrate::Baud47K => 47_619,
            Baudrate::Baud33K => 33_333,
            Baudrate::Baud20K => 20_000,
            Baudrate::Baud10K => 10_000,
            Baudrate::Baud5K => 5_000,
        }
    }
}

/// The bit rate that a label of the selection stands for; `None` for any
/// other text.
pub fn p_can_bitrate(bitrate: &str) -> (r: Option<Baudrate>)
    ensures
        r == label_baudrate(bitrate@),
{
    if same_text(bitrate, "1 Mbit/s") {
        Some(Baudrate::Baud1M)
    } else if same_text(bitrate, "800 kbit/s") {
        Some(Baudrate::Baud800K)
    } else if same_text(bitrate, "500 kbit/s") {
        Some(Baudrate::Baud500K)
    } else if same_text(bitrate, "250 kbit/s") {
        Some(Baudrate::Baud250K)
    } else if same_text(bitrate, "125 kbit/s") {
        Some(Baudrate::Baud125K)
    } else if same_text(bitrate, "100 kbit/s") {
        Some(Baudrate::Baud100K)
    } else if same_text(bitrate, "95.238 kbit/s") {
        Some(Baudrate::Baud95K)
    } else if same_text(bitrate, "83.333 kbit/s") {
        Some(Baudrate::Baud83)
    } else if same_text(bitrate, "50 kbit/s") {
        Some(Baudrate::Baud50K)
    } else if same_text(bitrate, "47.619 kbit/s") {
        Some(Baudrate::Baud47K)
    } else if same_text(bitrate, "33.333 kbit/s") {
        Some(Baudrate::Baud33K)
    } else if same_text(bitrate, "20 kbit/s") {
        Some(Baudrate::Baud20K)
    } else if same_text(bitrate, "10 kbit/s") {
        Some(Baudrate::Baud10K)
    } else if same_text(bitrate, "5 kbit/s") {
        Some(Baudrate::Baud5K)
    } else {
        None
    }
}

/// The bit rate in bits per second that a label of the selection stands
/// for; `None` for any other text.
pub fn bitrate(label: &str) -> (r: Option<u32>)
    ensures
        r == label_bits_per_second(label@),
        r matches Some(rate) ==> rate > 0,
{
    match p_can_bitrate(label) {
        Some(rate) => Some(rate.bits_per_second()),
        None => None,
    }
}

/// Bytes that every frame is counted with beyond its payload. This stands
/// in for framing and overhead; bit stuffing is not modelled.
pub const FRAME_OVERHEAD_BYTES: u64 = 6;

/// Length of the window over which the load is taken, in milliseconds.
pub const WINDOW_MS: u64 = 1000;

/// The bits that a frame with a payload of some length is counted with.
pub open spec fn frame_bits(payload_len: nat) -> nat {
    ((payload_len + FRAME_OVERHEAD_BYTES) * 8) as nat
}

/// The load of the bus over one window as the ratio it is: `bits` counted
/// on a bus that carries `bitrate` bits in a second. The load in percent
/// is `bits / bitrate * 100`.
#[derive(Clone, Copy, Debug, PartialEq, Eq, Structural)]
pub struct BusLoad {
    pub bits: u64,
    pub bitrate: u32,
}

impl BusLoad {
    /// The load in percent times `scale`, rounded down: with a scale of one
    /// the whole percent, with a scale of a thousand the load in
    /// thousandths of a percent. Undefined on a bus without a bit rate.
    pub open spec fn scaled_percent(self, scale: u32) -> Option<nat> {
        if self.bitrate == 0 {
            None
        } else {
            Some((self.bits * 100 * scale / (self.bitrate as int)) as nat)
        }
    }

    /// Whether the load is above zero, so that it is worth showing.
    pub open spec fn is_update(self) -> bool {
        self.bits > 0 && self.bitrate > 0
    }

    /// The load in percent times `scale`, rounded down.
    pub fn percent_times(&self, scale: u32) -> (r: Option<u128>)
        ensures
            match r {
                Some(value) => self.scaled_percent(scale) == Some(value as nat),
                None => self.scaled_percent(scale) is None,
            },
    {
        if self.bitrate == 0 {
            None
        } else {
            assert(self.bits * 100 * scale <= u128::MAX) by (nonlinear_arith)
                requires
                    self.bits <= u64::MAX,
                    scale <= u32::MAX,
            ;
            assert(self.bits * 100 <= u128::MAX);
            Some((self.bits as u128) * 100 * (scale as u128) / (self.bitrate as u128))
        }
    }

    /// Whether the load is above zero. A load of zero means "nothing new":
    /// it is what every reading between two windows holds.
    pub fn shows(&self) -> (r: bool)
        ensures
            r == self.is_update(),
    {
        self.bits > 0 && self.bitrate > 0
    }
}

/// What a `BusLoadTracker` stands for.
pub struct TrackerModel {
    pub total_bits: u64,
    pub window_start_ms: u64,
}

impl TrackerModel {
    /// Whether a window that started at `window_start_ms` is over at a
    /// time.
    pub open spec fn window_over(self, now_ms: u64) -> bool {
        now_ms >= self.window_start_ms && now_ms - self.window_start_ms >= WINDOW_MS
    }

    /// The tracker after a frame was observed.
    pub open spec fn observe(self, payload_len: nat) -> TrackerModel {
        TrackerModel { total_bits: (self.total_bits + frame_bits(payload_len)) as u64, ..self }
    }

    /// The tracker after it was asked for the load at a time: at the end
    /// of a window it starts anew.
    pub open spec fn poll(self, now_ms: u64) -> TrackerModel {
        if self.window_over(now_ms) {
            TrackerModel { total_bits: 0, window_start_ms: now_ms }
        } else {
            self
        }
    }

    /// The load that is reported at a time: what the window has counted at
    /// its end, zero while it runs.
    pub open spec fn reading(self, now_ms: u64, bitrate: u32) -> BusLoad {
        if self.window_over(now_ms) {
            BusLoad { bits: self.total_bits, bitrate }
        } else {
            BusLoad { bits: 0, bitrate }
        }
    }
}

/// Counts the bits of every frame and reports the load of the bus once in
/// each window of a second.
#[derive(Debug)]
pub struct BusLoadTracker {
    total_bits: u64,
    window_start_ms: u64,
}

impl View for BusLoadTracker {
    type V = TrackerModel;

    closed spec fn view(&self) -> TrackerModel {
        TrackerModel { total_bits: self.total_bits, window_start_ms: self.window_start_ms }
    }
}

impl BusLoadTracker {
    /// A tracker whose first window starts at a time, in milliseconds of a
    /// clock that does not run backwards.
    pub fn new(now_ms: u64) -> (r: Self)
        ensures
            r@ == (TrackerModel { total_bits: 0, window_start_ms: now_ms }),
    {
        BusLoadTracker { total_bits: 0, window_start_ms: now_ms }
    }

    /// The bits counted in the running window.
    pub fn total_bits(&self) -> (r: u64)
        ensures
            r == self@.total_bits,
    {
        self.total_bits
    }

    /// The time at which the running window started.
    pub fn window_start_ms(&self) -> (r: u64)
        ensures
            r == self@.window_start_ms,
    {
        self.window_start_ms
    }

    /// Whether one more frame with a payload of some length can be counted
    /// without the count leaving its range.
    pub fn has_room(&self, payload_len: usize) -> (r: bool)
        ensures
            r == (self@.total_bits + frame_bits(payload_len as nat) <= u64::MAX),
    {
        let bits: u128 = (payload_len as u128 + 6) * 8;
        self.total_bits as u128 + bits <= u64::MAX as u128
    }

    /// Whether one more frame can be counted once the load was asked for
    /// at a time.
    pub fn has_room_after_poll(&self, now_ms: u64, payload_len: usize) -> (r: bool)
        ensures
            r == (self@.poll(now_ms).total_bits + frame_bits(payload_len as nat) <= u64::MAX),
    {
        let counted: u64 = if now_ms >= self.window_start_ms && now_ms - self.window_start_ms
            >= WINDOW_MS {
            0
        } else {
            self.total_bits
        };
        let bits: u128 = (payload_len as u128 + 6) * 8;
        counted as u128 + bits <= u64::MAX as u128
    }

    /// Counts a frame, decoded or not: its payload and six bytes more, at
    /// eight bits each.
    pub fn observe(&mut self, payload_len: usize)
        requires
            old(self)@.total_bits + frame_bits(payload_len as nat) <= u64::MAX,
        ensures
            final(self)@ == old(self)@.observe(payload_len as nat),
            final(self)@.total_bits == old(self)@.total_bits + (payload_len + 6) * 8,
    {
        self.total_bits = self.total_bits + (payload_len as u64 + 6) * 8;
    }

    /// Reports the load at a time. Once a second has passed since the
    /// window started this is the load of that window, and the next window
    /// starts now with nothing counted; before that it is zero.
    pub fn poll(&mut self, now_ms: u64, bitrate: u32) -> (r: BusLoad)
        ensures
            r == old(self)@.reading(now_ms, bitrate),
            final(self)@ == old(self)@.poll(now_ms),
    {
        if now_ms >= self.window_start_ms && now_ms - self.window_start_ms >= WINDOW_MS {
            let load = BusLoad { bits: self.total_bits, bitrate };
            self.total_bits = 0;
            self.window_start_ms = now_ms;
            load
        } else {
            BusLoad { bits: 0, bitrate }
        }
    }
}

/// One sample of the health of the bus.
#[derive(Clone, Copy, Debug, PartialEq, Eq, Structural)]
pub struct BusHealthSample {
    pub state: BusState,
    pub bitrate: u32,
    pub load: BusLoad,
}

} // verus!
