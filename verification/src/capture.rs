//! The raw capture: a log of the frames as they arrive, newest first, for
//! the identifiers within a range.

use crate::bus::{bitrate, label_bits_per_second};
use crate::frame::{mask_id, masked, FrameModel, RawFrame};
use crate::hex::{decimal_string, decimal_text, hex_string, hex_text};
use vstd::prelude::*;
use vstd::string::*;

verus! {

/// The length beyond which the log gives up an entry for each new one.
pub const MAX_LEN: usize = 1000;

/// How long the capture rests while it is switched on and no frame is
/// ready, in milliseconds.
pub const IDLE_MS: u64 = 1;

/// How long the capture rests while it is switched off, in milliseconds.
pub const DISABLED_IDLE_MS: u64 = 50;

/// One logged frame.
#[derive(Debug, PartialEq, Eq)]
pub struct RawCapture {
    /// When the frame was logged, as text.
    pub time: String,
    /// The payload as a list of decimal numbers, such as `[1, 2, 255]`.
    pub data: String,
    /// The masked identifier, `0x` and eight hexadecimal digits for an
    /// extended identifier, at least three for a standard one.
    pub id: String,
    /// The number of payload bytes.
    pub len: usize,
}

/// What a `RawCapture` stands for.
pub struct CaptureModel {
    pub time: Seq<char>,
    pub data: Seq<char>,
    pub id: Seq<char>,
    pub len: usize,
}

impl View for RawCapture {
    type V = CaptureModel;

    open spec fn view(&self) -> CaptureModel {
        CaptureModel { time: self.time@, data: self.data@, id: self.id@, len: self.len }
    }
}

impl DeepView for RawCapture {
    type V = CaptureModel;

    open spec fn deep_view(&self) -> CaptureModel {
        self@
    }
}

/// Bytes as decimal numbers with a comma and a space between neighbours.
pub open spec fn listed(data: Seq<u8>) -> Seq<char>
    decreases data.len(),
{
    if data.len() == 0 {
        Seq::empty()
    } else if data.len() == 1 {
        decimal_text(data[0] as nat)
    } else {
        listed(data.drop_last()) + seq![',', ' '] + decimal_text(data.last() as nat)
    }
}

/// Bytes as a bracketed list of decimal numbers.
pub open spec fn byte_list_text(data: Seq<u8>) -> Seq<char> {
    seq!['['] + listed(data) + seq![']']
}

/// An identifier as it is logged.
pub open spec fn id_text(id: u32, extended: bool) -> Seq<char> {
    seq!['0', 'x'] + hex_text(id as nat, if extended { 8 } else { 3 })
}

/// The log entry of a frame.
pub open spec fn capture_of(frame: FrameModel, time: Seq<char>) -> CaptureModel {
    CaptureModel {
        time,
        data: byte_list_text(frame.data),
        id: id_text(masked(frame.id), frame.extended),
        len: frame.data.len() as usize,
    }
}

/// The log after an entry was added: the entry comes first; a log that
/// had grown beyond `MAX_LEN` entries gives up the one at that position.
pub open spec fn logged(log: Seq<CaptureModel>, entry: CaptureModel) -> Seq<CaptureModel> {
    seq![entry] + (if log.len() > MAX_LEN {
        log.remove(MAX_LEN as int)
    } else {
        log
    })
}

/// Whether an identifier lies within a range, both ends included.
pub open spec fn within(range: (u32, u32), id: u32) -> bool {
    range.0 <= id && id <= range.1
}

/// What the frame that a step was handed stands for.
pub open spec fn handed(frame: Option<&RawFrame>) -> Option<FrameModel> {
    match frame {
        Some(frame) => Some(frame@),
        None => None,
    }
}

/// What a step of the capture did.
#[derive(Clone, Copy, Debug, PartialEq, Eq, Structural)]
pub enum CaptureStep {
    /// The frame was logged. With it comes the bit rate to show, if the
    /// label names one.
    Logged { bitrate: Option<u32> },
    /// The frame's identifier lies outside the range; nothing was logged.
    Skipped,
    /// There was nothing to do: rest this long.
    Idle { millis: u64 },
}

/// What a `DebugHandler` stands for.
pub struct DebugModel {
    pub bitrate: Seq<char>,
    pub filter: (u32, u32),
    pub enabled: bool,
    pub log: Seq<CaptureModel>,
}

impl DebugModel {
    /// What a step does with the frame it was handed, at a time.
    pub open spec fn step(self, frame: Option<FrameModel>) -> CaptureStep {
        if !self.enabled {
            CaptureStep::Idle { millis: DISABLED_IDLE_MS }
        } else {
            match frame {
                None => CaptureStep::Idle { millis: IDLE_MS },
                Some(frame) => if within(self.filter, masked(frame.id)) {
                    CaptureStep::Logged { bitrate: label_bits_per_second(self.bitrate) }
                } else {
                    CaptureStep::Skipped
                },
            }
        }
    }

    /// The capture after a step.
    pub open spec fn after(self, frame: Option<FrameModel>, time: Seq<char>) -> DebugModel {
        match (self.step(frame), frame) {
            (CaptureStep::Logged { .. }, Some(frame)) => DebugModel {
                log: logged(self.log, capture_of(frame, time)),
                ..self
            },
            _ => self,
        }
    }
}

/// The raw capture of the frames on the bus.
#[derive(Debug)]
pub struct DebugHandler {
    /// The label of the bit rate that the bus was started with.
    pub bitrate: String,
    /// The range of masked identifiers that are logged, both ends
    /// included.
    pub filter: (u32, u32),
    enabled: bool,
    log: Vec<RawCapture>,
}

impl View for DebugHandler {
    type V = DebugModel;

    closed spec fn view(&self) -> DebugModel {
        DebugModel {
            bitrate: self.bitrate@,
            filter: self.filter,
            enabled: self.enabled,
            log: self.log.deep_view(),
        }
    }
}

/// Renders bytes as a bracketed list of decimal numbers.
pub fn byte_list(data: &[u8]) -> (r: String)
    ensures
        r@ == byte_list_text(data@),
{
    let mut out = String::new();
    proof {
        reveal_strlit("[");
    }
    out.append("[");
    let mut i: usize = 0;
    proof {
        assert(data@.take(0) =~= Seq::<u8>::empty());
        assert(out@ =~= seq!['['] + listed(data@.take(0)));
    }
    while i < data.len()
        invariant
            i <= data.len(),
            out@ == seq!['['] + listed(data@.take(i as int)),
        decreases data.len() - i,
    {
        let ghost before = out@;
        if i > 0 {
            proof {
                reveal_strlit(", ");
            }
            out.append(", ");
        }
        let number = decimal_string(data[i] as u64);
        out.append(number.as_str());
        proof {
            let next = data@.take(i + 1);
            assert(next.drop_last() =~= data@.take(i as int));
            assert(next.last() == data@[i as int]);
            if i == 0 {
                assert(listed(data@.take(0)) =~= Seq::<char>::empty());
                assert(out@ =~= seq!['['] + listed(next));
            } else {
                assert(out@ =~= before + seq![',', ' '] + decimal_text(data@[i as int] as nat));
                assert(out@ =~= seq!['['] + listed(next));
            }
        }
        i = i + 1;
    }
    proof {
        reveal_strlit("]");
        assert(data@.take(data@.len() as int) =~= data@);
    }
    out.append("]");
    out
}

/// Renders an identifier as it is logged.
pub fn identifier_text(id: u32, extended: bool) -> (r: String)
    ensures
        r@ == id_text(id, extended),
{
    let mut out = String::new();
    proof {
        reveal_strlit("0x");
    }
    out.append("0x");
    let digits = hex_string(id as u64, if extended { 8 } else { 3 });
    out.append(digits.as_str());
    assert(out@ =~= id_text(id, extended));
    out
}

impl DebugHandler {
    /// A capture that is switched off, with an empty log.
    pub fn new(bitrate: String, filter: (u32, u32)) -> (r: Self)
        ensures
            r@ == (DebugModel { bitrate: bitrate@, filter, enabled: false, log: Seq::empty() }),
    {
        let r = DebugHandler { bitrate, filter, enabled: false, log: Vec::new() };
        assert(r@.log =~= Seq::<CaptureModel>::empty());
        r
    }

    /// Switches the capture on or off.
    pub fn set_enabled(&mut self, enabled: bool)
        ensures
            final(self)@ == (DebugModel { enabled, ..old(self)@ }),
    {
        self.enabled = enabled;
    }

    /// Whether the capture is switched on, so that frames are to be
    /// handed to it.
    pub fn is_enabled(&self) -> (r: bool)
        ensures
            r == self@.enabled,
    {
        self.enabled
    }

    /// The log, newest entry first.
    pub fn log(&self) -> (r: &Vec<RawCapture>)
        ensures
            r.deep_view() == self@.log,
    {
        &self.log
    }

    /// One step of the capture. A capture that is switched off rests; one
    /// that is switched on logs the frame if its masked identifier lies
    /// within the range, and rests briefly if it was handed none. The
    /// caller reads the clock: `time` is the stamp that a logged frame
    /// gets.
    pub fn run(&mut self, frame: Option<&RawFrame>, time: String) -> (r: CaptureStep)
        ensures
            r == old(self)@.step(handed(frame)),
            final(self)@ == old(self)@.after(handed(frame), time@),
    {
        if !self.enabled {
            return CaptureStep::Idle { millis: DISABLED_IDLE_MS };
        }
        let frame = match frame {
            Some(frame) => frame,
            None => {
                return CaptureStep::Idle { millis: IDLE_MS };
            },
        };
        let id = mask_id(frame.id);
        if !(self.filter.0 <= id && id <= self.filter.1) {
            return CaptureStep::Skipped;
        }
        let entry = RawCapture {
            time,
            data: byte_list(frame.data.as_slice()),
            id: identifier_text(id, frame.extended),
            len: frame.data.len(),
        };
        let ghost before = self.log.deep_view();
        if self.log.len() > MAX_LEN {
            self.log.remove(MAX_LEN);
            assert(self.log.deep_view() =~= before.remove(MAX_LEN as int));
        }
        let ghost kept = self.log.deep_view();
        self.log.insert(0, entry);
        assert(self.log.deep_view() =~= seq![entry@] + kept);
        CaptureStep::Logged { bitrate: bitrate(self.bitrate.as_str()) }
    }
}

} // verus!
