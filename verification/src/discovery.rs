//! Watching the list of bus devices: what to announce after each scan.
//!
//! The caller scans for devices about every fifty milliseconds and hands
//! the result over. The answer says what to show, if anything.

use crate::hex::{decimal_string, decimal_text};
use crate::text::same_text;
use vstd::prelude::*;
use vstd::string::*;

verus! {

/// How long to wait between two scans, in milliseconds.
pub const SCAN_INTERVAL_MS: u64 = 50;

/// What a scan for devices gave.
#[derive(Debug, PartialEq, Eq)]
pub enum Scan {
    /// The names of the devices that are there.
    Found(Vec<String>),
    /// The list could not be had; the reason as text.
    Failed(String),
}

/// What a `Scan` stands for.
pub enum ScanModel {
    Found(Seq<Seq<char>>),
    Failed(Seq<char>),
}

impl View for Scan {
    type V = ScanModel;

    open spec fn view(&self) -> ScanModel {
        match self {
            Scan::Found(names) => ScanModel::Found(names.deep_view()),
            Scan::Failed(reason) => ScanModel::Failed(reason@),
        }
    }
}

/// What to show after a scan.
#[derive(Debug, PartialEq, Eq)]
pub enum Announcement {
    /// No device is there: show the message and an empty selection.
    NoDevice { message: String },
    /// The devices differ from those announced last: show the message and
    /// these names.
    Devices { message: String, names: Vec<String> },
    /// The same devices as announced last: show nothing new.
    Unchanged,
    /// The scan failed: show the message and an empty selection.
    Failure { message: String },
}

/// What an `Announcement` stands for.
pub enum AnnouncementModel {
    NoDevice { message: Seq<char> },
    Devices { message: Seq<char>, names: Seq<Seq<char>> },
    Unchanged,
    Failure { message: Seq<char> },
}

impl View for Announcement {
    type V = AnnouncementModel;

    open spec fn view(&self) -> AnnouncementModel {
        match self {
            Announcement::NoDevice { message } => AnnouncementModel::NoDevice { message: message@ },
            Announcement::Devices { message, names } => AnnouncementModel::Devices {
                message: message@,
                names: names.deep_view(),
            },
            Announcement::Unchanged => AnnouncementModel::Unchanged,
            Announcement::Failure { message } => AnnouncementModel::Failure { message: message@ },
        }
    }
}

/// The message for a number of devices.
pub open spec fn found_text(count: nat) -> Seq<char> {
    "Found "@ + decimal_text(count) + " CAN devices\n Please select your device "@
}

/// The message for a scan that failed.
pub open spec fn failure_text(reason: Seq<char>) -> Seq<char> {
    "Can't get device list: "@ + reason
}

/// What is announced after a scan, given the names announced last.
pub open spec fn announced(previous: Seq<Seq<char>>, scan: ScanModel) -> AnnouncementModel {
    match scan {
        ScanModel::Found(names) => if names.len() == 0 {
            AnnouncementModel::NoDevice { message: "No CAN device found !"@ }
        } else if names == previous {
            AnnouncementModel::Unchanged
        } else {
            AnnouncementModel::Devices { message: found_text(names.len()), names }
        },
        ScanModel::Failed(reason) => AnnouncementModel::Failure { message: failure_text(reason) },
    }
}

/// The names that count as announced after a scan: those of the scan if
/// they were announced, the previous ones otherwise.
pub open spec fn remembered(previous: Seq<Seq<char>>, scan: ScanModel) -> Seq<Seq<char>> {
    match announced(previous, scan) {
        AnnouncementModel::Devices { names, .. } => names,
        _ => previous,
    }
}

/// Whether two lists hold the same names in the same order.
pub fn same_names(a: &Vec<String>, b: &Vec<String>) -> (r: bool)
    ensures
        r == (a.deep_view() == b.deep_view()),
{
    if a.len() != b.len() {
        assert(a.deep_view().len() != b.deep_view().len());
        return false;
    }
    let mut i: usize = 0;
    while i < a.len()
        invariant
            i <= a.len(),
            a.len() == b.len(),
            forall|k: int| 0 <= k < i ==> a@[k]@ == b@[k]@,
        decreases a.len() - i,
    {
        if !same_text(a[i].as_str(), b[i].as_str()) {
            assert(a.deep_view()[i as int] != b.deep_view()[i as int]);
            return false;
        }
        i = i + 1;
    }
    assert(a.deep_view() =~= b.deep_view());
    true
}

/// Copies a list of names.
pub fn clone_names(names: &Vec<String>) -> (r: Vec<String>)
    ensures
        r.deep_view() == names.deep_view(),
{
    let mut out: Vec<String> = Vec::new();
    let mut i: usize = 0;
    while i < names.len()
        invariant
            i <= names.len(),
            out.len() == i,
            forall|k: int| 0 <= k < i ==> out@[k]@ == names@[k]@,
        decreases names.len() - i,
    {
        out.push(names[i].clone());
        i = i + 1;
    }
    assert(out.deep_view() =~= names.deep_view());
    out
}

/// The watcher of the device list: it remembers the names it announced
/// last.
#[derive(Debug)]
pub struct Init {
    previous: Vec<String>,
}

impl View for Init {
    type V = Seq<Seq<char>>;

    closed spec fn view(&self) -> Seq<Seq<char>> {
        self.previous.deep_view()
    }
}

impl Init {
    /// A watcher that has announced nothing yet.
    pub fn new() -> (r: Self)
        ensures
            r@ == Seq::<Seq<char>>::empty(),
    {
        let r = Init { previous: Vec::new() };
        assert(r@ =~= Seq::<Seq<char>>::empty());
        r
    }

    /// Decides what to show after a scan. An empty list and a failed scan
    /// are announced every time; a list of devices only when it differs
    /// from the one announced last.
    pub fn run(&mut self, scan: Scan) -> (r: Announcement)
        ensures
            r@ == announced(old(self)@, scan@),
            final(self)@ == remembered(old(self)@, scan@),
    {
        match scan {
            Scan::Found(names) => {
                if names.len() == 0 {
                    Announcement::NoDevice { message: "No CAN device found !".to_owned() }
                } else if same_names(&names, &self.previous) {
                    Announcement::Unchanged
                } else {
                    self.previous = clone_names(&names);
                    let mut message = "Found ".to_owned();
                    let count = decimal_string(names.len() as u64);
                    message.append(count.as_str());
                    message.append(" CAN devices\n Please select your device ");
                    assert(message@ =~= found_text(names.len() as nat));
                    Announcement::Devices { message, names }
                }
            },
            Scan::Failed(reason) => {
                let mut message = "Can't get device list: ".to_owned();
                message.append(reason.as_str());
                Announcement::Failure { message }
            },
        }
    }
}

} // verus!
