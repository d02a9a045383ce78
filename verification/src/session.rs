//! A measurement run: the devices under watch, where an event goes, and the
//! closing report.

use crate::stats::{DeviceStats, StatsModel};
use crate::text::{listing_line, listing_text, reads};
use vstd::prelude::*;
use vstd::string::*;

verus! {

/// Position of the mouse in a run over the fixed pair of devices.
pub const MOUSE: usize = 0;

/// Position of the keyboard in a run over the fixed pair of devices.
pub const KEYBOARD: usize = 1;

/// What a run amounts to: whether it shows each sample, and the records of
/// its devices in the order in which they were added.
pub struct SessionModel {
    pub verbose: bool,
    pub devices: Seq<StatsModel>,
}

impl SessionModel {
    /// Whether a device stands at position `device`.
    pub open spec fn holds(self, device: int) -> bool {
        0 <= device < self.devices.len()
    }

    /// The run after an event of the device at position `device` at `now`.
    /// An event for a position that holds no device changes nothing.
    pub open spec fn after_event(self, device: int, now: u64) -> SessionModel {
        if self.holds(device) {
            SessionModel {
                devices: self.devices.update(device, self.devices[device].observe(now)),
                ..self
            }
        } else {
            self
        }
    }

    /// The line shown for that event, if there is one.
    pub open spec fn line_for(self, device: int, now: u64) -> Option<Seq<char>> {
        if self.holds(device) {
            self.devices[device].line_at(now, self.verbose)
        } else {
            None
        }
    }
}

/// The closing lines of a run: one for each device whose average is not
/// zero, in the order of the devices.
pub open spec fn closing_lines(devices: Seq<StatsModel>) -> Seq<Seq<char>>
    decreases devices.len(),
{
    if devices.len() == 0 {
        Seq::empty()
    } else {
        let before = closing_lines(devices.drop_last());
        match devices.last().closing_line() {
            Some(text) => before.push(text),
            None => before,
        }
    }
}

/// The devices of one run and their records.
pub struct Session {
    verbose: bool,
    devices: Vec<DeviceStats>,
}

impl View for Session {
    type V = SessionModel;

    closed spec fn view(&self) -> SessionModel {
        SessionModel {
            verbose: self.verbose,
            devices: Seq::new(self.devices@.len(), |i: int| self.devices@[i]@),
        }
    }
}

impl Session {
    /// A run without devices.
    pub fn new(verbose: bool) -> (session: Session)
        ensures
            session@.verbose == verbose,
            session@.devices == Seq::<StatsModel>::empty(),
    {
        let session = Session { verbose, devices: Vec::new() };
        assert(session@.devices =~= Seq::<StatsModel>::empty());
        session
    }

    /// Puts the device `name` under watch, behind those already there.
    /// Returns the line that announces it under its `id`, if the run is
    /// verbose.
    pub fn add_device(&mut self, id: &str, name: String) -> (listing: Option<String>)
        ensures
            final(self)@.verbose == old(self)@.verbose,
            final(self)@.devices == old(self)@.devices.push(StatsModel::fresh(name@)),
            reads(
                listing,
                if old(self)@.verbose {
                    Some(listing_text(id@, name@))
                } else {
                    None
                },
            ),
    {
        let listing = if self.verbose {
            Some(listing_line(id, name.as_str()))
        } else {
            None
        };
        self.devices.push(DeviceStats::new(name));
        assert(self@.devices =~= old(self)@.devices.push(StatsModel::fresh(name@)));
        listing
    }

    /// A run over the fixed pair of devices, for systems that do not tell
    /// devices apart: the mouse at `MOUSE`, the keyboard at `KEYBOARD`. With
    /// it come the lines that announce the two, if the run is verbose.
    pub fn fixed_pair(verbose: bool) -> (run: (Session, Vec<String>))
        ensures
            run.0@.verbose == verbose,
            run.0@.devices == seq![
                StatsModel::fresh("Mouse"@),
                StatsModel::fresh("Keyboard"@),
            ],
            verbose ==> run.1.deep_view() == seq![
                listing_text("device0"@, "Mouse"@),
                listing_text("device1"@, "Keyboard"@),
            ],
            !verbose ==> run.1@.len() == 0,
    {
        let mut session = Session::new(verbose);
        let mut lines: Vec<String> = Vec::new();
        if let Some(line) = session.add_device("device0", String::from_str("Mouse")) {
            lines.push(line);
        }
        if let Some(line) = session.add_device("device1", String::from_str("Keyboard")) {
            lines.push(line);
        }
        proof {
            assert(session@.devices =~= seq![
                StatsModel::fresh("Mouse"@),
                StatsModel::fresh("Keyboard"@),
            ]);
            if verbose {
                assert(lines.deep_view() =~= seq![
                    listing_text("device0"@, "Mouse"@),
                    listing_text("device1"@, "Keyboard"@),
                ]);
            }
        }
        (session, lines)
    }

    /// Takes in an event of the device at position `device` that happened at
    /// `now`. Returns the line to show for it, if there is one. An event for
    /// a position that holds no device is dropped.
    pub fn record(&mut self, device: usize, now: u64) -> (line: Option<String>)
        ensures
            final(self)@ == old(self)@.after_event(device as int, now),
            reads(line, old(self)@.line_for(device as int, now)),
            old(self)@.holds(device as int) ==> final(self)@.devices[device as int].consistent(),
    {
        if device >= self.devices.len() {
            return None;
        }
        let verbose = self.verbose;
        let line = self.devices[device].update(now, verbose);
        proof {
            assert(self@.devices =~= old(self)@.devices.update(
                device as int,
                old(self)@.devices[device as int].observe(now),
            ));
        }
        line
    }

    /// The closing lines of the run.
    pub fn summary(&self) -> (lines: Vec<String>)
        ensures
            lines.deep_view() == closing_lines(self@.devices),
    {
        let mut lines: Vec<String> = Vec::new();
        let n: usize = self.devices.len();
        let mut i: usize = 0;
        proof {
            assert(self@.devices.take(0) =~= Seq::<StatsModel>::empty());
            assert(lines.deep_view() =~= closing_lines(self@.devices.take(0)));
        }
        while i < n
            invariant
                n == self.devices@.len(),
                n == self@.devices.len(),
                i <= n,
                lines.deep_view() == closing_lines(self@.devices.take(i as int)),
            decreases n - i,
        {
            let ghost before = lines.deep_view();
            assert(self@.devices[i as int] == self.devices@[i as int]@);
            let line = self.devices[i].report_final();
            proof {
                assert(self@.devices.take(i + 1).drop_last() =~= self@.devices.take(i as int));
                assert(self@.devices.take(i + 1).last() == self@.devices[i as int]);
            }
            if let Some(text) = line {
                lines.push(text);
                assert(lines.deep_view() =~= before.push(text@));
            }
            i = i + 1;
        }
        proof {
            assert(self@.devices.take(n as int) =~= self@.devices);
        }
        lines
    }

    /// Whether the run shows each sample.
    pub fn verbose(&self) -> (verbose: bool)
        ensures
            verbose == self@.verbose,
    {
        self.verbose
    }

    /// How many devices are under watch.
    pub fn device_count(&self) -> (count: usize)
        ensures
            count == self@.devices.len(),
    {
        self.devices.len()
    }

    /// The record of the device at position `device`, if there is one.
    pub fn device(&self, device: usize) -> (stats: Option<&DeviceStats>)
        ensures
            stats is Some <==> device < self@.devices.len(),
            stats matches Some(found) ==> found@ == self@.devices[device as int],
    {
        if device < self.devices.len() {
            Some(&self.devices[device])
        } else {
            None
        }
    }
}

} // verus!
