//! The seat of a plugin in the runtime.
//!
//! The runtime calls a plugin through its seat and in no other way. The seat
//! notes every call, and it remembers the plugin as it was handed in. When a
//! plugin is let go of, its seat gives way to a parting note, which says what
//! the plugin was asked in all and which libraries the runtime still kept
//! open when the plugin was stopped. Neither a seat nor a parting note can be
//! made or altered anywhere but here, so what they say is what happened.

use crate::analog::Analog;
use crate::device::{DeviceID, DeviceInfo};
use crate::plugin::{Plugin, Query};
use crate::result::SDKResult;
use std::collections::HashMap;
use vstd::prelude::*;

verus! {

/// The calls that the runtime has made to one of its plugins, the oldest
/// first.
pub type Record = Seq<Query>;

/// A plugin in the runtime: the plugin as it was handed in, and the calls made
/// to it since.
pub ghost struct Seated<P> {
    /// The plugin as it was handed in.
    pub plugin: P,
    /// The calls made to it.
    pub asked: Record,
}

impl<P> Seated<P> {
    /// A plugin that has been handed in and not been called yet.
    pub open spec fn fresh(plugin: P) -> Seated<P> {
        Seated { plugin, asked: Seq::empty() }
    }

    /// The plugin after one more call.
    pub open spec fn noting(self, query: Query) -> Seated<P> {
        Seated { asked: self.asked.push(query), ..self }
    }
}

/// A plugin that the runtime has let go of.
pub ghost struct Parting<P, L> {
    /// The plugin, with all the calls made to it; the last one stopped it.
    pub seated: Seated<P>,
    /// The libraries that the runtime kept open when the plugin was stopped.
    pub libraries: Seq<L>,
}

/// The seat of a plugin.
pub struct Seat<P: Plugin> {
    plugin: P,
    handed_in: Ghost<P>,
    asked: Ghost<Record>,
}

impl<P: Plugin> View for Seat<P> {
    type V = Seated<P>;

    closed spec fn view(&self) -> Seated<P> {
        Seated { plugin: self.handed_in@, asked: self.asked@ }
    }
}

/// The note that is left of a plugin that has been let go of.
pub struct Parted<P, L> {
    seated: Ghost<Seated<P>>,
    libraries: Ghost<Seq<L>>,
}

impl<P, L> View for Parted<P, L> {
    type V = Parting<P, L>;

    closed spec fn view(&self) -> Parting<P, L> {
        Parting { seated: self.seated@, libraries: self.libraries@ }
    }
}

impl<P: Plugin> Seat<P> {
    /// Seats a plugin.
    pub fn new(plugin: P) -> (seat: Seat<P>)
        ensures
            seat@ == Seated::fresh(plugin),
    {
        let ghost handed_in = plugin;
        Seat { plugin, handed_in: Ghost(handed_in), asked: Ghost(Seq::empty()) }
    }

    /// Starts the plugin.
    pub fn initialise(&mut self) -> (found: SDKResult<u32>)
        ensures
            final(self)@ == old(self)@.noting(Query::Initialise),
    {
        self.asked = Ghost(self.asked@.push(Query::Initialise));
        self.plugin.initialise()
    }

    /// Asks the plugin whether it is initialised.
    pub fn is_initialised(&mut self) -> (b: bool)
        ensures
            final(self)@ == old(self)@.noting(Query::IsInitialised),
    {
        self.asked = Ghost(self.asked@.push(Query::IsInitialised));
        self.plugin.is_initialised()
    }

    /// Asks the plugin for its devices.
    pub fn device_info(&mut self) -> (devices: SDKResult<Vec<DeviceInfo>>)
        ensures
            final(self)@ == old(self)@.noting(Query::DeviceInfo),
    {
        self.asked = Ghost(self.asked@.push(Query::DeviceInfo));
        self.plugin.device_info()
    }

    /// Asks the plugin for the level of a key.
    pub fn read_analog(&mut self, code: u16, device: DeviceID) -> (level: SDKResult<Analog>)
        ensures
            final(self)@ == old(self)@.noting(Query::ReadAnalog { code, device }),
    {
        self.asked = Ghost(self.asked@.push(Query::ReadAnalog { code, device }));
        self.plugin.read_analog(code, device)
    }

    /// Asks the plugin for its pressed keys.
    pub fn read_full_buffer(&mut self, max_length: usize, device: DeviceID) -> (data: SDKResult<
        HashMap<u16, Analog>,
    >)
        ensures
            final(self)@ == old(self)@.noting(Query::ReadFullBuffer { max_length, device }),
    {
        self.asked = Ghost(self.asked@.push(Query::ReadFullBuffer { max_length, device }));
        self.plugin.read_full_buffer(max_length, device)
    }

    /// Stops the plugin and lets go of it. `libraries` are the libraries that
    /// the runtime keeps open at this moment; they are still there when the
    /// plugin has gone.
    pub fn unload<L>(self, libraries: &Vec<L>) -> (parted: Parted<P, L>)
        ensures
            parted@ == (Parting { seated: self@.noting(Query::Unload), libraries: libraries@ }),
    {
        let ghost seated = self@.noting(Query::Unload);
        let mut plugin = self.plugin;
        plugin.unload();
        Parted { seated: Ghost(seated), libraries: Ghost(libraries@) }
    }
}

} // verus!
