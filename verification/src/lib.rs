//! Multi-pointer input driver: discovers mouse-class devices on the Linux
//! input subsystem, decodes their raw event records, and multiplexes them
//! round-robin into one abstracted event stream.
//!
//! All device I/O (directory walks, `stat`, `open`, capability queries,
//! non-blocking reads) is performed by the embedding program; this crate
//! holds the decisions: candidate validation, capability classification,
//! record decoding, the registry, and the round-robin polling policy.

pub mod drivers;

use vstd::prelude::*;
use crate::drivers::linux_evdev::DriverContainer;
use crate::drivers::linux_evdev::Poller;
use crate::drivers::linux_evdev::PollStep;
use crate::drivers::linux_evdev::ReadOutcome;
use crate::drivers::linux_evdev::spec_poll_start;
use crate::drivers::linux_evdev::spec_poll_step;

verus! {

/// Which backend the caller would prefer, in falling order of preference.
#[derive(Clone, Copy, PartialEq, Eq, Structural, Debug)]
pub enum DriverOptions {
    LinuxEvDev,
    ManyMouse,
}

/// The position of the first preference this library itself can satisfy.
/// The foreign aggregation-library backend is initialized by the embedding
/// program; entries naming it before the returned index are its to try.
pub fn select_backend(preference: &Vec<DriverOptions>) -> (r: Option<usize>)
    ensures
        match r {
            Some(i) => i < preference@.len()
                && preference@[i as int] == DriverOptions::LinuxEvDev
                && forall|j: int| 0 <= j < i ==> preference@[j] != DriverOptions::LinuxEvDev,
            None => forall|j: int| 0 <= j < preference@.len()
                ==> preference@[j] != DriverOptions::LinuxEvDev,
        },
{
    let mut i: usize = 0;
    while i < preference.len()
        invariant
            i <= preference@.len(),
            forall|j: int| 0 <= j < i ==> preference@[j] != DriverOptions::LinuxEvDev,
        decreases preference@.len() - i,
    {
        if preference[i] == DriverOptions::LinuxEvDev {
            return Some(i);
        }
        i = i + 1;
    }
    None
}

/// The polling context: the device registry and the persistent round-robin
/// cursor. Built empty; the embedding program performs the one-time scan
/// (walking the input-device directory, querying each candidate) and feeds
/// each probed device to the registry, then drives poll calls, performing
/// the non-blocking reads this context asks for. The context is meant for
/// one thread: registry and cursor mutate without synchronization.
#[derive(Debug)]
pub struct EventContext {
    pub driver: DriverContainer,
    pub poller: Poller,
}

impl EventContext {
    /// A context with an empty registry and a fresh cursor.
    pub fn new() -> (r: Self)
        ensures
            r.driver.wf(),
            r.driver.available_mice == 0,
            r.poller.cursor == 0,
            !r.poller.scanning,
    {
        EventContext { driver: DriverContainer::new(), poller: Poller::new() }
    }

    /// Begin a poll call: the next step is what the round-robin policy
    /// asks for, starting at the persistent cursor.
    pub fn poll_start(&mut self) -> (r: PollStep)
        requires
            old(self).driver.wf(),
        ensures
            final(self).driver == old(self).driver,
            (final(self).poller, r) == spec_poll_start(
                old(self).poller,
                old(self).driver.available_mice,
            ),
            final(self).poller.scanning ==> final(self).poller.cursor
                < final(self).driver.available_mice
                && final(self).poller.visited < final(self).driver.available_mice,
    {
        self.poller.poll_start(&self.driver)
    }

    /// Continue the poll call in progress with the outcome of the read it
    /// last asked for.
    pub fn poll_step(&mut self, outcome: ReadOutcome) -> (r: PollStep)
        requires
            old(self).driver.wf(),
            old(self).poller.scanning,
            old(self).poller.cursor < old(self).driver.available_mice,
            old(self).poller.visited < old(self).driver.available_mice,
        ensures
            final(self).driver == old(self).driver,
            (final(self).poller, r) == spec_poll_step(
                old(self).poller,
                old(self).driver,
                outcome,
            ),
            final(self).poller.scanning ==> final(self).poller.cursor
                < final(self).driver.available_mice
                && final(self).poller.visited < final(self).driver.available_mice,
    {
        self.poller.poll_step(&self.driver, outcome)
    }

    /// The name of this backend.
    pub fn driver_name(&self) -> (r: &'static str)
        ensures
            r@ == "Linux evdev"@,
    {
        "Linux evdev"
    }

    /// The display-name buffer of one registered device.
    pub fn device_name(&self, id: usize) -> (r: Option<&Vec<u8>>)
        requires
            self.driver.wf(),
        ensures
            id < self.driver.available_mice ==> (r matches Some(nm) && nm@ == self.driver.mice@[
                id as int
            ]->Some_0.name@),
            id >= self.driver.available_mice ==> r is None,
    {
        self.driver.linux_evdev_name(id)
    }

    /// The identifiers of every registered device, in discovery order.
    pub fn get_all_mouse_ids(&self) -> (r: Vec<usize>)
        requires
            self.driver.wf(),
        ensures
            r@.len() == self.driver.available_mice,
            forall|i: int| 0 <= i < r@.len() ==> r@[i] == i,
    {
        self.driver.get_all_ids()
    }

    /// The display-name buffers of every registered device, in discovery
    /// order.
    pub fn get_all_mouse_names(&self) -> (r: Vec<Vec<u8>>)
        requires
            self.driver.wf(),
        ensures
            r@.len() == self.driver.available_mice,
            forall|i: int|
                0 <= i < r@.len() ==> (#[trigger] r@[i])@ == self.driver.mice@[
                    i
                ]->Some_0.name@,
    {
        self.driver.get_all_mouse_names()
    }
}

impl Default for EventContext {
    /// The same empty context [`EventContext::new`] builds.
    fn default() -> (r: Self)
        ensures
            r.driver.wf(),
            r.driver.available_mice == 0,
            r.poller.cursor == 0,
            !r.poller.scanning,
    {
        EventContext::new()
    }
}

} // verus!
