//! Monitors, as the windowing library reports them.

use vstd::prelude::*;
use glutin::{AvailableMonitorsIter, MonitorId};
use crate::window::{WindowError, name_matches, select_monitor};

verus! {

/// glutin's handle of a monitor, carried through unopened.
#[verifier::external_type_specification]
#[verifier::external_body]
pub struct ExMonitorId(MonitorId);

/// glutin's iterator over the available monitors, carried through unopened.
#[verifier::external_type_specification]
#[verifier::external_body]
pub struct ExAvailableMonitorsIter(AvailableMonitorsIter);

/// Relies on the derived `Clone` of glutin's `MonitorId`; nothing is
/// claimed of the copy.
pub assume_specification[ <MonitorId as Clone>::clone ](monitor: &MonitorId) -> MonitorId;

/// Relies on glutin's `MonitorId::get_name`: the monitor's human-readable
/// name, or `None` where the platform gives none.
#[verifier::external_body]
fn monitor_name(monitor: &MonitorId) -> Option<String> {
    monitor.get_name()
}

/// The monitors that an `AvailableMonitorsIter` has still to hand out,
/// front first.
pub uninterp spec fn monitors_left(iter: AvailableMonitorsIter) -> Seq<MonitorId>;

/// Relies on glutin's `AvailableMonitorsIter::next`, which walks a list of
/// monitors fetched once, front to back: it hands out the first monitor
/// left and drops it from the rest, or `None` once none is left.
#[verifier::external_body]
fn next_monitor(iter: &mut AvailableMonitorsIter) -> (r: Option<MonitorId>)
    ensures
        match r {
            Some(m) => {
                &&& monitors_left(*old(iter)).len() > 0
                &&& m == monitors_left(*old(iter))[0]
                &&& monitors_left(*final(iter)) == monitors_left(*old(iter)).drop_first()
            },
            None => {
                &&& monitors_left(*old(iter)).len() == 0
                &&& monitors_left(*final(iter)).len() == 0
            },
        },
{
    iter.next()
}

/// A name, or the empty string where there is none.
pub fn name_or_empty(name: Option<String>) -> (s: String)
    ensures
        s@ == match name {
            Some(n) => n@,
            None => Seq::<char>::empty(),
        },
{
    match name {
        Some(n) => n,
        None => String::new(),
    }
}

/// A monitor or display.
#[derive(Clone, Debug)]
pub struct Monitor {
    monitor: MonitorId,
}

impl View for Monitor {
    type V = MonitorId;

    /// The windowing library's handle of this monitor.
    closed spec fn view(&self) -> MonitorId {
        self.monitor
    }
}

impl Monitor {
    /// Wraps a monitor of the windowing library.
    pub fn new(monitor: MonitorId) -> (m: Monitor)
        ensures
            m@ == monitor,
    {
        Monitor { monitor }
    }

    /// The windowing library's handle of this monitor.
    pub fn id(&self) -> (id: &MonitorId)
        ensures
            *id == self@,
    {
        &self.monitor
    }

    /// Gets the name of the monitor, or the empty string where the platform
    /// gives none. This can be used to create a fullscreen window.
    pub fn get_name(&self) -> String {
        name_or_empty(monitor_name(&self.monitor))
    }
}

/// Picks, among `monitors` whose names are `names` (one for each, `None`
/// where the platform gives none), the one called `target`; the last such
/// where several share it, `UnknownMonitor` where none has it.
pub fn pick_monitor(monitors: Vec<Monitor>, names: &Vec<Option<String>>, target: &String) -> (r:
    Result<Monitor, WindowError>)
    requires
        names@.len() == monitors@.len(),
    ensures
        r is Ok <==> exists|j: int| 0 <= j < names@.len() && name_matches(names@[j], target@),
        r is Err ==> r == Err::<Monitor, WindowError>(WindowError::UnknownMonitor),
        r is Ok ==> exists|i: int|
            {
                &&& 0 <= i < names@.len()
                &&& name_matches(#[trigger] names@[i], target@)
                &&& forall|j: int| i < j < names@.len() ==> !name_matches(names@[j], target@)
                &&& r->Ok_0 == monitors@[i]
            },
{
    let mut monitors = monitors;
    match select_monitor(names, target) {
        Ok(i) => Ok(monitors.swap_remove(i)),
        Err(e) => Err(e),
    }
}

/// Picks, among `monitors`, the one whose name is `target`; the last such
/// where several share it. A monitor without a name matches nothing.
pub fn find_monitor(monitors: Vec<Monitor>, target: &String) -> (r: Result<Monitor, WindowError>)
    ensures
        monitors@.len() == 0 ==> r == Err::<Monitor, WindowError>(WindowError::UnknownMonitor),
        r is Err ==> r == Err::<Monitor, WindowError>(WindowError::UnknownMonitor),
        exists|names: Seq<Option<String>>| #![trigger names.len()]
            {
                &&& names.len() == monitors@.len()
                &&& (r is Ok <==> exists|j: int|
                    0 <= j < names.len() && name_matches(#[trigger] names[j], target@))
                &&& r is Ok ==> exists|i: int|
                    {
                        &&& 0 <= i < names.len()
                        &&& name_matches(#[trigger] names[i], target@)
                        &&& forall|j: int|
                            i < j < names.len() ==> !name_matches(#[trigger] names[j], target@)
                        &&& r->Ok_0 == monitors@[i]
                    }
            },
{
    let mut names: Vec<Option<String>> = Vec::new();
    let mut k: usize = 0;
    while k < monitors.len()
        invariant
            k <= monitors@.len(),
            names@.len() == k,
        decreases monitors@.len() - k,
    {
        names.push(monitor_name(&monitors[k].monitor));
        k += 1;
    }
    pick_monitor(monitors, &names, target)
}

/// An iterator over monitors.
#[derive(Debug)]
pub struct MonitorIter {
    iter: AvailableMonitorsIter,
}

impl View for MonitorIter {
    type V = Seq<MonitorId>;

    /// The monitors still to be handed out, in order.
    closed spec fn view(&self) -> Seq<MonitorId> {
        monitors_left(self.iter)
    }
}

impl MonitorIter {
    /// Wraps the windowing library's iterator over the available monitors.
    pub fn new(iter: AvailableMonitorsIter) -> (it: MonitorIter)
        ensures
            it@ == monitors_left(iter),
    {
        MonitorIter { iter }
    }

    /// The next monitor, in the order in which the windowing library lists
    /// them, or `None` once all have been handed out.
    pub fn next(&mut self) -> (r: Option<Monitor>)
        ensures
            match r {
                Some(m) => {
                    &&& old(self)@.len() > 0
                    &&& m@ == old(self)@[0]
                    &&& final(self)@ == old(self)@.drop_first()
                },
                None => {
                    &&& old(self)@.len() == 0
                    &&& final(self)@.len() == 0
                },
            },
    {
        match next_monitor(&mut self.iter) {
            Some(monitor) => Some(Monitor { monitor }),
            None => None,
        }
    }
}

} // verus!
