//! The monitors of the host and the choice among them.

use vstd::prelude::*;
use crate::entity::Entity;

verus! {

/// A point in physical pixels.
#[derive(Clone, Copy, Debug, PartialEq, Eq, Hash, Structural)]
pub struct PhysicalPosition {
    pub x: i32,
    pub y: i32,
}

/// A size in physical pixels.
#[derive(Clone, Copy, Debug, PartialEq, Eq, Hash, Structural)]
pub struct PhysicalSize {
    pub width: u32,
    pub height: u32,
}

/// What the host reports of one monitor. The snapshot is read only: it is
/// replaced when the host announces a change.
#[derive(Clone, Debug)]
pub struct Monitor {
    /// The host's own number for the monitor.
    pub native_id: u32,
    /// A human-readable name, where the host has one.
    pub name: Option<String>,
    /// The top-left corner of the monitor in the host's coordinate space.
    pub physical_position: PhysicalPosition,
    /// The monitor's size in physical pixels.
    pub physical_size: PhysicalSize,
    /// The ratio of physical to logical pixels, as the bit pattern of a
    /// double-precision number. It is carried, never computed with.
    pub scale_factor_bits: u64,
    /// The refresh rate in millihertz, where the host reports one.
    pub refresh_rate_millihertz: Option<u32>,
}

/// Which monitor a window asks for.
#[derive(Clone, Copy, Debug, PartialEq, Eq, Structural)]
pub enum MonitorSelection {
    /// The monitor that the window is on.
    Current,
    /// The host's primary monitor.
    Primary,
    /// The monitor at this place in the host's enumeration.
    Index(usize),
    /// The monitor that is bound to this entity.
    Entity(Entity),
}

/// The monitors that the host has announced, in the order of its
/// enumeration, each with the entity it is bound to.
pub struct WinitMonitors {
    monitors: Vec<(Monitor, Entity)>,
}

impl View for WinitMonitors {
    type V = Seq<(Monitor, Entity)>;

    closed spec fn view(&self) -> Seq<(Monitor, Entity)> {
        self.monitors@
    }
}

/// The place of the first monitor in `monitors` that is bound to `entity`,
/// or the length of `monitors` if none is.
pub open spec fn first_bound_to(monitors: Seq<(Monitor, Entity)>, entity: Entity) -> int
    decreases monitors.len(),
{
    if monitors.len() == 0 {
        0
    } else if monitors[0].1 == entity {
        0
    } else {
        1 + first_bound_to(monitors.skip(1), entity)
    }
}

/// `first_bound_to` is a place in the sequence or its length; it holds the
/// entity when it is a place, and no place before it does.
pub proof fn lemma_first_bound_to(monitors: Seq<(Monitor, Entity)>, entity: Entity)
    ensures
        0 <= first_bound_to(monitors, entity) <= monitors.len(),
        first_bound_to(monitors, entity) < monitors.len() ==> monitors[first_bound_to(
            monitors,
            entity,
        )].1 == entity,
        forall|i: int|
            0 <= i < first_bound_to(monitors, entity) ==> (#[trigger] monitors[i]).1 != entity,
    decreases monitors.len(),
{
    if monitors.len() == 0 {
    } else if monitors[0].1 == entity {
    } else {
        let rest = monitors.skip(1);
        lemma_first_bound_to(rest, entity);
        assert forall|i: int| 0 <= i < first_bound_to(monitors, entity) implies (
        #[trigger] monitors[i]).1 != entity by {
            if i > 0 {
                assert(monitors[i] == rest[i - 1]);
            }
        }
        let at = first_bound_to(rest, entity);
        if at < rest.len() {
            assert(monitors[at + 1] == rest[at]);
        }
    }
}

/// A place that holds the entity, with none before it that does, is the
/// first place bound to the entity.
pub proof fn lemma_first_bound_to_unique(
    monitors: Seq<(Monitor, Entity)>,
    entity: Entity,
    at: int,
)
    requires
        0 <= at <= monitors.len(),
        at < monitors.len() ==> monitors[at].1 == entity,
        forall|i: int| 0 <= i < at ==> (#[trigger] monitors[i]).1 != entity,
    ensures
        first_bound_to(monitors, entity) == at,
{
    lemma_first_bound_to(monitors, entity);
    let first = first_bound_to(monitors, entity);
    if first < at {
        assert(monitors[first].1 == entity);
    } else if at < first {
        assert(monitors[at].1 == entity);
    }
}

/// What an optional reference refers to.
pub open spec fn referent<T>(reference: Option<&T>) -> Option<T> {
    match reference {
        Some(value) => Some(*value),
        None => None,
    }
}

/// The monitor at place `n` of the host's enumeration, if there is one.
pub open spec fn nth_monitor(monitors: Seq<(Monitor, Entity)>, n: int) -> Option<Monitor> {
    if 0 <= n < monitors.len() {
        Some(monitors[n].0)
    } else {
        None
    }
}

/// The first monitor that is bound to `entity`, if one is.
pub open spec fn monitor_of_entity(monitors: Seq<(Monitor, Entity)>, entity: Entity) -> Option<
    Monitor,
> {
    nth_monitor(monitors, first_bound_to(monitors, entity))
}

/// The monitor that a selection stands for. `Primary` and `Current` are what
/// the host reports and nothing else: a missing current monitor is never
/// replaced by the primary one.
pub open spec fn select_monitor_spec(
    monitors: Seq<(Monitor, Entity)>,
    primary_monitor: Option<Monitor>,
    current_monitor: Option<Monitor>,
    monitor_selection: MonitorSelection,
) -> Option<Monitor> {
    match monitor_selection {
        MonitorSelection::Current => current_monitor,
        MonitorSelection::Primary => primary_monitor,
        MonitorSelection::Index(n) => nth_monitor(monitors, n as int),
        MonitorSelection::Entity(entity) => monitor_of_entity(monitors, entity),
    }
}

impl Default for WinitMonitors {
    /// A registry that knows no monitor.
    fn default() -> (registry: Self)
        ensures
            registry@.len() == 0,
    {
        WinitMonitors::new()
    }
}

impl WinitMonitors {
    /// A registry that knows no monitor.
    pub fn new() -> (registry: Self)
        ensures
            registry@.len() == 0,
    {
        WinitMonitors { monitors: Vec::new() }
    }

    /// The number of monitors.
    pub fn len(&self) -> (len: usize)
        ensures
            len == self@.len(),
    {
        self.monitors.len()
    }

    /// Adds a monitor that the host has announced, bound to `entity`, at the
    /// end of the enumeration.
    pub fn push(&mut self, monitor: Monitor, entity: Entity)
        ensures
            final(self)@ == old(self)@.push((monitor, entity)),
    {
        self.monitors.push((monitor, entity));
    }

    /// Takes out the first monitor that is bound to `entity`, once the host
    /// has announced that it is gone, and hands it back. The order of the
    /// others stays.
    pub fn remove(&mut self, entity: Entity) -> (removed: Option<Monitor>)
        ensures
            first_bound_to(old(self)@, entity) < old(self)@.len() ==> {
                &&& removed == Some(old(self)@[first_bound_to(old(self)@, entity)].0)
                &&& final(self)@ == old(self)@.remove(first_bound_to(old(self)@, entity))
            },
            first_bound_to(old(self)@, entity) >= old(self)@.len() ==> {
                &&& removed is None
                &&& final(self)@ == old(self)@
            },
    {
        let at = self.position_of(entity);
        if at < self.monitors.len() {
            let (monitor, _) = self.monitors.remove(at);
            Some(monitor)
        } else {
            None
        }
    }

    /// The monitors in the order of the host's enumeration.
    pub fn list(&self) -> (monitors: Vec<&Monitor>)
        ensures
            monitors@.len() == self@.len(),
            forall|i: int| 0 <= i < self@.len() ==> *(#[trigger] monitors@[i]) == self@[i].0,
    {
        let mut listed: Vec<&Monitor> = Vec::new();
        let mut i: usize = 0;
        while i < self.monitors.len()
            invariant
                i <= self.monitors.len(),
                listed@.len() == i,
                forall|j: int| 0 <= j < i ==> *(#[trigger] listed@[j]) == self.monitors@[j].0,
            decreases self.monitors.len() - i,
        {
            listed.push(&self.monitors[i].0);
            i += 1;
        }
        listed
    }

    /// The monitor at place `n` of the enumeration, if there is one.
    pub fn nth(&self, n: usize) -> (monitor: Option<&Monitor>)
        ensures
            referent(monitor) == nth_monitor(self@, n as int),
    {
        if n < self.monitors.len() {
            Some(&self.monitors[n].0)
        } else {
            None
        }
    }

    /// The first monitor that is bound to `entity`, if one is.
    pub fn find_entity(&self, entity: Entity) -> (monitor: Option<&Monitor>)
        ensures
            referent(monitor) == monitor_of_entity(self@, entity),
    {
        let at = self.position_of(entity);
        self.nth(at)
    }

    /// The place of the first monitor bound to `entity`, or the number of
    /// monitors if none is.
    fn position_of(&self, entity: Entity) -> (at: usize)
        ensures
            at == first_bound_to(self@, entity),
            at <= self@.len(),
    {
        let mut i: usize = 0;
        while i < self.monitors.len()
            invariant
                i <= self.monitors.len(),
                forall|j: int| 0 <= j < i ==> (#[trigger] self.monitors@[j]).1 != entity,
            decreases self.monitors.len() - i,
        {
            if self.monitors[i].1 == entity {
                proof {
                    lemma_first_bound_to_unique(self@, entity, i as int);
                }
                return i;
            }
            i += 1;
        }
        proof {
            lemma_first_bound_to_unique(self@, entity, i as int);
        }
        i
    }
}

/// Selects a monitor for the given selection: the primary or the current one
/// as the host reports them, the one at a place of the enumeration, or the
/// one bound to an entity. `None` means that the host's window manager is
/// left to choose.
pub fn select_monitor<'a>(
    monitors: &'a WinitMonitors,
    primary_monitor: Option<&'a Monitor>,
    current_monitor: Option<&'a Monitor>,
    monitor_selection: &MonitorSelection,
) -> (selected: Option<&'a Monitor>)
    ensures
        referent(selected) == select_monitor_spec(
            monitors@,
            referent(primary_monitor),
            referent(current_monitor),
            *monitor_selection,
        ),
{
    match monitor_selection {
        MonitorSelection::Current => current_monitor,
        MonitorSelection::Primary => primary_monitor,
        MonitorSelection::Index(n) => monitors.nth(*n),
        MonitorSelection::Entity(entity) => monitors.find_entity(*entity),
    }
}

/// A window that asks for its current monitor while none is known gets no
/// monitor, whatever the primary monitor is.
pub proof fn lemma_current_never_falls_back(
    monitors: Seq<(Monitor, Entity)>,
    primary_monitor: Option<Monitor>,
)
    ensures
        select_monitor_spec(monitors, primary_monitor, None, MonitorSelection::Current) is None,
{
}

/// A place beyond the enumeration selects no monitor, and a place within it
/// selects the monitor there.
pub proof fn lemma_index_selects_in_order(
    monitors: Seq<(Monitor, Entity)>,
    primary_monitor: Option<Monitor>,
    current_monitor: Option<Monitor>,
    n: usize,
)
    ensures
        n >= monitors.len() ==> select_monitor_spec(
            monitors,
            primary_monitor,
            current_monitor,
            MonitorSelection::Index(n),
        ) is None,
        n < monitors.len() ==> select_monitor_spec(
            monitors,
            primary_monitor,
            current_monitor,
            MonitorSelection::Index(n),
        ) == Some(monitors[n as int].0),
{
}

} // verus!
