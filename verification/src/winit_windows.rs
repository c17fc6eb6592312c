//! The registry that ties each window entity to its native window.

use std::collections::HashMap;
use std::marker::PhantomData;
use std::rc::Rc;
use vstd::prelude::*;
use crate::entity::{valid_entity_bits, Entity, WindowId};
use crate::index::{
    entity_index_contents, entity_index_get, entity_index_insert, entity_index_new,
    entity_index_remove, window_index_contents, window_index_get, window_index_insert,
    window_index_new, window_index_remove, EntityIndex, WindowIndex,
};

verus! {

/// What a [`WinitWindows`] holds, as three maps over packed entities and raw
/// window ids.
pub struct WindowMaps<W> {
    /// From each registered entity to the id of its native window.
    pub entity_to_winit: Map<u64, u64>,
    /// From each registered window id to the entity that owns the window.
    pub winit_to_entity: Map<u64, u64>,
    /// The native windows, by id.
    pub windows: Map<u64, W>,
}

impl<W> WindowMaps<W> {
    /// The registry without any window.
    pub open spec fn empty() -> Self {
        WindowMaps {
            entity_to_winit: Map::empty(),
            winit_to_entity: Map::empty(),
            windows: Map::empty(),
        }
    }

    /// The two identity maps are inverses of each other, every registered
    /// entity is a valid one, and a native window is held for exactly the
    /// registered ids.
    pub open spec fn wf(self) -> bool {
        &&& forall|entity: u64| #[trigger]
            self.entity_to_winit.contains_key(entity) ==> {
                &&& valid_entity_bits(entity)
                &&& self.winit_to_entity.contains_key(self.entity_to_winit[entity])
                &&& self.winit_to_entity[self.entity_to_winit[entity]] == entity
            }
        &&& forall|id: u64| #[trigger]
            self.winit_to_entity.contains_key(id) ==> {
                &&& self.entity_to_winit.contains_key(self.winit_to_entity[id])
                &&& self.entity_to_winit[self.winit_to_entity[id]] == id
            }
        &&& forall|id: u64|
            self.windows.contains_key(id) <==> #[trigger] self.winit_to_entity.contains_key(id)
    }

    /// Whether the entity has a native window.
    pub open spec fn is_registered(self, entity: u64) -> bool {
        self.entity_to_winit.contains_key(entity)
    }

    /// Whether the id is that of a registered native window.
    pub open spec fn is_live(self, id: u64) -> bool {
        self.winit_to_entity.contains_key(id)
    }

    /// The native window of the entity, if it has one.
    pub open spec fn window_of(self, entity: u64) -> Option<W> {
        if self.entity_to_winit.contains_key(entity) && self.windows.contains_key(
            self.entity_to_winit[entity],
        ) {
            Some(self.windows[self.entity_to_winit[entity]])
        } else {
            None
        }
    }

    /// The entity that owns the native window with the given id, if one does.
    pub open spec fn entity_of(self, id: u64) -> Option<u64> {
        if self.winit_to_entity.contains_key(id) {
            Some(self.winit_to_entity[id])
        } else {
            None
        }
    }

    /// The registry after `window`, which the display server calls `id`, has
    /// been registered for `entity`.
    pub open spec fn with_window(self, entity: u64, id: u64, window: W) -> Self {
        WindowMaps {
            entity_to_winit: self.entity_to_winit.insert(entity, id),
            winit_to_entity: self.winit_to_entity.insert(id, entity),
            windows: self.windows.insert(id, window),
        }
    }

    /// The registry after the window of `entity` has been taken out. An
    /// entity that has no window leaves the registry as it is.
    pub open spec fn without_window(self, entity: u64) -> Self {
        if self.entity_to_winit.contains_key(entity) {
            WindowMaps {
                entity_to_winit: self.entity_to_winit.remove(entity),
                winit_to_entity: self.winit_to_entity.remove(self.entity_to_winit[entity]),
                windows: self.windows.remove(self.entity_to_winit[entity]),
            }
        } else {
            self
        }
    }
}

impl<W> WindowMaps<W> {
    /// The empty registry is well formed.
    pub proof fn lemma_empty_wf()
        ensures
            Self::empty().wf(),
    {
    }

    /// Registering a window for an entity and an id that are both new keeps
    /// the registry well formed.
    pub proof fn lemma_with_window_wf(self, entity: u64, id: u64, window: W)
        requires
            self.wf(),
            valid_entity_bits(entity),
            !self.is_registered(entity),
            !self.is_live(id),
        ensures
            self.with_window(entity, id, window).wf(),
    {
    }

    /// Removing the window of any entity keeps the registry well formed.
    pub proof fn lemma_without_window_wf(self, entity: u64)
        requires
            self.wf(),
        ensures
            self.without_window(entity).wf(),
    {
    }

    /// Once the window of a registered entity is removed, a lookup of the
    /// entity finds no window, and a lookup of the id that the window had
    /// finds no entity.
    pub proof fn lemma_removed_window_is_gone(self, entity: u64)
        requires
            self.wf(),
            self.is_registered(entity),
        ensures
            self.without_window(entity).window_of(entity) is None,
            !self.without_window(entity).is_registered(entity),
            self.without_window(entity).entity_of(self.entity_to_winit[entity]) is None,
            !self.without_window(entity).is_live(self.entity_to_winit[entity]),
            !self.without_window(entity).windows.contains_key(self.entity_to_winit[entity]),
    {
    }

    /// Removing the window of one entity leaves every other entity with the
    /// window it had.
    pub proof fn lemma_removal_keeps_others(self, entity: u64, other: u64)
        requires
            self.wf(),
            other != entity,
        ensures
            self.without_window(entity).window_of(other) == self.window_of(other),
            self.without_window(entity).is_registered(other) == self.is_registered(other),
    {
    }

    /// The mapping is a bijection: two different registered entities never
    /// share a native window id, and every live id belongs to exactly the
    /// entity that maps to it.
    pub proof fn lemma_bijection(self, a: u64, b: u64)
        requires
            self.wf(),
            self.is_registered(a),
            self.is_registered(b),
        ensures
            self.entity_to_winit[a] == self.entity_to_winit[b] <==> a == b,
            self.is_live(self.entity_to_winit[a]),
            self.entity_of(self.entity_to_winit[a]) == Some(a),
            self.window_of(a) is Some,
    {
    }

    /// The other direction of the bijection: two different live ids never
    /// belong to the same entity.
    pub proof fn lemma_bijection_of_ids(self, i: u64, j: u64)
        requires
            self.wf(),
            self.is_live(i),
            self.is_live(j),
        ensures
            self.winit_to_entity[i] == self.winit_to_entity[j] <==> i == j,
            self.is_registered(self.winit_to_entity[i]),
            self.entity_to_winit[self.winit_to_entity[i]] == i,
    {
    }

    /// A window that was just registered is found under its entity and its
    /// id.
    pub proof fn lemma_registered_window_is_found(self, entity: u64, id: u64, window: W)
        requires
            self.wf(),
            !self.is_registered(entity),
            !self.is_live(id),
        ensures
            self.with_window(entity, id, window).window_of(entity) == Some(window),
            self.with_window(entity, id, window).entity_of(id) == Some(entity),
    {
    }
}

/// Maps window entities to their native windows and back, and owns the native
/// windows from registration until removal. `W` is the host's window object.
///
/// The registry is well formed at all times: whatever is done with it, its
/// two identity maps stay inverses of each other.
///
/// Many functions of a native window may only be called on the thread of the
/// host's event loop. The registry therefore stays on the thread that made
/// it: it can neither be sent to another thread nor be shared with one.
pub struct WinitWindows<W> {
    windows: HashMap<u64, W>,
    entity_to_winit: EntityIndex,
    winit_to_entity: WindowIndex,
    not_send_sync: PhantomData<Rc<()>>,
}

impl<W> View for WinitWindows<W> {
    type V = WindowMaps<W>;

    closed spec fn view(&self) -> WindowMaps<W> {
        WindowMaps {
            entity_to_winit: entity_index_contents(self.entity_to_winit),
            winit_to_entity: window_index_contents(self.winit_to_entity),
            windows: self.windows@,
        }
    }
}

impl<W> Default for WinitWindows<W> {
    /// A registry without any window.
    fn default() -> (registry: Self)
        ensures
            registry@ == WindowMaps::<W>::empty(),
            registry@.wf(),
    {
        WinitWindows::new()
    }
}

impl<W> WinitWindows<W> {
    #[verifier::type_invariant]
    spec fn maps_are_wf(self) -> bool {
        self@.wf()
    }

    /// A registry without any window.
    pub fn new() -> (registry: Self)
        ensures
            registry@ == WindowMaps::<W>::empty(),
            registry@.wf(),
    {
        WinitWindows {
            windows: HashMap::new(),
            entity_to_winit: entity_index_new(),
            winit_to_entity: window_index_new(),
            not_send_sync: PhantomData,
        }
    }

    /// Associates the native window `window`, which the display server calls
    /// `id`, with `entity`, takes ownership of it and hands back a reference
    /// to it.
    ///
    /// The caller creates at most one window per entity, and the display
    /// server hands out an id only once while its window lives: neither the
    /// entity nor the id is registered yet.
    pub fn create_window(&mut self, entity: Entity, id: WindowId, window: W) -> (stored: &W)
        requires
            !old(self)@.is_registered(entity@),
            !old(self)@.is_live(id@),
        ensures
            final(self)@ == old(self)@.with_window(entity@, id@, window),
            final(self)@.wf(),
            *stored == window,
    {
        proof {
            use_type_invariant(&*self);
        }
        let entity_bits = entity.to_bits();
        let raw = id.into_raw();
        let mut taken = WinitWindows::new();
        std::mem::swap(self, &mut taken);
        let WinitWindows { mut windows, mut entity_to_winit, mut winit_to_entity, not_send_sync } =
            taken;
        entity_index_insert(&mut entity_to_winit, entity_bits, raw);
        window_index_insert(&mut winit_to_entity, raw, entity_bits);
        windows.insert(raw, window);
        *self = WinitWindows { windows, entity_to_winit, winit_to_entity, not_send_sync };
        let stored = self.windows.get(&raw);
        stored.unwrap()
    }

    /// The native window that is associated with the entity.
    pub fn get_window(&self, entity: Entity) -> (window: Option<&W>)
        ensures
            self@.wf(),
            window is Some <==> self@.is_registered(entity@),
            window matches Some(w) ==> self@.window_of(entity@) == Some(*w),
    {
        proof {
            use_type_invariant(self);
        }
        let entity_bits = entity.to_bits();
        match entity_index_get(&self.entity_to_winit, entity_bits) {
            Some(raw) => self.windows.get(&raw),
            None => None,
        }
    }

    /// The entity that is associated with the native window id.
    pub fn get_window_entity(&self, winit_id: WindowId) -> (entity: Option<Entity>)
        ensures
            self@.wf(),
            entity is Some <==> self@.is_live(winit_id@),
            entity matches Some(e) ==> self@.entity_of(winit_id@) == Some(e@),
    {
        proof {
            use_type_invariant(self);
        }
        match window_index_get(&self.winit_to_entity, winit_id.into_raw()) {
            Some(entity_bits) => Entity::from_bits(entity_bits),
            None => None,
        }
    }

    /// Handles the host's notice that the native window `winit_id` was
    /// closed: takes the window out of the registry, with both of its
    /// mappings, and hands back the entity that owned it, to be despawned,
    /// and the window itself. An id that is not registered leaves the
    /// registry as it is.
    pub fn close_window(&mut self, winit_id: WindowId) -> (closed: Option<(Entity, W)>)
        ensures
            final(self)@.wf(),
            closed is Some <==> old(self)@.is_live(winit_id@),
            closed is None ==> final(self)@ == old(self)@,
            closed matches Some((entity, window)) ==> {
                &&& old(self)@.entity_of(winit_id@) == Some(entity@)
                &&& old(self)@.window_of(entity@) == Some(window)
                &&& final(self)@ == old(self)@.without_window(entity@)
                &&& !final(self)@.is_registered(entity@)
                &&& !final(self)@.is_live(winit_id@)
            },
    {
        proof {
            use_type_invariant(&*self);
        }
        match self.get_window_entity(winit_id) {
            Some(entity) => {
                match self.remove_window(entity) {
                    Some(window) => Some((entity, window)),
                    None => None,
                }
            },
            None => None,
        }
    }

    /// Takes the native window of the entity out of the registry, with both
    /// of its mappings, and hands it back for teardown. An entity that was
    /// never registered leaves the registry as it is.
    pub fn remove_window(&mut self, entity: Entity) -> (window: Option<W>)
        ensures
            final(self)@ == old(self)@.without_window(entity@),
            final(self)@.wf(),
            window == old(self)@.window_of(entity@),
            window is Some <==> old(self)@.is_registered(entity@),
    {
        proof {
            use_type_invariant(&*self);
        }
        let entity_bits = entity.to_bits();
        let mut taken = WinitWindows::new();
        std::mem::swap(self, &mut taken);
        let WinitWindows { mut windows, mut entity_to_winit, mut winit_to_entity, not_send_sync } =
            taken;
        let window = match entity_index_remove(&mut entity_to_winit, entity_bits) {
            Some(raw) => {
                window_index_remove(&mut winit_to_entity, raw);
                windows.remove(&raw)
            },
            None => {
                assert(entity_index_contents(entity_to_winit) =~= old(self)@.entity_to_winit);
                None
            },
        };
        *self = WinitWindows { windows, entity_to_winit, winit_to_entity, not_send_sync };
        window
    }
}

} // verus!
