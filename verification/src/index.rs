//! The two hash maps that tie entities and native window ids together.
//!
//! Both maps are hash maps of the engine, which are `hashbrown` maps with the
//! engine's hashers, keyed by the engine's entities and the host's window
//! ids. Nothing of them is verified here: each function below makes one call
//! and states what the documentation of `hashbrown::HashMap` says of it. Keys
//! and values cross this boundary in packed form, as plain numbers: an entity
//! through `Entity::from_bits` and `Entity::to_bits`, a window id through its
//! conversions from and to `u64`.

use vstd::prelude::*;
use crate::entity::valid_entity_bits;

verus! {

/// From entities to the ids of their native windows: the engine's
/// `EntityHashMap<WindowId>`.
#[verifier::external_body]
pub struct EntityIndex {
    map: bevy_ecs::entity::EntityHashMap<winit::window::WindowId>,
}

/// From native window ids to the entities that own them: the engine's
/// `HashMap<WindowId, Entity>`.
#[verifier::external_body]
pub struct WindowIndex {
    map: bevy::utils::HashMap<winit::window::WindowId, bevy_ecs::entity::Entity>,
}

/// What an [`EntityIndex`] holds: packed entities to raw window ids.
pub uninterp spec fn entity_index_contents(index: EntityIndex) -> Map<u64, u64>;

/// What a [`WindowIndex`] holds: raw window ids to packed entities.
pub uninterp spec fn window_index_contents(index: WindowIndex) -> Map<u64, u64>;

/// `Default::default` of the map behind an [`EntityIndex`]: a map that holds
/// nothing.
#[verifier::external_body]
pub(crate) fn entity_index_new() -> (created: EntityIndex)
    ensures
        entity_index_contents(created) == (Map::<u64, u64>::empty()),
{
    EntityIndex { map: bevy_ecs::entity::EntityHashMap::default() }
}

/// `HashMap::insert` on an [`EntityIndex`]: afterwards the entity maps to
/// `window`, and every other entry is as before. The entity is rebuilt from
/// its packed form with `Entity::from_bits`, which panics on a form that is
/// not valid.
#[verifier::external_body]
pub(crate) fn entity_index_insert(index: &mut EntityIndex, entity: u64, window: u64)
    requires
        valid_entity_bits(entity),
    ensures
        entity_index_contents(*final(index)) == entity_index_contents(*old(index)).insert(
            entity,
            window,
        ),
{
    index.map.insert(
        bevy_ecs::entity::Entity::from_bits(entity),
        winit::window::WindowId::from(window),
    );
}

/// `HashMap::get` on an [`EntityIndex`]: the window id that the entity maps
/// to, if it maps to one.
#[verifier::external_body]
pub(crate) fn entity_index_get(index: &EntityIndex, entity: u64) -> (window: Option<u64>)
    requires
        valid_entity_bits(entity),
    ensures
        window == (if entity_index_contents(*index).contains_key(entity) {
            Some(entity_index_contents(*index)[entity])
        } else {
            None
        }),
{
    index.map.get(&bevy_ecs::entity::Entity::from_bits(entity)).copied().map(u64::from)
}

/// `HashMap::remove` on an [`EntityIndex`]: afterwards the entity maps to
/// nothing, every other entry is as before, and the value that the entity
/// had, if any, is returned.
#[verifier::external_body]
pub(crate) fn entity_index_remove(index: &mut EntityIndex, entity: u64) -> (removed: Option<u64>)
    requires
        valid_entity_bits(entity),
    ensures
        entity_index_contents(*final(index)) == entity_index_contents(*old(index)).remove(entity),
        removed == (if entity_index_contents(*old(index)).contains_key(entity) {
            Some(entity_index_contents(*old(index))[entity])
        } else {
            None
        }),
{
    index.map.remove(&bevy_ecs::entity::Entity::from_bits(entity)).map(u64::from)
}

/// `Default::default` of the map behind a [`WindowIndex`]: a map that holds
/// nothing.
#[verifier::external_body]
pub(crate) fn window_index_new() -> (created: WindowIndex)
    ensures
        window_index_contents(created) == (Map::<u64, u64>::empty()),
{
    WindowIndex { map: bevy::utils::HashMap::default() }
}

/// `HashMap::insert` on a [`WindowIndex`]: afterwards the window id maps to
/// `entity`, and every other entry is as before. The entity is rebuilt from
/// its packed form with `Entity::from_bits`, which panics on a form that is
/// not valid.
#[verifier::external_body]
pub(crate) fn window_index_insert(index: &mut WindowIndex, window: u64, entity: u64)
    requires
        valid_entity_bits(entity),
    ensures
        window_index_contents(*final(index)) == window_index_contents(*old(index)).insert(
            window,
            entity,
        ),
{
    index.map.insert(
        winit::window::WindowId::from(window),
        bevy_ecs::entity::Entity::from_bits(entity),
    );
}

/// `HashMap::get` on a [`WindowIndex`]: the entity that the window id maps
/// to, if it maps to one.
#[verifier::external_body]
pub(crate) fn window_index_get(index: &WindowIndex, window: u64) -> (entity: Option<u64>)
    ensures
        entity == (if window_index_contents(*index).contains_key(window) {
            Some(window_index_contents(*index)[window])
        } else {
            None
        }),
{
    index.map.get(&winit::window::WindowId::from(window)).copied().map(
        bevy_ecs::entity::Entity::to_bits,
    )
}

/// `HashMap::remove` on a [`WindowIndex`]: afterwards the window id maps to
/// nothing, and every other entry is as before.
#[verifier::external_body]
pub(crate) fn window_index_remove(index: &mut WindowIndex, window: u64)
    ensures
        window_index_contents(*final(index)) == window_index_contents(*old(index)).remove(window),
{
    index.map.remove(&winit::window::WindowId::from(window));
}

} // verus!
