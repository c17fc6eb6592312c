use bevy_wallpaper::entity::{Entity, WindowId, MAX_GENERATION};

#[test]
fn from_raw_is_the_first_generation() {
    let entity = Entity::from_raw(42);
    assert_eq!(entity.index(), 42);
    assert_eq!(entity.generation(), 1);
    assert_eq!(entity.to_bits(), 0x0000_0001_0000_002A);
}

#[test]
fn bits_round_trip() {
    let bits = (0x1234u64 << 32) | 0xFFFF_FFFF;
    let entity = Entity::from_bits(bits).unwrap();
    assert_eq!(entity.index(), 0xFFFF_FFFF);
    assert_eq!(entity.generation(), 0x1234);
    assert_eq!(entity.to_bits(), bits);
}

#[test]
fn generation_zero_is_no_entity() {
    assert_eq!(Entity::from_bits(0), None);
    assert_eq!(Entity::from_bits(0xFFFF_FFFF), None);
}

#[test]
fn placeholder_bit_is_no_entity() {
    assert_eq!(Entity::from_bits(0x8000_0000_0000_0000), None);
    assert_eq!(Entity::from_bits(u64::MAX), None);
    let last = (u64::from(MAX_GENERATION) << 32) | 9;
    assert_eq!(Entity::from_bits(last).map(Entity::to_bits), Some(last));
}

#[test]
fn entities_pack_as_the_engine_packs_them() {
    for index in [0u32, 1, 77, u32::MAX] {
        let engine = bevy_ecs::entity::Entity::from_raw(index);
        assert_eq!(Entity::from_raw(index).to_bits(), engine.to_bits());
    }
}

#[test]
fn validity_agrees_with_the_engine() {
    for bits in [0u64, 1, 1 << 32, (1 << 32) | 5, 0x7FFF_FFFF_0000_0000, 0x8000_0000_0000_0001, u64::MAX] {
        let engine = bevy_ecs::entity::Entity::try_from_bits(bits);
        assert_eq!(Entity::from_bits(bits).is_some(), engine.is_ok());
        if let Ok(engine) = engine {
            let ours = Entity::from_bits(bits).unwrap();
            assert_eq!(ours.index(), engine.index());
            assert_eq!(ours.generation(), engine.generation());
        }
    }
}

#[test]
fn window_id_keeps_its_number() {
    assert_eq!(WindowId::from_raw(0x1e8).into_raw(), 0x1e8);
    assert_eq!(WindowId::from_raw(5), WindowId::from_raw(5));
    assert_ne!(WindowId::from_raw(5), WindowId::from_raw(6));
}

#[test]
fn window_id_round_trips_through_the_host_type() {
    for raw in [0u64, 1, 0x40_0001, u64::MAX] {
        let host = winit::window::WindowId::from(raw);
        assert_eq!(u64::from(host), WindowId::from_raw(raw).into_raw());
    }
}
