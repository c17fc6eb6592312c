use bevy_wallpaper::entity::Entity;
use bevy_wallpaper::monitor::{
    select_monitor, Monitor, MonitorSelection, PhysicalPosition, PhysicalSize, WinitMonitors,
};

fn monitor(native_id: u32, name: &str, x: i32, width: u32, height: u32) -> Monitor {
    Monitor {
        native_id,
        name: Some(name.to_string()),
        physical_position: PhysicalPosition { x, y: 0 },
        physical_size: PhysicalSize { width, height },
        scale_factor_bits: 1.0f64.to_bits(),
        refresh_rate_millihertz: Some(60_000),
    }
}

fn two_monitors() -> WinitMonitors {
    let mut monitors = WinitMonitors::new();
    monitors.push(monitor(1, "left", 0, 1920, 1080), Entity::from_raw(10));
    monitors.push(monitor(2, "right", 1920, 2560, 1440), Entity::from_raw(11));
    monitors
}

#[test]
fn current_without_a_current_monitor_is_none_not_primary() {
    let monitors = two_monitors();
    let primary = monitor(1, "left", 0, 1920, 1080);
    let selected = select_monitor(&monitors, Some(&primary), None, &MonitorSelection::Current);
    assert!(selected.is_none());
}

#[test]
fn current_is_the_current_monitor() {
    let monitors = two_monitors();
    let primary = monitor(1, "left", 0, 1920, 1080);
    let current = monitor(2, "right", 1920, 2560, 1440);
    let selected =
        select_monitor(&monitors, Some(&primary), Some(&current), &MonitorSelection::Current);
    assert_eq!(selected.map(|m| m.native_id), Some(2));
}

#[test]
fn primary_is_what_the_host_reports() {
    let monitors = two_monitors();
    let primary = monitor(2, "right", 1920, 2560, 1440);
    let selected = select_monitor(&monitors, Some(&primary), None, &MonitorSelection::Primary);
    assert_eq!(selected.map(|m| m.native_id), Some(2));
    let selected = select_monitor(&monitors, None, None, &MonitorSelection::Primary);
    assert!(selected.is_none());
}

#[test]
fn index_follows_the_enumeration() {
    let monitors = two_monitors();
    let first = select_monitor(&monitors, None, None, &MonitorSelection::Index(0));
    let second = select_monitor(&monitors, None, None, &MonitorSelection::Index(1));
    assert_eq!(first.and_then(|m| m.name.clone()), Some("left".to_string()));
    assert_eq!(second.and_then(|m| m.name.clone()), Some("right".to_string()));
}

#[test]
fn index_out_of_range_is_none() {
    let monitors = two_monitors();
    assert!(select_monitor(&monitors, None, None, &MonitorSelection::Index(2)).is_none());
    assert!(select_monitor(&monitors, None, None, &MonitorSelection::Index(usize::MAX)).is_none());
    let empty = WinitMonitors::new();
    assert!(select_monitor(&empty, None, None, &MonitorSelection::Index(0)).is_none());
}

#[test]
fn entity_selects_the_bound_monitor() {
    let monitors = two_monitors();
    let selected =
        select_monitor(&monitors, None, None, &MonitorSelection::Entity(Entity::from_raw(11)));
    assert_eq!(selected.map(|m| m.native_id), Some(2));
}

#[test]
fn unbound_entity_selects_nothing() {
    let monitors = two_monitors();
    let selected =
        select_monitor(&monitors, None, None, &MonitorSelection::Entity(Entity::from_raw(12)));
    assert!(selected.is_none());
}

#[test]
fn first_binding_wins_where_an_entity_is_bound_twice() {
    let mut monitors = two_monitors();
    monitors.push(monitor(3, "third", 4480, 800, 600), Entity::from_raw(10));
    assert_eq!(monitors.find_entity(Entity::from_raw(10)).map(|m| m.native_id), Some(1));
}

#[test]
fn list_is_in_enumeration_order() {
    let monitors = two_monitors();
    let listed: Vec<u32> = monitors.list().iter().map(|m| m.native_id).collect();
    assert_eq!(listed, vec![1, 2]);
    assert_eq!(monitors.len(), 2);
    assert!(WinitMonitors::new().list().is_empty());
}

#[test]
fn removed_monitor_is_gone_and_the_order_stays() {
    let mut monitors = two_monitors();
    monitors.push(monitor(3, "third", 4480, 800, 600), Entity::from_raw(12));
    let removed = monitors.remove(Entity::from_raw(11));
    assert_eq!(removed.map(|m| m.native_id), Some(2));
    let listed: Vec<u32> = monitors.list().iter().map(|m| m.native_id).collect();
    assert_eq!(listed, vec![1, 3]);
    assert!(monitors.find_entity(Entity::from_raw(11)).is_none());
    assert_eq!(monitors.nth(1).map(|m| m.native_id), Some(3));
    assert!(monitors.remove(Entity::from_raw(11)).is_none());
    assert_eq!(monitors.len(), 2);
}

#[test]
fn default_monitor_registry_is_empty() {
    let monitors = WinitMonitors::default();
    assert_eq!(monitors.len(), 0);
    assert!(monitors.nth(0).is_none());
}
