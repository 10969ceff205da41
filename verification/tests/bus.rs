use sm83_core::bus::Bus;

#[test]
fn new_bus_is_empty() {
    let bus: Bus<u8> = Bus::new();
    assert_eq!(bus.read(), None);
    let bus: Bus<u16> = Bus::default();
    assert_eq!(bus.read(), None);
}

#[test]
fn written_value_persists_until_overwritten() {
    let mut bus: Bus<u8> = Bus::new();
    bus.write(5);
    assert_eq!(bus.read(), Some(5));
    assert_eq!(bus.read(), Some(5));
    assert_eq!(bus.read(), Some(5));
    bus.write(9);
    assert_eq!(bus.read(), Some(9));
    assert_eq!(bus.read(), Some(9));
}

#[test]
fn clear_empties_the_bus() {
    let mut bus: Bus<u16> = Bus::new();
    bus.write(0xBEEF);
    assert_eq!(bus.read(), Some(0xBEEF));
    bus.clear();
    assert_eq!(bus.read(), None);
    assert_eq!(bus.read(), None);
    bus.write(1);
    assert_eq!(bus.read(), Some(1));
}
