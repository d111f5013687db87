use simulator_bridge::ports::{get_port, listed, PortManager, PortStep, BASE_PORT};

#[test]
fn the_search_begins_at_the_base_port() {
    assert_eq!(BASE_PORT, 8557);
    let manager = PortManager::new();
    assert_eq!(manager.get_port("device-a"), PortStep::Probe(8557));
    assert_eq!(get_port(&manager, "device-a"), PortStep::Probe(8557));
    assert_eq!(manager.lookup("device-a"), None);
}

#[test]
fn a_free_port_becomes_the_devices_port() {
    let mut manager = PortManager::new();
    assert_eq!(manager.probed("device-a", 8557, true), PortStep::Known(8557));
    assert_eq!(manager.lookup("device-a"), Some(8557));
    assert_eq!(manager.get_port("device-a"), PortStep::Known(8557));
    assert!(manager.holds_port(8557));
    assert!(!manager.holds_port(8558));
}

#[test]
fn a_bound_port_is_skipped() {
    let mut manager = PortManager::new();
    assert_eq!(manager.probed("device-a", 8557, false), PortStep::Probe(8558));
    assert_eq!(manager.probed("device-a", 8558, false), PortStep::Probe(8559));
    assert_eq!(manager.probed("device-a", 8559, true), PortStep::Known(8559));
    assert_eq!(manager.lookup("device-a"), Some(8559));
}

#[test]
fn repeated_calls_give_the_same_port() {
    let mut manager = PortManager::new();
    assert_eq!(manager.get_or_create_port("device-a", &Vec::new()), Some(8557));
    assert_eq!(manager.get_or_create_port("device-a", &Vec::new()), Some(8557));
    assert_eq!(manager.get_or_create_port("device-a", &vec![8557]), Some(8557));
    assert_eq!(manager.probed("device-a", 9000, true), PortStep::Known(8557));
    assert_eq!(manager.lookup("device-a"), Some(8557));
}

#[test]
fn different_devices_get_different_ports() {
    let mut manager = PortManager::new();
    let a = manager.get_or_create_port("device-a", &Vec::new());
    let b = manager.get_or_create_port("device-b", &Vec::new());
    let c = manager.get_or_create_port("device-c", &Vec::new());
    assert_eq!(a, Some(8557));
    assert_eq!(b, Some(8558));
    assert_eq!(c, Some(8559));
    assert_eq!(manager.get_or_create_port("device-b", &Vec::new()), Some(8558));
}

#[test]
fn ports_are_taken_in_ascending_order_skipping_bound_ones() {
    let mut manager = PortManager::new();
    let bound = vec![8557, 8558, 8560];
    assert_eq!(manager.get_or_create_port("device-a", &bound), Some(8559));
    assert_eq!(manager.get_or_create_port("device-b", &bound), Some(8561));
    assert_eq!(manager.get_or_create_port("device-c", &vec![8562]), Some(8557));
}

#[test]
fn a_port_that_a_device_has_is_never_tried_for_another() {
    let mut manager = PortManager::new();
    assert_eq!(manager.probed("device-a", 8557, true), PortStep::Known(8557));
    assert_eq!(manager.get_port("device-b"), PortStep::Probe(8558));
    assert_eq!(manager.probed("device-b", 8557, true), PortStep::Probe(8558));
    assert_eq!(manager.lookup("device-b"), None);
}

#[test]
fn a_port_below_the_base_is_never_recorded() {
    let mut manager = PortManager::new();
    assert_eq!(manager.probed("device-a", 80, true), PortStep::Probe(8557));
    assert_eq!(manager.lookup("device-a"), None);
}

#[test]
fn the_search_ends_after_the_highest_port() {
    let mut manager = PortManager::new();
    assert_eq!(manager.probed("device-a", 65535, false), PortStep::Exhausted);
    assert_eq!(manager.probed("device-a", 65534, false), PortStep::Probe(65535));
    assert_eq!(manager.probed("device-a", 65535, true), PortStep::Known(65535));
    assert_eq!(manager.probed("device-b", 65535, false), PortStep::Exhausted);
}

#[test]
fn no_port_is_given_when_all_are_bound() {
    let mut manager = PortManager::new();
    let mut bound: Vec<u16> = Vec::new();
    let mut port: u32 = 65000;
    while port <= 65535 {
        bound.push(port as u16);
        port += 1;
    }
    assert_eq!(manager.probed("device-a", 64999, false), PortStep::Probe(65000));
    let mut step = manager.probed("device-a", 64999, false);
    while let PortStep::Probe(candidate) = step {
        step = manager.probed("device-a", candidate, !listed(&bound, candidate));
    }
    assert_eq!(step, PortStep::Exhausted);
    assert_eq!(manager.lookup("device-a"), None);
}

#[test]
fn listed_finds_a_port_in_a_list() {
    assert!(listed(&vec![1, 2, 3], 2));
    assert!(!listed(&vec![1, 2, 3], 4));
    assert!(!listed(&Vec::new(), 0));
}
