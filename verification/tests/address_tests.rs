use simulator_bridge::address::{endpoint, origin, preferred_address, HOST};

#[test]
fn endpoint_joins_host_and_port() {
    assert_eq!(HOST, "localhost");
    assert_eq!(endpoint("localhost", 4444), "localhost:4444");
    assert_eq!(endpoint("127.0.0.1", 80), "127.0.0.1:80");
}

#[test]
fn origin_is_the_local_host_at_the_port() {
    assert_eq!(origin(4444), "http://localhost:4444");
}

#[test]
fn no_address_means_no_choice() {
    assert_eq!(preferred_address(&Vec::new()), None);
}

#[test]
fn the_first_ipv4_address_is_preferred() {
    assert_eq!(preferred_address(&vec![false, true, true]), Some(1));
    assert_eq!(preferred_address(&vec![true, false]), Some(0));
    assert_eq!(preferred_address(&vec![false, false, true]), Some(2));
}

#[test]
fn without_ipv4_the_first_address_is_taken() {
    assert_eq!(preferred_address(&vec![false, false]), Some(0));
    assert_eq!(preferred_address(&vec![false]), Some(0));
}
