use call::{Endpoint, NetEndpoint};

#[test]
fn test_endpoint() {
    let e = NetEndpoint::new("tcp", "127.0.0.1");
    assert!(e.address() == "tcp://127.0.0.1")
}

#[test]
fn new_keeps_both_parts() {
    let e = NetEndpoint::new("udp", "10.0.0.7:53");
    assert_eq!(e.net, "udp");
    assert_eq!(e.addr, "10.0.0.7:53");
}

#[test]
fn address_joins_the_parts_with_the_separator() {
    assert_eq!(NetEndpoint::new("udp", "10.0.0.7:53").address(), "udp://10.0.0.7:53");
    assert_eq!(NetEndpoint::new("unix", "/run/rpc.sock").address(), "unix:///run/rpc.sock");
}

#[test]
fn address_is_not_validated() {
    assert_eq!(NetEndpoint::new("", "").address(), "://");
    assert_eq!(NetEndpoint::new("tcp", "").address(), "tcp://");
    assert_eq!(NetEndpoint::new("", "host").address(), "://host");
    assert_eq!(NetEndpoint::new("a://b", "c d").address(), "a://b://c d");
}

#[test]
fn address_keeps_characters_outside_ascii() {
    let e = NetEndpoint::new("tcp", "münchen.example");
    assert_eq!(e.address(), "tcp://münchen.example");
}

#[test]
fn address_is_the_same_on_every_call() {
    let e = NetEndpoint::new("tcp", "127.0.0.1");
    assert_eq!(e.address(), e.address());
}

#[test]
fn default_endpoint_has_empty_parts() {
    let e = NetEndpoint::default();
    assert_eq!(e.net, "");
    assert_eq!(e.addr, "");
    assert_eq!(e.address(), "://");
}

#[test]
fn equal_parts_give_equal_addresses() {
    let first = NetEndpoint::new("tcp", "127.0.0.1");
    let second = NetEndpoint::new("tcp", "127.0.0.1");
    assert_eq!(first.address(), second.address());
}

#[test]
fn different_parts_give_different_addresses() {
    let first = NetEndpoint::new("tcp", "127.0.0.1");
    assert_ne!(first.address(), NetEndpoint::new("tcp", "127.0.0.2").address());
    assert_ne!(first.address(), NetEndpoint::new("udp", "127.0.0.1").address());
}

#[test]
fn clone_has_the_same_address() {
    let e = NetEndpoint::new("tcp", "127.0.0.1");
    let copy = e.clone();
    assert_eq!(copy.net, "tcp");
    assert_eq!(copy.addr, "127.0.0.1");
    assert_eq!(copy.address(), e.address());
}

#[test]
fn a_change_to_a_clone_leaves_the_endpoint_alone() {
    let e = NetEndpoint::new("tcp", "127.0.0.1");
    let mut copy = e.clone();
    copy.addr.push_str(":8080");
    assert_eq!(copy.address(), "tcp://127.0.0.1:8080");
    assert_eq!(e.address(), "tcp://127.0.0.1");
}

#[test]
fn clone_box_has_the_same_address() {
    let e = NetEndpoint::new("tcp", "127.0.0.1");
    let copy: Box<NetEndpoint> = e.clone_box();
    assert_eq!(copy.address(), "tcp://127.0.0.1");
    assert_eq!(copy.net, e.net);
    assert_eq!(copy.addr, e.addr);
}

#[test]
fn debug_names_the_parts() {
    let shown = format!("{:?}", NetEndpoint::new("tcp", "127.0.0.1"));
    assert!(shown.contains("tcp"));
    assert!(shown.contains("127.0.0.1"));
}
