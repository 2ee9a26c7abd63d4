use netstack::{IpAddr, IpFilter, IpFilters, NonBroadcast};
use std::sync::atomic::{AtomicUsize, Ordering};
use std::sync::Arc;

fn v4(a: u8, b: u8, c: u8, d: u8) -> IpAddr {
    IpAddr::V4([a, b, c, d])
}

fn v6(first: u8, last: u8) -> IpAddr {
    let mut octets = [0u8; 16];
    octets[0] = first;
    octets[15] = last;
    IpAddr::V6(octets)
}

#[test]
fn unicast_addresses() {
    assert!(v4(10, 0, 0, 1).is_unicast());
    assert!(v4(223, 255, 255, 255).is_unicast());
    assert!(v4(240, 0, 0, 0).is_unicast());
    assert!(v4(255, 255, 255, 254).is_unicast());
    assert!(v4(0, 0, 0, 1).is_unicast());
    assert!(!v4(255, 255, 255, 255).is_unicast());
    assert!(!v4(224, 0, 0, 1).is_unicast());
    assert!(!v4(239, 1, 2, 3).is_unicast());
    assert!(!v4(0, 0, 0, 0).is_unicast());
    assert!(v6(0xfe, 1).is_unicast());
    assert!(v6(0, 1).is_unicast());
    assert!(!v6(0xff, 1).is_unicast());
    assert!(!v6(0, 0).is_unicast());
}

#[test]
fn the_default_rule_asks_for_two_unicast_addresses() {
    let filters = IpFilters::with_non_broadcast();
    let host = v4(10, 0, 0, 1);
    let broadcast = v4(255, 255, 255, 255);
    assert!(filters.is_allowed(&host, &host));
    assert!(!filters.is_allowed(&broadcast, &host));
    assert!(!filters.is_allowed(&host, &broadcast));
}

#[test]
fn an_empty_list_allows_everything() {
    let filters = IpFilters::new(Vec::new());
    assert!(filters.is_allowed(&v4(0, 0, 0, 0), &v4(255, 255, 255, 255)));
}

#[test]
fn an_added_rule_narrows_the_list() {
    let mut filters = IpFilters::with_non_broadcast();
    filters.add_fn(|_src: &IpAddr, dst: &IpAddr| *dst == IpAddr::V4([10, 0, 0, 2]));
    assert!(filters.is_allowed(&v4(10, 0, 0, 1), &v4(10, 0, 0, 2)));
    assert!(!filters.is_allowed(&v4(10, 0, 0, 1), &v4(10, 0, 0, 3)));
    assert!(!filters.is_allowed(&v4(224, 0, 0, 1), &v4(10, 0, 0, 2)));
    filters.add(IpFilter::new(|_src: &IpAddr, _dst: &IpAddr| false));
    assert!(!filters.is_allowed(&v4(10, 0, 0, 1), &v4(10, 0, 0, 2)));
}

#[test]
fn rules_after_a_refusal_are_not_asked() {
    let asked = Arc::new(AtomicUsize::new(0));
    let counter = asked.clone();
    let counting = IpFilter::new(move |_src: &IpAddr, _dst: &IpAddr| {
        counter.fetch_add(1, Ordering::SeqCst);
        true
    });
    let filters = IpFilters::new(vec![IpFilter::new(NonBroadcast), counting]);
    assert!(!filters.is_allowed(&v4(0, 0, 0, 0), &v4(10, 0, 0, 1)));
    assert_eq!(asked.load(Ordering::SeqCst), 0);
    assert!(filters.is_allowed(&v4(10, 0, 0, 2), &v4(10, 0, 0, 1)));
    assert_eq!(asked.load(Ordering::SeqCst), 1);
}
