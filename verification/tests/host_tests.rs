use c_ares::error::{AresError, ARES_ECANCELLED, ARES_ENOTFOUND, ARES_SUCCESS};
use c_ares::host::{get_host_callback, host_result, HostResults};
use c_ares::hostent::Hostent;
use c_ares::types::{AddressFamily, IpAddr, Ipv4Addr, Ipv6Addr};

fn names(list: &[Option<&str>]) -> Vec<Option<String>> {
    list.iter().map(|entry| entry.map(|name| name.to_string())).collect()
}

fn ipv4_host(aliases: &[Option<&str>], addresses: Vec<Option<Vec<u8>>>) -> Hostent {
    Hostent::new("example.com".to_string(), names(aliases), libc::AF_INET, 4, addresses)
        .expect("a well-formed host structure")
}

fn collected_aliases(results: &HostResults) -> Vec<String> {
    let mut walk = results.aliases();
    let mut found = Vec::new();
    while let Some(alias) = walk.next() {
        found.push(alias.alias().to_string());
    }
    found
}

fn collected_addresses(results: &HostResults) -> Vec<IpAddr> {
    let mut walk = results.addresses();
    let mut found = Vec::new();
    while let Some(address) = walk.next() {
        found.push(address.ip_address());
    }
    found
}

#[test]
fn hostent_keeps_what_it_was_given() {
    let host = Hostent::new(
        "host.example".to_string(),
        names(&[Some("a"), None]),
        libc::AF_INET,
        4,
        vec![Some(vec![1, 2, 3, 4]), None],
    )
    .unwrap();
    assert_eq!(host.h_name(), "host.example");
    assert_eq!(*host.h_aliases(), vec![Some("a".to_string()), None]);
    assert_eq!(host.h_addrtype(), libc::AF_INET);
    assert_eq!(host.family(), Some(AddressFamily::INET));
    assert_eq!(host.h_length(), 4);
    assert_eq!(*host.h_addr_list(), vec![Some(vec![1u8, 2, 3, 4]), None]);
}

#[test]
fn hostent_needs_a_null_entry_after_the_aliases() {
    let host = Hostent::new(
        "h".to_string(),
        names(&[Some("a"), Some("b")]),
        libc::AF_INET,
        4,
        vec![None],
    );
    assert!(host.is_none());
    assert!(Hostent::new("h".to_string(), vec![], libc::AF_INET, 4, vec![None]).is_none());
}

#[test]
fn hostent_needs_a_null_entry_after_the_addresses() {
    let host = Hostent::new(
        "h".to_string(),
        names(&[None]),
        libc::AF_INET,
        4,
        vec![Some(vec![1, 2, 3, 4])],
    );
    assert!(host.is_none());
    assert!(Hostent::new("h".to_string(), names(&[None]), libc::AF_INET, 4, vec![]).is_none());
}

#[test]
fn hostent_rejects_a_negative_length() {
    let host = Hostent::new("h".to_string(), names(&[None]), libc::AF_INET, -1, vec![None]);
    assert!(host.is_none());
}

#[test]
fn hostent_rejects_an_address_of_another_length() {
    let short = Hostent::new(
        "h".to_string(),
        names(&[None]),
        libc::AF_INET,
        4,
        vec![Some(vec![1, 2, 3, 4]), Some(vec![1, 2, 3]), None],
    );
    assert!(short.is_none());
    let long = Hostent::new(
        "h".to_string(),
        names(&[None]),
        libc::AF_INET,
        4,
        vec![Some(vec![1, 2, 3, 4, 5]), None],
    );
    assert!(long.is_none());
}

#[test]
fn hostent_does_not_look_behind_the_null_entry() {
    let host = Hostent::new(
        "h".to_string(),
        names(&[None, Some("junk")]),
        libc::AF_INET,
        4,
        vec![Some(vec![1, 2, 3, 4]), None, Some(vec![9])],
    );
    assert!(host.is_some());
}

#[test]
fn hostname_is_the_name_of_the_structure() {
    let host = ipv4_host(&[None], vec![None]);
    let results = HostResults::new(&host);
    assert_eq!(results.hostname(), "example.com");
}

#[test]
fn alias_walk_over_an_empty_list() {
    let host = ipv4_host(&[None], vec![None]);
    let results = HostResults::new(&host);
    assert_eq!(collected_aliases(&results), Vec::<String>::new());
    assert!(results.aliases().next().is_none());
}

#[test]
fn alias_walk_over_one_entry() {
    let host = ipv4_host(&[Some("www.example.com"), None], vec![None]);
    let results = HostResults::new(&host);
    assert_eq!(collected_aliases(&results), vec!["www.example.com".to_string()]);
}

#[test]
fn alias_walk_over_many_entries() {
    let host = ipv4_host(&[Some("a"), Some("b"), Some("c"), Some("d"), None], vec![None]);
    let results = HostResults::new(&host);
    assert_eq!(collected_aliases(&results), vec!["a", "b", "c", "d"]);
}

#[test]
fn alias_walk_ends_at_the_first_null_entry() {
    let host = ipv4_host(&[Some("a"), Some("b"), None, Some("c"), None], vec![None]);
    let results = HostResults::new(&host);
    assert_eq!(collected_aliases(&results), vec!["a", "b"]);
}

#[test]
fn alias_walk_stays_at_the_end() {
    let host = ipv4_host(&[Some("a"), None, Some("b")], vec![None]);
    let results = HostResults::new(&host);
    let mut walk = results.aliases();
    assert_eq!(walk.next().map(|alias| alias.alias().to_string()), Some("a".to_string()));
    assert!(walk.next().is_none());
    assert!(walk.next().is_none());
    assert!(walk.next().is_none());
}

#[test]
fn alias_walk_starts_afresh_each_time() {
    let host = ipv4_host(&[Some("a"), Some("b"), None], vec![None]);
    let results = HostResults::new(&host);
    let mut first = results.aliases();
    assert_eq!(first.next().unwrap().alias(), "a");
    let mut second = results.aliases();
    assert_eq!(second.next().unwrap().alias(), "a");
    assert_eq!(first.next().unwrap().alias(), "b");
    assert_eq!(collected_aliases(&results), vec!["a", "b"]);
}

#[test]
fn alias_collect_yields_what_is_left() {
    let host = ipv4_host(&[Some("a"), Some("b"), Some("c"), None, Some("d")], vec![None]);
    let results = HostResults::new(&host);
    let all: Vec<String> =
        results.aliases().collect().iter().map(|alias| alias.alias().to_string()).collect();
    assert_eq!(all, vec!["a", "b", "c"]);
    let mut walk = results.aliases();
    walk.next();
    let rest: Vec<String> = walk.collect().iter().map(|alias| alias.alias().to_string()).collect();
    assert_eq!(rest, vec!["b", "c"]);
}

#[test]
fn address_walk_over_an_empty_list() {
    let host = ipv4_host(&[None], vec![None]);
    let results = HostResults::new(&host);
    assert_eq!(collected_addresses(&results), vec![]);
}

#[test]
fn address_walk_over_one_entry() {
    let host = ipv4_host(&[None], vec![Some(vec![93, 184, 216, 34]), None]);
    let results = HostResults::new(&host);
    assert_eq!(collected_addresses(&results), vec![IpAddr::V4(Ipv4Addr::new(93, 184, 216, 34))]);
}

#[test]
fn address_walk_over_many_entries() {
    let host = ipv4_host(
        &[None],
        vec![Some(vec![1, 2, 3, 4]), Some(vec![10, 0, 0, 1]), Some(vec![255, 254, 253, 252]), None],
    );
    let results = HostResults::new(&host);
    assert_eq!(
        collected_addresses(&results),
        vec![
            IpAddr::V4(Ipv4Addr::new(1, 2, 3, 4)),
            IpAddr::V4(Ipv4Addr::new(10, 0, 0, 1)),
            IpAddr::V4(Ipv4Addr::new(255, 254, 253, 252)),
        ]
    );
}

#[test]
fn address_walk_ends_at_the_first_null_entry() {
    let host = ipv4_host(
        &[None],
        vec![Some(vec![1, 2, 3, 4]), None, Some(vec![5, 6, 7, 8]), None],
    );
    let results = HostResults::new(&host);
    assert_eq!(collected_addresses(&results), vec![IpAddr::V4(Ipv4Addr::new(1, 2, 3, 4))]);
    let mut walk = results.addresses();
    assert!(walk.next().is_some());
    assert!(walk.next().is_none());
    assert!(walk.next().is_none());
}

#[test]
fn address_walk_starts_afresh_each_time() {
    let host = ipv4_host(&[None], vec![Some(vec![1, 2, 3, 4]), Some(vec![5, 6, 7, 8]), None]);
    let results = HostResults::new(&host);
    let mut first = results.addresses();
    assert_eq!(first.next().unwrap().ip_address(), IpAddr::V4(Ipv4Addr::new(1, 2, 3, 4)));
    let mut second = results.addresses();
    assert_eq!(second.next().unwrap().ip_address(), IpAddr::V4(Ipv4Addr::new(1, 2, 3, 4)));
    assert_eq!(first.next().unwrap().ip_address(), IpAddr::V4(Ipv4Addr::new(5, 6, 7, 8)));
}

#[test]
fn address_collect_yields_what_is_left() {
    let host = ipv4_host(&[None], vec![Some(vec![1, 2, 3, 4]), Some(vec![5, 6, 7, 8]), None]);
    let results = HostResults::new(&host);
    let all: Vec<IpAddr> =
        results.addresses().collect().iter().map(|address| address.ip_address()).collect();
    assert_eq!(
        all,
        vec![IpAddr::V4(Ipv4Addr::new(1, 2, 3, 4)), IpAddr::V4(Ipv4Addr::new(5, 6, 7, 8))]
    );
}

#[test]
fn ipv6_addresses_are_read_with_the_high_byte_first() {
    let bytes = vec![0x20, 0x01, 0x0d, 0xb8, 0x85, 0xa3, 0, 0, 0, 0, 0x8a, 0x2e, 0x03, 0x70, 0x73, 0x34];
    let host = Hostent::new(
        "v6.example".to_string(),
        names(&[None]),
        libc::AF_INET6,
        16,
        vec![Some(bytes), None],
    )
    .unwrap();
    let results = HostResults::new(&host);
    assert_eq!(
        collected_addresses(&results),
        vec![IpAddr::V6(Ipv6Addr::new(0x2001, 0x0db8, 0x85a3, 0, 0, 0x8a2e, 0x0370, 0x7334))]
    );
}

#[test]
fn addresses_of_an_unknown_family_are_not_read() {
    let host = Hostent::new(
        "h".to_string(),
        names(&[None]),
        libc::AF_UNIX,
        4,
        vec![Some(vec![1, 2, 3, 4]), None],
    )
    .unwrap();
    let results = HostResults::new(&host);
    assert_eq!(collected_addresses(&results), vec![]);
    assert!(results.addresses().next().is_none());
}

#[test]
fn hostent_rejects_addresses_too_short_for_their_family() {
    let short_v6 = Hostent::new(
        "h".to_string(),
        names(&[None]),
        libc::AF_INET6,
        4,
        vec![Some(vec![1, 2, 3, 4]), None],
    );
    assert!(short_v6.is_none());
    let short_v4 = Hostent::new(
        "h".to_string(),
        names(&[None]),
        libc::AF_INET,
        3,
        vec![Some(vec![1, 2, 3]), None],
    );
    assert!(short_v4.is_none());
    let empty_v6 = Hostent::new("h".to_string(), names(&[None]), libc::AF_INET6, 15, vec![None]);
    assert!(empty_v6.is_none());
}

#[test]
fn hostent_of_an_unknown_family_may_hold_addresses_of_any_length() {
    let host = Hostent::new(
        "h".to_string(),
        names(&[None]),
        libc::AF_UNIX,
        1,
        vec![Some(vec![7]), None],
    )
    .unwrap();
    assert_eq!(host.family(), None);
    assert_eq!(host.h_addrtype(), libc::AF_UNIX);
}

#[test]
fn hostent_reads_its_family_from_the_native_number() {
    let v4 = Hostent::new("h".to_string(), names(&[None]), libc::AF_INET, 4, vec![None]).unwrap();
    assert_eq!(v4.family(), Some(AddressFamily::INET));
    let v6 = Hostent::new("h".to_string(), names(&[None]), libc::AF_INET6, 16, vec![None]).unwrap();
    assert_eq!(v6.family(), Some(AddressFamily::INET6));
    for number in [0, -1, 255, 1000, i32::MIN, i32::MAX] {
        if number != libc::AF_INET && number != libc::AF_INET6 {
            let other =
                Hostent::new("h".to_string(), names(&[None]), number, 4, vec![None]).unwrap();
            assert_eq!(other.family(), None, "number {}", number);
        }
    }
}

#[test]
fn hostent_with_a_given_family() {
    let host = Hostent::with_family(
        "h".to_string(),
        names(&[None]),
        30,
        Some(AddressFamily::INET6),
        16,
        vec![Some(vec![0, 0, 0, 0, 0, 0, 0, 0, 0, 0, 0, 0, 0, 0, 0, 1]), None],
    )
    .unwrap();
    assert_eq!(host.h_addrtype(), 30);
    assert_eq!(host.family(), Some(AddressFamily::INET6));
    let results = HostResults::new(&host);
    assert_eq!(
        collected_addresses(&results),
        vec![IpAddr::V6(Ipv6Addr::new(0, 0, 0, 0, 0, 0, 0, 1))]
    );
    let short = Hostent::with_family(
        "h".to_string(),
        names(&[None]),
        30,
        Some(AddressFamily::INET6),
        4,
        vec![None],
    );
    assert!(short.is_none());
    let unknown =
        Hostent::with_family("h".to_string(), names(&[None]), 30, None, 4, vec![None]);
    assert_eq!(unknown.unwrap().family(), None);
}

#[test]
fn addresses_longer_than_their_family_are_read_from_the_front() {
    let host = Hostent::new(
        "h".to_string(),
        names(&[None]),
        libc::AF_INET,
        6,
        vec![Some(vec![1, 2, 3, 4, 5, 6]), None],
    )
    .unwrap();
    let results = HostResults::new(&host);
    assert_eq!(collected_addresses(&results), vec![IpAddr::V4(Ipv4Addr::new(1, 2, 3, 4))]);
}

#[test]
fn addresses_are_read_under_the_family_of_the_structure() {
    let bytes = vec![0x20, 0x01, 0x0d, 0xb8, 0, 0, 0, 0, 0, 0, 0, 0, 0, 0, 0, 0x01];
    let as_v6 = Hostent::with_family(
        "h".to_string(),
        names(&[None]),
        10,
        Some(AddressFamily::INET6),
        16,
        vec![Some(bytes.clone()), None],
    )
    .unwrap();
    assert_eq!(
        collected_addresses(&HostResults::new(&as_v6)),
        vec![IpAddr::V6(Ipv6Addr::new(0x2001, 0x0db8, 0, 0, 0, 0, 0, 1))]
    );
    let as_v4 = Hostent::with_family(
        "h".to_string(),
        names(&[None]),
        2,
        Some(AddressFamily::INET),
        16,
        vec![Some(bytes.clone()), None],
    )
    .unwrap();
    assert_eq!(
        collected_addresses(&HostResults::new(&as_v4)),
        vec![IpAddr::V4(Ipv4Addr::new(0x20, 0x01, 0x0d, 0xb8))]
    );
    let unknown = Hostent::with_family(
        "h".to_string(),
        names(&[None]),
        99,
        None,
        16,
        vec![Some(bytes), None],
    )
    .unwrap();
    assert_eq!(collected_addresses(&HostResults::new(&unknown)), vec![]);
}

#[test]
fn host_result_on_success_looks_at_the_structure() {
    let host = ipv4_host(&[Some("alias"), None], vec![Some(vec![1, 2, 3, 4]), None]);
    match host_result(ARES_SUCCESS, Some(&host)) {
        Ok(results) => {
            assert_eq!(results.hostname(), "example.com");
            assert_eq!(collected_aliases(&results), vec!["alias"]);
        }
        Err(error) => panic!("unexpected error {:?}", error),
    }
}

#[test]
fn host_result_on_failure_is_the_error_of_the_status() {
    let host = ipv4_host(&[None], vec![None]);
    assert!(matches!(host_result(ARES_ENOTFOUND, None), Err(AresError::ENOTFOUND)));
    assert!(matches!(host_result(ARES_ENOTFOUND, Some(&host)), Err(AresError::ENOTFOUND)));
    assert!(matches!(host_result(12, None), Err(AresError::ETIMEOUT)));
    assert!(matches!(host_result(99, None), Err(AresError::UNKNOWN)));
}

#[test]
fn host_result_on_success_without_a_structure_is_a_bad_response() {
    assert!(matches!(host_result(ARES_SUCCESS, None), Err(AresError::EBADRESP)));
}

#[test]
fn host_callback_calls_the_handler_once_on_success() {
    let host = ipv4_host(&[None], vec![Some(vec![127, 0, 0, 1]), None]);
    let mut calls = 0;
    let mut seen = Vec::new();
    get_host_callback(
        |result: Result<HostResults, AresError>| {
            calls += 1;
            let results = result.expect("a successful lookup");
            seen.push(results.hostname().to_string());
            seen.push(format!("{:?}", results.addresses().next().unwrap().ip_address()));
        },
        ARES_SUCCESS,
        0,
        Some(&host),
    );
    assert_eq!(calls, 1);
    assert_eq!(seen[0], "example.com");
    assert_eq!(seen[1], format!("{:?}", IpAddr::V4(Ipv4Addr::new(127, 0, 0, 1))));
}

#[test]
fn host_callback_calls_the_handler_once_on_failure() {
    let mut calls = 0;
    let mut seen = None;
    get_host_callback(
        |result: Result<HostResults, AresError>| {
            calls += 1;
            seen = result.err();
        },
        ARES_ENOTFOUND,
        3,
        None,
    );
    assert_eq!(calls, 1);
    assert_eq!(seen, Some(AresError::ENOTFOUND));
}

#[test]
fn host_callback_hands_on_a_cancellation() {
    let mut calls = 0;
    let mut seen = None;
    get_host_callback(
        |result: Result<HostResults, AresError>| {
            calls += 1;
            seen = result.err();
        },
        ARES_ECANCELLED,
        0,
        None,
    );
    assert_eq!(calls, 1);
    assert_eq!(seen, Some(AresError::ECANCELLED));
}
