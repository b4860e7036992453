use weylus::network::{candidate_ips, is_unspecified, shown_address, IpAddress, NetInterface};

fn iface(up: bool, loopback: bool, ips: Vec<IpAddress>) -> NetInterface {
    NetInterface {
        is_up: up,
        is_loopback: loopback,
        ips,
    }
}

fn machine() -> Vec<NetInterface> {
    vec![
        iface(true, true, vec![IpAddress::V4(127, 0, 0, 1)]),
        iface(false, false, vec![IpAddress::V4(10, 0, 0, 9)]),
        iface(
            true,
            false,
            vec![
                IpAddress::V6(0xfe80, 0, 0, 0, 0, 0, 0, 1),
                IpAddress::V4(192, 168, 1, 20),
            ],
        ),
        iface(true, false, vec![IpAddress::V4(172, 17, 0, 1)]),
    ]
}

#[test]
fn unspecified_addresses() {
    assert!(is_unspecified(IpAddress::V4(0, 0, 0, 0)));
    assert!(!is_unspecified(IpAddress::V4(0, 0, 0, 1)));
    assert!(is_unspecified(IpAddress::V6(0, 0, 0, 0, 0, 0, 0, 0)));
    assert!(!is_unspecified(IpAddress::V6(0, 0, 0, 0, 0, 0, 0, 1)));
}

#[test]
fn candidates_skip_down_and_loopback_interfaces_and_other_families() {
    assert_eq!(
        candidate_ips(true, &machine()),
        vec![IpAddress::V4(192, 168, 1, 20), IpAddress::V4(172, 17, 0, 1)]
    );
    assert_eq!(
        candidate_ips(false, &machine()),
        vec![IpAddress::V6(0xfe80, 0, 0, 0, 0, 0, 0, 1)]
    );
}

#[test]
fn shown_address_guesses_only_for_unspecified_binds() {
    let (shown, others) = shown_address(IpAddress::V4(0, 0, 0, 0), &machine());
    assert_eq!(shown, IpAddress::V4(192, 168, 1, 20));
    assert_eq!(others, vec![IpAddress::V4(172, 17, 0, 1)]);
    let fixed = IpAddress::V4(10, 1, 2, 3);
    assert_eq!(shown_address(fixed, &machine()), (fixed, vec![]));
    let none = IpAddress::V4(0, 0, 0, 0);
    assert_eq!(shown_address(none, &vec![]), (none, vec![]));
}
