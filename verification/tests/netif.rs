use esp_idf_matter::error::{Error, ErrorCode, EspError};
use esp_idf_matter::netif::{
    EspMatterNetif, InterfaceTypeEnum, Ipv4Addr, Ipv6Addr, NetifInfo, NetifInfoOwned, NetifReadings,
};

const WORDS: [u32; 4] = [0x0000_80fe, 0, 0xfeff_1122, 0x0403_0201];
const LINK_LOCAL: Ipv6Addr = Ipv6Addr([
    0xfe, 0x80, 0, 0, 0, 0, 0, 0, 0x22, 0x11, 0xff, 0xfe, 0x01, 0x02, 0x03, 0x04,
]);

fn name(s: &str) -> heapless::String<6> {
    s.try_into().unwrap()
}

fn readings() -> NetifReadings {
    NetifReadings {
        ip_info: Ok(Ipv4Addr([192, 168, 1, 2])),
        ip6_linklocal: Ok(WORDS),
        mac: Ok([1, 2, 3, 4, 5, 6]),
        name: name("st1"),
        is_up: Ok(true),
        index: 7,
    }
}

#[test]
fn interface_shows_what_was_read() {
    let mut called = false;
    let r = EspMatterNetif::get_netif_conf(&readings(), |info: &NetifInfo<'_>| {
        assert_eq!(info.name, "st1");
        assert!(info.operational);
        assert_eq!(info.offprem_svc_reachable_ipv4, None);
        assert_eq!(info.offprem_svc_reachable_ipv6, None);
        assert_eq!(info.hw_addr, &[1, 2, 3, 4, 5, 6, 0, 0]);
        assert_eq!(info.ipv4_addrs, &[Ipv4Addr([192, 168, 1, 2])]);
        assert_eq!(info.ipv6_addrs, &[LINK_LOCAL]);
        assert_eq!(info.netif_type, InterfaceTypeEnum::Unspecified);
        assert_eq!(info.netif_index, 7);
        called = true;
        Ok(5)
    });
    assert_eq!(r, Ok(5));
    assert!(called);
}

#[test]
fn missing_link_local_address_is_unspecified() {
    let netif = NetifReadings { ip6_linklocal: Err(EspError { code: 1 }), ..readings() };
    let r = EspMatterNetif::new(netif).get_conf(|info: &NetifInfo<'_>| Ok(info.ipv6_addrs[0]));
    assert_eq!(r, Ok(Ipv6Addr([0; 16])));
}

#[test]
fn first_failed_reading_is_reported() {
    let err = |code| EspError { code };
    let all = NetifReadings {
        ip_info: Err(err(1)),
        mac: Err(err(2)),
        is_up: Err(err(3)),
        ..readings()
    };
    let shown = |netif: &NetifReadings| EspMatterNetif::get_netif_conf(netif, |_: &NetifInfo<'_>| Ok(()));
    assert_eq!(shown(&all), Err(err(1)));
    let mac = NetifReadings { mac: Err(err(2)), is_up: Err(err(3)), ..readings() };
    assert_eq!(shown(&mac), Err(err(2)));
    let up = NetifReadings { is_up: Err(err(3)), ..readings() };
    assert_eq!(shown(&up), Err(err(3)));
}

#[test]
fn netifs_maps_reading_errors_and_passes_others_on() {
    let netif = EspMatterNetif::new(NetifReadings { mac: Err(EspError { code: 2 }), ..readings() });
    assert_eq!(
        netif.netifs(|_: &NetifInfo<'_>| Ok(())),
        Err(Error { code: ErrorCode::NoNetworkInterface })
    );
    let netif = EspMatterNetif::new(readings());
    assert_eq!(netif.netifs(|_: &NetifInfo<'_>| Ok(())), Ok(()));
    let err = Error { code: ErrorCode::InvalidData };
    assert_eq!(netif.netifs(|_: &NetifInfo<'_>| Err(err)), Err(err));
}

#[test]
fn unseen_interface_is_not_operational() {
    let netif = NetifInfoOwned::new();
    assert!(!netif.is_operational());
    assert!(!netif.is_operational_v6());
    netif
        .as_ref(|info: &NetifInfo<'_>| {
            assert_eq!(info.name, "");
            assert!(!info.operational);
            assert_eq!(info.hw_addr, &[0; 8]);
            assert!(info.ipv4_addrs.is_empty());
            assert!(info.ipv6_addrs.is_empty());
            assert_eq!(info.netif_type, InterfaceTypeEnum::WiFi);
            assert_eq!(info.netif_index, 0);
            Ok(())
        })
        .unwrap();
}

#[test]
fn change_is_told_once() {
    let mut netif = NetifInfoOwned::new();
    assert_eq!(netif.load(true, &readings(), InterfaceTypeEnum::Thread), Ok(true));
    assert_eq!(netif.load(true, &readings(), InterfaceTypeEnum::Thread), Ok(false));
    assert!(netif.is_operational());
    assert!(netif.is_operational_v6());
    netif
        .as_ref(|info: &NetifInfo<'_>| {
            assert_eq!(info.name, "st1");
            assert!(info.operational);
            assert_eq!(info.ipv4_addrs, &[Ipv4Addr([192, 168, 1, 2])]);
            assert_eq!(info.ipv6_addrs, &[LINK_LOCAL]);
            assert_eq!(info.netif_type, InterfaceTypeEnum::Thread);
            Ok(())
        })
        .unwrap();
}

#[test]
fn each_field_counts_as_a_change() {
    let changes = [
        NetifReadings { ip_info: Ok(Ipv4Addr([10, 0, 0, 1])), ..readings() },
        NetifReadings { ip6_linklocal: Ok([1, 2, 3, 4]), ..readings() },
        NetifReadings { mac: Ok([6; 6]), ..readings() },
        NetifReadings { name: name("st2"), ..readings() },
        NetifReadings { is_up: Ok(false), ..readings() },
        NetifReadings { index: 8, ..readings() },
    ];
    for changed in &changes {
        let mut netif = NetifInfoOwned::new();
        netif.load(true, &readings(), InterfaceTypeEnum::WiFi).unwrap();
        assert_eq!(netif.load(true, changed, InterfaceTypeEnum::WiFi), Ok(true));
    }
}

#[test]
fn state_of_an_unconnected_interface_does_not_count() {
    let mut netif = NetifInfoOwned::new();
    netif.load(true, &readings(), InterfaceTypeEnum::WiFi).unwrap();
    let down = NetifReadings { is_up: Ok(false), ..readings() };
    assert_eq!(netif.load(false, &down, InterfaceTypeEnum::WiFi), Ok(false));
    assert!(netif.is_operational());
    // With any other change, the interface counts as down.
    let moved = NetifReadings { index: 9, ..readings() };
    assert_eq!(netif.load(false, &moved, InterfaceTypeEnum::WiFi), Ok(true));
    assert!(!netif.is_operational());
}

#[test]
fn operational_needs_addresses() {
    let mut netif = NetifInfoOwned::new();
    let no_v4 = NetifReadings { ip_info: Ok(Ipv4Addr([0; 4])), ..readings() };
    netif.load(true, &no_v4, InterfaceTypeEnum::WiFi).unwrap();
    assert!(!netif.is_operational());
    assert!(netif.is_operational_v6());
    let no_v6 = NetifReadings { ip6_linklocal: Err(EspError { code: 1 }), ..readings() };
    netif.load(true, &no_v6, InterfaceTypeEnum::WiFi).unwrap();
    assert!(!netif.is_operational());
    assert!(!netif.is_operational_v6());
}

#[test]
fn failed_reading_keeps_what_was_seen() {
    let mut netif = NetifInfoOwned::new();
    netif.load(true, &readings(), InterfaceTypeEnum::WiFi).unwrap();
    let failed = NetifReadings { ip_info: Err(EspError { code: 4 }), ..readings() };
    assert_eq!(netif.load(true, &failed, InterfaceTypeEnum::WiFi), Err(EspError { code: 4 }));
    assert!(netif.is_operational());
}

#[test]
fn first_addresses_are_taken() {
    let mut netif = NetifInfoOwned::new();
    let info = NetifInfo {
        name: "eth0",
        operational: true,
        offprem_svc_reachable_ipv4: None,
        offprem_svc_reachable_ipv6: None,
        hw_addr: &[8; 8],
        ipv4_addrs: &[],
        ipv6_addrs: &[LINK_LOCAL, Ipv6Addr([1; 16])],
        netif_type: InterfaceTypeEnum::Ethernet,
        netif_index: 1,
    };
    assert!(netif.load_from_info(true, &info));
    assert!(!netif.load_from_info(true, &info));
    assert!(netif.is_operational_v6());
    netif
        .as_ref(|shown: &NetifInfo<'_>| {
            assert!(shown.ipv4_addrs.is_empty());
            assert_eq!(shown.ipv6_addrs, &[LINK_LOCAL]);
            assert_eq!(shown.hw_addr, &[8; 8]);
            Ok(())
        })
        .unwrap();
}

#[test]
fn addresses_compare_by_their_bytes() {
    assert!(Ipv4Addr::any().is_unspecified());
    assert!(!Ipv4Addr([0, 0, 0, 1]).is_unspecified());
    assert!(Ipv4Addr([1, 2, 3, 4]).same(&Ipv4Addr([1, 2, 3, 4])));
    assert!(!Ipv4Addr([1, 2, 3, 4]).same(&Ipv4Addr([1, 2, 3, 5])));
    assert!(Ipv6Addr::any().is_unspecified());
    assert!(!LINK_LOCAL.is_unspecified());
    assert!(!LINK_LOCAL.same(&Ipv6Addr([0; 16])));
    assert_eq!(Ipv6Addr::from_words(&WORDS), LINK_LOCAL);
}

#[test]
fn shown_interface_loads_back_unchanged() {
    let mut netif = NetifInfoOwned::new();
    netif.load(true, &readings(), InterfaceTypeEnum::Ethernet).unwrap();
    let mut copy = NetifInfoOwned::new();
    netif
        .as_ref(|info: &NetifInfo<'_>| {
            assert!(copy.load_from_info(true, info));
            assert!(!copy.load_from_info(true, info));
            Ok(())
        })
        .unwrap();
    assert_eq!(copy.load(true, &readings(), InterfaceTypeEnum::Ethernet), Ok(false));
}
