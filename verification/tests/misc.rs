use esp_idf_matter::ble::BtAddr;
use esp_idf_matter::bytes::{
    bytes_eq, lower_digit, str_eq, to_le_bytes, u64_from_be_bytes, u64_to_be_bytes, upper_digit,
};
use esp_idf_matter::error::{
    to_net_constr_error, to_net_error, to_persist_error, Error, ErrorCode, EspError, NetCtlError,
};
use esp_idf_matter::multicast::{join_multicast_v4, join_multicast_v6, IpMreq};
use esp_idf_matter::netif::{Ipv4Addr, Ipv6Addr};
use esp_idf_matter::udp::{recv_source, send_dest, Address, SocketAddr};
use esp_idf_matter::wifi::diag::{
    cluster, Access, AssociationFailure, AttrValue, Attribute, Attributes, Commands, ConnectionStatus, Quality,
    WiFiSecurity, WiFiVersion, WifiNwDiagCluster,
};
use esp_idf_matter::wireless::{EspGatt, GATTS_APP_ID};

#[test]
fn errors_are_mapped() {
    let err = EspError::from_infallible(5);
    assert_eq!(err.code, 5);
    assert_eq!(to_net_error(err), Error { code: ErrorCode::NoNetworkInterface });
    assert_eq!(to_persist_error(err), Error { code: ErrorCode::StdIoError });
    let constr = Error { code: ErrorCode::ConstraintError };
    assert_eq!(to_net_constr_error(err), NetCtlError::Other(constr));
    assert_eq!(NetCtlError::from(constr), NetCtlError::Other(constr));
}

#[test]
fn bytes_and_strings_compare() {
    assert!(bytes_eq(&[1, 2], &[1, 2]));
    assert!(!bytes_eq(&[1, 2], &[1, 3]));
    assert!(!bytes_eq(&[1, 2], &[1, 2, 3]));
    assert!(str_eq("grün", "grün"));
    assert!(!str_eq("grün", "grun"));
}

#[test]
fn numbers_convert_to_bytes_and_back() {
    assert_eq!(to_le_bytes(0x0102_0304), [4, 3, 2, 1]);
    assert_eq!(u64_from_be_bytes(&[1, 2, 3, 4, 5, 6, 7, 8]), 0x0102_0304_0506_0708);
    assert_eq!(u64_to_be_bytes(0x0102_0304_0506_0708), [1, 2, 3, 4, 5, 6, 7, 8]);
    assert_eq!(u64_from_be_bytes(&u64_to_be_bytes(u64::MAX)), u64::MAX);
}

#[test]
fn digits_are_hexadecimal() {
    let upper: String = (0..16).map(upper_digit).collect();
    let lower: String = (0..16).map(lower_digit).collect();
    assert_eq!(upper, "0123456789ABCDEF");
    assert_eq!(lower, "0123456789abcdef");
}

#[test]
fn multicast_v4_membership_holds_the_bytes() {
    let mut asked = None;
    let r = join_multicast_v4(Ipv4Addr([224, 0, 0, 251]), Ipv4Addr([10, 0, 0, 2]), |mreq: IpMreq| {
        asked = Some(mreq);
        Ok(())
    });
    assert_eq!(r, Ok(()));
    let mreq = asked.unwrap();
    assert_eq!(mreq.imr_multiaddr, [224, 0, 0, 251]);
    assert_eq!(mreq.imr_interface, [10, 0, 0, 2]);
    let r = join_multicast_v4(Ipv4Addr([0; 4]), Ipv4Addr([0; 4]), |_: IpMreq| Err(EspError { code: 1 }));
    assert_eq!(r, Err(Error { code: ErrorCode::StdIoError }));
}

#[test]
fn multicast_v6_is_joined_on_the_interface() {
    let group = Ipv6Addr([0xff; 16]);
    let r = join_multicast_v6(group, 3, |addr: Ipv6Addr, interface: u32| {
        assert_eq!((addr, interface), (group, 3));
        Ok::<(), ()>(())
    });
    assert_eq!(r, Ok(()));
    let r = join_multicast_v6(group, 3, |_: Ipv6Addr, _: u32| Err(()));
    assert_eq!(r, Err(Error { code: ErrorCode::StdIoError }));
}

#[test]
fn only_udp_peers_have_a_socket() {
    let addr = SocketAddr::V4 { ip: Ipv4Addr([1, 2, 3, 4]), port: 5540 };
    assert_eq!(send_dest(&recv_source(addr)), Ok(addr));
    let v6 = SocketAddr::V6 { ip: Ipv6Addr([1; 16]), port: 1, flowinfo: 2, scope_id: 3 };
    assert_eq!(send_dest(&Address::Udp(v6)), Ok(v6));
    let none = Err(Error { code: ErrorCode::NoNetworkInterface });
    assert_eq!(send_dest(&Address::Tcp(addr)), none);
    assert_eq!(send_dest(&Address::Btp(BtAddr([1; 6]))), none);
}

#[test]
fn cluster_lists_its_attributes() {
    let cluster = cluster();
    assert_eq!(cluster.id, 0x36);
    assert_eq!(cluster.feature_map, 0);
    let attr = |id, quality| Attribute { id, access: Access::RV, quality };
    assert_eq!(
        cluster.attributes,
        vec![
            attr(0xfffc, Quality::Any),
            attr(0xfffb, Quality::Any),
            attr(0, Quality::Any),
            attr(1, Quality::Fixed),
            attr(2, Quality::Fixed),
            attr(3, Quality::Fixed),
            attr(4, Quality::Fixed),
        ]
    );
    assert_eq!(cluster.commands, vec![0]);
}

#[test]
fn attributes_are_read() {
    let cluster = WifiNwDiagCluster::new(9);
    let read = |id| cluster.read(id, false, true);
    let missing = Err(Error { code: ErrorCode::AttributeNotFound });
    assert_eq!(read(0), Ok(Some(AttrValue::Bssid([0; 6]))));
    assert_eq!(read(1), Ok(Some(AttrValue::SecurityType(WiFiSecurity::Unspecified))));
    assert_eq!(read(2), Ok(Some(AttrValue::WifiVersion(WiFiVersion::B))));
    assert_eq!(read(3), Ok(Some(AttrValue::ChannelNumber(20))));
    assert_eq!(read(4), Ok(Some(AttrValue::Rssi(0))));
    assert_eq!(read(5), missing);
    assert_eq!(read(0x0c), missing);
    assert_eq!(read(0x0d), missing);
    assert_eq!(cluster.read(0xfffc, true, true), Ok(Some(AttrValue::System)));
    assert_eq!(cluster.read(0xfffd, true, true), Ok(Some(AttrValue::System)));
}

#[test]
fn readers_that_do_not_ask_get_nothing() {
    let cluster = WifiNwDiagCluster::new(9);
    assert_eq!(cluster.read(4, false, false), Ok(None));
    assert_eq!(cluster.read(0x77, false, false), Ok(None));
    assert_eq!(cluster.read(0xfffc, true, false), Ok(None));
    assert_eq!(cluster.data_ver(), 9);
}

#[test]
fn refused_writes_change_nothing() {
    let mut cluster = WifiNwDiagCluster::new(u32::MAX);
    let refused = Error { code: ErrorCode::InvalidData };
    assert_eq!(cluster.write(Err(refused)), Err(refused));
    assert_eq!(cluster.data_ver(), u32::MAX);
    assert_eq!(cluster.write(Ok(())), Ok(()));
    assert_eq!(cluster.data_ver(), 0);
    assert_eq!(cluster.write(Ok(())), Ok(()));
    assert_eq!(cluster.data_ver(), 1);
}

#[test]
fn unknown_commands_are_refused() {
    let mut cluster = WifiNwDiagCluster::new(3);
    assert_eq!(cluster.invoke(1), Err(Error { code: ErrorCode::CommandNotFound }));
    assert_eq!(cluster.data_ver(), 3);
    assert_eq!(cluster.invoke(0), Ok(()));
    assert_eq!(cluster.data_ver(), 4);
}

#[test]
fn enumerations_have_numbers() {
    for id in 0..13 {
        assert_eq!(Attributes::from_repr(id).unwrap().repr(), id);
    }
    assert_eq!(Attributes::from_repr(13), None);
    assert_eq!(Attributes::from_repr(11), Some(Attributes::CurrentMaxRate));
    assert_eq!(Commands::from_repr(0), Some(Commands::ResetCounts));
    assert_eq!(Commands::from_repr(1), None);
    assert_eq!(WiFiSecurity::from_repr(3), Some(WiFiSecurity::WpaPersonal));
    assert_eq!(WiFiSecurity::from_repr(6), None);
    assert_eq!(WiFiVersion::AX.repr(), 5);
    assert_eq!(WiFiVersion::from_repr(6), None);
    assert_eq!(AssociationFailure::SsidNotFound.repr(), 3);
    assert_eq!(AssociationFailure::from_repr(4), None);
    assert_eq!(ConnectionStatus::from_repr(1), Some(ConnectionStatus::NotConnected));
    assert_eq!(ConnectionStatus::from_repr(2), None);
}

#[test]
fn embedding_holds_the_context() {
    let gatt = EspGatt::new(17);
    assert_eq!(*gatt.embedding(), 17);
    assert!(!gatt.context().in_flight());
    assert_eq!(GATTS_APP_ID, 0);
}
