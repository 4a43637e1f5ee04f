use esp_idf_matter::error::{Error, ErrorCode, EspError, NetCtlError};
use esp_idf_matter::netif::{InterfaceTypeEnum, Ipv4Addr, NetifInfo, NetifReadings};
use esp_idf_matter::networks::{NetworkScanInfo, NetworkType, WirelessCreds};
use esp_idf_matter::thread::srp::{
    hostname, srp_service, EspMatterThreadSrp, MatterMdnsService, Service, SrpAction, SrpEvent, SrpServiceSlot,
};
use esp_idf_matter::thread::{
    connect_next, scan_next, ActiveScanResult, ConnectAction, ConnectEvent, EspMatterThreadCtl,
    EspMatterThreadNotif, NeighborTable, NetworkFaultEnum, OperationalDatasetComponents, Role, RouteTable,
    ScanAction, ScanEvent, ThreadScan,
};
use esp_idf_matter::wifi::LoadOutcome;

const ERR: EspError = EspError { code: 42 };

fn net_error() -> NetCtlError {
    NetCtlError::Other(Error { code: ErrorCode::NoNetworkInterface })
}

fn found(id: u8, name: &[u8]) -> Option<ActiveScanResult<'_>> {
    Some(ActiveScanResult {
        pan_id: 0x1234,
        extended_pan_id: [1, 2, 3, 4, 5, 6, 7, id],
        network_name: name,
        channel: 15,
        version: 4,
        extended_address: [id; 8],
        max_rssi: -70,
        lqi: 3,
    })
}

#[test]
fn thread_scan_remembers_the_first_networks() {
    let mut scan = ThreadScan::new();
    for id in 0..7 {
        scan.found(found(id, b"net"));
    }
    scan.found(None);
    let results = scan.results(None);
    assert_eq!(results.len(), 5);
    for (id, result) in results.into_iter().enumerate() {
        assert_eq!(
            result,
            NetworkScanInfo::Thread {
                pan_id: 0x1234,
                ext_pan_id: 0x0102030405060700 + id as u64,
                network_name: "net",
                channel: 15,
                version: 4,
                ext_addr: &[id as u8; 8],
                rssi: -70,
                lqi: 3,
            }
        );
    }
}

#[test]
fn thread_scan_filters_by_extended_pan_id() {
    let mut scan = ThreadScan::new();
    scan.found(found(8, b"a"));
    scan.found(found(9, b"b"));
    let results = scan.results(Some(&[1, 2, 3, 4, 5, 6, 7, 9]));
    assert_eq!(results.len(), 1);
    assert!(matches!(results[0], NetworkScanInfo::Thread { network_name: "b", .. }));
    assert!(scan.results(Some(&[1, 2, 3])).is_empty());
    assert!(scan.results(Some(&[0; 8])).is_empty());
}

#[test]
fn strange_network_names_are_replaced() {
    let mut scan = ThreadScan::new();
    scan.found(found(1, &[0xff, 0xfe]));
    scan.found(found(2, b"seventeen letters"));
    scan.found(found(3, b"sixteen letters!"));
    let names: Vec<&str> = scan
        .results(None)
        .into_iter()
        .map(|info| match info {
            NetworkScanInfo::Thread { network_name, .. } => network_name,
            NetworkScanInfo::Wifi { .. } => unreachable!(),
        })
        .collect();
    assert_eq!(names, vec!["???", "???", "sixteen letters!"]);
}

#[test]
fn thread_scan_waits_until_it_is_over() {
    assert_eq!(scan_next(ScanEvent::Begin), ScanAction::Scan);
    assert_eq!(scan_next(ScanEvent::Scanning(Ok(()))), ScanAction::IsInProgress);
    assert_eq!(scan_next(ScanEvent::IsInProgress(Ok(true))), ScanAction::Wait(500));
    assert_eq!(scan_next(ScanEvent::Waited), ScanAction::IsInProgress);
    assert_eq!(scan_next(ScanEvent::IsInProgress(Ok(false))), ScanAction::Report);
    assert_eq!(scan_next(ScanEvent::Scanning(Err(ERR))), ScanAction::Fail(net_error()));
    assert_eq!(scan_next(ScanEvent::IsInProgress(Err(ERR))), ScanAction::Fail(net_error()));
}

#[test]
fn thread_connects_until_the_time_is_up() {
    let creds = WirelessCreds::Thread { dataset_tlv: &[7, 8] };
    let next = |event| connect_next(&creds, event);
    assert_eq!(next(ConnectEvent::Begin), ConnectAction::Load);
    assert_eq!(next(ConnectEvent::Loaded(Ok(()))), ConnectAction::SetTod(&[7, 8]));
    assert_eq!(next(ConnectEvent::TodSet(Ok(()))), ConnectAction::Poll);
    let polled = |operational, elapsed_ms| next(ConnectEvent::Polled { operational, elapsed_ms });
    assert_eq!(polled(Ok(false), 30000), ConnectAction::Wait(1000));
    assert_eq!(next(ConnectEvent::Waited), ConnectAction::Poll);
    assert_eq!(polled(Ok(false), 30001), ConnectAction::Finish(Err(NetCtlError::AuthFailure)));
    assert_eq!(polled(Ok(true), 99999), ConnectAction::Finish(Ok(())));
    assert_eq!(polled(Err(ERR), 0), ConnectAction::Finish(Err(net_error())));
    assert_eq!(next(ConnectEvent::Loaded(Err(ERR))), ConnectAction::Finish(Err(net_error())));
    assert_eq!(
        next(ConnectEvent::TodSet(Err(ERR))),
        ConnectAction::Finish(Err(NetCtlError::Other(Error { code: ErrorCode::ConstraintError })))
    );
}

#[test]
fn thread_refuses_other_credentials() {
    let creds = WirelessCreds::Wifi { ssid: b"home", pass: b"secret" };
    assert_eq!(
        connect_next(&creds, ConnectEvent::Begin),
        ConnectAction::Finish(Err(NetCtlError::Other(Error { code: ErrorCode::InvalidData })))
    );
}

fn thread_readings() -> NetifReadings {
    NetifReadings {
        ip_info: Ok(Ipv4Addr([0; 4])),
        ip6_linklocal: Ok([0x80fe, 0, 0, 1]),
        mac: Ok([1; 6]),
        name: "ot1".try_into().unwrap(),
        is_up: Ok(true),
        index: 3,
    }
}

#[test]
fn thread_controller_remembers_its_interface() {
    let mut ctl = EspMatterThreadCtl::new();
    assert_eq!(ctl.net_type(), NetworkType::Thread);
    assert_eq!(ctl.load(Ok(Role::Detached), &thread_readings()), Ok(true));
    assert_eq!(ctl.connected(), Ok(false));
    assert_eq!(ctl.load(Ok(Role::Child), &thread_readings()), Ok(true));
    assert_eq!(ctl.connected(), Ok(true));
    assert_eq!(
        ctl.load_outcome(Ok(Role::Leader), &thread_readings()),
        Ok(LoadOutcome { operational: true, changed: false })
    );
    // The role is asked about first.
    let failed = NetifReadings { ip_info: Err(EspError { code: 1 }), ..thread_readings() };
    assert_eq!(ctl.load(Err(ERR), &failed), Err(ERR));
    assert_eq!(ctl.load_outcome(Ok(Role::Router), &failed), Err(EspError { code: 1 }));

    let mut shown = false;
    EspMatterThreadNotif::new(&ctl)
        .netifs(|info: &NetifInfo<'_>| {
            shown = info.netif_type == InterfaceTypeEnum::Thread && info.ipv4_addrs.is_empty();
            Ok(())
        })
        .unwrap();
    assert!(shown);
}

#[test]
fn roles_tell_whether_a_node_is_attached() {
    let connected = |role| EspMatterThreadCtl::is_thread_connected(Ok(role));
    assert_eq!(connected(Role::Disabled), Ok(false));
    assert_eq!(connected(Role::Detached), Ok(false));
    assert_eq!(connected(Role::Child), Ok(true));
    assert_eq!(connected(Role::Router), Ok(true));
    assert_eq!(connected(Role::Leader), Ok(true));
    assert_eq!(EspMatterThreadCtl::is_thread_connected(Err(ERR)), Err(ERR));
}

#[test]
fn thread_diagnostics_are_unknown() {
    let ctl = EspMatterThreadCtl::new();
    assert_eq!(ctl.channel(), Ok(None));
    assert_eq!(ctl.routing_role(), Ok(None));
    assert_eq!(ctl.pan_id(), Ok(None));
    assert_eq!(ctl.extended_pan_id(), Ok(None));
    assert_eq!(ctl.partition_id(), Ok(None));
    assert_eq!(ctl.weighting(), Ok(None));
    assert_eq!(ctl.data_version(), Ok(None));
    assert_eq!(ctl.stable_data_version(), Ok(None));
    assert_eq!(ctl.leader_router_id(), Ok(None));
    assert_eq!(ctl.security_policy(), Ok(None));
    let err = Error { code: ErrorCode::InvalidData };
    assert_eq!(ctl.network_name(|name: Option<&str>| if name.is_none() { Err(err) } else { Ok(()) }), Err(err));
    assert_eq!(ctl.mesh_local_prefix(|p: Option<&[u8]>| if p.is_none() { Err(err) } else { Ok(()) }), Err(err));
    assert_eq!(ctl.channel_page0_mask(|m: Option<&[u8]>| if m.is_none() { Err(err) } else { Ok(()) }), Err(err));
    assert_eq!(
        ctl.operational_dataset_components(|c: Option<&OperationalDatasetComponents>| {
            if c.is_none() {
                Err(err)
            } else {
                Ok(())
            }
        }),
        Err(err)
    );
    assert_eq!(ctl.neightbor_table(|_: &NeighborTable| Err(err)), Ok(()));
    assert_eq!(ctl.route_table(|_: &RouteTable| Err(err)), Ok(()));
    assert_eq!(ctl.active_network_faults_list(|_: NetworkFaultEnum| Err(err)), Ok(()));
}

#[test]
fn hostname_is_the_hardware_address() {
    assert_eq!(
        hostname(&[0x00, 0x1a, 0xff, 0x09, 0xa0, 0x5c, 0x7e, 0xbd]).as_str(),
        "001AFF09A05C7EBD"
    );
}

#[test]
fn published_service_leaves_out_empty_keys() {
    let service = Service {
        name: "instance",
        service_protocol: "_matter._tcp",
        port: 5540,
        service_subtypes: &["_I123"],
        txt_kvs: &[("SII", "500"), ("", "x"), ("T", "")],
    };
    let srp = srp_service(&service);
    assert_eq!(srp.name, "_matter._tcp");
    assert_eq!(srp.instance_name, "instance");
    assert_eq!(srp.port, 5540);
    assert_eq!(srp.subtype_labels, &["_I123"]);
    assert_eq!(srp.txt_entries, vec![("SII", &b"500"[..]), ("T", &b""[..])]);
    assert_eq!((srp.priority, srp.weight, srp.lease_secs, srp.key_lease_secs), (0, 0, 0, 0));
}

fn service(id: u64) -> MatterMdnsService {
    MatterMdnsService::Commissioned { compressed_fabric_id: 1, node_id: id }
}

fn waiting() -> EspMatterThreadSrp {
    let mut srp = EspMatterThreadSrp::new();
    assert!(matches!(srp.run(SrpEvent::Begin), SrpAction::ReadMac));
    assert!(
        matches!(srp.run(SrpEvent::MacRead(Ok([0xab; 8]))), SrpAction::SetConf { host_name, host_addrs } if host_name.as_str() == "ABABABABABABABAB" && host_addrs.is_empty())
    );
    assert!(matches!(srp.run(SrpEvent::ConfSet(Ok(()))), SrpAction::WaitMdns));
    srp
}

/// Publishes the services, and returns what was registered and deregistered.
fn publish(srp: &mut EspMatterThreadSrp, wanted: &[u64], slot: usize) -> (Vec<MatterMdnsService>, Vec<usize>) {
    for id in wanted {
        srp.collect(service(*id)).unwrap();
    }
    let (mut registered, mut deregistered) = (vec![], vec![]);
    let mut slot = slot;
    let mut event = SrpEvent::Collected(Ok(()));
    loop {
        match srp.run(event) {
            SrpAction::Register(service) => {
                registered.push(service);
                event = SrpEvent::Registered(Ok(SrpServiceSlot(slot)));
                slot += 1;
            }
            SrpAction::Deregister { slot, immediate } => {
                assert!(!immediate);
                deregistered.push(slot.0);
                event = SrpEvent::Deregistered(Ok(()));
            }
            SrpAction::WaitMdns => return (registered, deregistered),
            other => panic!("unexpected {:?}", other),
        }
    }
}

#[test]
fn published_services_follow_the_wanted_ones() {
    let mut srp = waiting();
    assert_eq!(publish(&mut srp, &[1, 2], 10), (vec![service(1), service(2)], vec![]));
    assert_eq!(publish(&mut srp, &[2, 1], 20), (vec![], vec![]));
    assert_eq!(publish(&mut srp, &[2, 3], 30), (vec![service(3)], vec![10]));
    assert_eq!(publish(&mut srp, &[], 40), (vec![], vec![11, 30]));
    assert_eq!(publish(&mut srp, &[2], 50), (vec![service(2)], vec![]));
}

#[test]
fn too_many_services_are_refused() {
    let refused = Error { code: ErrorCode::ConstraintError };
    let mut srp = waiting();
    for id in 0..3 {
        assert_eq!(srp.collect(service(id)), Ok(()));
    }
    assert_eq!(srp.collect(service(3)), Err(refused));
    assert!(matches!(srp.run(SrpEvent::Collected(Err(refused))), SrpAction::Fail(err) if err == refused));

    // A new service is registered before an old one is forgotten.
    let mut srp = waiting();
    publish(&mut srp, &[1, 2, 3], 0);
    srp.collect(service(4)).unwrap();
    assert!(matches!(srp.run(SrpEvent::Collected(Ok(()))), SrpAction::Register(s) if s == service(4)));
    assert!(
        matches!(srp.run(SrpEvent::Registered(Ok(SrpServiceSlot(9)))), SrpAction::Fail(err) if err == refused)
    );
}

#[test]
fn publisher_stops_on_failures() {
    let mut srp = EspMatterThreadSrp::new();
    let no_net = Error { code: ErrorCode::NoNetworkInterface };
    srp.run(SrpEvent::Begin);
    assert!(matches!(srp.run(SrpEvent::MacRead(Err(ERR))), SrpAction::Fail(err) if err == no_net));
    srp.run(SrpEvent::Begin);
    srp.run(SrpEvent::MacRead(Ok([0; 8])));
    assert!(matches!(srp.run(SrpEvent::ConfSet(Err(ERR))), SrpAction::Fail(err) if err == no_net));

    let other = Error { code: ErrorCode::InvalidData };
    let mut srp = waiting();
    srp.collect(service(1)).unwrap();
    srp.run(SrpEvent::Collected(Ok(())));
    assert!(matches!(srp.run(SrpEvent::Registered(Err(other))), SrpAction::Fail(err) if err == other));
    let mut srp = waiting();
    publish(&mut srp, &[1], 0);
    assert!(matches!(srp.run(SrpEvent::Collected(Ok(()))), SrpAction::Deregister { slot: SrpServiceSlot(0), immediate: false }));
    assert!(matches!(srp.run(SrpEvent::Deregistered(Err(other))), SrpAction::Fail(err) if err == other));
}

#[test]
fn thread_report_ends_with_the_first_refusal() {
    let mut scan = ThreadScan::new();
    for id in 1..5 {
        scan.found(found(id, b"net"));
    }
    let refused = Error { code: ErrorCode::InvalidData };
    let run = |network: Option<&[u8]>, last: u64| {
        scan.report(network, vec![], |mut seen: Vec<u64>, info: &NetworkScanInfo<'_>| {
            let id = match info {
                NetworkScanInfo::Thread { ext_pan_id, .. } => *ext_pan_id & 0xff,
                NetworkScanInfo::Wifi { .. } => unreachable!(),
            };
            seen.push(id);
            let taken = if id == last { Err(refused) } else { Ok(()) };
            (seen, taken)
        })
    };
    assert_eq!(run(None, 0), (vec![1, 2, 3, 4], Ok(())));
    assert_eq!(run(None, 2), (vec![1, 2], Err(NetCtlError::Other(refused))));
    assert_eq!(run(Some(&[1, 2, 3, 4, 5, 6, 7, 3]), 2), (vec![3], Ok(())));
}
