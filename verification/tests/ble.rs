use esp_idf_matter::ble::{
    on_gap_event, AutoResponse, BdAddr, BleGapEvent, BtAddr, BtStatus, BtUuid, BtpGattContext, BtpGattPeripheral, GattAction,
    GattCharacteristic, GattDescriptor, GattPeripheralEvent, GattResponse, GattStatus, GattsEvent, IndTarget,
    Permissions, Properties, RunAction, RunEvent, C1_CHARACTERISTIC_UUID, C2_CHARACTERISTIC_UUID, CCCD_UUID16,
};
use esp_idf_matter::error::{to_btp_error, Error, ErrorCode, EspError, ESP_ERR_INVALID_STATE, ESP_FAIL};

const APP: u16 = 5;
const IF: u8 = 3;
const PEER: BdAddr = BdAddr([1, 2, 3, 4, 5, 6]);
const OTHER: BdAddr = BdAddr([6, 5, 4, 3, 2, 1]);
const OK: GattStatus = GattStatus::Success;

fn step<'a>(ctx: &mut BtpGattContext, event: GattsEvent<'a>) -> Result<Vec<GattAction<'a>>, EspError> {
    ctx.on_gatts_event(APP, "matter", &[1, 2, 3], IF, event)
}

/// A context with its service set up: service 10, C1 11, C2 12, CCCD 13.
fn ready(max_connections: usize) -> BtpGattContext {
    let mut ctx = BtpGattContext::with_max_connections(max_connections);
    step(&mut ctx, GattsEvent::ServiceRegistered { status: OK, app_id: APP }).unwrap();
    step(&mut ctx, GattsEvent::ServiceCreated { status: OK, service_handle: 10 }).unwrap();
    for (handle, uuid) in [(11, C1_CHARACTERISTIC_UUID), (12, C2_CHARACTERISTIC_UUID)] {
        step(
            &mut ctx,
            GattsEvent::CharacteristicAdded {
                status: OK,
                attr_handle: handle,
                service_handle: 10,
                char_uuid: BtUuid::Uuid128(uuid),
            },
        )
        .unwrap();
    }
    step(
        &mut ctx,
        GattsEvent::DescriptorAdded {
            status: OK,
            attr_handle: 13,
            service_handle: 10,
            descr_uuid: BtUuid::Uuid16(CCCD_UUID16),
        },
    )
    .unwrap();
    ctx
}

fn write(conn_id: u16, handle: u16, offset: u16, need_rsp: bool, is_prep: bool, value: &[u8]) -> GattsEvent<'_> {
    GattsEvent::Write { conn_id, trans_id: 77, addr: PEER, handle, offset, need_rsp, is_prep, value }
}

fn subscribe(ctx: &mut BtpGattContext, conn_id: u16) {
    step(ctx, write(conn_id, 13, 0, false, false, &[2, 0])).unwrap();
}

#[test]
fn registration_creates_the_service() {
    let mut ctx = BtpGattContext::new();
    assert_eq!(
        step(&mut ctx, GattsEvent::ServiceRegistered { status: OK, app_id: APP }),
        Ok(vec![
            GattAction::SetDeviceName("matter"),
            GattAction::SetRawAdvConf(&[1, 2, 3]),
            GattAction::CreateService {
                gatt_if: IF,
                uuid: BtUuid::Uuid16(0xFFF6),
                inst_id: 0,
                is_primary: true,
                num_handles: 8,
            },
        ])
    );
    assert_eq!(step(&mut ctx, GattsEvent::ServiceRegistered { status: OK, app_id: APP + 1 }), Ok(vec![]));
}

#[test]
fn created_service_gets_its_characteristics() {
    let mut ctx = BtpGattContext::default();
    let write_only = Permissions { read: false, write: true };
    let read_write = Permissions { read: true, write: true };
    assert_eq!(
        step(&mut ctx, GattsEvent::ServiceCreated { status: OK, service_handle: 10 }),
        Ok(vec![
            GattAction::StartService(10),
            GattAction::AddCharacteristic {
                service_handle: 10,
                characteristic: GattCharacteristic {
                    uuid: BtUuid::Uuid128(0x18EE2EF5263D4559959F4F9C429F9D11),
                    permissions: write_only,
                    properties: Properties { write: true, indicate: false },
                    max_len: 247,
                    auto_rsp: AutoResponse::ByApp,
                },
            },
            GattAction::AddCharacteristic {
                service_handle: 10,
                characteristic: GattCharacteristic {
                    uuid: BtUuid::Uuid128(0x18EE2EF5263D4559959F4F9C429F9D12),
                    permissions: read_write,
                    properties: Properties { write: false, indicate: true },
                    max_len: 247,
                    auto_rsp: AutoResponse::ByApp,
                },
            },
        ])
    );
    let added = |service_handle| GattsEvent::CharacteristicAdded {
        status: OK,
        attr_handle: 12,
        service_handle,
        char_uuid: BtUuid::Uuid128(C2_CHARACTERISTIC_UUID),
    };
    assert_eq!(step(&mut ctx, added(9)), Ok(vec![]));
    assert_eq!(
        step(&mut ctx, added(10)),
        Ok(vec![GattAction::AddDescriptor {
            service_handle: 10,
            descriptor: GattDescriptor { uuid: BtUuid::Uuid16(0x2902), permissions: read_write },
        }])
    );
}

#[test]
fn failed_operations_fail() {
    let failed = GattStatus::Other(0x85);
    let events = [
        GattsEvent::ServiceRegistered { status: failed, app_id: APP },
        GattsEvent::ServiceCreated { status: failed, service_handle: 1 },
        GattsEvent::ServiceDeleted { status: failed, service_handle: 10 },
        GattsEvent::ServiceUnregistered { status: failed, service_handle: 10 },
        GattsEvent::Confirm { status: failed },
    ];
    for event in events {
        let mut ctx = ready(1);
        step(&mut ctx, GattsEvent::PeerConnected { conn_id: 1, addr: PEER }).unwrap();
        subscribe(&mut ctx, 1);
        assert_eq!(step(&mut ctx, event), Err(EspError { code: ESP_FAIL }));
        assert_eq!(
            ctx.ind_target(BtAddr(PEER.0)),
            Some(IndTarget { gatt_if: IF, conn_id: 1, attr_handle: 12 })
        );
    }
}

#[test]
fn other_services_are_ignored() {
    let mut ctx = ready(1);
    step(&mut ctx, GattsEvent::PeerConnected { conn_id: 1, addr: PEER }).unwrap();
    subscribe(&mut ctx, 1);
    let added = GattsEvent::CharacteristicAdded {
        status: OK,
        attr_handle: 99,
        service_handle: 20,
        char_uuid: BtUuid::Uuid128(C2_CHARACTERISTIC_UUID),
    };
    assert_eq!(step(&mut ctx, added), Ok(vec![]));
    let descr = GattsEvent::DescriptorAdded {
        status: OK,
        attr_handle: 98,
        service_handle: 20,
        descr_uuid: BtUuid::Uuid16(CCCD_UUID16),
    };
    assert_eq!(step(&mut ctx, descr), Ok(vec![]));
    assert_eq!(
        ctx.ind_target(BtAddr(PEER.0)),
        Some(IndTarget { gatt_if: IF, conn_id: 1, attr_handle: 12 })
    );
    assert_eq!(step(&mut ctx, write(1, 98, 0, true, false, &[0, 0])), Ok(vec![]));
}

#[test]
fn advertising_starts_once_configured() {
    assert_eq!(
        on_gap_event(BleGapEvent::RawAdvertisingConfigured(BtStatus::Success)),
        Ok(vec![GattAction::StartAdvertising])
    );
    assert_eq!(
        on_gap_event(BleGapEvent::RawAdvertisingConfigured(BtStatus::Other(1))),
        Err(EspError { code: -1 })
    );
    assert_eq!(on_gap_event(BleGapEvent::Other), Ok(vec![]));
}

#[test]
fn peers_beyond_the_limit_are_ignored() {
    let mut ctx = ready(1);
    let tuned = vec![GattAction::SetConnParamsConf {
        addr: PEER,
        min_int_ms: 10,
        max_int_ms: 20,
        latency_ms: 0,
        timeout_ms: 400,
    }];
    assert_eq!(step(&mut ctx, GattsEvent::PeerConnected { conn_id: 1, addr: PEER }), Ok(tuned));
    assert_eq!(step(&mut ctx, GattsEvent::PeerConnected { conn_id: 2, addr: OTHER }), Ok(vec![]));
    assert_eq!(step(&mut ctx, write(2, 13, 0, true, false, &[2, 0])), Ok(vec![]));
}

#[test]
fn subscription_is_told_once() {
    let mut ctx = ready(1);
    step(&mut ctx, GattsEvent::PeerConnected { conn_id: 1, addr: PEER }).unwrap();
    assert_eq!(ctx.ind_target(BtAddr(PEER.0)), None);
    let on = GattAction::Callback(GattPeripheralEvent::NotifySubscribed(BtAddr(PEER.0)));
    let off = GattAction::Callback(GattPeripheralEvent::NotifyUnsubscribed(BtAddr(PEER.0)));
    let answer = GattAction::SendResponse { gatt_if: IF, conn_id: 1, trans_id: 77, response: None };
    assert_eq!(step(&mut ctx, write(1, 13, 0, true, false, &[2, 0])), Ok(vec![answer, on]));
    assert_eq!(step(&mut ctx, write(1, 13, 0, true, false, &[2, 0])), Ok(vec![]));
    assert_eq!(
        ctx.ind_target(BtAddr(PEER.0)),
        Some(IndTarget { gatt_if: IF, conn_id: 1, attr_handle: 12 })
    );
    // Another length or an offset is ignored.
    assert_eq!(step(&mut ctx, write(1, 13, 0, true, false, &[0])), Ok(vec![]));
    assert_eq!(step(&mut ctx, write(1, 13, 1, true, false, &[0, 0])), Ok(vec![]));
    // The high byte counts.
    assert_eq!(step(&mut ctx, write(1, 13, 0, false, false, &[2, 1])), Ok(vec![off]));
    assert_eq!(ctx.ind_target(BtAddr(PEER.0)), None);
}

#[test]
fn written_data_is_handed_on_with_the_mtu() {
    let mut ctx = ready(2);
    step(&mut ctx, GattsEvent::PeerConnected { conn_id: 1, addr: PEER }).unwrap();
    step(&mut ctx, GattsEvent::Mtu { conn_id: 1, mtu: 185 }).unwrap();
    step(&mut ctx, GattsEvent::Mtu { conn_id: 9, mtu: 23 }).unwrap();
    let data = [9u8; 20];
    assert_eq!(
        step(&mut ctx, write(1, 11, 0, false, false, &data)),
        Ok(vec![GattAction::Callback(GattPeripheralEvent::Write {
            address: BtAddr(PEER.0),
            data: &data,
            gatt_mtu: Some(185),
        })])
    );
    assert_eq!(step(&mut ctx, write(1, 11, 4, true, false, &data)), Ok(vec![]));
    assert_eq!(step(&mut ctx, write(1, 99, 0, true, false, &data)), Ok(vec![]));
}

#[test]
fn prepared_writes_are_echoed_up_to_a_length() {
    let mut ctx = ready(1);
    step(&mut ctx, GattsEvent::PeerConnected { conn_id: 1, addr: PEER }).unwrap();
    let longest = [1u8; 600];
    let actions = step(&mut ctx, write(1, 11, 0, true, true, &longest)).unwrap();
    assert_eq!(
        actions[0],
        GattAction::SendResponse {
            gatt_if: IF,
            conn_id: 1,
            trans_id: 77,
            response: Some(GattResponse { attr_handle: 11, auth_req: 0, offset: 0, value: &longest }),
        }
    );
    assert_eq!(actions.len(), 2);
    let too_long = [1u8; 601];
    assert_eq!(step(&mut ctx, write(1, 11, 0, true, true, &too_long)), Err(EspError { code: ESP_FAIL }));
}

#[test]
fn disconnected_peer_is_forgotten() {
    let mut ctx = ready(2);
    step(&mut ctx, GattsEvent::PeerConnected { conn_id: 1, addr: PEER }).unwrap();
    step(&mut ctx, GattsEvent::PeerConnected { conn_id: 2, addr: OTHER }).unwrap();
    subscribe(&mut ctx, 1);
    subscribe(&mut ctx, 2);
    let told = |addr: BdAddr| vec![GattAction::Callback(GattPeripheralEvent::NotifyUnsubscribed(BtAddr(addr.0)))];
    assert_eq!(step(&mut ctx, GattsEvent::PeerDisconnected { addr: PEER }), Ok(told(PEER)));
    assert_eq!(ctx.ind_target(BtAddr(PEER.0)), None);
    assert_eq!(
        ctx.ind_target(BtAddr(OTHER.0)),
        Some(IndTarget { gatt_if: IF, conn_id: 2, attr_handle: 12 })
    );
    // The place is free again.
    assert_eq!(step(&mut ctx, GattsEvent::PeerConnected { conn_id: 3, addr: PEER }).unwrap().len(), 1);
    // An unknown peer is told of too.
    assert_eq!(
        step(&mut ctx, GattsEvent::PeerDisconnected { addr: BdAddr([0; 6]) }),
        Ok(told(BdAddr([0; 6])))
    );
}

#[test]
fn deleted_service_reaches_no_peer() {
    let mut ctx = ready(1);
    step(&mut ctx, GattsEvent::PeerConnected { conn_id: 1, addr: PEER }).unwrap();
    subscribe(&mut ctx, 1);
    step(&mut ctx, GattsEvent::ServiceDeleted { status: OK, service_handle: 9 }).unwrap();
    assert!(ctx.ind_target(BtAddr(PEER.0)).is_some());
    step(&mut ctx, GattsEvent::ServiceDeleted { status: OK, service_handle: 10 }).unwrap();
    assert_eq!(ctx.ind_target(BtAddr(PEER.0)), None);

    let mut ctx = ready(1);
    step(&mut ctx, GattsEvent::PeerConnected { conn_id: 1, addr: PEER }).unwrap();
    subscribe(&mut ctx, 1);
    step(&mut ctx, GattsEvent::ServiceUnregistered { status: OK, service_handle: 10 }).unwrap();
    assert_eq!(ctx.ind_target(BtAddr(PEER.0)), None);
}

#[test]
fn submitted_data_is_indicated_one_at_a_time() {
    let mut ctx = ready(1);
    step(&mut ctx, GattsEvent::PeerConnected { conn_id: 1, addr: PEER }).unwrap();
    subscribe(&mut ctx, 1);
    let peripheral = BtpGattPeripheral { app_id: APP };
    assert_eq!(peripheral.run(&mut ctx, RunEvent::Subscribed), RunAction::RegisterApp(APP));
    assert_eq!(peripheral.run(&mut ctx, RunEvent::Registered(Ok(()))), RunAction::Wait);

    assert!(peripheral.indicate(&mut ctx, &[1, 2, 3], BtAddr(PEER.0)));
    assert!(!peripheral.indicate(&mut ctx, &[4], BtAddr(PEER.0)));
    assert_eq!(
        peripheral.run(&mut ctx, RunEvent::Woken),
        RunAction::Indicate {
            target: IndTarget { gatt_if: IF, conn_id: 1, attr_handle: 12 },
            data: vec![1, 2, 3],
        }
    );
    assert!(ctx.in_flight());
    assert!(!peripheral.indicate(&mut ctx, &[4], BtAddr(PEER.0)));
    assert_eq!(ctx.reset(), Err(EspError { code: ESP_ERR_INVALID_STATE }));

    let mut ctx = ready(1);
    step(&mut ctx, GattsEvent::PeerConnected { conn_id: 1, addr: PEER }).unwrap();
    subscribe(&mut ctx, 1);
    assert!(peripheral.indicate(&mut ctx, &[1], BtAddr(PEER.0)));
    peripheral.run(&mut ctx, RunEvent::Woken);
    assert_eq!(peripheral.run(&mut ctx, RunEvent::Indicated(Ok(()))), RunAction::Wait);
    assert!(peripheral.indicate(&mut ctx, &[2], BtAddr(PEER.0)));
    assert_eq!(peripheral.run(&mut ctx, RunEvent::Woken), RunAction::Wait);
    step(&mut ctx, GattsEvent::Confirm { status: OK }).unwrap();
    assert!(matches!(peripheral.run(&mut ctx, RunEvent::Woken), RunAction::Indicate { data, .. } if data == vec![2]));
}

#[test]
fn longest_indication_fits() {
    let mut ctx = ready(1);
    step(&mut ctx, GattsEvent::PeerConnected { conn_id: 1, addr: PEER }).unwrap();
    subscribe(&mut ctx, 1);
    let peripheral = BtpGattPeripheral { app_id: APP };
    assert!(peripheral.indicate(&mut ctx, &[7; 512], BtAddr(PEER.0)));
    assert!(
        matches!(peripheral.run(&mut ctx, RunEvent::Woken), RunAction::Indicate { data, .. } if data == vec![7; 512])
    );
}

#[test]
fn indication_to_unreachable_peer_is_dropped() {
    let mut ctx = ready(1);
    let peripheral = BtpGattPeripheral { app_id: APP };
    assert!(peripheral.indicate(&mut ctx, &[1], BtAddr(PEER.0)));
    assert_eq!(peripheral.run(&mut ctx, RunEvent::Woken), RunAction::Wait);
    assert!(ctx.in_flight());
    assert!(peripheral.indicate(&mut ctx, &[2], BtAddr(PEER.0)));
}

#[test]
fn failures_stop_the_peripheral() {
    let mut ctx = ready(1);
    step(&mut ctx, GattsEvent::PeerConnected { conn_id: 1, addr: PEER }).unwrap();
    subscribe(&mut ctx, 1);
    let peripheral = BtpGattPeripheral { app_id: APP };
    let err = EspError { code: 42 };
    assert_eq!(peripheral.run(&mut ctx, RunEvent::Registered(Err(err))), RunAction::Fail(err));
    assert!(peripheral.indicate(&mut ctx, &[1], BtAddr(PEER.0)));
    peripheral.run(&mut ctx, RunEvent::Woken);
    assert_eq!(peripheral.run(&mut ctx, RunEvent::Indicated(Err(err))), RunAction::Fail(err));
    // The indication is kept.
    assert!(!peripheral.indicate(&mut ctx, &[2], BtAddr(PEER.0)));
    assert_eq!(to_btp_error(err), Error { code: ErrorCode::BtpError });
}

#[test]
fn new_peripheral_resets_its_context() {
    let mut ctx = ready(1);
    step(&mut ctx, GattsEvent::PeerConnected { conn_id: 1, addr: PEER }).unwrap();
    subscribe(&mut ctx, 1);
    assert!(BtpGattPeripheral { app_id: 1 }.indicate(&mut ctx, &[1], BtAddr(PEER.0)));
    let peripheral = BtpGattPeripheral::new(7, &mut ctx).unwrap();
    assert_eq!(peripheral.app_id, 7);
    assert_eq!(ctx.ind_target(BtAddr(PEER.0)), None);
    assert!(peripheral.indicate(&mut ctx, &[2], BtAddr(PEER.0)));

    let mut ctx = ready(1);
    step(&mut ctx, GattsEvent::PeerConnected { conn_id: 1, addr: PEER }).unwrap();
    subscribe(&mut ctx, 1);
    assert!(peripheral.indicate(&mut ctx, &[1], BtAddr(PEER.0)));
    peripheral.run(&mut ctx, RunEvent::Woken);
    assert_eq!(BtpGattPeripheral::new(7, &mut ctx), Err(EspError { code: 0x103 }));
    assert!(!ctx.in_flight());
}

#[test]
fn disconnected_stranger_leaves_no_trace() {
    let mut ctx = ready(2);
    step(&mut ctx, GattsEvent::PeerConnected { conn_id: 1, addr: PEER }).unwrap();
    subscribe(&mut ctx, 1);
    step(&mut ctx, GattsEvent::PeerConnected { conn_id: 2, addr: OTHER }).unwrap();
    step(&mut ctx, GattsEvent::PeerDisconnected { addr: OTHER }).unwrap();
    // Nothing is known of the stranger, and there is room again.
    assert_eq!(step(&mut ctx, write(2, 11, 0, false, false, &[1])), Ok(vec![]));
    assert_eq!(step(&mut ctx, GattsEvent::PeerConnected { conn_id: 3, addr: OTHER }).unwrap().len(), 1);
}

#[test]
fn last_mtu_is_told_whatever_happened_since() {
    let mut ctx = ready(3);
    let peripheral = BtpGattPeripheral { app_id: APP };
    let mtu = |ctx: &mut BtpGattContext, conn_id| match step(ctx, write(conn_id, 11, 0, false, false, &[1])).unwrap()[..] {
        [GattAction::Callback(GattPeripheralEvent::Write { gatt_mtu, .. })] => gatt_mtu,
        _ => panic!(),
    };
    step(&mut ctx, GattsEvent::PeerConnected { conn_id: 1, addr: OTHER }).unwrap();
    step(&mut ctx, GattsEvent::PeerConnected { conn_id: 2, addr: PEER }).unwrap();
    step(&mut ctx, GattsEvent::PeerConnected { conn_id: 3, addr: PEER }).unwrap();
    assert_eq!(mtu(&mut ctx, 3), None);
    step(&mut ctx, GattsEvent::Mtu { conn_id: 3, mtu: 100 }).unwrap();
    step(&mut ctx, GattsEvent::Mtu { conn_id: 3, mtu: 200 }).unwrap();
    step(&mut ctx, GattsEvent::Mtu { conn_id: 2, mtu: 300 }).unwrap();
    subscribe(&mut ctx, 3);
    // The last connection moves to the place of the first one.
    step(&mut ctx, GattsEvent::PeerDisconnected { addr: OTHER }).unwrap();
    assert!(peripheral.indicate(&mut ctx, &[1], BtAddr(PEER.0)));
    peripheral.run(&mut ctx, RunEvent::Woken);
    assert_eq!(mtu(&mut ctx, 3), Some(200));
    assert_eq!(mtu(&mut ctx, 2), Some(300));
    // A connection that is made anew has none.
    step(&mut ctx, GattsEvent::PeerDisconnected { addr: PEER }).unwrap();
    step(&mut ctx, GattsEvent::PeerConnected { conn_id: 3, addr: PEER }).unwrap();
    assert_eq!(mtu(&mut ctx, 3), None);
}
