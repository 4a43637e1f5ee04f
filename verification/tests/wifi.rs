use esp_idf_matter::error::{Error, ErrorCode, EspError, NetCtlError};
use esp_idf_matter::netif::{Ipv4Addr, NetifInfo, NetifReadings};
use esp_idf_matter::networks::{NetworkScanInfo, NetworkType, WiFiBandEnum, WiFiSecurityBitmap, WirelessCreds};
use esp_idf_matter::wifi::connect::{ConnectAction, ConnectAnswer, WifiConnect};
use esp_idf_matter::wifi::{
    report_scan, scan_next, scan_results, wifi_security, AccessPointInfo, AuthMethod, EspMatterWifiCtl, EspMatterWifiNotif,
    LoadOutcome, ScanAction, ScanEvent,
};

const ERR: EspError = EspError { code: 42 };

fn net_error() -> NetCtlError {
    NetCtlError::Other(Error { code: ErrorCode::NoNetworkInterface })
}

fn wifi_readings() -> NetifReadings {
    NetifReadings {
        ip_info: Ok(Ipv4Addr([10, 0, 0, 2])),
        ip6_linklocal: Ok([0x80fe, 0, 0, 1]),
        mac: Ok([1; 6]),
        name: "st1".try_into().unwrap(),
        is_up: Ok(true),
        index: 2,
    }
}

fn ap(ssid: &str, channel: u8, auth_method: Option<AuthMethod>) -> AccessPointInfo {
    AccessPointInfo {
        ssid: ssid.try_into().unwrap(),
        bssid: [channel; 6],
        channel,
        signal_strength: -60,
        auth_method,
    }
}

#[test]
fn security_follows_the_authentication_method() {
    let none = WiFiSecurityBitmap::empty();
    let cases = [
        (Some(AuthMethod::Open), WiFiSecurityBitmap { unencrypted: true, ..none }),
        (Some(AuthMethod::WEP), WiFiSecurityBitmap { wep: true, ..none }),
        (Some(AuthMethod::WPA), WiFiSecurityBitmap { wpa_personal: true, ..none }),
        (Some(AuthMethod::WPA2Personal), WiFiSecurityBitmap { wpa_2_personal: true, ..none }),
        (
            Some(AuthMethod::WPAWPA2Personal),
            WiFiSecurityBitmap { wpa_personal: true, wpa_2_personal: true, ..none },
        ),
        (Some(AuthMethod::WPA3Personal), WiFiSecurityBitmap { wpa_3_personal: true, ..none }),
        (
            Some(AuthMethod::WPA2WPA3Personal),
            WiFiSecurityBitmap { wpa_2_personal: true, wpa_3_personal: true, ..none },
        ),
        (Some(AuthMethod::WPA2Enterprise), none),
        (Some(AuthMethod::WAPIPersonal), none),
        (None, none),
    ];
    for (method, security) in cases {
        assert_eq!(wifi_security(method), security);
    }
}

#[test]
fn wifi_scan_reports_the_wanted_access_points() {
    let aps = [
        ap("home", 1, Some(AuthMethod::WPA2Personal)),
        ap("other", 6, None),
        ap("home", 11, Some(AuthMethod::Open)),
    ];
    assert_eq!(scan_results(&aps, None).len(), 3);
    let found = scan_results(&aps, Some(b"home"));
    assert_eq!(
        found,
        vec![
            NetworkScanInfo::Wifi {
                security: WiFiSecurityBitmap { wpa_2_personal: true, ..WiFiSecurityBitmap::empty() },
                ssid: b"home",
                bssid: &[1; 6],
                channel: 1,
                band: WiFiBandEnum::V2G4,
                rssi: -60,
            },
            NetworkScanInfo::Wifi {
                security: WiFiSecurityBitmap { unencrypted: true, ..WiFiSecurityBitmap::empty() },
                ssid: b"home",
                bssid: &[11; 6],
                channel: 11,
                band: WiFiBandEnum::V2G4,
                rssi: -60,
            },
        ]
    );
    assert!(scan_results(&aps, Some(b"hom")).is_empty());
}

#[test]
fn wifi_scan_starts_the_driver_first() {
    assert_eq!(scan_next(ScanEvent::Begin), ScanAction::IsStarted);
    assert_eq!(scan_next(ScanEvent::IsStarted(Ok(false))), ScanAction::Start);
    assert_eq!(scan_next(ScanEvent::IsStarted(Ok(true))), ScanAction::Scan);
    assert_eq!(scan_next(ScanEvent::Started(Ok(()))), ScanAction::Scan);
    assert_eq!(scan_next(ScanEvent::Scanned(Ok(()))), ScanAction::Report);
    assert_eq!(scan_next(ScanEvent::IsStarted(Err(ERR))), ScanAction::Fail(net_error()));
    assert_eq!(scan_next(ScanEvent::Started(Err(ERR))), ScanAction::Fail(net_error()));
    assert_eq!(scan_next(ScanEvent::Scanned(Err(ERR))), ScanAction::Fail(net_error()));
}

#[test]
fn wifi_controller_remembers_its_interface() {
    let mut ctl = EspMatterWifiCtl::new();
    assert_eq!(ctl.net_type(), NetworkType::Wifi);
    assert_eq!(ctl.connected(), Ok(false));
    // Where the driver does not know whether it is connected, it is not.
    assert_eq!(ctl.load(Err(ERR), &wifi_readings()), Ok(true));
    assert_eq!(ctl.connected(), Ok(false));
    assert_eq!(
        ctl.load_outcome(Ok(true), &wifi_readings()),
        Ok(LoadOutcome { operational: true, changed: true })
    );
    assert_eq!(
        ctl.load_outcome(Ok(true), &wifi_readings()),
        Ok(LoadOutcome { operational: true, changed: false })
    );
    assert_eq!(ctl.connected(), Ok(true));
    let failed = NetifReadings { is_up: Err(ERR), ..wifi_readings() };
    assert_eq!(ctl.load(Ok(true), &failed), Err(ERR));
    assert_eq!(ctl.load_outcome(Ok(true), &failed), Err(ERR));

    let mut shown = false;
    EspMatterWifiNotif::new(&ctl)
        .netifs(|info: &NetifInfo<'_>| {
            shown = info.operational && info.name == "st1";
            Ok(())
        })
        .unwrap();
    assert!(shown);
}

#[test]
fn wifi_diagnostics_are_unknown() {
    let ctl = EspMatterWifiCtl::new();
    let mut shown = false;
    let r = ctl.bssid(|bssid: Option<&[u8]>| {
        shown = bssid.is_none();
        Ok(())
    });
    assert_eq!(r, Ok(()));
    assert!(shown);
    assert_eq!(ctl.security_type(), Ok(None));
    assert_eq!(ctl.wi_fi_version(), Ok(None));
    assert_eq!(ctl.channel_number(), Ok(None));
    assert_eq!(ctl.rssi(), Ok(None));
}

fn creds<'a>(ssid: &'a [u8], pass: &'a [u8]) -> WirelessCreds<'a> {
    WirelessCreds::Wifi { ssid, pass }
}

const DONE: ConnectAnswer = ConnectAnswer::Done(Ok(()));
const FAILED: ConnectAnswer = ConnectAnswer::Done(Err(ERR));

fn begun(ssid: &[u8], pass: &[u8]) -> ConnectAction {
    WifiConnect::new(&creds(ssid, pass)).unwrap().next(DONE)
}

#[test]
fn other_credentials_are_refused() {
    let r = WifiConnect::new(&WirelessCreds::Thread { dataset_tlv: &[1] });
    assert!(matches!(
        r,
        Err(NetCtlError::Other(Error { code: ErrorCode::InvalidData }))
    ));
}

#[test]
fn credentials_that_do_not_fit_are_refused() {
    let refused = ConnectAction::Finish(Err(NetCtlError::Other(Error { code: ErrorCode::ConstraintError })));
    assert_eq!(begun(b"home", b"secret"), ConnectAction::IsStarted);
    assert_eq!(begun(&[b'a'; 32], &[b'b'; 64]), ConnectAction::IsStarted);
    assert_eq!(begun(&[b'a'; 33], b"secret"), refused);
    assert_eq!(begun(b"home", &[b'b'; 65]), refused);
    assert_eq!(begun(&[0xff], b"secret"), refused);
    assert_eq!(begun(b"home", &[0xc0, 0x80]), refused);
}

#[test]
fn unreadable_interface_stops_the_attempt() {
    let mut connect = WifiConnect::new(&creds(b"home", b"secret")).unwrap();
    assert_eq!(connect.conf(), None);
    assert_eq!(connect.next(FAILED), ConnectAction::Finish(Err(net_error())));
}

/// Goes through one attempt whose driver is started before it.
fn attempt(connect: &mut WifiConnect<'_>, method: AuthMethod) {
    assert_eq!(connect.next(ConnectAnswer::Flag(Ok(true))), ConnectAction::Stop);
    assert_eq!(connect.next(DONE), ConnectAction::SetConf(method));
    assert_eq!(connect.conf(), Some(("home", "secret")));
    assert_eq!(connect.next(DONE), ConnectAction::IsStarted);
    assert_eq!(connect.next(ConnectAnswer::Flag(Ok(false))), ConnectAction::Start);
    assert_eq!(connect.next(DONE), ConnectAction::Connect);
}

#[test]
fn every_authentication_method_is_tried() {
    let mut connect = WifiConnect::new(&creds(b"home", b"secret")).unwrap();
    assert_eq!(connect.next(DONE), ConnectAction::IsStarted);
    attempt(&mut connect, AuthMethod::WPA2Personal);
    assert_eq!(connect.next(FAILED), ConnectAction::IsStarted);
    attempt(&mut connect, AuthMethod::WPA);
    assert_eq!(connect.next(FAILED), ConnectAction::IsStarted);
    attempt(&mut connect, AuthMethod::WPA2WPA3Personal);
    assert_eq!(connect.next(FAILED), ConnectAction::IsStarted);
    attempt(&mut connect, AuthMethod::WEP);
    assert_eq!(connect.next(FAILED), ConnectAction::Finish(Err(NetCtlError::OtherConnectionFailure)));
}

#[test]
fn connection_waits_for_its_addresses() {
    let connected = || {
        let mut connect = WifiConnect::new(&creds(b"home", b"secret")).unwrap();
        connect.next(DONE);
        assert_eq!(
            connect.next(ConnectAnswer::Flag(Ok(false))),
            ConnectAction::SetConf(AuthMethod::WPA2Personal)
        );
        assert_eq!(connect.next(DONE), ConnectAction::IsStarted);
        assert_eq!(connect.next(ConnectAnswer::Flag(Ok(true))), ConnectAction::Connect);
        assert_eq!(connect.next(DONE), ConnectAction::CreateIp6LinkLocal);
        connect
    };
    let mut connect = connected();
    assert_eq!(connect.next(DONE), ConnectAction::WaitIp(15));
    assert_eq!(connect.next(DONE), ConnectAction::Finish(Ok(())));
    let mut connect = connected();
    assert_eq!(connect.next(DONE), ConnectAction::WaitIp(15));
    assert_eq!(connect.next(FAILED), ConnectAction::Finish(Err(NetCtlError::IpBindFailed)));
    let mut connect = connected();
    assert_eq!(connect.next(FAILED), ConnectAction::Finish(Err(net_error())));
}

#[test]
fn failing_driver_stops_the_attempt() {
    let begin = || {
        let mut connect = WifiConnect::new(&creds(b"home", b"secret")).unwrap();
        connect.next(DONE);
        connect
    };
    let failed = ConnectAction::Finish(Err(net_error()));
    assert_eq!(begin().next(ConnectAnswer::Flag(Err(ERR))), failed);
    let mut connect = begin();
    connect.next(ConnectAnswer::Flag(Ok(true)));
    assert_eq!(connect.next(FAILED), failed);
    let mut connect = begin();
    connect.next(ConnectAnswer::Flag(Ok(false)));
    assert_eq!(connect.next(FAILED), failed);
    let mut connect = begin();
    connect.next(ConnectAnswer::Flag(Ok(false)));
    connect.next(DONE);
    assert_eq!(connect.next(ConnectAnswer::Flag(Err(ERR))), failed);
    let mut connect = begin();
    connect.next(ConnectAnswer::Flag(Ok(false)));
    connect.next(DONE);
    connect.next(ConnectAnswer::Flag(Ok(false)));
    assert_eq!(connect.next(FAILED), failed);
}

/// Reports to a callback that changes as it is called.
fn report_mut<F>(aps: &[AccessPointInfo], network: Option<&[u8]>, f: &mut F) -> Result<(), NetCtlError>
where
    F: FnMut(&NetworkScanInfo<'_>) -> Result<(), Error>,
{
    let (_, result) = report_scan(aps, network, f, |f, info| {
        let taken = (*f)(info);
        (f, taken)
    });
    result
}

#[test]
fn wifi_report_ends_with_the_first_refusal() {
    let aps = [ap("a", 1, None), ap("b", 2, None), ap("a", 3, None), ap("a", 4, None)];
    let refused = Error { code: ErrorCode::InvalidData };
    let run = |network: Option<&[u8]>, last: u16| {
        let mut seen = vec![];
        let result = report_mut(&aps, network, &mut |info: &NetworkScanInfo<'_>| {
            let channel = match info {
                NetworkScanInfo::Wifi { channel, .. } => *channel,
                NetworkScanInfo::Thread { .. } => unreachable!(),
            };
            seen.push(channel);
            if channel == last {
                Err(refused)
            } else {
                Ok(())
            }
        });
        (seen, result)
    };
    assert_eq!(run(None, 0), (vec![1, 2, 3, 4], Ok(())));
    assert_eq!(run(Some(b"a"), 0), (vec![1, 3, 4], Ok(())));
    assert_eq!(run(Some(b"a"), 3), (vec![1, 3], Err(NetCtlError::Other(refused))));
    assert_eq!(run(Some(b"b"), 2), (vec![2], Err(NetCtlError::Other(refused))));
    assert_eq!(run(Some(b"c"), 2), (vec![], Ok(())));
}

#[test]
fn wait_is_over_once_the_controller_is_connected() {
    let mut ctl = EspMatterWifiCtl::new();
    assert_eq!(ctl.connected(), Ok(false));
    let no_v4 = NetifReadings { ip_info: Ok(Ipv4Addr([0; 4])), ..wifi_readings() };
    assert!(ctl.load_outcome(Ok(true), &no_v4).unwrap().wait_goes_on());
    assert_eq!(ctl.connected(), Ok(false));
    let no_v6 = NetifReadings { ip6_linklocal: Err(ERR), ..wifi_readings() };
    assert!(ctl.load_outcome(Ok(true), &no_v6).unwrap().wait_goes_on());
    assert_eq!(ctl.connected(), Ok(false));
    assert!(!ctl.load_outcome(Ok(true), &wifi_readings()).unwrap().wait_goes_on());
    assert_eq!(ctl.connected(), Ok(true));
}
