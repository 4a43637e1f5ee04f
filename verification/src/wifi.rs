//! The Wi-Fi controller: what it remembers of its interface, how it scans, and how it connects.
//!
//! The Wi-Fi driver itself is driven from outside: the controller says what to do next, and is
//! told how that went.

pub mod connect;
pub mod diag;
pub mod mgmt;

use vstd::prelude::*;
use vstd::utf8::encode_utf8;

use crate::bounded::{ssid_as_str, ssid_of};
use crate::bytes::bytes_eq;
use crate::error::{net_error, to_net_error, Error, ErrorCode, EspError, NetCtlError};
use crate::netif::{
    law_operational_interfaces, InterfaceTypeEnum, NetifInfo, NetifInfoOwned, NetifModel, NetifReadings, NetifShown,
};
use crate::networks::{
    all_shown, is_reported, report, wanted, NetworkScanInfo, NetworkType, ScanShown, WiFiBandEnum, WiFiSecurityBitmap,
};

verus! {

/// The longest name of a Wi-Fi network, in bytes.
pub const MAX_SSID_LEN: usize = 32;

/// The longest password of a Wi-Fi network, in bytes.
pub const MAX_PASSWORD_LEN: usize = 64;

/// How a Wi-Fi network authenticates its clients.
#[derive(Debug, Copy, Clone, PartialEq, Eq, Structural)]
pub enum AuthMethod {
    /// Not at all.
    Open,
    WEP,
    WPA,
    WPA2Personal,
    WPAWPA2Personal,
    WPA2Enterprise,
    WPA3Personal,
    WPA2WPA3Personal,
    WAPIPersonal,
}

/// How a Wi-Fi connection is secured.
#[derive(Debug, Copy, Clone, PartialEq, Eq, Structural)]
pub enum SecurityTypeEnum {
    Unspecified,
    Open,
    WEP,
    WPA,
    WPA2,
    WPA3,
}

/// The version of Wi-Fi that a connection uses.
#[derive(Debug, Copy, Clone, PartialEq, Eq, Structural)]
pub enum WiFiVersionEnum {
    A,
    B,
    G,
    N,
    Ac,
    Ax,
    Ah,
}

/// An access point that the driver found.
#[derive(Debug)]
pub struct AccessPointInfo {
    pub ssid: heapless::String<MAX_SSID_LEN>,
    pub bssid: [u8; 6],
    pub channel: u8,
    pub signal_strength: i8,
    pub auth_method: Option<AuthMethod>,
}

/// What reading a network interface showed.
#[derive(Debug, Copy, Clone, Eq, PartialEq, Hash)]
pub struct LoadOutcome {
    pub operational: bool,
    pub changed: bool,
}

/// What reading the interface shows, where it shows itself so.
pub open spec fn outcome_of(m: NetifModel, up: bool, shown: NetifShown) -> LoadOutcome {
    LoadOutcome { operational: m.load(up, shown).is_operational(), changed: m.is_changed(up, shown) }
}

impl LoadOutcome {
    /// Whether a wait for the IP addresses goes on.
    pub open spec fn goes_on(self) -> bool {
        !self.operational
    }

    /// Whether a wait for the IP addresses goes on.
    pub fn wait_goes_on(&self) -> (r: bool)
        ensures
            r == self.goes_on(),
    {
        !self.operational
    }
}

/// How a network with the given authentication method is secured.
pub open spec fn security_of(auth_method: Option<AuthMethod>) -> WiFiSecurityBitmap {
    let unknown = WiFiSecurityBitmap::unknown();
    match auth_method {
        Some(AuthMethod::Open) => WiFiSecurityBitmap { unencrypted: true, ..unknown },
        Some(AuthMethod::WEP) => WiFiSecurityBitmap { wep: true, ..unknown },
        Some(AuthMethod::WPA) => WiFiSecurityBitmap { wpa_personal: true, ..unknown },
        Some(AuthMethod::WPA2Personal) => WiFiSecurityBitmap { wpa_2_personal: true, ..unknown },
        Some(AuthMethod::WPAWPA2Personal) => WiFiSecurityBitmap {
            wpa_personal: true,
            wpa_2_personal: true,
            ..unknown
        },
        Some(AuthMethod::WPA3Personal) => WiFiSecurityBitmap { wpa_3_personal: true, ..unknown },
        Some(AuthMethod::WPA2WPA3Personal) => WiFiSecurityBitmap {
            wpa_2_personal: true,
            wpa_3_personal: true,
            ..unknown
        },
        _ => unknown,
    }
}

/// How a network with the given authentication method is secured.
pub fn wifi_security(auth_method: Option<AuthMethod>) -> (r: WiFiSecurityBitmap)
    ensures
        r == security_of(auth_method),
{
    let unknown = WiFiSecurityBitmap::empty();
    match auth_method {
        Some(AuthMethod::Open) => WiFiSecurityBitmap { unencrypted: true, ..unknown },
        Some(AuthMethod::WEP) => WiFiSecurityBitmap { wep: true, ..unknown },
        Some(AuthMethod::WPA) => WiFiSecurityBitmap { wpa_personal: true, ..unknown },
        Some(AuthMethod::WPA2Personal) => WiFiSecurityBitmap { wpa_2_personal: true, ..unknown },
        Some(AuthMethod::WPAWPA2Personal) => WiFiSecurityBitmap {
            wpa_personal: true,
            wpa_2_personal: true,
            ..unknown
        },
        Some(AuthMethod::WPA3Personal) => WiFiSecurityBitmap { wpa_3_personal: true, ..unknown },
        Some(AuthMethod::WPA2WPA3Personal) => WiFiSecurityBitmap {
            wpa_2_personal: true,
            wpa_3_personal: true,
            ..unknown
        },
        _ => unknown,
    }
}

impl AccessPointInfo {
    /// Whether the scan asks for this access point: one restricted to a network asks for those
    /// with its name.
    pub open spec fn is_wanted(self, network: Option<Seq<u8>>) -> bool {
        network is None || encode_utf8(ssid_of(self.ssid)) == network->0
    }

    /// How this access point is reported.
    pub open spec fn shown(self) -> ScanShown {
        ScanShown::Wifi {
            security: security_of(self.auth_method),
            ssid: encode_utf8(ssid_of(self.ssid)),
            bssid: self.bssid@,
            channel: self.channel as u16,
            band: WiFiBandEnum::V2G4,
            rssi: self.signal_strength,
        }
    }

    /// How this access point is reported.
    pub fn scan_info(&self) -> (r: NetworkScanInfo<'_>)
        ensures
            r@ == self.shown(),
    {
        NetworkScanInfo::Wifi {
            security: wifi_security(self.auth_method),
            ssid: ssid_as_str(&self.ssid).as_bytes(),
            bssid: self.bssid.as_slice(),
            channel: self.channel as u16,
            band: WiFiBandEnum::V2G4,
            rssi: self.signal_strength,
        }
    }
}

/// What a scan reports: the access points that it asks for, in the order in which they were
/// found.
pub open spec fn reported(aps: Seq<AccessPointInfo>, network: Option<Seq<u8>>) -> Seq<ScanShown> {
    aps.filter(|ap: AccessPointInfo| ap.is_wanted(network)).map_values(|ap: AccessPointInfo| ap.shown())
}

/// What a scan reports of the access points that were found.
pub fn scan_results<'a>(aps: &'a [AccessPointInfo], network: Option<&[u8]>) -> (r: Vec<NetworkScanInfo<'a>>)
    ensures
        all_shown(r@) == reported(aps@, wanted(network)),
{
    let mut infos: Vec<NetworkScanInfo<'a>> = Vec::new();
    let mut i: usize = 0;
    proof {
        reveal(Seq::filter);
        assert(all_shown(infos@) =~= reported(aps@.take(0), wanted(network)));
    }
    while i < aps.len()
        invariant
            i <= aps@.len(),
            all_shown(infos@) == reported(aps@.take(i as int), wanted(network)),
        decreases aps@.len() - i,
    {
        let ap = &aps[i];
        let is_wanted = match network {
            None => true,
            Some(network) => bytes_eq(ssid_as_str(&ap.ssid).as_bytes(), network),
        };
        let ghost before = infos@;
        if is_wanted {
            infos.push(ap.scan_info());
        }
        proof {
            reveal(Seq::filter);
            assert(aps@.take(i + 1).drop_last() =~= aps@.take(i as int));
            assert(aps@.take(i + 1).last() == *ap);
            if is_wanted {
                assert(all_shown(infos@) =~= all_shown(before).push(ap.shown()));
            }
            assert(all_shown(infos@) =~= reported(aps@.take(i + 1), wanted(network)));
        }
        i += 1;
    }
    assert(aps@.take(i as int) =~= aps@);
    infos
}

/// Report the access points that were found, as far as the scan asks for them.
///
/// `f` takes a network or refuses it; the first that it refuses is the last that it is handed. It
/// goes from state to state, beginning with `begin`.
pub fn report_scan<'a, S, F>(aps: &'a [AccessPointInfo], network: Option<&[u8]>, begin: S, f: F) -> (r: (
    S,
    Result<(), NetCtlError>,
)) where F: Fn(S, &NetworkScanInfo<'a>) -> (S, Result<(), Error>)
    requires
        forall|state: S, info: &NetworkScanInfo<'a>|
            reported(aps@, wanted(network)).contains(info@) ==> #[trigger] f.requires((state, info)),
    ensures
        exists|infos: Seq<NetworkScanInfo<'a>>, states: Seq<S>|
            all_shown(infos) == reported(aps@, wanted(network)) && states.len() > 0 && states[0] == begin
                && states.last() == r.0 && #[trigger] is_reported(f, infos, states, r.1),
{
    let infos = scan_results(aps, network);
    proof {
        assert forall|state: S, info: &NetworkScanInfo<'a>| infos@.contains(*info) implies #[trigger] f.requires(
            (state, info),
        ) by {
            let i = choose|i: int| 0 <= i < infos@.len() && infos@[i] == *info;
            assert(all_shown(infos@)[i] == info@);
        }
    }
    report(infos.as_slice(), begin, f)
}

/// How a scan goes on.
#[derive(Debug, Copy, Clone, PartialEq, Eq, Structural)]
pub enum ScanAction {
    /// Ask the driver whether it is started.
    IsStarted,
    Start,
    Scan,
    /// Report what was found.
    Report,
    /// Stop with the error.
    Fail(NetCtlError),
}

/// What happened to a scan.
#[derive(Debug, Copy, Clone, PartialEq, Eq)]
pub enum ScanEvent {
    Begin,
    IsStarted(Result<bool, EspError>),
    Started(Result<(), EspError>),
    Scanned(Result<(), EspError>),
}

/// How a scan goes on: the driver is started unless it is, and then it scans.
pub open spec fn scan_step(event: ScanEvent) -> ScanAction {
    match event {
        ScanEvent::Begin => ScanAction::IsStarted,
        ScanEvent::IsStarted(Ok(false)) => ScanAction::Start,
        ScanEvent::IsStarted(Ok(true)) | ScanEvent::Started(Ok(())) => ScanAction::Scan,
        ScanEvent::Scanned(Ok(())) => ScanAction::Report,
        ScanEvent::IsStarted(Err(_)) | ScanEvent::Started(Err(_)) | ScanEvent::Scanned(Err(_)) => ScanAction::Fail(
            NetCtlError::Other(net_error()),
        ),
    }
}

/// How a scan goes on.
pub fn scan_next(event: ScanEvent) -> (r: ScanAction)
    ensures
        r == scan_step(event),
{
    match event {
        ScanEvent::Begin => ScanAction::IsStarted,
        ScanEvent::IsStarted(Ok(started)) => if started {
            ScanAction::Scan
        } else {
            ScanAction::Start
        },
        ScanEvent::Started(Ok(())) => ScanAction::Scan,
        ScanEvent::Scanned(Ok(())) => ScanAction::Report,
        ScanEvent::IsStarted(Err(err)) | ScanEvent::Started(Err(err)) | ScanEvent::Scanned(Err(err)) =>
        ScanAction::Fail(NetCtlError::from(to_net_error(err))),
    }
}

/// What the Wi-Fi controller remembers.
#[derive(Debug)]
pub struct EspMatterWifiCtl {
    netif_state: NetifInfoOwned,
}

impl View for EspMatterWifiCtl {
    type V = NetifModel;

    closed spec fn view(&self) -> NetifModel {
        self.netif_state@
    }
}

impl EspMatterWifiCtl {
    /// Create a new instance of the `EspMatterWifiCtl` type.
    pub fn new() -> (r: Self)
        ensures
            r@ == NetifModel::unseen(),
    {
        EspMatterWifiCtl { netif_state: NetifInfoOwned::new() }
    }

    /// Remember the state of the network interface.
    ///
    /// `connected` is what the driver says of its link; where it does not know, the link counts
    /// as down. Returns whether there is a change to tell of.
    pub fn load(&mut self, connected: Result<bool, EspError>, netif: &NetifReadings) -> (r: Result<bool, EspError>)
        ensures
            match netif.shown() {
                Err(err) => final(self)@ == old(self)@ && r == Err::<bool, EspError>(err),
                Ok(shown) => {
                    let up = connected == Ok::<bool, EspError>(true);
                    &&& final(self)@ == old(self)@.load(up, shown)
                    &&& r == Ok::<bool, EspError>(old(self)@.is_changed(up, shown))
                },
            },
    {
        let up: bool = match connected {
            Ok(connected) => connected,
            Err(_) => false,
        };
        self.netif_state.load(up, netif, InterfaceTypeEnum::Unspecified)
    }

    /// Look at the network interface while waiting for its IP addresses.
    ///
    /// The wait goes on while the interface is not operational, and a change is told of.
    pub fn load_outcome(&mut self, connected: Result<bool, EspError>, netif: &NetifReadings) -> (r: Result<
        LoadOutcome,
        EspError,
    >)
        ensures
            match netif.shown() {
                Err(err) => final(self)@ == old(self)@ && r == Err::<LoadOutcome, EspError>(err),
                Ok(shown) => {
                    let up = connected == Ok::<bool, EspError>(true);
                    &&& final(self)@ == old(self)@.load(up, shown)
                    &&& r == Ok::<LoadOutcome, EspError>(outcome_of(old(self)@, up, shown))
                },
            },
    {
        match self.load(connected, netif) {
            Err(err) => Err(err),
            Ok(changed) => Ok(LoadOutcome { operational: self.netif_state.is_operational(), changed }),
        }
    }

    /// The kind of network that this controller serves.
    pub fn net_type(&self) -> (r: NetworkType)
        ensures
            r == NetworkType::Wifi,
    {
        NetworkType::Wifi
    }

    /// Whether the interface is up and has its addresses.
    pub fn connected(&self) -> (r: Result<bool, Error>)
        ensures
            r == Ok::<bool, Error>(self@.is_operational()),
    {
        Ok(self.netif_state.is_operational())
    }

    /// Show the address of the access point, which is not known.
    pub fn bssid<F>(&self, f: F) -> (r: Result<(), Error>) where F: FnOnce(Option<&[u8]>) -> Result<(), Error>
        requires
            f.requires((None,)),
        ensures
            f.ensures((None,), r),
    {
        f(None)
    }

    /// How the connection is secured, which is not known.
    pub fn security_type(&self) -> (r: Result<Option<SecurityTypeEnum>, Error>)
        ensures
            r == Ok::<Option<SecurityTypeEnum>, Error>(None),
    {
        Ok(None)
    }

    /// The Wi-Fi version of the connection, which is not known.
    pub fn wi_fi_version(&self) -> (r: Result<Option<WiFiVersionEnum>, Error>)
        ensures
            r == Ok::<Option<WiFiVersionEnum>, Error>(None),
    {
        Ok(None)
    }

    /// The channel of the connection, which is not known.
    pub fn channel_number(&self) -> (r: Result<Option<u16>, Error>)
        ensures
            r == Ok::<Option<u16>, Error>(None),
    {
        Ok(None)
    }

    /// The signal strength of the connection, which is not known.
    pub fn rssi(&self) -> (r: Result<Option<i8>, Error>)
        ensures
            r == Ok::<Option<i8>, Error>(None),
    {
        Ok(None)
    }
}

/// Shows the network interface of a Wi-Fi controller.
#[derive(Debug)]
pub struct EspMatterWifiNotif<'a>(&'a EspMatterWifiCtl);

impl<'a> View for EspMatterWifiNotif<'a> {
    type V = NetifModel;

    closed spec fn view(&self) -> NetifModel {
        self.0@
    }
}

impl<'a> EspMatterWifiNotif<'a> {
    /// Create a new instance of the `EspMatterWifiNotif` type.
    pub fn new(wifi: &'a EspMatterWifiCtl) -> (r: Self)
        ensures
            r@ == wifi@,
    {
        EspMatterWifiNotif(wifi)
    }

    /// Show the network interface, as it was last seen.
    pub fn netifs<F>(&self, f: F) -> (r: Result<(), Error>) where F: FnOnce(&NetifInfo<'_>) -> Result<(), Error>
        requires
            forall|info: &NetifInfo<'_>| info@ == self@.shown() ==> #[trigger] f.requires((info,)),
        ensures
            exists|info: &NetifInfo<'_>| info@ == self@.shown() && #[trigger] f.ensures((info,), r),
    {
        self.0.netif_state.as_ref(f)
    }
}

/// How many steps of a scan are left at most.
pub open spec fn scan_steps_left(action: ScanAction) -> nat {
    match action {
        ScanAction::IsStarted => 3,
        ScanAction::Start => 2,
        ScanAction::Scan => 1,
        ScanAction::Report | ScanAction::Fail(_) => 0,
    }
}

/// How a scan ends whose driver answers so.
pub open spec fn scan_end(
    action: ScanAction,
    is_started: Result<bool, EspError>,
    start: Result<(), EspError>,
    scan: Result<(), EspError>,
) -> ScanAction
    decreases scan_steps_left(action),
{
    match action {
        ScanAction::IsStarted => scan_end(scan_step(ScanEvent::IsStarted(is_started)), is_started, start, scan),
        ScanAction::Start => scan_end(scan_step(ScanEvent::Started(start)), is_started, start, scan),
        ScanAction::Scan => scan_end(scan_step(ScanEvent::Scanned(scan)), is_started, start, scan),
        ScanAction::Report | ScanAction::Fail(_) => action,
    }
}

/// A scan reports exactly where the driver is started, or can be, and scans. Otherwise it fails
/// with a network error.
pub proof fn law_scan_outcome(
    is_started: Result<bool, EspError>,
    start: Result<(), EspError>,
    scan: Result<(), EspError>,
)
    ensures
        scan_end(scan_step(ScanEvent::Begin), is_started, start, scan) == (if is_started is Ok && (is_started->Ok_0
            || start is Ok) && scan is Ok {
            ScanAction::Report
        } else {
            ScanAction::Fail(NetCtlError::Other(net_error()))
        }),
{
    reveal_with_fuel(scan_end, 5);
}

/// A scan that is not restricted reports every access point, in order. One that is restricted to
/// a network reports only access points with its name, and reports each of them.
pub proof fn law_scan_reports_what_is_wanted(aps: Seq<AccessPointInfo>, network: Option<Seq<u8>>)
    ensures
        network is None ==> reported(aps, network) == aps.map_values(|ap: AccessPointInfo| ap.shown()),
        network matches Some(name) ==> forall|i: int|
            0 <= i < reported(aps, network).len() ==> (#[trigger] reported(aps, network)[i]) is Wifi && reported(
                aps,
                network,
            )[i]->Wifi_ssid == name,
        forall|i: int|
            0 <= i < aps.len() && (#[trigger] aps[i]).is_wanted(network) ==> reported(aps, network).contains(
                aps[i].shown(),
            ),
    decreases aps.len(),
{
    reveal(Seq::filter);
    let p = |ap: AccessPointInfo| ap.is_wanted(network);
    let f = |ap: AccessPointInfo| ap.shown();
    if aps.len() > 0 {
        let shorter = aps.drop_last();
        law_scan_reports_what_is_wanted(shorter, network);
        let before = reported(shorter, network);
        let after = reported(aps, network);
        if p(aps.last()) {
            assert(after =~= before.push(aps.last().shown()));
        } else {
            assert(after =~= before);
        }
        if network is None {
            assert(after =~= aps.map_values(f));
        }
        assert forall|i: int| 0 <= i < aps.len() && (#[trigger] aps[i]).is_wanted(network) implies after.contains(
            aps[i].shown(),
        ) by {
            if i < aps.len() - 1 {
                assert(shorter[i] == aps[i]);
                let j = choose|j: int| 0 <= j < before.len() && before[j] == aps[i].shown();
                assert(after[j] == aps[i].shown());
            } else {
                assert(after[after.len() - 1] == aps[i].shown());
            }
        }
    } else {
        assert(reported(aps, network) =~= seq![]);
        assert(aps.map_values(f) =~= seq![]);
    }
}

/// Which ways of securing a network are reported: each exactly for the authentication methods that
/// use it. For an enterprise or a WAPI network, and for one of which nothing is known, none is.
pub proof fn law_security_of_methods(auth_method: Option<AuthMethod>)
    ensures
        ({
            let security = security_of(auth_method);
            let is = |method: AuthMethod| auth_method == Some(method);
            &&& security.unencrypted <==> is(AuthMethod::Open)
            &&& security.wep <==> is(AuthMethod::WEP)
            &&& security.wpa_personal <==> is(AuthMethod::WPA) || is(AuthMethod::WPAWPA2Personal)
            &&& security.wpa_2_personal <==> is(AuthMethod::WPA2Personal) || is(AuthMethod::WPAWPA2Personal) || is(
                AuthMethod::WPA2WPA3Personal,
            )
            &&& security.wpa_3_personal <==> is(AuthMethod::WPA3Personal) || is(AuthMethod::WPA2WPA3Personal)
        }),
{
}

/// What is reported of an access point is, field by field, what the driver found, on the 2.4 GHz
/// band. It is asked for by a scan that is restricted to the very bytes of its name, and by one that
/// is not restricted.
pub proof fn law_access_point_is_reported_as_found(ap: AccessPointInfo, network: Seq<u8>)
    ensures
        ({
            let shown = ap.shown();
            &&& shown is Wifi
            &&& shown->ssid == encode_utf8(ssid_of(ap.ssid))
            &&& shown->bssid == ap.bssid@
            &&& shown->Wifi_channel == ap.channel
            &&& shown->band is V2G4
            &&& shown->Wifi_rssi == ap.signal_strength
            &&& shown->security == security_of(ap.auth_method)
            &&& ap.is_wanted(Some(network)) <==> network == shown->ssid
            &&& ap.is_wanted(None)
        }),
{
}

/// What a scan reports of two lists of access points is what it reports of the first and then what
/// it reports of the second. Of a single one it reports this one where it asks for it, and nothing
/// otherwise; of none, nothing.
pub proof fn law_scan_reports_in_order(
    aps: Seq<AccessPointInfo>,
    more: Seq<AccessPointInfo>,
    one: AccessPointInfo,
    network: Option<Seq<u8>>,
)
    ensures
        reported(aps + more, network) == reported(aps, network) + reported(more, network),
        reported(seq![one], network) == (if one.is_wanted(network) {
            seq![one.shown()]
        } else {
            seq![]
        }),
        reported(Seq::<AccessPointInfo>::empty(), network).len() == 0,
{
    reveal(Seq::filter);
    let p = |ap: AccessPointInfo| ap.is_wanted(network);
    let f = |ap: AccessPointInfo| ap.shown();
    Seq::filter_distributes_over_add(aps, more, p);
    assert((aps.filter(p) + more.filter(p)).map_values(f) =~= aps.filter(p).map_values(f) + more.filter(p).map_values(
        f,
    ));
    let empty = Seq::<AccessPointInfo>::empty();
    assert(seq![one].drop_last() =~= empty);
    assert(empty.filter(p) =~= empty);
    assert(reported(seq![one], network) =~= (if p(one) {
        seq![one.shown()]
    } else {
        seq![]
    }));
}

/// The actions of a scan, from the given one to the last, whose driver answers so.
pub open spec fn scan_actions(
    action: ScanAction,
    is_started: Result<bool, EspError>,
    start: Result<(), EspError>,
    scan: Result<(), EspError>,
) -> Seq<ScanAction>
    decreases scan_steps_left(action),
{
    match action {
        ScanAction::IsStarted => seq![action] + scan_actions(
            scan_step(ScanEvent::IsStarted(is_started)),
            is_started,
            start,
            scan,
        ),
        ScanAction::Start => seq![action] + scan_actions(scan_step(ScanEvent::Started(start)), is_started, start, scan),
        ScanAction::Scan => seq![action] + scan_actions(scan_step(ScanEvent::Scanned(scan)), is_started, start, scan),
        ScanAction::Report | ScanAction::Fail(_) => seq![action],
    }
}

/// A scan asks whether the driver is started, starts it exactly where it is not, scans, and reports.
/// The first failure ends it with a network error.
pub proof fn law_scan_takes_these_actions(
    is_started: Result<bool, EspError>,
    start: Result<(), EspError>,
    scan: Result<(), EspError>,
)
    ensures
        ({
            let failed = ScanAction::Fail(NetCtlError::Other(Error { code: ErrorCode::NoNetworkInterface }));
            let end = if scan is Ok {
                ScanAction::Report
            } else {
                failed
            };
            scan_actions(scan_step(ScanEvent::Begin), is_started, start, scan) == (match is_started {
                Err(_) => seq![ScanAction::IsStarted, failed],
                Ok(true) => seq![ScanAction::IsStarted, ScanAction::Scan, end],
                Ok(false) => if start is Ok {
                    seq![ScanAction::IsStarted, ScanAction::Start, ScanAction::Scan, end]
                } else {
                    seq![ScanAction::IsStarted, ScanAction::Start, failed]
                },
            })
        }),
{
    reveal_with_fuel(scan_actions, 5);
    let failed = ScanAction::Fail(NetCtlError::Other(Error { code: ErrorCode::NoNetworkInterface }));
    let end = if scan is Ok {
        ScanAction::Report
    } else {
        failed
    };
    let actions = scan_actions(scan_step(ScanEvent::Begin), is_started, start, scan);
    match is_started {
        Err(_) => {
            assert(actions =~= seq![ScanAction::IsStarted, failed]);
        },
        Ok(true) => {
            assert(actions =~= seq![ScanAction::IsStarted, ScanAction::Scan, end]);
        },
        Ok(false) => {
            if start is Ok {
                assert(actions =~= seq![ScanAction::IsStarted, ScanAction::Start, ScanAction::Scan, end]);
            } else {
                assert(actions =~= seq![ScanAction::IsStarted, ScanAction::Start, failed]);
            }
        },
    }
}

/// A look at the interface tells of a change exactly where what is remembered changes, and a wait
/// for the addresses goes on exactly until the interface is up and has a nonzero address of each
/// family.
pub proof fn law_wait_goes_on_without_addresses(m: NetifModel, up: bool, shown: NetifShown)
    ensures
        ({
            let after = m.load(up, shown);
            let outcome = outcome_of(m, up, shown);
            &&& outcome.changed <==> after != m
            &&& outcome.goes_on() <==> !(after.operational && (exists|i: int|
                0 <= i < 4 && #[trigger] after.ipv4_addr.0@[i] != 0) && (exists|i: int|
                0 <= i < 16 && #[trigger] after.ipv6_addr.0@[i] != 0))
        }),
{
    law_operational_interfaces(m.load(up, shown));
}

} // verus!
