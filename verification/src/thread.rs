//! The Thread controller: what it remembers of its interface, how it scans, and how it connects.
//!
//! The Thread stack itself is driven from outside: the controller says what to do next, and is
//! told how that went.

pub mod srp;

use vstd::prelude::*;
use vstd::utf8::{decode_utf8, encode_utf8, valid_utf8};

use crate::bounded::{
    scan_results_as_slice, scan_results_new, scan_results_of, scan_results_push, thread_name_as_str,
    thread_name_new, thread_name_of, thread_name_try_from,
};
use crate::bytes::{
    be_value, bytes_eq, from_utf8, law_be_value_adds_up, law_be_value_is_injective, u64_from_be_bytes, u64_to_be_bytes,
};
use crate::error::{
    net_constr_error, net_error, to_net_constr_error, to_net_error, Error, ErrorCode, EspError, NetCtlError,
};
use crate::netif::{
    law_unspecified_ipv6, InterfaceTypeEnum, Ipv6Addr, NetifInfo, NetifInfoOwned, NetifModel, NetifReadings, NetifShown,
};
use crate::networks::{all_shown, is_reported, report, wanted, NetworkScanInfo, NetworkType, ScanShown, WirelessCreds};
use crate::wifi::LoadOutcome;

verus! {

/// The longest name of a Thread network, in bytes.
pub const MAX_THREAD_NAME_LEN: usize = 16;

/// How many networks a scan remembers.
pub const MAX_SCAN_RESULTS: usize = 5;

/// How long to wait before asking again whether a scan is over.
pub const POLL_SCAN_WAIT_MS: u64 = 500;

/// How long a connection attempt may take.
pub const CONNECT_WAIT_MS: u64 = 30000;

/// How long to wait before looking again whether the interface is operational.
pub const POLL_CONNECT_WAIT_MS: u64 = 1000;

/// The role of this node in its Thread network.
#[derive(Debug, Copy, Clone, PartialEq, Eq, Structural)]
pub enum Role {
    Disabled,
    Detached,
    Child,
    Router,
    Leader,
}

/// A network that the Thread stack found.
#[derive(Debug, Copy, Clone)]
pub struct ActiveScanResult<'a> {
    pub pan_id: u16,
    pub extended_pan_id: [u8; 8],
    /// The bytes of the name, without the closing zero.
    pub network_name: &'a [u8],
    pub channel: u8,
    pub version: u8,
    pub extended_address: [u8; 8],
    pub max_rssi: i8,
    pub lqi: u8,
}

/// A network that a scan remembers.
#[derive(Debug)]
pub struct OwnedScanResult {
    pan_id: u16,
    ext_pan_id: u64,
    network_name: heapless::String<MAX_THREAD_NAME_LEN>,
    channel: u16,
    version: u8,
    ext_addr: [u8; 8],
    rssi: i8,
    lqi: u8,
}

impl View for OwnedScanResult {
    type V = ScanShown;

    closed spec fn view(&self) -> ScanShown {
        ScanShown::Thread {
            pan_id: self.pan_id,
            ext_pan_id: self.ext_pan_id,
            network_name: thread_name_of(self.network_name),
            channel: self.channel,
            version: self.version,
            ext_addr: self.ext_addr@,
            rssi: self.rssi,
            lqi: self.lqi,
        }
    }
}

/// The name that is remembered of a network: question marks stand for one that is no string, or
/// too long.
pub open spec fn remembered_name(name: Seq<u8>) -> Seq<char> {
    if valid_utf8(name) && name.len() <= MAX_THREAD_NAME_LEN {
        decode_utf8(name)
    } else {
        "???"@
    }
}

impl<'a> ActiveScanResult<'a> {
    /// What is remembered of the network.
    pub open spec fn shown(self) -> ScanShown {
        ScanShown::Thread {
            pan_id: self.pan_id,
            ext_pan_id: be_value(self.extended_pan_id@) as u64,
            network_name: remembered_name(self.network_name@),
            channel: self.channel as u16,
            version: self.version,
            ext_addr: self.extended_address@,
            rssi: self.max_rssi,
            lqi: self.lqi,
        }
    }
}

/// The name that is remembered of a network.
fn network_name(name: &[u8]) -> (r: heapless::String<MAX_THREAD_NAME_LEN>)
    ensures
        thread_name_of(r) == remembered_name(name@),
{
    proof {
        if valid_utf8(name@) {
            vstd::utf8::decode_utf8_encode_utf8(name@);
        }
        reveal_strlit("???");
        vstd::utf8::is_ascii_chars_encode_utf8("???"@);
    }
    if let Some(name) = from_utf8(name) {
        if let Ok(name) = thread_name_try_from(name) {
            return name;
        }
    }
    match thread_name_try_from("???") {
        Ok(name) => name,
        Err(()) => thread_name_new(),
    }
}

impl OwnedScanResult {
    /// What is remembered of a network.
    pub fn from_active(result: &ActiveScanResult<'_>) -> (r: Self)
        ensures
            r@ == result.shown(),
    {
        OwnedScanResult {
            pan_id: result.pan_id,
            ext_pan_id: u64_from_be_bytes(&result.extended_pan_id),
            network_name: network_name(result.network_name),
            channel: result.channel as u16,
            version: result.version,
            ext_addr: result.extended_address,
            rssi: result.max_rssi,
            lqi: result.lqi,
        }
    }

    /// How the network is reported.
    pub fn scan_info(&self) -> (r: NetworkScanInfo<'_>)
        ensures
            r@ == self@,
    {
        NetworkScanInfo::Thread {
            pan_id: self.pan_id,
            ext_pan_id: self.ext_pan_id,
            network_name: thread_name_as_str(&self.network_name),
            channel: self.channel,
            version: self.version,
            ext_addr: self.ext_addr.as_slice(),
            rssi: self.rssi,
            lqi: self.lqi,
        }
    }

    /// Whether the scan asks for this network.
    fn is_wanted(&self, network: Option<&[u8]>) -> (r: bool)
        ensures
            r == is_wanted(self@, wanted(network)),
    {
        match network {
            None => true,
            Some(network) => {
                let id = u64_to_be_bytes(self.ext_pan_id);
                let r = bytes_eq(id.as_slice(), network);
                proof {
                    if network@.len() == 8 {
                        law_be_value_is_injective(id@, network@);
                    }
                }
                r
            },
        }
    }
}

/// Whether a scan asks for the network: one restricted to a network asks for the one with this
/// extended PAN ID.
pub open spec fn is_wanted(shown: ScanShown, network: Option<Seq<u8>>) -> bool {
    match (shown, network) {
        (ScanShown::Thread { ext_pan_id, .. }, Some(network)) => network.len() == 8 && be_value(network)
            == ext_pan_id,
        (_, None) => true,
        _ => false,
    }
}

/// What a list of remembered networks shows.
pub open spec fn all_found(results: Seq<OwnedScanResult>) -> Seq<ScanShown> {
    results.map_values(|result: OwnedScanResult| result@)
}

/// What a scan reports: the remembered networks that it asks for, in their order.
pub open spec fn reported(found: Seq<ScanShown>, network: Option<Seq<u8>>) -> Seq<ScanShown> {
    found.filter(|shown: ScanShown| is_wanted(shown, network))
}

/// The networks that a scan has found so far.
#[derive(Debug)]
pub struct ThreadScan {
    results: heapless::Vec<OwnedScanResult, MAX_SCAN_RESULTS>,
}

impl View for ThreadScan {
    type V = Seq<ScanShown>;

    closed spec fn view(&self) -> Seq<ScanShown> {
        all_found(scan_results_of(self.results))
    }
}

/// What is remembered once another network was found.
pub open spec fn remember(found: Seq<ScanShown>, shown: ScanShown) -> Seq<ScanShown> {
    if found.len() < MAX_SCAN_RESULTS {
        found.push(shown)
    } else {
        found
    }
}

impl ThreadScan {
    /// Nothing was found yet.
    pub fn new() -> (r: Self)
        ensures
            r@ == Seq::<ScanShown>::empty(),
    {
        let r = ThreadScan { results: scan_results_new() };
        assert(r@ =~= Seq::<ScanShown>::empty());
        r
    }

    /// The Thread stack found a network, or has no more to tell.
    ///
    /// Networks beyond the number that can be remembered are dropped.
    pub fn found(&mut self, info: Option<ActiveScanResult<'_>>)
        ensures
            final(self)@ == (match info {
                Some(info) => remember(old(self)@, info.shown()),
                None => old(self)@,
            }),
    {
        if let Some(info) = info {
            let result = OwnedScanResult::from_active(&info);
            let ghost before = scan_results_of(self.results);
            let _ = scan_results_push(&mut self.results, result);
            proof {
                if before.len() < MAX_SCAN_RESULTS {
                    assert(self@ =~= all_found(before).push(info.shown()));
                }
            }
        }
    }

    /// What the scan reports.
    pub fn results<'a>(&'a self, network: Option<&[u8]>) -> (r: Vec<NetworkScanInfo<'a>>)
        ensures
            all_shown(r@) == reported(self@, wanted(network)),
    {
        let results = scan_results_as_slice(&self.results);
        let mut infos: Vec<NetworkScanInfo<'a>> = Vec::new();
        let mut i: usize = 0;
        proof {
            reveal(Seq::filter);
            assert(all_found(results@.take(0)) =~= seq![]);
            assert(all_shown(infos@) =~= reported(all_found(results@.take(0)), wanted(network)));
        }
        while i < results.len()
            invariant
                i <= results@.len(),
                all_shown(infos@) == reported(all_found(results@.take(i as int)), wanted(network)),
            decreases results@.len() - i,
        {
            let result = &results[i];
            let ghost before = infos@;
            let is_wanted = result.is_wanted(network);
            if is_wanted {
                infos.push(result.scan_info());
            }
            proof {
                reveal(Seq::filter);
                let longer = all_found(results@.take(i + 1));
                assert(longer.drop_last() =~= all_found(results@.take(i as int)));
                assert(longer.last() == result@);
                if is_wanted {
                    assert(all_shown(infos@) =~= all_shown(before).push(result@));
                }
            }
            i += 1;
        }
        assert(results@.take(i as int) =~= results@);
        infos
    }

    /// Report the networks that were found, as far as the scan asks for them.
    ///
    /// `f` takes a network or refuses it; the first that it refuses is the last that it is handed.
    /// It goes from state to state, beginning with `begin`.
    pub fn report<'a, S, F>(&'a self, network: Option<&[u8]>, begin: S, f: F) -> (r: (
        S,
        Result<(), NetCtlError>,
    )) where F: Fn(S, &NetworkScanInfo<'a>) -> (S, Result<(), Error>)
        requires
            forall|state: S, info: &NetworkScanInfo<'a>|
                reported(self@, wanted(network)).contains(info@) ==> #[trigger] f.requires((state, info)),
        ensures
            exists|infos: Seq<NetworkScanInfo<'a>>, states: Seq<S>|
                all_shown(infos) == reported(self@, wanted(network)) && states.len() > 0 && states[0] == begin
                    && states.last() == r.0 && #[trigger] is_reported(f, infos, states, r.1),
    {
        let infos = self.results(network);
        proof {
            assert forall|state: S, info: &NetworkScanInfo<'a>| infos@.contains(
                *info,
            ) implies #[trigger] f.requires((state, info)) by {
                let i = choose|i: int| 0 <= i < infos@.len() && infos@[i] == *info;
                assert(all_shown(infos@)[i] == info@);
            }
        }
        report(infos.as_slice(), begin, f)
    }
}

/// How a scan goes on.
#[derive(Debug, Copy, Clone, PartialEq, Eq, Structural)]
pub enum ScanAction {
    /// Start to scan, and remember what is found.
    Scan,
    /// Ask the Thread stack whether the scan is in progress.
    IsInProgress,
    /// Wait for this number of milliseconds.
    Wait(u64),
    /// Report what was found.
    Report,
    /// Stop with the error.
    Fail(NetCtlError),
}

/// What happened to a scan.
#[derive(Debug, Copy, Clone, PartialEq, Eq)]
pub enum ScanEvent {
    Begin,
    Scanning(Result<(), EspError>),
    IsInProgress(Result<bool, EspError>),
    Waited,
}

/// How a scan goes on: it is started, and asked about until it is over.
pub open spec fn scan_step(event: ScanEvent) -> ScanAction {
    match event {
        ScanEvent::Begin => ScanAction::Scan,
        ScanEvent::Scanning(Ok(())) | ScanEvent::Waited => ScanAction::IsInProgress,
        ScanEvent::IsInProgress(Ok(true)) => ScanAction::Wait(POLL_SCAN_WAIT_MS),
        ScanEvent::IsInProgress(Ok(false)) => ScanAction::Report,
        ScanEvent::Scanning(Err(_)) | ScanEvent::IsInProgress(Err(_)) => ScanAction::Fail(
            NetCtlError::Other(net_error()),
        ),
    }
}

/// How a scan goes on.
pub fn scan_next(event: ScanEvent) -> (r: ScanAction)
    ensures
        r == scan_step(event),
{
    match event {
        ScanEvent::Begin => ScanAction::Scan,
        ScanEvent::Scanning(Ok(())) | ScanEvent::Waited => ScanAction::IsInProgress,
        ScanEvent::IsInProgress(Ok(in_progress)) => if in_progress {
            ScanAction::Wait(POLL_SCAN_WAIT_MS)
        } else {
            ScanAction::Report
        },
        ScanEvent::Scanning(Err(err)) | ScanEvent::IsInProgress(Err(err)) => ScanAction::Fail(
            NetCtlError::from(to_net_error(err)),
        ),
    }
}

/// How a connection attempt goes on.
#[derive(Debug, Copy, Clone, PartialEq, Eq)]
pub enum ConnectAction<'a> {
    /// Remember the state of the network interface.
    Load,
    /// Hand the operational dataset to the Thread stack.
    SetTod(&'a [u8]),
    /// Look whether the network interface is operational.
    Poll,
    /// Wait for this number of milliseconds.
    Wait(u64),
    Finish(Result<(), NetCtlError>),
}

/// What happened to a connection attempt.
#[derive(Debug, Copy, Clone, PartialEq, Eq)]
pub enum ConnectEvent {
    Begin,
    Loaded(Result<(), EspError>),
    TodSet(Result<(), EspError>),
    /// Whether the interface is operational, and how many milliseconds ago, rounded up, the
    /// dataset was set.
    Polled { operational: Result<bool, EspError>, elapsed_ms: u64 },
    Waited,
}

/// How a connection attempt goes on: the dataset is set, and the interface looked at until it is
/// operational or the time is up.
pub open spec fn connect_step<'a>(creds: WirelessCreds<'a>, event: ConnectEvent) -> ConnectAction<'a> {
    match (creds, event) {
        (WirelessCreds::Wifi { .. }, _) => ConnectAction::Finish(
            Err(NetCtlError::Other(Error { code: ErrorCode::InvalidData })),
        ),
        (WirelessCreds::Thread { .. }, ConnectEvent::Begin) => ConnectAction::Load,
        (WirelessCreds::Thread { dataset_tlv }, ConnectEvent::Loaded(Ok(()))) => ConnectAction::SetTod(dataset_tlv),
        (WirelessCreds::Thread { .. }, ConnectEvent::TodSet(Err(_))) => ConnectAction::Finish(
            Err(net_constr_error()),
        ),
        (WirelessCreds::Thread { .. }, ConnectEvent::TodSet(Ok(())))
        | (WirelessCreds::Thread { .. }, ConnectEvent::Waited) => ConnectAction::Poll,
        (WirelessCreds::Thread { .. }, ConnectEvent::Polled { operational: Ok(true), .. }) => ConnectAction::Finish(
            Ok(()),
        ),
        (WirelessCreds::Thread { .. }, ConnectEvent::Polled { operational: Ok(false), elapsed_ms }) => if elapsed_ms
            > CONNECT_WAIT_MS {
            ConnectAction::Finish(Err(NetCtlError::AuthFailure))
        } else {
            ConnectAction::Wait(POLL_CONNECT_WAIT_MS)
        },
        (WirelessCreds::Thread { .. }, ConnectEvent::Loaded(Err(_)))
        | (WirelessCreds::Thread { .. }, ConnectEvent::Polled { operational: Err(_), .. }) => ConnectAction::Finish(
            Err(NetCtlError::Other(net_error())),
        ),
    }
}

/// How a connection attempt goes on.
pub fn connect_next<'a>(creds: &WirelessCreds<'a>, event: ConnectEvent) -> (r: ConnectAction<'a>)
    ensures
        r == connect_step(*creds, event),
{
    let dataset_tlv = match *creds {
        WirelessCreds::Thread { dataset_tlv } => dataset_tlv,
        WirelessCreds::Wifi { .. } => {
            return ConnectAction::Finish(Err(NetCtlError::from(Error::from(ErrorCode::InvalidData))));
        },
    };
    match event {
        ConnectEvent::Begin => ConnectAction::Load,
        ConnectEvent::Loaded(Ok(())) => ConnectAction::SetTod(dataset_tlv),
        ConnectEvent::Loaded(Err(err)) => ConnectAction::Finish(Err(NetCtlError::from(to_net_error(err)))),
        ConnectEvent::TodSet(Ok(())) | ConnectEvent::Waited => ConnectAction::Poll,
        ConnectEvent::TodSet(Err(err)) => ConnectAction::Finish(Err(to_net_constr_error(err))),
        ConnectEvent::Polled { operational: Err(err), .. } => ConnectAction::Finish(
            Err(NetCtlError::from(to_net_error(err))),
        ),
        ConnectEvent::Polled { operational: Ok(operational), elapsed_ms } => if operational {
            ConnectAction::Finish(Ok(()))
        } else if elapsed_ms > CONNECT_WAIT_MS {
            ConnectAction::Finish(Err(NetCtlError::AuthFailure))
        } else {
            ConnectAction::Wait(POLL_CONNECT_WAIT_MS)
        },
    }
}

/// Whether a node with the role is part of a network.
pub open spec fn is_attached(role: Role) -> bool {
    !(role is Detached || role is Disabled)
}

/// The routing role of a node.
#[derive(Debug, Copy, Clone, PartialEq, Eq, Structural)]
pub enum RoutingRoleEnum {
    Unspecified,
    Unassigned,
    SleepyEndDevice,
    EndDevice,
    REED,
    Router,
    Leader,
}

/// A fault of the network.
#[derive(Debug, Copy, Clone, PartialEq, Eq, Structural)]
pub enum NetworkFaultEnum {
    Unspecified,
    LinkDown,
    HardwareFailure,
    NetworkJammed,
}

/// A neighbor of a node.
#[derive(Debug, Copy, Clone, PartialEq, Eq)]
pub struct NeighborTable {
    pub ext_address: u64,
    pub age: u32,
    pub rloc16: u16,
    pub link_frame_counter: u32,
    pub mle_frame_counter: u32,
    pub lqi: u8,
    pub average_rssi: Option<i8>,
    pub last_rssi: Option<i8>,
    pub frame_error_rate: u8,
    pub message_error_rate: u8,
    pub rx_on_when_idle: bool,
    pub full_thread_device: bool,
    pub full_network_data: bool,
    pub is_child: bool,
}

/// A route of a node.
#[derive(Debug, Copy, Clone, PartialEq, Eq, Structural)]
pub struct RouteTable {
    pub ext_address: u64,
    pub rloc16: u16,
    pub router_id: u8,
    pub next_hop: u8,
    pub path_cost: u8,
    pub lqi_in: u8,
    pub lqi_out: u8,
    pub age: u8,
    pub allocated: bool,
    pub link_established: bool,
}

/// The security policy of a network.
#[derive(Debug, Copy, Clone, PartialEq, Eq, Structural)]
pub struct SecurityPolicy {
    pub rotation_time: u16,
    pub flags: u16,
}

/// Which components an operational dataset holds.
#[derive(Debug, Copy, Clone, PartialEq, Eq, Structural)]
pub struct OperationalDatasetComponents {
    pub active_timestamp_present: bool,
    pub pending_timestamp_present: bool,
    pub master_key_present: bool,
    pub network_name_present: bool,
    pub extended_pan_id_present: bool,
    pub mesh_local_prefix_present: bool,
    pub delay_present: bool,
    pub pan_id_present: bool,
    pub channel_present: bool,
    pub pskc_present: bool,
    pub security_policy_present: bool,
    pub channel_mask_present: bool,
}

/// What the Thread controller remembers.
#[derive(Debug)]
pub struct EspMatterThreadCtl {
    netif_state: NetifInfoOwned,
}

impl View for EspMatterThreadCtl {
    type V = NetifModel;

    closed spec fn view(&self) -> NetifModel {
        self.netif_state@
    }
}

/// What the Thread stack and its interface show, or the error of the first that could not be
/// asked.
pub open spec fn thread_shown(role: Result<Role, EspError>, netif: NetifReadings) -> Result<
    (bool, NetifShown),
    EspError,
> {
    match (role, netif.shown()) {
        (Err(err), _) => Err(err),
        (Ok(_), Err(err)) => Err(err),
        (Ok(role), Ok(shown)) => Ok(
            (is_attached(role), NetifShown { netif_type: InterfaceTypeEnum::Thread, ..shown }),
        ),
    }
}

/// What reading the interface shows, where it shows itself so.
pub open spec fn outcome_of(m: NetifModel, attached: bool, shown: NetifShown) -> LoadOutcome {
    LoadOutcome {
        operational: m.load(attached, shown).is_operational_v6(),
        changed: m.is_changed(attached, shown),
    }
}

impl EspMatterThreadCtl {
    /// Create a new instance of the `EspMatterThreadCtl` type.
    pub fn new() -> (r: Self)
        ensures
            r@ == NetifModel::unseen(),
    {
        EspMatterThreadCtl { netif_state: NetifInfoOwned::new() }
    }

    /// Remember the state of the network interface. Returns whether there is a change to tell
    /// of.
    pub fn load(&mut self, role: Result<Role, EspError>, netif: &NetifReadings) -> (r: Result<bool, EspError>)
        ensures
            match thread_shown(role, *netif) {
                Err(err) => final(self)@ == old(self)@ && r == Err::<bool, EspError>(err),
                Ok((attached, shown)) => {
                    &&& final(self)@ == old(self)@.load(attached, shown)
                    &&& r == Ok::<bool, EspError>(old(self)@.is_changed(attached, shown))
                },
            },
    {
        match Self::is_thread_connected(role) {
            Err(err) => Err(err),
            Ok(connected) => self.netif_state.load(connected, netif, InterfaceTypeEnum::Thread),
        }
    }

    /// Look at the network interface while connecting.
    ///
    /// The attempt goes on while the interface is not operational, and a change is told of.
    pub fn load_outcome(&mut self, role: Result<Role, EspError>, netif: &NetifReadings) -> (r: Result<
        LoadOutcome,
        EspError,
    >)
        ensures
            match thread_shown(role, *netif) {
                Err(err) => final(self)@ == old(self)@ && r == Err::<LoadOutcome, EspError>(err),
                Ok((attached, shown)) => {
                    &&& final(self)@ == old(self)@.load(attached, shown)
                    &&& r == Ok::<LoadOutcome, EspError>(outcome_of(old(self)@, attached, shown))
                },
            },
    {
        match self.load(role, netif) {
            Err(err) => Err(err),
            Ok(changed) => Ok(LoadOutcome { operational: self.netif_state.is_operational_v6(), changed }),
        }
    }

    /// Whether this node is part of a network.
    pub fn is_thread_connected(role: Result<Role, EspError>) -> (r: Result<bool, EspError>)
        ensures
            match role {
                Ok(role) => r == Ok::<bool, EspError>(is_attached(role)),
                Err(err) => r == Err::<bool, EspError>(err),
            },
    {
        match role {
            Ok(role) => Ok(
                match role {
                    Role::Detached | Role::Disabled => false,
                    _ => true,
                },
            ),
            Err(err) => Err(err),
        }
    }

    /// The kind of network that this controller serves.
    pub fn net_type(&self) -> (r: NetworkType)
        ensures
            r == NetworkType::Thread,
    {
        NetworkType::Thread
    }

    /// Whether the interface is up and has an IPv6 address.
    pub fn connected(&self) -> (r: Result<bool, Error>)
        ensures
            r == Ok::<bool, Error>(self@.is_operational_v6()),
    {
        Ok(self.netif_state.is_operational_v6())
    }

    /// The channel of the network, which is not known.
    pub fn channel(&self) -> (r: Result<Option<u16>, Error>)
        ensures
            r == Ok::<Option<u16>, Error>(None),
    {
        Ok(None)
    }

    /// The routing role of this node, which is not known.
    pub fn routing_role(&self) -> (r: Result<Option<RoutingRoleEnum>, Error>)
        ensures
            r == Ok::<Option<RoutingRoleEnum>, Error>(None),
    {
        Ok(None)
    }

    /// Show the name of the network, which is not known.
    pub fn network_name<F>(&self, f: F) -> (r: Result<(), Error>) where F: FnOnce(Option<&str>) -> Result<(), Error>
        requires
            f.requires((None,)),
        ensures
            f.ensures((None,), r),
    {
        f(None)
    }

    /// The PAN ID of the network, which is not known.
    pub fn pan_id(&self) -> (r: Result<Option<u16>, Error>)
        ensures
            r == Ok::<Option<u16>, Error>(None),
    {
        Ok(None)
    }

    /// The extended PAN ID of the network, which is not known.
    pub fn extended_pan_id(&self) -> (r: Result<Option<u64>, Error>)
        ensures
            r == Ok::<Option<u64>, Error>(None),
    {
        Ok(None)
    }

    /// Show the mesh-local prefix of the network, which is not known.
    pub fn mesh_local_prefix<F>(&self, f: F) -> (r: Result<(), Error>) where F: FnOnce(Option<&[u8]>) -> Result<(), Error>
        requires
            f.requires((None,)),
        ensures
            f.ensures((None,), r),
    {
        f(None)
    }

    /// Show the neighbors of this node, of which none is known.
    pub fn neightbor_table<F>(&self, _f: F) -> (r: Result<(), Error>) where F: FnOnce(&NeighborTable) -> Result<(), Error>
        ensures
            r == Ok::<(), Error>(()),
    {
        Ok(())
    }

    /// Show the routes of this node, of which none is known.
    pub fn route_table<F>(&self, _f: F) -> (r: Result<(), Error>) where F: FnOnce(&RouteTable) -> Result<(), Error>
        ensures
            r == Ok::<(), Error>(()),
    {
        Ok(())
    }

    /// The partition of the network, which is not known.
    pub fn partition_id(&self) -> (r: Result<Option<u32>, Error>)
        ensures
            r == Ok::<Option<u32>, Error>(None),
    {
        Ok(None)
    }

    /// The weighting of the leader, which is not known.
    pub fn weighting(&self) -> (r: Result<Option<u16>, Error>)
        ensures
            r == Ok::<Option<u16>, Error>(None),
    {
        Ok(None)
    }

    /// The version of the network data, which is not known.
    pub fn data_version(&self) -> (r: Result<Option<u16>, Error>)
        ensures
            r == Ok::<Option<u16>, Error>(None),
    {
        Ok(None)
    }

    /// The version of the stable network data, which is not known.
    pub fn stable_data_version(&self) -> (r: Result<Option<u16>, Error>)
        ensures
            r == Ok::<Option<u16>, Error>(None),
    {
        Ok(None)
    }

    /// The router that leads the network, which is not known.
    pub fn leader_router_id(&self) -> (r: Result<Option<u8>, Error>)
        ensures
            r == Ok::<Option<u8>, Error>(None),
    {
        Ok(None)
    }

    /// The security policy of the network, which is not known.
    pub fn security_policy(&self) -> (r: Result<Option<SecurityPolicy>, Error>)
        ensures
            r == Ok::<Option<SecurityPolicy>, Error>(None),
    {
        Ok(None)
    }

    /// Show the channels of page 0, which are not known.
    pub fn channel_page0_mask<F>(&self, f: F) -> (r: Result<(), Error>) where F: FnOnce(Option<&[u8]>) -> Result<(), Error>
        requires
            f.requires((None,)),
        ensures
            f.ensures((None,), r),
    {
        f(None)
    }

    /// Show what the operational dataset holds, which is not known.
    pub fn operational_dataset_components<F>(&self, f: F) -> (r: Result<(), Error>) where F: FnOnce(Option<&OperationalDatasetComponents>) -> Result<(), Error>
        requires
            f.requires((None,)),
        ensures
            f.ensures((None,), r),
    {
        f(None)
    }

    /// Show the faults of the network, of which none is known.
    pub fn active_network_faults_list<F>(&self, _f: F) -> (r: Result<(), Error>) where F: FnOnce(NetworkFaultEnum) -> Result<(), Error>
        ensures
            r == Ok::<(), Error>(()),
    {
        Ok(())
    }
}

/// Shows the network interface of a Thread controller.
#[derive(Debug)]
pub struct EspMatterThreadNotif<'a>(&'a EspMatterThreadCtl);

impl<'a> View for EspMatterThreadNotif<'a> {
    type V = NetifModel;

    closed spec fn view(&self) -> NetifModel {
        self.0@
    }
}

impl<'a> EspMatterThreadNotif<'a> {
    /// Create a new instance of the `EspMatterThreadNotif` type.
    pub fn new(thread: &'a EspMatterThreadCtl) -> (r: Self)
        ensures
            r@ == thread@,
    {
        EspMatterThreadNotif(thread)
    }

    /// Show the network interface, as it was last seen.
    pub fn netifs<F>(&self, f: F) -> (r: Result<(), Error>) where F: FnOnce(&NetifInfo<'_>) -> Result<(), Error>
        requires
            forall|info: &NetifInfo<'_>| info@ == self@.shown() ==> #[trigger] f.requires((info,)),
        ensures
            exists|info: &NetifInfo<'_>| info@ == self@.shown() && #[trigger] f.ensures((info,), r),
    {
        self.0.netif_state.as_ref(f)
    }
}

/// What is remembered of the networks that were found, one after the other.
pub open spec fn collect(found: Seq<ScanShown>) -> Seq<ScanShown>
    decreases found.len(),
{
    if found.len() == 0 {
        seq![]
    } else {
        remember(collect(found.drop_last()), found.last())
    }
}

/// A scan remembers the networks that were found first, in the order in which they were found.
pub proof fn law_scan_remembers_the_first(found: Seq<ScanShown>)
    ensures
        collect(found) == found.take(
            if found.len() < MAX_SCAN_RESULTS {
                found.len() as int
            } else {
                MAX_SCAN_RESULTS as int
            },
        ),
    decreases found.len(),
{
    if found.len() > 0 {
        law_scan_remembers_the_first(found.drop_last());
        if found.len() <= MAX_SCAN_RESULTS {
            assert(collect(found) =~= found);
            assert(found.take(found.len() as int) =~= found);
        } else {
            assert(found.drop_last().take(MAX_SCAN_RESULTS as int) =~= found.take(MAX_SCAN_RESULTS as int));
        }
    } else {
        assert(found.take(0) =~= seq![]);
    }
}

/// A scan that is restricted to a network asks for exactly the networks whose extended PAN ID
/// has the same bytes; one that is not asks for all.
pub proof fn law_scan_filters_by_id(result: ActiveScanResult<'_>, network: Seq<u8>)
    ensures
        is_wanted(result.shown(), Some(network)) <==> network == result.extended_pan_id@,
        is_wanted(result.shown(), None),
{
    let id = result.extended_pan_id@;
    crate::bytes::lemma_be_value_bound(id);
    reveal_with_fuel(crate::bytes::pow256, 9);
    if network.len() == 8 {
        law_be_value_is_injective(network, id);
    }
}

/// How a connection attempt ends whose interface is looked at with these results, if they
/// decide.
pub open spec fn run_polls(dataset_tlv: &[u8], polls: Seq<(Result<bool, EspError>, u64)>) -> Option<
    Result<(), NetCtlError>,
>
    decreases polls.len(),
{
    if polls.len() == 0 {
        None
    } else {
        let (operational, elapsed_ms) = polls[0];
        match connect_step(
            WirelessCreds::Thread { dataset_tlv },
            ConnectEvent::Polled { operational, elapsed_ms },
        ) {
            ConnectAction::Finish(result) => Some(result),
            _ => run_polls(dataset_tlv, polls.drop_first()),
        }
    }
}

/// A connection attempt is decided by the first look that finds the interface operational, fails,
/// or comes too late: it succeeds, fails with a network error or counts as refused.
pub proof fn law_connect_outcome(dataset_tlv: &[u8], polls: Seq<(Result<bool, EspError>, u64)>, k: int)
    requires
        0 <= k < polls.len(),
        forall|j: int|
            0 <= j < k ==> (#[trigger] polls[j]).0 == Ok::<bool, EspError>(false) && polls[j].1 <= CONNECT_WAIT_MS,
        polls[k].0 != Ok::<bool, EspError>(false) || polls[k].1 > CONNECT_WAIT_MS,
    ensures
        run_polls(dataset_tlv, polls) == Some(
            match polls[k].0 {
                Ok(true) => Ok::<(), NetCtlError>(()),
                Ok(false) => Err(NetCtlError::AuthFailure),
                Err(_) => Err(NetCtlError::Other(net_error())),
            },
        ),
    decreases k,
{
    if k > 0 {
        assert(polls[0].0 == Ok::<bool, EspError>(false));
        let rest = polls.drop_first();
        assert forall|j: int| 0 <= j < k - 1 implies (#[trigger] rest[j]).0 == Ok::<bool, EspError>(false)
            && rest[j].1 <= CONNECT_WAIT_MS by {
            assert(rest[j] == polls[j + 1]);
        }
        law_connect_outcome(dataset_tlv, rest, k - 1);
    }
}

/// How a scan ends that is asked about with these answers, if they decide.
pub open spec fn run_scan(in_progress: Seq<Result<bool, EspError>>) -> Option<ScanAction>
    decreases in_progress.len(),
{
    if in_progress.len() == 0 {
        None
    } else {
        match scan_step(ScanEvent::IsInProgress(in_progress[0])) {
            ScanAction::Wait(_) => run_scan(in_progress.drop_first()),
            action => Some(action),
        }
    }
}

/// A scan is decided by the first answer that does not say that it is in progress: it reports
/// what was found, or fails with a network error.
pub proof fn law_scan_outcome(in_progress: Seq<Result<bool, EspError>>, k: int)
    requires
        0 <= k < in_progress.len(),
        forall|j: int| 0 <= j < k ==> #[trigger] in_progress[j] == Ok::<bool, EspError>(true),
        in_progress[k] != Ok::<bool, EspError>(true),
    ensures
        run_scan(in_progress) == Some(
            match in_progress[k] {
                Ok(_) => ScanAction::Report,
                Err(_) => ScanAction::Fail(NetCtlError::Other(net_error())),
            },
        ),
    decreases k,
{
    if k > 0 {
        assert(in_progress[0] == Ok::<bool, EspError>(true));
        let rest = in_progress.drop_first();
        assert forall|j: int| 0 <= j < k - 1 implies #[trigger] rest[j] == Ok::<bool, EspError>(true) by {
            assert(rest[j] == in_progress[j + 1]);
        }
        law_scan_outcome(rest, k - 1);
    }
}

/// A connection attempt succeeds exactly with a look at the interface that leaves the controller
/// connected: its interface is up, and has an IPv6 address. A controller that has seen nothing is
/// not connected.
pub proof fn law_connected_after_connect(
    dataset_tlv: &[u8],
    m: NetifModel,
    attached: bool,
    shown: NetifShown,
    elapsed_ms: u64,
)
    ensures
        !NetifModel::unseen().is_operational_v6(),
        ({
            let operational = Ok::<bool, EspError>(outcome_of(m, attached, shown).operational);
            let after = m.load(attached, shown);
            connect_step(
                WirelessCreds::Thread { dataset_tlv },
                ConnectEvent::Polled { operational, elapsed_ms },
            ) == ConnectAction::Finish(Ok(())) <==> after.operational && after.ipv6_addr != Ipv6Addr::unspecified()
        }),
{
}

/// What is remembered and reported of a found network is, field by field, what the Thread stack
/// told. Its extended PAN ID is the number that the eight bytes stand for. Its name has the very
/// bytes that were told where they are a string of up to 16 bytes, and is `???` otherwise.
pub proof fn law_found_network_is_reported_as_told(result: ActiveScanResult<'_>)
    ensures
        ({
            let shown = result.shown();
            let id = result.extended_pan_id@;
            let name = result.network_name@;
            &&& shown is Thread
            &&& shown->pan_id == result.pan_id
            &&& shown->ext_pan_id == 0x100_0000_0000_0000 * id[0] + 0x1_0000_0000_0000 * id[1] + 0x100_0000_0000 * id[2]
                + 0x1_0000_0000 * id[3] + 0x100_0000 * id[4] + 0x1_0000 * id[5] + 0x100 * id[6] + id[7]
            &&& shown->Thread_channel == result.channel
            &&& shown->version == result.version
            &&& shown->ext_addr == result.extended_address@
            &&& shown->Thread_rssi == result.max_rssi
            &&& shown->lqi == result.lqi
            &&& valid_utf8(name) && name.len() <= 16 ==> encode_utf8(shown->network_name) == name
            &&& !(valid_utf8(name) && name.len() <= 16) ==> shown->network_name == seq!['?', '?', '?']
        }),
{
    law_be_value_adds_up(result.extended_pan_id@);
    if valid_utf8(result.network_name@) {
        vstd::utf8::decode_utf8_encode_utf8(result.network_name@);
    }
    reveal_strlit("???");
    assert("???"@ =~= seq!['?', '?', '?']);
}

/// What a scan reports of two lists of networks is what it reports of the first and then what it
/// reports of the second. Of a single network it reports this network where it asks for it, and
/// nothing otherwise; of none, nothing.
pub proof fn law_scan_reports_in_order(
    found: Seq<ScanShown>,
    more: Seq<ScanShown>,
    one: ScanShown,
    network: Option<Seq<u8>>,
)
    ensures
        reported(found + more, network) == reported(found, network) + reported(more, network),
        reported(seq![one], network) == (if network is None || is_wanted(one, network) {
            seq![one]
        } else {
            seq![]
        }),
        reported(Seq::<ScanShown>::empty(), network).len() == 0,
{
    reveal(Seq::filter);
    let p = |shown: ScanShown| is_wanted(shown, network);
    Seq::filter_distributes_over_add(found, more, p);
    let empty = Seq::<ScanShown>::empty();
    assert(seq![one].drop_last() =~= empty);
    assert(reported(empty, network) =~= empty);
    assert(reported(seq![one], network) =~= (if p(one) {
        seq![one]
    } else {
        empty
    }));
}

/// A scan remembers up to five networks, and every one of the first five.
pub proof fn law_scan_remembers_five(found: Seq<ScanShown>, i: int)
    ensures
        collect(found).len() == (if found.len() < 5 {
            found.len() as int
        } else {
            5
        }),
        0 <= i < found.len() && i < 5 ==> collect(found)[i] == found[i],
{
    law_scan_remembers_the_first(found);
}

/// How many events of a scan can follow at most before it is asked about.
pub open spec fn scan_events_left(event: ScanEvent) -> nat {
    match event {
        ScanEvent::Begin | ScanEvent::IsInProgress(_) => 1,
        ScanEvent::Scanning(_) | ScanEvent::Waited => 0,
    }
}

/// The actions of a scan, up to its end or to the first question that is not answered.
pub open spec fn scan_actions(
    event: ScanEvent,
    start: Result<(), EspError>,
    in_progress: Seq<Result<bool, EspError>>,
) -> Seq<ScanAction>
    decreases in_progress.len(), scan_events_left(event),
{
    let action = scan_step(event);
    match (event, action) {
        (ScanEvent::Begin, ScanAction::Scan) => seq![action] + scan_actions(
            ScanEvent::Scanning(start),
            start,
            in_progress,
        ),
        (ScanEvent::IsInProgress(_), ScanAction::Wait(_)) => seq![action] + scan_actions(
            ScanEvent::Waited,
            start,
            in_progress,
        ),
        (_, ScanAction::IsInProgress) => if in_progress.len() == 0 {
            seq![action]
        } else {
            seq![action] + scan_actions(ScanEvent::IsInProgress(in_progress[0]), start, in_progress.drop_first())
        },
        _ => seq![action],
    }
}

/// To ask about a scan and to wait for half a second, so many times.
pub open spec fn questions(k: nat) -> Seq<ScanAction>
    decreases k,
{
    if k == 0 {
        seq![]
    } else {
        seq![ScanAction::IsInProgress, ScanAction::Wait(500)] + questions((k - 1) as nat)
    }
}

proof fn lemma_scan_actions(event: ScanEvent, start: Result<(), EspError>, in_progress: Seq<Result<bool, EspError>>, k: nat)
    requires
        event is Waited || (event matches ScanEvent::Scanning(result) && result is Ok),
        k < in_progress.len(),
        forall|j: int| 0 <= j < k ==> #[trigger] in_progress[j] == Ok::<bool, EspError>(true),
        in_progress[k as int] != Ok::<bool, EspError>(true),
    ensures
        scan_actions(event, start, in_progress) == questions(k) + seq![
            ScanAction::IsInProgress,
            if in_progress[k as int] is Ok {
                ScanAction::Report
            } else {
                ScanAction::Fail(NetCtlError::Other(Error { code: ErrorCode::NoNetworkInterface }))
            },
        ],
    decreases k,
{
    let asked = ScanEvent::IsInProgress(in_progress[0]);
    let rest = in_progress.drop_first();
    let actions = scan_actions(event, start, in_progress);
    assert(actions == seq![ScanAction::IsInProgress] + scan_actions(asked, start, rest));
    if k > 0 {
        assert(in_progress[0] == Ok::<bool, EspError>(true));
        assert forall|j: int| 0 <= j < k - 1 implies #[trigger] rest[j] == Ok::<bool, EspError>(true) by {
            assert(rest[j] == in_progress[j + 1]);
        }
        lemma_scan_actions(ScanEvent::Waited, start, rest, (k - 1) as nat);
        let later = scan_actions(ScanEvent::Waited, start, rest);
        assert(scan_actions(asked, start, rest) == seq![ScanAction::Wait(500)] + later);
        assert(actions =~= seq![ScanAction::IsInProgress, ScanAction::Wait(500)] + later);
    } else {
        assert(scan_actions(asked, start, rest) == seq![scan_step(asked)]);
    }
}

/// A scan is started first, and a failure to do so is a network error. Then it is asked about, and
/// again after every half second, for as long as it is in progress. It reports once it is not, and
/// fails with a network error where it cannot be asked about.
pub proof fn law_scan_takes_these_actions(start: Result<(), EspError>, in_progress: Seq<Result<bool, EspError>>, k: nat)
    requires
        k < in_progress.len(),
        forall|j: int| 0 <= j < k ==> #[trigger] in_progress[j] == Ok::<bool, EspError>(true),
        in_progress[k as int] != Ok::<bool, EspError>(true),
    ensures
        ({
            let actions = scan_actions(ScanEvent::Begin, start, in_progress);
            let failed = ScanAction::Fail(NetCtlError::Other(Error { code: ErrorCode::NoNetworkInterface }));
            &&& start is Err ==> actions == seq![ScanAction::Scan, failed]
            &&& start is Ok ==> actions == seq![ScanAction::Scan] + questions(k) + seq![
                ScanAction::IsInProgress,
                if in_progress[k as int] is Ok {
                    ScanAction::Report
                } else {
                    failed
                },
            ]
        }),
{
    let begun = ScanEvent::Scanning(start);
    let actions = scan_actions(ScanEvent::Begin, start, in_progress);
    assert(actions == seq![ScanAction::Scan] + scan_actions(begun, start, in_progress));
    if start is Ok {
        lemma_scan_actions(begun, start, in_progress, k);
    } else {
        assert(scan_actions(begun, start, in_progress) == seq![scan_step(begun)]);
    }
}

/// A connection attempt first remembers the state of its interface and then hands the very dataset
/// that it was given to the Thread stack. A failure of the first is a network error, and one of the
/// second a broken constraint.
pub proof fn law_connect_hands_the_dataset_over(dataset_tlv: &[u8], err: EspError)
    ensures
        ({
            let creds = WirelessCreds::Thread { dataset_tlv };
            &&& connect_step(creds, ConnectEvent::Begin) == ConnectAction::Load
            &&& connect_step(creds, ConnectEvent::Loaded(Ok(()))) == ConnectAction::SetTod(dataset_tlv)
            &&& connect_step(creds, ConnectEvent::TodSet(Ok(()))) == ConnectAction::Poll
            &&& connect_step(creds, ConnectEvent::Loaded(Err(err))) == ConnectAction::Finish(
                Err(NetCtlError::Other(Error { code: ErrorCode::NoNetworkInterface })),
            )
            &&& connect_step(creds, ConnectEvent::TodSet(Err(err))) == ConnectAction::Finish(
                Err(NetCtlError::Other(Error { code: ErrorCode::ConstraintError })),
            )
        }),
{
}

/// Once the dataset is set, the interface is looked at every second. A look at an operational
/// interface ends the attempt well, however late it comes. Any other look goes on to the next one
/// for 30 seconds, and counts as refused credentials after that, unless it fails.
pub proof fn law_connect_looks_every_second(dataset_tlv: &[u8], operational: bool, elapsed_ms: u64, err: EspError)
    ensures
        ({
            let creds = WirelessCreds::Thread { dataset_tlv };
            let look = connect_step(creds, ConnectEvent::Polled { operational: Ok(operational), elapsed_ms });
            &&& operational ==> look == ConnectAction::Finish(Ok(()))
            &&& !operational && elapsed_ms <= 30_000 ==> look == ConnectAction::Wait(1_000)
            &&& !operational && elapsed_ms > 30_000 ==> look == ConnectAction::Finish(Err(NetCtlError::AuthFailure))
            &&& connect_step(creds, ConnectEvent::Waited) == ConnectAction::Poll
            &&& connect_step(creds, ConnectEvent::Polled { operational: Err(err), elapsed_ms }) == ConnectAction::Finish(
                Err(NetCtlError::Other(Error { code: ErrorCode::NoNetworkInterface })),
            )
        }),
{
}

/// Credentials of a Wi-Fi network are refused as invalid, whatever happens.
pub proof fn law_wifi_credentials_are_refused(ssid: &[u8], pass: &[u8], event: ConnectEvent)
    ensures
        connect_step(WirelessCreds::Wifi { ssid, pass }, event) == ConnectAction::Finish(
            Err(NetCtlError::Other(Error { code: ErrorCode::InvalidData })),
        ),
{
}

/// A node is part of a network as a child, a router or a leader.
pub proof fn law_attached_roles(role: Role)
    ensures
        is_attached(role) <==> role is Child || role is Router || role is Leader,
{
}

/// What is seen of a Thread interface is what it shows, as one of a Thread network, and up only
/// with a role in one. The role is asked for before the interface, and the first failure is the one
/// that is told.
pub proof fn law_thread_interface_is_seen(role: Result<Role, EspError>, netif: NetifReadings, m: NetifModel)
    ensures
        ({
            let seen = thread_shown(role, netif);
            &&& role matches Err(err) ==> seen == Err::<(bool, NetifShown), EspError>(err)
            &&& role is Ok ==> (netif.shown() matches Err(err) ==> seen == Err::<(bool, NetifShown), EspError>(err))
            &&& role is Ok && netif.shown() is Ok ==> (seen matches Ok((attached, shown)) && attached == is_attached(
                role->Ok_0,
            ) && shown.netif_type is Thread && shown == (NetifShown {
                netif_type: shown.netif_type,
                ..netif.shown()->Ok_0
            }))
            &&& seen matches Ok((attached, shown)) ==> {
                let after = m.load(attached, shown);
                &&& outcome_of(m, attached, shown).changed <==> after != m
                &&& outcome_of(m, attached, shown).operational <==> after.operational && (exists|i: int|
                    0 <= i < 16 && #[trigger] after.ipv6_addr.0@[i] != 0)
            }
        }),
{
    if let Ok((attached, shown)) = thread_shown(role, netif) {
        law_unspecified_ipv6(m.load(attached, shown).ipv6_addr);
    }
}

/// A list of remembered networks shows each of them, in its place.
pub proof fn law_lists_show_each_network(results: Seq<OwnedScanResult>, i: int)
    ensures
        all_found(results).len() == results.len(),
        0 <= i < results.len() ==> all_found(results)[i] == results[i]@,
{
}

} // verus!
