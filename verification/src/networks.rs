//! What a network controller is asked for and what it reports.

use vstd::prelude::*;

use crate::error::{Error, NetCtlError};

verus! {

/// The kind of network that a controller serves.
#[derive(Debug, Copy, Clone, PartialEq, Eq, Structural)]
pub enum NetworkType {
    Ethernet,
    Wifi,
    Thread,
}

/// The credentials of a wireless network.
#[derive(Debug, Copy, Clone, PartialEq, Eq)]
pub enum WirelessCreds<'a> {
    Wifi { ssid: &'a [u8], pass: &'a [u8] },
    Thread { dataset_tlv: &'a [u8] },
}

/// The ways in which a Wi-Fi network can be secured.
#[derive(Debug, Copy, Clone, PartialEq, Eq, Structural)]
pub struct WiFiSecurityBitmap {
    pub unencrypted: bool,
    pub wep: bool,
    pub wpa_personal: bool,
    pub wpa_2_personal: bool,
    pub wpa_3_personal: bool,
}

/// The frequency band of a Wi-Fi network.
#[derive(Debug, Copy, Clone, PartialEq, Eq, Structural)]
pub enum WiFiBandEnum {
    V2G4,
    V3G65,
    V5G,
    V6G,
    V60G,
    V1G,
}

/// A network that a scan found.
#[derive(Debug, Copy, Clone, PartialEq, Eq)]
pub enum NetworkScanInfo<'a> {
    Wifi {
        security: WiFiSecurityBitmap,
        ssid: &'a [u8],
        bssid: &'a [u8],
        channel: u16,
        band: WiFiBandEnum,
        rssi: i8,
    },
    Thread {
        pan_id: u16,
        ext_pan_id: u64,
        network_name: &'a str,
        channel: u16,
        version: u8,
        ext_addr: &'a [u8],
        rssi: i8,
        lqi: u8,
    },
}

/// The contents of a `NetworkScanInfo`.
#[verifier::ext_equal]
pub enum ScanShown {
    Wifi {
        security: WiFiSecurityBitmap,
        ssid: Seq<u8>,
        bssid: Seq<u8>,
        channel: u16,
        band: WiFiBandEnum,
        rssi: i8,
    },
    Thread {
        pan_id: u16,
        ext_pan_id: u64,
        network_name: Seq<char>,
        channel: u16,
        version: u8,
        ext_addr: Seq<u8>,
        rssi: i8,
        lqi: u8,
    },
}

impl<'a> View for NetworkScanInfo<'a> {
    type V = ScanShown;

    open spec fn view(&self) -> ScanShown {
        match *self {
            NetworkScanInfo::Wifi { security, ssid, bssid, channel, band, rssi } => ScanShown::Wifi {
                security,
                ssid: ssid@,
                bssid: bssid@,
                channel,
                band,
                rssi,
            },
            NetworkScanInfo::Thread { pan_id, ext_pan_id, network_name, channel, version, ext_addr, rssi, lqi } =>
            ScanShown::Thread {
                pan_id,
                ext_pan_id,
                network_name: network_name@,
                channel,
                version,
                ext_addr: ext_addr@,
                rssi,
                lqi,
            },
        }
    }
}

/// What a list of found networks shows.
pub open spec fn all_shown(infos: Seq<NetworkScanInfo<'_>>) -> Seq<ScanShown> {
    infos.map_values(|info: NetworkScanInfo<'_>| info@)
}

/// The network that a scan is restricted to, if any.
pub open spec fn wanted(network: Option<&[u8]>) -> Option<Seq<u8>> {
    match network {
        Some(network) => Some(network@),
        None => None,
    }
}

impl WiFiSecurityBitmap {
    /// Nothing is known.
    pub open spec fn unknown() -> Self {
        WiFiSecurityBitmap {
            unencrypted: false,
            wep: false,
            wpa_personal: false,
            wpa_2_personal: false,
            wpa_3_personal: false,
        }
    }

    /// Nothing is known.
    pub fn empty() -> (r: Self)
        ensures
            r == Self::unknown(),
    {
        WiFiSecurityBitmap {
            unencrypted: false,
            wep: false,
            wpa_personal: false,
            wpa_2_personal: false,
            wpa_3_personal: false,
        }
    }
}

/// Whether the callback took the network at `j`, and went from one of the states to the next.
pub open spec fn took<'a, S, F>(f: F, infos: Seq<NetworkScanInfo<'a>>, states: Seq<S>, j: int) -> bool where
    F: Fn(S, &NetworkScanInfo<'a>) -> (S, Result<(), Error>),
 {
    f.ensures((states[j], &infos[j]), (states[j + 1], Ok(())))
}

/// Whether the networks were reported with this result, where the callback went through the given
/// states, one more than there were calls.
///
/// The callback is called once for each network, in order, up to and with the first that it
/// refuses. Its error is the result.
pub open spec fn is_reported<'a, S, F>(
    f: F,
    infos: Seq<NetworkScanInfo<'a>>,
    states: Seq<S>,
    result: Result<(), NetCtlError>,
) -> bool where F: Fn(S, &NetworkScanInfo<'a>) -> (S, Result<(), Error>) {
    let calls = states.len() - 1;
    match result {
        Ok(()) => calls == infos.len() && forall|j: int| 0 <= j < calls ==> #[trigger] took(f, infos, states, j),
        Err(err) => {
            &&& 0 < calls <= infos.len()
            &&& forall|j: int| 0 <= j < calls - 1 ==> #[trigger] took(f, infos, states, j)
            &&& err is Other
            &&& f.ensures((states[calls - 1], &infos[calls - 1]), (states[calls], Err(err->Other_0)))
        },
    }
}

/// Report the networks that a scan found.
///
/// `f` takes a network or refuses it. It is handed what it returned from its last call, `begin`
/// at first, and what it returned last is returned.
pub fn report<'a, S, F>(infos: &[NetworkScanInfo<'a>], begin: S, f: F) -> (r: (S, Result<(), NetCtlError>)) where
    F: Fn(S, &NetworkScanInfo<'a>) -> (S, Result<(), Error>),

    requires
        forall|state: S, info: &NetworkScanInfo<'a>|
            infos@.contains(*info) ==> #[trigger] f.requires((state, info)),
    ensures
        exists|states: Seq<S>|
            states.len() > 0 && states[0] == begin && states.last() == r.0 && #[trigger] is_reported(
                f,
                infos@,
                states,
                r.1,
            ),
{
    let ghost mut states: Seq<S> = seq![begin];
    let mut state = begin;
    let mut i: usize = 0;
    while i < infos.len()
        invariant
            i <= infos@.len(),
            forall|state: S, info: &NetworkScanInfo<'a>|
                infos@.contains(*info) ==> #[trigger] f.requires((state, info)),
            states.len() == i + 1,
            states[0] == begin,
            states.last() == state,
            forall|j: int| 0 <= j < i ==> #[trigger] took(f, infos@, states, j),
        decreases infos@.len() - i,
    {
        assert(infos@.contains(infos@[i as int]));
        let ghost before = states;
        let (after, result) = f(state, &infos[i]);
        proof {
            states = states.push(after);
            assert forall|j: int| 0 <= j < i implies #[trigger] took(f, infos@, states, j) by {
                assert(took(f, infos@, before, j));
            }
        }
        match result {
            Ok(taken) => {
                assert(result == Ok::<(), Error>(taken));
                assert(took(f, infos@, states, i as int));
                state = after;
            },
            Err(err) => {
                let failed = (after, Err(NetCtlError::from(err)));
                assert(states.last() == failed.0 && is_reported(f, infos@, states, failed.1));
                return failed;
            },
        }
        i += 1;
    }
    let done = (state, Ok(()));
    assert(states.last() == done.0 && is_reported(f, infos@, states, done.1));
    done
}

/// What a found network shows is, field by field, what is known of it.
pub proof fn law_info_shows_its_fields(info: NetworkScanInfo<'_>)
    ensures
        match info {
            NetworkScanInfo::Wifi { security, ssid, bssid, channel, band, rssi } => {
                &&& info@ is Wifi
                &&& info@->security == security && info@->ssid == ssid@ && info@->bssid == bssid@
                &&& info@->Wifi_channel == channel && info@->band == band && info@->Wifi_rssi == rssi
            },
            NetworkScanInfo::Thread { pan_id, ext_pan_id, network_name, channel, version, ext_addr, rssi, lqi } => {
                &&& info@ is Thread
                &&& info@->pan_id == pan_id && info@->ext_pan_id == ext_pan_id && info@->network_name == network_name@
                &&& info@->Thread_channel == channel && info@->version == version && info@->ext_addr == ext_addr@
                &&& info@->Thread_rssi == rssi && info@->lqi == lqi
            },
        },
{
}

/// A list of networks shows each of them, in its place, and a scan is restricted to the network
/// that it is asked for, or to none.
pub proof fn law_lists_show_each_network(infos: Seq<NetworkScanInfo<'_>>, i: int, network: &[u8])
    ensures
        all_shown(infos).len() == infos.len(),
        0 <= i < infos.len() ==> all_shown(infos)[i] == infos[i]@,
        wanted(Some(network)) == Some(network@),
        wanted(None) is None,
{
}

/// No way in which a network can be secured is known of where nothing is known.
pub proof fn law_unknown_security_is_empty()
    ensures
        ({
            let unknown = WiFiSecurityBitmap::unknown();
            !(unknown.unencrypted || unknown.wep || unknown.wpa_personal || unknown.wpa_2_personal
                || unknown.wpa_3_personal)
        }),
{
}

/// A report that ends well has called back once for every network, in order, and each was taken. One
/// that fails has called back up to a network that was refused, all before it were taken, and it
/// fails with the very error of the refusal. Each call gets the state that the last one left.
pub proof fn law_every_network_is_reported<'a, S, F>(
    f: F,
    infos: Seq<NetworkScanInfo<'a>>,
    states: Seq<S>,
    result: Result<(), NetCtlError>,
    j: int,
) where F: Fn(S, &NetworkScanInfo<'a>) -> (S, Result<(), Error>)
    requires
        is_reported(f, infos, states, result),
    ensures
        result is Ok ==> states.len() == infos.len() + 1,
        result is Ok && 0 <= j < infos.len() ==> f.ensures((states[j], &infos[j]), (states[j + 1], Ok(()))),
        result is Err ==> 2 <= states.len() <= infos.len() + 1,
        result is Err && 0 <= j < states.len() - 2 ==> f.ensures((states[j], &infos[j]), (states[j + 1], Ok(()))),
        result matches Err(err) ==> (err matches NetCtlError::Other(refusal) && f.ensures(
            (states[states.len() - 2], &infos[states.len() - 2]),
            (states[states.len() - 1], Err(refusal)),
        )),
{
    if 0 <= j < states.len() - 1 && (result is Ok || j < states.len() - 2) {
        assert(took(f, infos, states, j));
    }
}

} // verus!
