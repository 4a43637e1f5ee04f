//! The configuration of a network interface: how it is read, remembered and shown.

use vstd::prelude::*;
use vstd::utf8::encode_utf8;

use crate::bounded::{netif_name_as_str, netif_name_new, netif_name_of, netif_name_try_from};
use crate::bytes::{bytes_eq, law_le_bytes_add_up, le_bytes, str_eq, to_le_bytes};
use crate::error::{net_error, to_net_error, Error, EspError};

verus! {

/// How long to wait for a change of the IP configuration before looking anyway.
pub const TIMEOUT_PERIOD_SECS: u8 = 5;

/// The longest name of a network interface, in bytes.
pub const MAX_NETIF_NAME_LEN: usize = 6;

/// An IPv4 address.
#[derive(Debug, Copy, Clone, PartialEq, Eq, Hash)]
pub struct Ipv4Addr(pub [u8; 4]);

/// An IPv6 address.
#[derive(Debug, Copy, Clone, PartialEq, Eq, Hash)]
pub struct Ipv6Addr(pub [u8; 16]);

/// The kind of a network interface.
#[derive(Debug, Copy, Clone, PartialEq, Eq, Structural)]
pub enum InterfaceTypeEnum {
    Unspecified,
    WiFi,
    Ethernet,
    Cellular,
    Thread,
}

impl Ipv4Addr {
    /// The address `0.0.0.0`.
    pub open spec fn unspecified() -> Self {
        Ipv4Addr([0u8, 0, 0, 0])
    }

    /// The address `0.0.0.0`.
    pub fn any() -> (r: Self)
        ensures
            r == Self::unspecified(),
    {
        Ipv4Addr([0u8, 0, 0, 0])
    }

    /// Whether this is `0.0.0.0`.
    pub fn is_unspecified(&self) -> (r: bool)
        ensures
            r == (*self == Self::unspecified()),
    {
        self.same(&Self::any())
    }

    /// Compares two addresses.
    pub fn same(&self, other: &Self) -> (r: bool)
        ensures
            r == (*self == *other),
    {
        let r = bytes_eq(self.0.as_slice(), other.0.as_slice());
        proof {
            if r {
                assert(self.0 =~= other.0);
            }
        }
        r
    }
}

impl Ipv6Addr {
    /// The address `::`.
    pub open spec fn unspecified() -> Self {
        Ipv6Addr([0u8, 0, 0, 0, 0, 0, 0, 0, 0, 0, 0, 0, 0, 0, 0, 0])
    }

    /// The address `::`.
    pub fn any() -> (r: Self)
        ensures
            r == Self::unspecified(),
    {
        Ipv6Addr([0u8, 0, 0, 0, 0, 0, 0, 0, 0, 0, 0, 0, 0, 0, 0, 0])
    }

    /// Whether this is `::`.
    pub fn is_unspecified(&self) -> (r: bool)
        ensures
            r == (*self == Self::unspecified()),
    {
        self.same(&Self::any())
    }

    /// Compares two addresses.
    pub fn same(&self, other: &Self) -> (r: bool)
        ensures
            r == (*self == *other),
    {
        let r = bytes_eq(self.0.as_slice(), other.0.as_slice());
        proof {
            if r {
                assert(self.0 =~= other.0);
            }
        }
        r
    }

    /// The address whose four words, each stored with the least significant byte first, are
    /// the given ones.
    pub open spec fn of_words(words: Seq<u32>) -> Self {
        let (w0, w1, w2, w3) = (le_bytes(words[0]), le_bytes(words[1]), le_bytes(words[2]), le_bytes(words[3]));
        Ipv6Addr(
            [
                w0[0],
                w0[1],
                w0[2],
                w0[3],
                w1[0],
                w1[1],
                w1[2],
                w1[3],
                w2[0],
                w2[1],
                w2[2],
                w2[3],
                w3[0],
                w3[1],
                w3[2],
                w3[3],
            ],
        )
    }

    /// The address whose four words, each stored with the least significant byte first, are
    /// the given ones.
    pub fn from_words(words: &[u32; 4]) -> (r: Self)
        ensures
            r == Self::of_words(words@),
    {
        let w0 = to_le_bytes(words[0]);
        let w1 = to_le_bytes(words[1]);
        let w2 = to_le_bytes(words[2]);
        let w3 = to_le_bytes(words[3]);
        Ipv6Addr(
            [
                w0[0],
                w0[1],
                w0[2],
                w0[3],
                w1[0],
                w1[1],
                w1[2],
                w1[3],
                w2[0],
                w2[1],
                w2[2],
                w2[3],
                w3[0],
                w3[1],
                w3[2],
                w3[3],
            ],
        )
    }
}

/// What a network interface shows of itself.
#[derive(Debug, Copy, Clone)]
pub struct NetifInfo<'a> {
    pub name: &'a str,
    pub operational: bool,
    pub offprem_svc_reachable_ipv4: Option<bool>,
    pub offprem_svc_reachable_ipv6: Option<bool>,
    pub hw_addr: &'a [u8],
    pub ipv4_addrs: &'a [Ipv4Addr],
    pub ipv6_addrs: &'a [Ipv6Addr],
    pub netif_type: InterfaceTypeEnum,
    pub netif_index: u32,
}

/// The contents of a `NetifInfo`.
#[verifier::ext_equal]
pub struct NetifShown {
    pub name: Seq<char>,
    pub operational: bool,
    pub offprem_svc_reachable_ipv4: Option<bool>,
    pub offprem_svc_reachable_ipv6: Option<bool>,
    pub hw_addr: Seq<u8>,
    pub ipv4_addrs: Seq<Ipv4Addr>,
    pub ipv6_addrs: Seq<Ipv6Addr>,
    pub netif_type: InterfaceTypeEnum,
    pub netif_index: u32,
}

impl<'a> View for NetifInfo<'a> {
    type V = NetifShown;

    open spec fn view(&self) -> NetifShown {
        NetifShown {
            name: self.name@,
            operational: self.operational,
            offprem_svc_reachable_ipv4: self.offprem_svc_reachable_ipv4,
            offprem_svc_reachable_ipv6: self.offprem_svc_reachable_ipv6,
            hw_addr: self.hw_addr@,
            ipv4_addrs: self.ipv4_addrs@,
            ipv6_addrs: self.ipv6_addrs@,
            netif_type: self.netif_type,
            netif_index: self.netif_index,
        }
    }
}

/// What ESP-IDF answers when it is asked about a network interface.
#[derive(Debug)]
pub struct NetifReadings {
    pub ip_info: Result<Ipv4Addr, EspError>,
    /// The words of the link-local IPv6 address, as ESP-IDF stores them.
    pub ip6_linklocal: Result<[u32; 4], EspError>,
    pub mac: Result<[u8; 6], EspError>,
    pub name: heapless::String<MAX_NETIF_NAME_LEN>,
    pub is_up: Result<bool, EspError>,
    pub index: u32,
}

impl NetifReadings {
    /// What the interface shows. Its MAC is padded with zeros, it has one address of each
    /// family, where `::` stands for a missing link-local one, and its kind is not known.
    ///
    /// The interface cannot be read where ESP-IDF does not know its address, its MAC or its
    /// state, in this order.
    pub open spec fn shown(self) -> Result<NetifShown, EspError> {
        match (self.ip_info, self.mac, self.is_up) {
            (Err(err), _, _) => Err(err),
            (Ok(_), Err(err), _) => Err(err),
            (Ok(_), Ok(_), Err(err)) => Err(err),
            (Ok(ipv4), Ok(mac), Ok(operational)) => Ok(
                NetifShown {
                    name: netif_name_of(self.name),
                    operational,
                    offprem_svc_reachable_ipv4: None,
                    offprem_svc_reachable_ipv6: None,
                    hw_addr: mac@ + seq![0u8, 0u8],
                    ipv4_addrs: seq![ipv4],
                    ipv6_addrs: seq![
                        match self.ip6_linklocal {
                            Ok(words) => Ipv6Addr::of_words(words@),
                            Err(_) => Ipv6Addr::unspecified(),
                        },
                    ],
                    netif_type: InterfaceTypeEnum::Unspecified,
                    netif_index: self.index,
                },
            ),
        }
    }
}

/// The configuration of a network interface.
#[derive(Debug)]
struct NetifConf<'a> {
    name: &'a str,
    operational: bool,
    hw_addr: [u8; 8],
    ipv4_addrs: [Ipv4Addr; 1],
    ipv6_addrs: [Ipv6Addr; 1],
    netif_index: u32,
}

impl<'a> NetifConf<'a> {
    /// Reads the configuration.
    fn read(netif: &'a NetifReadings) -> (r: Result<Self, EspError>)
        ensures
            match r {
                Ok(conf) => netif.shown() == Ok::<NetifShown, EspError>(conf.shown()),
                Err(err) => netif.shown() == Err::<NetifShown, EspError>(err),
            },
            r is Ok ==> r->Ok_0.hw_addr@.len() == 8 && encode_utf8(r->Ok_0.name@).len() <= MAX_NETIF_NAME_LEN,
    {
        let ipv4: Ipv4Addr = match netif.ip_info {
            Ok(ipv4) => ipv4,
            Err(err) => {
                return Err(err);
            },
        };
        let ipv6: Ipv6Addr = match &netif.ip6_linklocal {
            Ok(words) => Ipv6Addr::from_words(words),
            Err(_) => Ipv6Addr::any(),
        };
        let mac: [u8; 6] = match netif.mac {
            Ok(mac) => mac,
            Err(err) => {
                return Err(err);
            },
        };
        let hw_addr: [u8; 8] = [mac[0], mac[1], mac[2], mac[3], mac[4], mac[5], 0, 0];
        let operational: bool = match netif.is_up {
            Ok(operational) => operational,
            Err(err) => {
                return Err(err);
            },
        };
        let conf = NetifConf {
            name: netif_name_as_str(&netif.name),
            operational,
            hw_addr,
            ipv4_addrs: [ipv4],
            ipv6_addrs: [ipv6],
            netif_index: netif.index,
        };
        assert(hw_addr@ =~= mac@ + seq![0u8, 0u8]);
        assert(conf.ipv4_addrs@ =~= seq![ipv4]);
        assert(conf.ipv6_addrs@ =~= seq![ipv6]);
        Ok(conf)
    }

    spec fn shown(self) -> NetifShown {
        NetifShown {
            name: self.name@,
            operational: self.operational,
            offprem_svc_reachable_ipv4: None,
            offprem_svc_reachable_ipv6: None,
            hw_addr: self.hw_addr@,
            ipv4_addrs: self.ipv4_addrs@,
            ipv6_addrs: self.ipv6_addrs@,
            netif_type: InterfaceTypeEnum::Unspecified,
            netif_index: self.netif_index,
        }
    }

    /// What the interface shows.
    fn info(&self) -> (r: NetifInfo<'_>)
        ensures
            r@ == self.shown(),
    {
        NetifInfo {
            name: self.name,
            operational: self.operational,
            offprem_svc_reachable_ipv4: None,
            offprem_svc_reachable_ipv6: None,
            hw_addr: self.hw_addr.as_slice(),
            ipv4_addrs: self.ipv4_addrs.as_slice(),
            ipv6_addrs: self.ipv6_addrs.as_slice(),
            netif_type: InterfaceTypeEnum::Unspecified,
            netif_index: self.netif_index,
        }
    }
}

/// A network interface, as it was found.
#[derive(Debug)]
pub struct EspMatterNetif {
    netif: NetifReadings,
}

impl EspMatterNetif {
    /// What was read of the interface.
    pub closed spec fn readings(self) -> NetifReadings {
        self.netif
    }

    /// Create a new `EspMatterNetif` instance
    pub fn new(netif: NetifReadings) -> (r: Self)
        ensures
            r.readings() == netif,
    {
        EspMatterNetif { netif }
    }

    /// Get the network interface configuration
    pub fn get_netif_conf<R, F>(netif: &NetifReadings, f: F) -> (r: Result<R, EspError>)
        where F: FnOnce(&NetifInfo<'_>) -> Result<R, EspError>
        requires
            forall|info: &NetifInfo<'_>|
                netif.shown() == Ok::<NetifShown, EspError>(info@) ==> #[trigger] f.requires((info,)),
        ensures
            match netif.shown() {
                Err(err) => r == Err::<R, EspError>(err),
                Ok(shown) => exists|info: &NetifInfo<'_>| info@ == shown && #[trigger] f.ensures((info,), r),
            },
    {
        match NetifConf::read(netif) {
            Err(err) => Err(err),
            Ok(conf) => f(&conf.info()),
        }
    }

    /// Get the configuration of this network interface
    pub fn get_conf<R, F>(&self, f: F) -> (r: Result<R, EspError>) where F: FnOnce(&NetifInfo<'_>) -> Result<R, EspError>
        requires
            forall|info: &NetifInfo<'_>|
                self.readings().shown() == Ok::<NetifShown, EspError>(info@) ==> #[trigger] f.requires((info,)),
        ensures
            match self.readings().shown() {
                Err(err) => r == Err::<R, EspError>(err),
                Ok(shown) => exists|info: &NetifInfo<'_>| info@ == shown && #[trigger] f.ensures((info,), r),
            },
    {
        Self::get_netif_conf(&self.netif, f)
    }

    /// Show this network interface
    pub fn netifs<F>(&self, f: F) -> (r: Result<(), Error>) where F: FnOnce(&NetifInfo<'_>) -> Result<(), Error>
        requires
            forall|info: &NetifInfo<'_>|
                self.readings().shown() == Ok::<NetifShown, EspError>(info@) ==> #[trigger] f.requires((info,)),
        ensures
            match self.readings().shown() {
                Err(_) => r == Err::<(), Error>(net_error()),
                Ok(shown) => exists|info: &NetifInfo<'_>| info@ == shown && #[trigger] f.ensures((info,), r),
            },
    {
        match NetifConf::read(&self.netif) {
            Err(err) => Err(to_net_error(err)),
            Ok(conf) => f(&conf.info()),
        }
    }
}

/// What was last seen of a network interface.
#[derive(Debug)]
pub struct NetifInfoOwned {
    name: heapless::String<MAX_NETIF_NAME_LEN>,
    operational: bool,
    hw_addr: [u8; 8],
    ipv4_addr: Ipv4Addr,
    ipv6_addr: Ipv6Addr,
    netif_type: InterfaceTypeEnum,
    netif_index: u32,
}

/// The contents of a `NetifInfoOwned`.
#[verifier::ext_equal]
pub struct NetifModel {
    pub name: Seq<char>,
    pub operational: bool,
    pub hw_addr: Seq<u8>,
    pub ipv4_addr: Ipv4Addr,
    pub ipv6_addr: Ipv6Addr,
    pub netif_type: InterfaceTypeEnum,
    pub netif_index: u32,
}

impl View for NetifInfoOwned {
    type V = NetifModel;

    closed spec fn view(&self) -> NetifModel {
        NetifModel {
            name: netif_name_of(self.name),
            operational: self.operational,
            hw_addr: self.hw_addr@,
            ipv4_addr: self.ipv4_addr,
            ipv6_addr: self.ipv6_addr,
            netif_type: self.netif_type,
            netif_index: self.netif_index,
        }
    }
}

/// The first of the addresses, or the unspecified one.
pub open spec fn first_ipv4(addrs: Seq<Ipv4Addr>) -> Ipv4Addr {
    if addrs.len() == 0 {
        Ipv4Addr::unspecified()
    } else {
        addrs[0]
    }
}

/// The first of the addresses, or the unspecified one.
pub open spec fn first_ipv6(addrs: Seq<Ipv6Addr>) -> Ipv6Addr {
    if addrs.len() == 0 {
        Ipv6Addr::unspecified()
    } else {
        addrs[0]
    }
}

impl NetifModel {
    /// Nothing was seen yet.
    pub open spec fn unseen() -> NetifModel {
        NetifModel {
            name: seq![],
            operational: false,
            hw_addr: seq![0u8, 0, 0, 0, 0, 0, 0, 0],
            ipv4_addr: Ipv4Addr::unspecified(),
            ipv6_addr: Ipv6Addr::unspecified(),
            netif_type: InterfaceTypeEnum::WiFi,
            netif_index: 0,
        }
    }

    /// Whether the interface is up and has an IPv6 address.
    pub open spec fn is_operational_v6(self) -> bool {
        self.operational && self.ipv6_addr != Ipv6Addr::unspecified()
    }

    /// Whether the interface is up and has an address of each family.
    pub open spec fn is_operational(self) -> bool {
        self.is_operational_v6() && self.ipv4_addr != Ipv4Addr::unspecified()
    }

    /// What is seen of an interface that shows itself so. It is operational only if its link
    /// is connected.
    pub open spec fn seen(connected: bool, shown: NetifShown) -> NetifModel {
        NetifModel {
            name: shown.name,
            operational: shown.operational && connected,
            hw_addr: shown.hw_addr,
            ipv4_addr: first_ipv4(shown.ipv4_addrs),
            ipv6_addr: first_ipv6(shown.ipv6_addrs),
            netif_type: shown.netif_type,
            netif_index: shown.netif_index,
        }
    }

    /// Whether the interface shows a change. While its link is not connected, its state does
    /// not count.
    pub open spec fn is_changed(self, connected: bool, shown: NetifShown) -> bool {
        let seen = NetifModel::seen(connected, shown);
        ||| connected && self.operational != shown.operational
        ||| self != (NetifModel { operational: self.operational, ..seen })
    }

    /// What is remembered once the interface has shown itself so.
    pub open spec fn load(self, connected: bool, shown: NetifShown) -> NetifModel {
        if self.is_changed(connected, shown) {
            NetifModel::seen(connected, shown)
        } else {
            self
        }
    }

    /// How the remembered interface is shown. Unspecified addresses are left out.
    pub open spec fn shown(self) -> NetifShown {
        NetifShown {
            name: self.name,
            operational: self.operational,
            offprem_svc_reachable_ipv4: None,
            offprem_svc_reachable_ipv6: None,
            hw_addr: self.hw_addr,
            ipv4_addrs: if self.ipv4_addr == Ipv4Addr::unspecified() {
                seq![]
            } else {
                seq![self.ipv4_addr]
            },
            ipv6_addrs: if self.ipv6_addr == Ipv6Addr::unspecified() {
                seq![]
            } else {
                seq![self.ipv6_addr]
            },
            netif_type: self.netif_type,
            netif_index: self.netif_index,
        }
    }
}

impl NetifInfoOwned {
    /// Nothing was seen yet.
    pub fn new() -> (r: Self)
        ensures
            r@ == NetifModel::unseen(),
    {
        let hw_addr: [u8; 8] = [0u8, 0, 0, 0, 0, 0, 0, 0];
        assert(hw_addr@ =~= seq![0u8, 0, 0, 0, 0, 0, 0, 0]);
        NetifInfoOwned {
            name: netif_name_new(),
            operational: false,
            hw_addr,
            ipv4_addr: Ipv4Addr::any(),
            ipv6_addr: Ipv6Addr::any(),
            netif_type: InterfaceTypeEnum::WiFi,
            netif_index: 0,
        }
    }

    /// Whether the interface is up and has an address of each family.
    pub fn is_operational(&self) -> (r: bool)
        ensures
            r == self@.is_operational(),
    {
        self.operational && !self.ipv4_addr.is_unspecified() && !self.ipv6_addr.is_unspecified()
    }

    /// Whether the interface is up and has an IPv6 address.
    pub fn is_operational_v6(&self) -> (r: bool)
        ensures
            r == self@.is_operational_v6(),
    {
        self.operational && !self.ipv6_addr.is_unspecified()
    }

    /// Remember what was read of an interface of the given kind, and tell whether it changed.
    pub fn load(&mut self, connected: bool, netif: &NetifReadings, netif_type: InterfaceTypeEnum) -> (r: Result<
        bool,
        EspError,
    >)
        ensures
            match netif.shown() {
                Err(err) => final(self)@ == old(self)@ && r == Err::<bool, EspError>(err),
                Ok(shown) => {
                    let shown = NetifShown { netif_type, ..shown };
                    &&& final(self)@ == old(self)@.load(connected, shown)
                    &&& r == Ok::<bool, EspError>(old(self)@.is_changed(connected, shown))
                },
            },
    {
        match NetifConf::read(netif) {
            Err(err) => Err(err),
            Ok(conf) => {
                let info = NetifInfo { netif_type, ..conf.info() };
                Ok(self.load_from_info(connected, &info))
            },
        }
    }

    /// Remember what an interface shows, and tell whether it changed.
    pub fn load_from_info(&mut self, connected: bool, info: &NetifInfo<'_>) -> (r: bool)
        requires
            encode_utf8(info.name@).len() <= MAX_NETIF_NAME_LEN,
            info.hw_addr@.len() == 8,
        ensures
            final(self)@ == old(self)@.load(connected, info@),
            r == old(self)@.is_changed(connected, info@),
    {
        let ipv4_addr: Ipv4Addr = if info.ipv4_addrs.len() == 0 {
            Ipv4Addr::any()
        } else {
            info.ipv4_addrs[0]
        };
        let ipv6_addr: Ipv6Addr = if info.ipv6_addrs.len() == 0 {
            Ipv6Addr::any()
        } else {
            info.ipv6_addrs[0]
        };

        let changed = !str_eq(netif_name_as_str(&self.name), info.name) || self.operational != info.operational
            && connected || !bytes_eq(self.hw_addr.as_slice(), info.hw_addr) || !self.ipv4_addr.same(&ipv4_addr)
            || !self.ipv6_addr.same(&ipv6_addr) || self.netif_type != info.netif_type || self.netif_index
            != info.netif_index;

        if changed {
            let hw_addr = info.hw_addr;
            if let Ok(name) = netif_name_try_from(info.name) {
                self.name = name;
            }
            self.operational = info.operational && connected;
            self.hw_addr = [
                hw_addr[0],
                hw_addr[1],
                hw_addr[2],
                hw_addr[3],
                hw_addr[4],
                hw_addr[5],
                hw_addr[6],
                hw_addr[7],
            ];
            self.ipv4_addr = ipv4_addr;
            self.ipv6_addr = ipv6_addr;
            self.netif_type = info.netif_type;
            self.netif_index = info.netif_index;
            assert(self.hw_addr@ =~= info.hw_addr@);
        }
        changed
    }

    /// Show the remembered interface.
    pub fn as_ref<F>(&self, f: F) -> (r: Result<(), Error>) where F: FnOnce(&NetifInfo<'_>) -> Result<(), Error>
        requires
            forall|info: &NetifInfo<'_>| info@ == self@.shown() ==> #[trigger] f.requires((info,)),
        ensures
            exists|info: &NetifInfo<'_>| info@ == self@.shown() && #[trigger] f.ensures((info,), r),
    {
        let ipv4_addrs: [Ipv4Addr; 1] = [self.ipv4_addr];
        let ipv6_addrs: [Ipv6Addr; 1] = [self.ipv6_addr];
        let no_ipv4_addrs: [Ipv4Addr; 0] = [];
        let no_ipv6_addrs: [Ipv6Addr; 0] = [];

        let info = NetifInfo {
            name: netif_name_as_str(&self.name),
            operational: self.operational,
            hw_addr: self.hw_addr.as_slice(),
            ipv4_addrs: if self.ipv4_addr.is_unspecified() {
                no_ipv4_addrs.as_slice()
            } else {
                ipv4_addrs.as_slice()
            },
            ipv6_addrs: if self.ipv6_addr.is_unspecified() {
                no_ipv6_addrs.as_slice()
            } else {
                ipv6_addrs.as_slice()
            },
            netif_type: self.netif_type,
            offprem_svc_reachable_ipv4: None,
            offprem_svc_reachable_ipv6: None,
            netif_index: self.netif_index,
        };
        assert(info@ =~= self@.shown());
        f(&info)
    }
}

/// A change is told exactly where what is remembered changes.
pub proof fn law_change_is_told(m: NetifModel, connected: bool, shown: NetifShown)
    ensures
        m.is_changed(connected, shown) <==> m.load(connected, shown) != m,
{
}

/// Seeing the same thing twice is no change.
pub proof fn law_load_is_idempotent(m: NetifModel, connected: bool, shown: NetifShown)
    ensures
        !m.load(connected, shown).is_changed(connected, shown),
        m.load(connected, shown).load(connected, shown) == m.load(connected, shown),
{
}

/// What is remembered of a connected interface is what it shows, whatever was remembered
/// before. Of one that is not connected, everything is remembered but its state, which stays
/// as it was where nothing else changed and counts as down where something did.
pub proof fn law_load_is_exact(m: NetifModel, connected: bool, shown: NetifShown)
    ensures
        connected ==> m.load(connected, shown) == NetifModel::seen(connected, shown),
        (NetifModel { operational: false, ..m.load(connected, shown) }) == (NetifModel {
            operational: false,
            ..NetifModel::seen(connected, shown)
        }),
        m.load(connected, shown).operational ==> (m.operational || connected && shown.operational),
{
}

/// What is shown of a remembered interface and what is remembered are the same: loading it
/// back is no change.
pub proof fn law_show_then_load(m: NetifModel)
    ensures
        !m.is_changed(true, m.shown()),
{
}

/// An interface with an address of each family has an IPv6 address, and shows both.
pub proof fn law_operational_shows_addresses(m: NetifModel)
    requires
        m.is_operational(),
    ensures
        m.is_operational_v6(),
        m.shown().operational,
        m.shown().ipv4_addrs == seq![m.ipv4_addr],
        m.shown().ipv6_addrs == seq![m.ipv6_addr],
{
}

/// An interface that was never seen up is not operational.
pub proof fn law_unseen_is_not_operational()
    ensures
        !NetifModel::unseen().is_operational(),
        !NetifModel::unseen().is_operational_v6(),
{
}

/// An IPv4 address is unspecified where all its bytes are zero, and only there.
pub proof fn law_unspecified_ipv4(addr: Ipv4Addr)
    ensures
        addr != Ipv4Addr::unspecified() <==> exists|i: int| 0 <= i < 4 && #[trigger] addr.0@[i] != 0,
{
    let zero = Ipv4Addr::unspecified();
    assert(zero.0@ =~= seq![0u8, 0, 0, 0]);
    if forall|i: int| 0 <= i < 4 ==> #[trigger] addr.0@[i] == 0 {
        assert(addr.0 =~= zero.0);
    }
}

/// An IPv6 address is unspecified where all its bytes are zero, and only there.
pub proof fn law_unspecified_ipv6(addr: Ipv6Addr)
    ensures
        addr != Ipv6Addr::unspecified() <==> exists|i: int| 0 <= i < 16 && #[trigger] addr.0@[i] != 0,
{
    let zero = Ipv6Addr::unspecified();
    assert(zero.0@ =~= seq![0u8, 0, 0, 0, 0, 0, 0, 0, 0, 0, 0, 0, 0, 0, 0, 0]);
    if forall|i: int| 0 <= i < 16 ==> #[trigger] addr.0@[i] == 0 {
        assert(addr.0 =~= zero.0);
    }
}

/// The bytes of an address that is made of four words are those of the words, one after the other,
/// and those of a word add up to it, the least significant one first.
pub proof fn law_words_make_an_address(words: Seq<u32>, k: int)
    requires
        words.len() == 4,
        0 <= k < 4,
    ensures
        ({
            let bytes = Ipv6Addr::of_words(words).0@;
            words[k] == bytes[4 * k] + 0x100 * bytes[4 * k + 1] + 0x1_0000 * bytes[4 * k + 2] + 0x100_0000 * bytes[4 * k
                + 3]
        }),
{
    law_le_bytes_add_up(words[k]);
}

/// An interface shows what ESP-IDF answered: its name, state and index, its MAC with two zeros
/// behind it, its IPv4 address and its link-local IPv6 address, or `::` without one. It claims
/// nothing of its kind or of what it reaches. The IPv4 address, the MAC and the state are needed,
/// and the first failure among them, in this order, is the one that is told.
pub proof fn law_interface_shows_what_was_read(netif: NetifReadings)
    ensures
        netif.ip_info matches Err(err) ==> netif.shown() == Err::<NetifShown, EspError>(err),
        netif.ip_info is Ok ==> (netif.mac matches Err(err) ==> netif.shown() == Err::<NetifShown, EspError>(err)),
        netif.ip_info is Ok && netif.mac is Ok ==> (netif.is_up matches Err(err) ==> netif.shown() == Err::<
            NetifShown,
            EspError,
        >(err)),
        netif.ip_info is Ok && netif.mac is Ok && netif.is_up is Ok ==> (netif.shown() matches Ok(shown) && {
            &&& shown.name == netif_name_of(netif.name)
            &&& shown.operational == netif.is_up->Ok_0
            &&& shown.netif_index == netif.index
            &&& shown.hw_addr.len() == 8
            &&& forall|i: int| 0 <= i < 6 ==> #[trigger] shown.hw_addr[i] == netif.mac->Ok_0@[i]
            &&& shown.hw_addr[6] == 0 && shown.hw_addr[7] == 0
            &&& shown.ipv4_addrs.len() == 1 && shown.ipv4_addrs[0] == netif.ip_info->Ok_0
            &&& shown.ipv6_addrs.len() == 1
            &&& netif.ip6_linklocal matches Ok(words) ==> shown.ipv6_addrs[0] == Ipv6Addr::of_words(words@)
            &&& netif.ip6_linklocal is Err ==> forall|i: int| 0 <= i < 16 ==> #[trigger] shown.ipv6_addrs[0].0@[i] == 0
            &&& shown.netif_type is Unspecified
            &&& shown.offprem_svc_reachable_ipv4 is None && shown.offprem_svc_reachable_ipv6 is None
        }),
{
    law_unspecified_ipv6(Ipv6Addr::unspecified());
}

/// Of a connected interface, what it shows is remembered, field by field; of several addresses of a
/// family the first one, and of none the unspecified one.
pub proof fn law_connected_interface_is_remembered(m: NetifModel, shown: NetifShown)
    ensures
        ({
            let after = m.load(true, shown);
            &&& after.name == shown.name
            &&& after.operational == shown.operational
            &&& after.hw_addr == shown.hw_addr
            &&& after.netif_type == shown.netif_type
            &&& after.netif_index == shown.netif_index
            &&& shown.ipv4_addrs.len() > 0 ==> after.ipv4_addr == shown.ipv4_addrs[0]
            &&& shown.ipv6_addrs.len() > 0 ==> after.ipv6_addr == shown.ipv6_addrs[0]
            &&& shown.ipv4_addrs.len() == 0 ==> forall|i: int| 0 <= i < 4 ==> #[trigger] after.ipv4_addr.0@[i] == 0
            &&& shown.ipv6_addrs.len() == 0 ==> forall|i: int| 0 <= i < 16 ==> #[trigger] after.ipv6_addr.0@[i] == 0
        }),
{
    law_unspecified_ipv4(Ipv4Addr::unspecified());
    law_unspecified_ipv6(Ipv6Addr::unspecified());
}

/// Of an interface that is not connected, everything is remembered as of a connected one but its
/// state. Where nothing else has changed the state stays as it was, and otherwise it is down.
pub proof fn law_unconnected_interface_is_down(m: NetifModel, shown: NetifShown)
    ensures
        ({
            let after = m.load(false, shown);
            let same = m == (NetifModel { operational: m.operational, ..m.load(true, shown) });
            &&& after == (NetifModel { operational: after.operational, ..m.load(true, shown) })
            &&& same ==> after.operational == m.operational
            &&& !same ==> !after.operational
        }),
{
}

/// A remembered interface is shown with every field as remembered, with an address of a family
/// exactly where this is not the unspecified one.
pub proof fn law_remembered_interface_is_shown(m: NetifModel)
    ensures
        ({
            let shown = m.shown();
            &&& shown.name == m.name && shown.operational == m.operational && shown.hw_addr == m.hw_addr
            &&& shown.netif_type == m.netif_type && shown.netif_index == m.netif_index
            &&& shown.offprem_svc_reachable_ipv4 is None && shown.offprem_svc_reachable_ipv6 is None
            &&& shown.ipv4_addrs.len() <= 1 && shown.ipv6_addrs.len() <= 1
            &&& shown.ipv4_addrs.len() == 1 <==> exists|i: int| 0 <= i < 4 && #[trigger] m.ipv4_addr.0@[i] != 0
            &&& shown.ipv6_addrs.len() == 1 <==> exists|i: int| 0 <= i < 16 && #[trigger] m.ipv6_addr.0@[i] != 0
            &&& shown.ipv4_addrs.len() == 1 ==> shown.ipv4_addrs[0] == m.ipv4_addr
            &&& shown.ipv6_addrs.len() == 1 ==> shown.ipv6_addrs[0] == m.ipv6_addr
        }),
{
    law_unspecified_ipv4(m.ipv4_addr);
    law_unspecified_ipv6(m.ipv6_addr);
}

/// An interface is operational where it is up and has a nonzero address of each family; for one of a
/// Thread network an IPv6 address is enough.
pub proof fn law_operational_interfaces(m: NetifModel)
    ensures
        ({
            let has_ipv4 = exists|i: int| 0 <= i < 4 && #[trigger] m.ipv4_addr.0@[i] != 0;
            let has_ipv6 = exists|i: int| 0 <= i < 16 && #[trigger] m.ipv6_addr.0@[i] != 0;
            &&& m.is_operational_v6() <==> m.operational && has_ipv6
            &&& m.is_operational() <==> m.operational && has_ipv4 && has_ipv6
        }),
{
    law_unspecified_ipv4(m.ipv4_addr);
    law_unspecified_ipv6(m.ipv6_addr);
}

/// Of an interface that was never seen nothing is known: it has no name, no hardware address and no
/// IP address, and is down.
pub proof fn law_unseen_interface_is_blank()
    ensures
        ({
            let unseen = NetifModel::unseen();
            &&& unseen.name.len() == 0 && !unseen.operational && unseen.netif_index == 0
            &&& unseen.hw_addr.len() == 8 && forall|i: int| 0 <= i < 8 ==> #[trigger] unseen.hw_addr[i] == 0
            &&& unseen.shown().ipv4_addrs.len() == 0 && unseen.shown().ipv6_addrs.len() == 0
        }),
{
}

/// What an interface shows of itself is, field by field, what is known of it.
pub proof fn law_info_shows_its_fields(info: NetifInfo<'_>)
    ensures
        info@.name == info.name@ && info@.operational == info.operational && info@.hw_addr == info.hw_addr@,
        info@.ipv4_addrs == info.ipv4_addrs@ && info@.ipv6_addrs == info.ipv6_addrs@,
        info@.netif_type == info.netif_type && info@.netif_index == info.netif_index,
        info@.offprem_svc_reachable_ipv4 == info.offprem_svc_reachable_ipv4,
        info@.offprem_svc_reachable_ipv6 == info.offprem_svc_reachable_ipv6,
{
}

} // verus!
