//! The cluster that tells of the Wi-Fi connection.

use vstd::prelude::*;

use crate::error::{Error, ErrorCode};

verus! {

/// The identifier of the cluster.
pub const ID: u32 = 0x0036;

/// The attribute that lists the attributes of a cluster.
pub const ATTRIBUTE_LIST_ID: u16 = 0xFFFB;

/// The attribute that tells the features of a cluster.
pub const FEATURE_MAP_ID: u16 = 0xFFFC;

/// The attributes of the cluster.
#[derive(Debug, Copy, Clone, Eq, PartialEq, Structural)]
pub enum Attributes {
    Bssid,
    SecurityType,
    WifiVersion,
    ChannelNumber,
    Rssi,
    BeaconLostCount,
    BeaconRxCount,
    PacketMulticastRxCount,
    PacketMulticastTxCount,
    PacketUnicastRxCount,
    PacketUnicastTxCount,
    CurrentMaxRate,
    OverrunCount,
}

impl Attributes {
    /// The identifier that stands for it.
    pub open spec fn repr_of(self) -> u16 {
        match self {
            Attributes::Bssid => 0x00,
            Attributes::SecurityType => 0x01,
            Attributes::WifiVersion => 0x02,
            Attributes::ChannelNumber => 0x03,
            Attributes::Rssi => 0x04,
            Attributes::BeaconLostCount => 0x05,
            Attributes::BeaconRxCount => 0x06,
            Attributes::PacketMulticastRxCount => 0x07,
            Attributes::PacketMulticastTxCount => 0x08,
            Attributes::PacketUnicastRxCount => 0x09,
            Attributes::PacketUnicastTxCount => 0x0a,
            Attributes::CurrentMaxRate => 0x0b,
            Attributes::OverrunCount => 0x0c,
        }
    }

    /// The identifier that stands for it.
    pub fn repr(&self) -> (r: u16)
        ensures
            r == self.repr_of(),
    {
        match self {
            Attributes::Bssid => 0x00,
            Attributes::SecurityType => 0x01,
            Attributes::WifiVersion => 0x02,
            Attributes::ChannelNumber => 0x03,
            Attributes::Rssi => 0x04,
            Attributes::BeaconLostCount => 0x05,
            Attributes::BeaconRxCount => 0x06,
            Attributes::PacketMulticastRxCount => 0x07,
            Attributes::PacketMulticastTxCount => 0x08,
            Attributes::PacketUnicastRxCount => 0x09,
            Attributes::PacketUnicastTxCount => 0x0a,
            Attributes::CurrentMaxRate => 0x0b,
            Attributes::OverrunCount => 0x0c,
        }
    }

    /// What the identifier stands for, if anything.
    pub fn from_repr(repr: u16) -> (r: Option<Self>)
        ensures
            match r {
                Some(value) => value.repr_of() == repr,
                None => forall|value: Self| (#[trigger] value.repr_of()) != repr,
            },
    {
        match repr {
            0x00 => Some(Attributes::Bssid),
            0x01 => Some(Attributes::SecurityType),
            0x02 => Some(Attributes::WifiVersion),
            0x03 => Some(Attributes::ChannelNumber),
            0x04 => Some(Attributes::Rssi),
            0x05 => Some(Attributes::BeaconLostCount),
            0x06 => Some(Attributes::BeaconRxCount),
            0x07 => Some(Attributes::PacketMulticastRxCount),
            0x08 => Some(Attributes::PacketMulticastTxCount),
            0x09 => Some(Attributes::PacketUnicastRxCount),
            0x0a => Some(Attributes::PacketUnicastTxCount),
            0x0b => Some(Attributes::CurrentMaxRate),
            0x0c => Some(Attributes::OverrunCount),
            _ => None,
        }
    }
}

/// The commands of the cluster.
#[derive(Debug, Copy, Clone, Eq, PartialEq, Structural)]
pub enum Commands {
    ResetCounts,
}

impl Commands {
    /// The identifier that stands for it.
    pub open spec fn repr_of(self) -> u32 {
        match self {
            Commands::ResetCounts => 0x0,
        }
    }

    /// The identifier that stands for it.
    pub fn repr(&self) -> (r: u32)
        ensures
            r == self.repr_of(),
    {
        match self {
            Commands::ResetCounts => 0x0,
        }
    }

    /// What the identifier stands for, if anything.
    pub fn from_repr(repr: u32) -> (r: Option<Self>)
        ensures
            match r {
                Some(value) => value.repr_of() == repr,
                None => forall|value: Self| (#[trigger] value.repr_of()) != repr,
            },
    {
        match repr {
            0x0 => Some(Commands::ResetCounts),
            _ => None,
        }
    }
}

/// How a Wi-Fi connection is secured.
#[derive(Debug, Copy, Clone, Eq, PartialEq, Structural)]
pub enum WiFiSecurity {
    Unspecified,
    Unencrypted,
    Wep,
    WpaPersonal,
    Wpa2Personal,
    Wpa3Personal,
}

impl WiFiSecurity {
    /// The number that stands for it.
    pub open spec fn repr_of(self) -> u8 {
        match self {
            WiFiSecurity::Unspecified => 0,
            WiFiSecurity::Unencrypted => 1,
            WiFiSecurity::Wep => 2,
            WiFiSecurity::WpaPersonal => 3,
            WiFiSecurity::Wpa2Personal => 4,
            WiFiSecurity::Wpa3Personal => 5,
        }
    }

    /// The number that stands for it.
    pub fn repr(&self) -> (r: u8)
        ensures
            r == self.repr_of(),
    {
        match self {
            WiFiSecurity::Unspecified => 0,
            WiFiSecurity::Unencrypted => 1,
            WiFiSecurity::Wep => 2,
            WiFiSecurity::WpaPersonal => 3,
            WiFiSecurity::Wpa2Personal => 4,
            WiFiSecurity::Wpa3Personal => 5,
        }
    }

    /// What the number stands for, if anything.
    pub fn from_repr(repr: u8) -> (r: Option<Self>)
        ensures
            match r {
                Some(value) => value.repr_of() == repr,
                None => forall|value: Self| (#[trigger] value.repr_of()) != repr,
            },
    {
        match repr {
            0 => Some(WiFiSecurity::Unspecified),
            1 => Some(WiFiSecurity::Unencrypted),
            2 => Some(WiFiSecurity::Wep),
            3 => Some(WiFiSecurity::WpaPersonal),
            4 => Some(WiFiSecurity::Wpa2Personal),
            5 => Some(WiFiSecurity::Wpa3Personal),
            _ => None,
        }
    }
}

/// The version of Wi-Fi that a connection uses.
#[derive(Debug, Copy, Clone, Eq, PartialEq, Structural)]
pub enum WiFiVersion {
    A,
    B,
    G,
    N,
    AC,
    AX,
}

impl WiFiVersion {
    /// The number that stands for it.
    pub open spec fn repr_of(self) -> u8 {
        match self {
            WiFiVersion::A => 0,
            WiFiVersion::B => 1,
            WiFiVersion::G => 2,
            WiFiVersion::N => 3,
            WiFiVersion::AC => 4,
            WiFiVersion::AX => 5,
        }
    }

    /// The number that stands for it.
    pub fn repr(&self) -> (r: u8)
        ensures
            r == self.repr_of(),
    {
        match self {
            WiFiVersion::A => 0,
            WiFiVersion::B => 1,
            WiFiVersion::G => 2,
            WiFiVersion::N => 3,
            WiFiVersion::AC => 4,
            WiFiVersion::AX => 5,
        }
    }

    /// What the number stands for, if anything.
    pub fn from_repr(repr: u8) -> (r: Option<Self>)
        ensures
            match r {
                Some(value) => value.repr_of() == repr,
                None => forall|value: Self| (#[trigger] value.repr_of()) != repr,
            },
    {
        match repr {
            0 => Some(WiFiVersion::A),
            1 => Some(WiFiVersion::B),
            2 => Some(WiFiVersion::G),
            3 => Some(WiFiVersion::N),
            4 => Some(WiFiVersion::AC),
            5 => Some(WiFiVersion::AX),
            _ => None,
        }
    }
}

/// Why a connection could not be made.
#[derive(Debug, Copy, Clone, Eq, PartialEq, Structural)]
pub enum AssociationFailure {
    Unknown,
    AssociationFailed,
    AuthenticationFailed,
    SsidNotFound,
}

impl AssociationFailure {
    /// The number that stands for it.
    pub open spec fn repr_of(self) -> u8 {
        match self {
            AssociationFailure::Unknown => 0,
            AssociationFailure::AssociationFailed => 1,
            AssociationFailure::AuthenticationFailed => 2,
            AssociationFailure::SsidNotFound => 3,
        }
    }

    /// The number that stands for it.
    pub fn repr(&self) -> (r: u8)
        ensures
            r == self.repr_of(),
    {
        match self {
            AssociationFailure::Unknown => 0,
            AssociationFailure::AssociationFailed => 1,
            AssociationFailure::AuthenticationFailed => 2,
            AssociationFailure::SsidNotFound => 3,
        }
    }

    /// What the number stands for, if anything.
    pub fn from_repr(repr: u8) -> (r: Option<Self>)
        ensures
            match r {
                Some(value) => value.repr_of() == repr,
                None => forall|value: Self| (#[trigger] value.repr_of()) != repr,
            },
    {
        match repr {
            0 => Some(AssociationFailure::Unknown),
            1 => Some(AssociationFailure::AssociationFailed),
            2 => Some(AssociationFailure::AuthenticationFailed),
            3 => Some(AssociationFailure::SsidNotFound),
            _ => None,
        }
    }
}

/// Whether there is a connection.
#[derive(Debug, Copy, Clone, Eq, PartialEq, Structural)]
pub enum ConnectionStatus {
    Connected,
    NotConnected,
}

impl ConnectionStatus {
    /// The number that stands for it.
    pub open spec fn repr_of(self) -> u8 {
        match self {
            ConnectionStatus::Connected => 0,
            ConnectionStatus::NotConnected => 1,
        }
    }

    /// The number that stands for it.
    pub fn repr(&self) -> (r: u8)
        ensures
            r == self.repr_of(),
    {
        match self {
            ConnectionStatus::Connected => 0,
            ConnectionStatus::NotConnected => 1,
        }
    }

    /// What the number stands for, if anything.
    pub fn from_repr(repr: u8) -> (r: Option<Self>)
        ensures
            match r {
                Some(value) => value.repr_of() == repr,
                None => forall|value: Self| (#[trigger] value.repr_of()) != repr,
            },
    {
        match repr {
            0 => Some(ConnectionStatus::Connected),
            1 => Some(ConnectionStatus::NotConnected),
            _ => None,
        }
    }
}

/// Who may do what with an attribute.
#[derive(Debug, Copy, Clone, PartialEq, Eq, Structural)]
pub enum Access {
    /// Everyone with the view privilege may read it.
    RV,
}

/// What is known of the value of an attribute.
#[derive(Debug, Copy, Clone, PartialEq, Eq, Structural)]
pub enum Quality {
    /// Nothing.
    Any,
    /// It never changes.
    Fixed,
}

/// An attribute of a cluster.
#[derive(Debug, Copy, Clone, PartialEq, Eq, Structural)]
pub struct Attribute {
    pub id: u16,
    pub access: Access,
    pub quality: Quality,
}

/// A cluster.
#[derive(Debug, PartialEq, Eq)]
pub struct Cluster {
    pub id: u32,
    pub feature_map: u32,
    pub attributes: Vec<Attribute>,
    pub commands: Vec<u32>,
}

/// The attributes that the cluster offers.
pub open spec fn offered() -> Seq<Attribute> {
    seq![
        Attribute { id: FEATURE_MAP_ID, access: Access::RV, quality: Quality::Any },
        Attribute { id: ATTRIBUTE_LIST_ID, access: Access::RV, quality: Quality::Any },
        Attribute { id: Attributes::Bssid.repr_of(), access: Access::RV, quality: Quality::Any },
        Attribute { id: Attributes::SecurityType.repr_of(), access: Access::RV, quality: Quality::Fixed },
        Attribute { id: Attributes::WifiVersion.repr_of(), access: Access::RV, quality: Quality::Fixed },
        Attribute { id: Attributes::ChannelNumber.repr_of(), access: Access::RV, quality: Quality::Fixed },
        Attribute { id: Attributes::Rssi.repr_of(), access: Access::RV, quality: Quality::Fixed },
    ]
}

/// The cluster.
pub fn cluster() -> (r: Cluster)
    ensures
        r.id == ID,
        r.feature_map == 0,
        r.attributes@ == offered(),
        r.commands@ == seq![Commands::ResetCounts.repr_of()],
{
    Cluster {
        id: ID,
        feature_map: 0,
        attributes: vec![
            Attribute { id: FEATURE_MAP_ID, access: Access::RV, quality: Quality::Any },
            Attribute { id: ATTRIBUTE_LIST_ID, access: Access::RV, quality: Quality::Any },
            Attribute { id: Attributes::Bssid.repr(), access: Access::RV, quality: Quality::Any },
            Attribute { id: Attributes::SecurityType.repr(), access: Access::RV, quality: Quality::Fixed },
            Attribute { id: Attributes::WifiVersion.repr(), access: Access::RV, quality: Quality::Fixed },
            Attribute { id: Attributes::ChannelNumber.repr(), access: Access::RV, quality: Quality::Fixed },
            Attribute { id: Attributes::Rssi.repr(), access: Access::RV, quality: Quality::Fixed },
        ],
        commands: vec![Commands::ResetCounts.repr()],
    }
}

/// The value of an attribute.
#[derive(Debug, PartialEq, Eq)]
pub enum AttrValue {
    /// The attribute is one that all clusters have: the data model answers for it, from the
    /// description of the cluster.
    System,
    Bssid([u8; 6]),
    SecurityType(WiFiSecurity),
    WifiVersion(WiFiVersion),
    ChannelNumber(u16),
    Rssi(i8),
}

/// The value of the attribute of this cluster with the given identifier, if there is one.
pub open spec fn value_of(attr_id: u16) -> Option<AttrValue> {
    if attr_id == Attributes::Bssid.repr_of() {
        Some(AttrValue::Bssid([0u8, 0, 0, 0, 0, 0]))
    } else if attr_id == Attributes::SecurityType.repr_of() {
        Some(AttrValue::SecurityType(WiFiSecurity::Unspecified))
    } else if attr_id == Attributes::WifiVersion.repr_of() {
        Some(AttrValue::WifiVersion(WiFiVersion::B))
    } else if attr_id == Attributes::ChannelNumber.repr_of() {
        Some(AttrValue::ChannelNumber(20))
    } else if attr_id == Attributes::Rssi.repr_of() {
        Some(AttrValue::Rssi(0))
    } else {
        None
    }
}

/// What reading an attribute gives: nothing where the reader does not ask for the current version
/// of the data, and an error where there is no such attribute.
pub open spec fn read_of(attr_id: u16, is_system: bool, is_asked_for: bool) -> Result<Option<AttrValue>, Error> {
    if !is_asked_for {
        Ok(None)
    } else if is_system {
        Ok(Some(AttrValue::System))
    } else {
        match value_of(attr_id) {
            Some(value) => Ok(Some(value)),
            None => Err(Error { code: ErrorCode::AttributeNotFound }),
        }
    }
}

/// The version that follows, after the last one the first again.
pub open spec fn bumped(data_ver: u32) -> u32 {
    if data_ver == u32::MAX {
        0
    } else {
        (data_ver + 1) as u32
    }
}

/// The cluster that tells of the Wi-Fi connection.
#[derive(Debug, PartialEq, Eq)]
pub struct WifiNwDiagCluster {
    data_ver: u32,
}

impl View for WifiNwDiagCluster {
    type V = u32;

    closed spec fn view(&self) -> u32 {
        self.data_ver
    }
}

impl WifiNwDiagCluster {
    /// Create a new instance, whose data has the given version to begin with.
    pub fn new(data_ver: u32) -> (r: Self)
        ensures
            r@ == data_ver,
    {
        WifiNwDiagCluster { data_ver }
    }

    /// The version of the data.
    pub fn data_ver(&self) -> (r: u32)
        ensures
            r == self@,
    {
        self.data_ver
    }

    fn changed(&mut self)
        ensures
            final(self)@ == bumped(old(self)@),
    {
        self.data_ver = self.data_ver.wrapping_add(1);
    }

    /// Read an attribute.
    ///
    /// The data model tells whether the attribute is one that all clusters have, and whether the
    /// reader asks for the current version of the data.
    pub fn read(&self, attr_id: u16, is_system: bool, is_asked_for: bool) -> (r: Result<Option<AttrValue>, Error>)
        ensures
            r == read_of(attr_id, is_system, is_asked_for),
    {
        if !is_asked_for {
            return Ok(None);
        }
        if is_system {
            return Ok(Some(AttrValue::System));
        }
        match Attributes::from_repr(attr_id) {
            Some(Attributes::Bssid) => {
                let bssid: [u8; 6] = [0u8, 0, 0, 0, 0, 0];
                Ok(Some(AttrValue::Bssid(bssid)))
            },
            Some(Attributes::SecurityType) => Ok(Some(AttrValue::SecurityType(WiFiSecurity::Unspecified))),
            Some(Attributes::WifiVersion) => Ok(Some(AttrValue::WifiVersion(WiFiVersion::B))),
            Some(Attributes::ChannelNumber) => Ok(Some(AttrValue::ChannelNumber(20))),
            Some(Attributes::Rssi) => Ok(Some(AttrValue::Rssi(0))),
            None => {
                assert(Attributes::Bssid.repr_of() != attr_id);
                assert(Attributes::SecurityType.repr_of() != attr_id);
                assert(Attributes::WifiVersion.repr_of() != attr_id);
                assert(Attributes::ChannelNumber.repr_of() != attr_id);
                assert(Attributes::Rssi.repr_of() != attr_id);
                Err(Error::from(ErrorCode::AttributeNotFound))
            },
            _ => Err(Error::from(ErrorCode::AttributeNotFound)),
        }
    }

    /// Write an attribute. The data model checks the version of the data that the writer expects:
    /// `checked` is how that went.
    ///
    /// Nothing is written but the version.
    pub fn write(&mut self, checked: Result<(), Error>) -> (r: Result<(), Error>)
        ensures
            r == checked,
            final(self)@ == (if checked is Ok {
                bumped(old(self)@)
            } else {
                old(self)@
            }),
    {
        if checked.is_ok() {
            self.changed();
        }
        checked
    }

    /// Invoke a command.
    ///
    /// There are no counts to reset: only the version changes.
    pub fn invoke(&mut self, cmd_id: u32) -> (r: Result<(), Error>)
        ensures
            if cmd_id == Commands::ResetCounts.repr_of() {
                &&& final(self)@ == bumped(old(self)@)
                &&& r == Ok::<(), Error>(())
            } else {
                &&& final(self)@ == old(self)@
                &&& r == Err::<(), Error>(Error { code: ErrorCode::CommandNotFound })
            },
    {
        match Commands::from_repr(cmd_id) {
            Some(Commands::ResetCounts) => {},
            None => {
                assert(Commands::ResetCounts.repr_of() != cmd_id);
                return Err(Error::from(ErrorCode::CommandNotFound));
            },
        }
        self.changed();

        Ok(())
    }
}

/// Different attributes have different identifiers.
pub proof fn law_attributes_do_not_clash(a: Attributes, b: Attributes)
    ensures
        a.repr_of() == b.repr_of() <==> a == b,
{
}

/// Different kinds of security have different numbers.
pub proof fn law_securities_do_not_clash(a: WiFiSecurity, b: WiFiSecurity)
    ensures
        a.repr_of() == b.repr_of() <==> a == b,
{
}

/// Different versions have different numbers.
pub proof fn law_versions_do_not_clash(a: WiFiVersion, b: WiFiVersion)
    ensures
        a.repr_of() == b.repr_of() <==> a == b,
{
}

/// Different failures have different numbers.
pub proof fn law_failures_do_not_clash(a: AssociationFailure, b: AssociationFailure)
    ensures
        a.repr_of() == b.repr_of() <==> a == b,
{
}

/// Different statuses have different numbers.
pub proof fn law_statuses_do_not_clash(a: ConnectionStatus, b: ConnectionStatus)
    ensures
        a.repr_of() == b.repr_of() <==> a == b,
{
}

/// Beside the attributes that all clusters have, every attribute that the cluster offers can be
/// read, and no other one.
pub proof fn law_offered_attributes_are_readable(attr_id: u16)
    requires
        attr_id != FEATURE_MAP_ID,
        attr_id != ATTRIBUTE_LIST_ID,
    ensures
        value_of(attr_id) is Some <==> exists|i: int| 0 <= i < offered().len() && (#[trigger] offered()[i]).id == attr_id,
{
    let attrs = offered();
    if value_of(attr_id) is Some {
        assert(attrs[2].id == 0 && attrs[3].id == 1 && attrs[4].id == 2 && attrs[5].id == 3 && attrs[6].id == 4);
    }
}

/// A change gives the data another version.
pub proof fn law_change_gives_another_version(data_ver: u32)
    ensures
        bumped(data_ver) != data_ver,
{
}

/// The numbers that stand for an attribute and for the kinds of security, versions, failures and
/// statuses are those of the Matter data model.
pub proof fn law_numbers_are_those_of_the_data_model(
    attribute: Attributes,
    command: Commands,
    security: WiFiSecurity,
    version: WiFiVersion,
    failure: AssociationFailure,
    status: ConnectionStatus,
)
    ensures
        attribute.repr_of() == 0 <==> attribute is Bssid,
        attribute.repr_of() == 1 <==> attribute is SecurityType,
        attribute.repr_of() == 2 <==> attribute is WifiVersion,
        attribute.repr_of() == 3 <==> attribute is ChannelNumber,
        attribute.repr_of() == 4 <==> attribute is Rssi,
        attribute.repr_of() == 5 <==> attribute is BeaconLostCount,
        attribute.repr_of() == 6 <==> attribute is BeaconRxCount,
        attribute.repr_of() == 7 <==> attribute is PacketMulticastRxCount,
        attribute.repr_of() == 8 <==> attribute is PacketMulticastTxCount,
        attribute.repr_of() == 9 <==> attribute is PacketUnicastRxCount,
        attribute.repr_of() == 10 <==> attribute is PacketUnicastTxCount,
        attribute.repr_of() == 11 <==> attribute is CurrentMaxRate,
        attribute.repr_of() == 12 <==> attribute is OverrunCount,
        command.repr_of() == 0,
        security.repr_of() == 0 <==> security is Unspecified,
        security.repr_of() == 1 <==> security is Unencrypted,
        security.repr_of() == 2 <==> security is Wep,
        security.repr_of() == 3 <==> security is WpaPersonal,
        security.repr_of() == 4 <==> security is Wpa2Personal,
        security.repr_of() == 5 <==> security is Wpa3Personal,
        version.repr_of() == 0 <==> version is A,
        version.repr_of() == 1 <==> version is B,
        version.repr_of() == 2 <==> version is G,
        version.repr_of() == 3 <==> version is N,
        version.repr_of() == 4 <==> version is AC,
        version.repr_of() == 5 <==> version is AX,
        failure.repr_of() == 0 <==> failure is Unknown,
        failure.repr_of() == 1 <==> failure is AssociationFailed,
        failure.repr_of() == 2 <==> failure is AuthenticationFailed,
        failure.repr_of() == 3 <==> failure is SsidNotFound,
        status.repr_of() == 0 <==> status is Connected,
        status.repr_of() == 1 <==> status is NotConnected,
{
}

/// Only what a reader asks for is read. The attributes that all clusters have are left to the data
/// model; of the others the first five can be read, with values that stand for nothing known, and
/// any further one is not found.
pub proof fn law_reading_an_attribute(attr_id: u16, is_system: bool, is_asked_for: bool)
    ensures
        ({
            let read = read_of(attr_id, is_system, is_asked_for);
            &&& !is_asked_for ==> read == Ok::<Option<AttrValue>, Error>(None)
            &&& is_asked_for && is_system ==> read == Ok::<Option<AttrValue>, Error>(Some(AttrValue::System))
            &&& is_asked_for && !is_system && attr_id > 4 ==> read == Err::<Option<AttrValue>, Error>(
                Error { code: ErrorCode::AttributeNotFound },
            )
            &&& is_asked_for && !is_system && attr_id <= 4 ==> (read matches Ok(Some(value)) && match value {
                AttrValue::System => false,
                AttrValue::Bssid(bssid) => attr_id == 0 && forall|i: int| 0 <= i < 6 ==> #[trigger] bssid@[i] == 0,
                AttrValue::SecurityType(security) => attr_id == 1 && security is Unspecified,
                AttrValue::WifiVersion(version) => attr_id == 2 && version is B,
                AttrValue::ChannelNumber(channel) => attr_id == 3 && channel == 20,
                AttrValue::Rssi(rssi) => attr_id == 4 && rssi == 0,
            })
        }),
{
}

/// A change counts the version on by one, and from the last version to the first.
pub proof fn law_change_counts_on(data_ver: u32)
    ensures
        bumped(data_ver) == (data_ver + 1) % 0x1_0000_0000,
{
}

/// The cluster offers the features, the list of its attributes and its first five attributes, all to
/// be read by everyone who may view. The first three of these can change, and the others cannot. The
/// cluster itself has the number of the Wi-Fi network diagnostics.
pub proof fn law_offered_attributes(i: int)
    requires
        0 <= i < 7,
    ensures
        offered().len() == 7,
        offered()[i].id == (if i == 0 {
            0xFFFCint
        } else if i == 1 {
            0xFFFB
        } else {
            i - 2
        }),
        offered()[i].access is RV,
        offered()[i].quality is Fixed <==> i >= 3,
        ID == 0x36,
{
}

} // verus!
