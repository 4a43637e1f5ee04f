//! The BTP GATT peripheral: what it knows of its service and of its peers, and how it
//! answers the events of the Bluetooth stack.
//!
//! The Bluetooth stack itself is driven from outside. Each event handler changes the
//! state and returns the calls into the Bluetooth stack that the event asks for. The
//! caller makes these calls in order and leaves out the rest where one of them fails.

pub mod laws;

use vstd::prelude::*;

use crate::bounded::{
    conns_as_mut_slice, conns_as_slice, conns_new, conns_of, conns_push, conns_swap_remove, ind_as_slice, ind_bytes,
    ind_clear, ind_extend_from_slice, ind_new,
};
use crate::error::{EspError, ESP_ERR_INVALID_STATE, ESP_FAIL};

verus! {

/// The largest number of peers that a context can be made for.
///
/// This is a choice of this library: a context has room for so many peers. How many of them it
/// is to remember is up to the caller.
pub const MAX_CONNECTIONS: usize = 8;

/// The number of peers that a context is made for unless asked otherwise.
///
/// This is a choice of this library too. It says nothing of how many sessions the BTP protocol
/// keeps: whoever runs a peripheral for it passes that number to
/// `BtpGattContext::with_max_connections`.
pub const DEFAULT_MAX_CONNECTIONS: usize = 1;

/// The largest indication, in bytes.
pub const MAX_MTU_SIZE: usize = 512;

/// The registered 16-bit UUID of the Matter BLE service.
pub const MATTER_BLE_SERVICE_UUID16: u16 = 0xFFF6;

/// The UUID of characteristic `C1`, to which peers write.
pub const C1_CHARACTERISTIC_UUID: u128 = 0x18EE2EF5263D4559959F4F9C429F9D11;

/// The UUID of characteristic `C2`, on which data is indicated to peers.
pub const C2_CHARACTERISTIC_UUID: u128 = 0x18EE2EF5263D4559959F4F9C429F9D12;

/// The longest value of characteristic `C1`.
pub const C1_MAX_LEN: usize = 247;

/// The longest value of characteristic `C2`.
pub const C2_MAX_LEN: usize = 247;

/// The UUID of the descriptor through which a peer subscribes to indications.
pub const CCCD_UUID16: u16 = 0x2902;

/// The longest advertising payload, in bytes.
pub const MAX_ADV_LEN: usize = 32;

/// The longest value that a prepared write can be answered with.
pub const MAX_RESPONSE_LEN: usize = 600;

/// How many attribute handles the service asks for.
pub const NUM_HANDLES: u16 = 8;

/// The handle of a GATT attribute or service.
pub type Handle = u16;

/// A GATT interface of the Bluetooth stack.
pub type GattInterface = u8;

/// Identifies a connection of a peer.
pub type ConnectionId = u16;

/// Identifies a request of a peer.
pub type TransferId = u32;

/// The address of a Bluetooth device.
#[derive(Debug, Copy, Clone, PartialEq, Eq)]
pub struct BdAddr(pub [u8; 6]);

/// The address of a BTP peer.
#[derive(Debug, Copy, Clone, PartialEq, Eq)]
pub struct BtAddr(pub [u8; 6]);

/// A Bluetooth UUID.
#[derive(Debug, Copy, Clone, PartialEq, Eq, Structural)]
pub enum BtUuid {
    Uuid16(u16),
    Uuid32(u32),
    Uuid128(u128),
}

/// The status of a GATT operation.
#[derive(Debug, Copy, Clone, PartialEq, Eq, Structural)]
pub enum GattStatus {
    Success,
    Other(u32),
}

/// The status of a GAP operation.
#[derive(Debug, Copy, Clone, PartialEq, Eq, Structural)]
pub enum BtStatus {
    Success,
    Other(u32),
}

/// What a GATT characteristic or descriptor lets a peer do.
#[derive(Debug, Copy, Clone, PartialEq, Eq, Structural)]
pub struct Permissions {
    pub read: bool,
    pub write: bool,
}

/// How a GATT characteristic is used.
#[derive(Debug, Copy, Clone, PartialEq, Eq, Structural)]
pub struct Properties {
    pub write: bool,
    pub indicate: bool,
}

/// Who answers when a peer accesses a GATT characteristic.
#[derive(Debug, Copy, Clone, PartialEq, Eq, Structural)]
pub enum AutoResponse {
    ByApp,
    ByGatt,
}

/// A GATT characteristic.
#[derive(Debug, Copy, Clone, PartialEq, Eq, Structural)]
pub struct GattCharacteristic {
    pub uuid: BtUuid,
    pub permissions: Permissions,
    pub properties: Properties,
    pub max_len: usize,
    pub auto_rsp: AutoResponse,
}

/// A GATT descriptor.
#[derive(Debug, Copy, Clone, PartialEq, Eq, Structural)]
pub struct GattDescriptor {
    pub uuid: BtUuid,
    pub permissions: Permissions,
}

/// An event of the GAP layer.
#[derive(Debug, Copy, Clone, PartialEq, Eq, Structural)]
pub enum BleGapEvent {
    RawAdvertisingConfigured(BtStatus),
    /// Any event that the peripheral does not act on.
    Other,
}

/// An event of the GATT server.
#[derive(Debug, Copy, Clone, PartialEq, Eq)]
pub enum GattsEvent<'a> {
    ServiceRegistered { status: GattStatus, app_id: u16 },
    ServiceCreated { status: GattStatus, service_handle: Handle },
    CharacteristicAdded { status: GattStatus, attr_handle: Handle, service_handle: Handle, char_uuid: BtUuid },
    DescriptorAdded { status: GattStatus, attr_handle: Handle, service_handle: Handle, descr_uuid: BtUuid },
    ServiceDeleted { status: GattStatus, service_handle: Handle },
    ServiceUnregistered { status: GattStatus, service_handle: Handle },
    Mtu { conn_id: ConnectionId, mtu: u16 },
    PeerConnected { conn_id: ConnectionId, addr: BdAddr },
    PeerDisconnected { addr: BdAddr },
    Write {
        conn_id: ConnectionId,
        trans_id: TransferId,
        addr: BdAddr,
        handle: Handle,
        offset: u16,
        need_rsp: bool,
        is_prep: bool,
        value: &'a [u8],
    },
    Confirm { status: GattStatus },
    /// Any event that the peripheral does not act on.
    Other,
}

/// What the peripheral tells the BTP protocol.
#[derive(Debug, Copy, Clone, PartialEq, Eq)]
pub enum GattPeripheralEvent<'a> {
    NotifySubscribed(BtAddr),
    NotifyUnsubscribed(BtAddr),
    Write { address: BtAddr, data: &'a [u8], gatt_mtu: Option<u16> },
}

/// The value that a prepared write is answered with.
#[derive(Debug, Copy, Clone, PartialEq, Eq)]
pub struct GattResponse<'a> {
    pub attr_handle: Handle,
    pub auth_req: u8,
    pub offset: u16,
    pub value: &'a [u8],
}

/// A call that an event asks for.
#[derive(Debug, Copy, Clone, PartialEq, Eq)]
pub enum GattAction<'a> {
    StartAdvertising,
    SetDeviceName(&'a str),
    SetRawAdvConf(&'a [u8]),
    /// Create the primary service instance with the given UUID.
    CreateService { gatt_if: GattInterface, uuid: BtUuid, inst_id: u8, is_primary: bool, num_handles: u16 },
    StartService(Handle),
    AddCharacteristic { service_handle: Handle, characteristic: GattCharacteristic },
    AddDescriptor { service_handle: Handle, descriptor: GattDescriptor },
    SetConnParamsConf { addr: BdAddr, min_int_ms: u32, max_int_ms: u32, latency_ms: u32, timeout_ms: u32 },
    /// Answer a write with status `Ok`, and with a value where it was a prepared write.
    SendResponse {
        gatt_if: GattInterface,
        conn_id: ConnectionId,
        trans_id: TransferId,
        response: Option<GattResponse<'a>>,
    },
    /// Hand the event to the BTP protocol.
    Callback(GattPeripheralEvent<'a>),
}

/// Where an indication goes.
#[derive(Debug, Copy, Clone, PartialEq, Eq, Structural)]
pub struct IndTarget {
    pub gatt_if: GattInterface,
    pub conn_id: ConnectionId,
    pub attr_handle: Handle,
}

/// A connected peer.
#[derive(Debug, Copy, Clone, PartialEq, Eq)]
pub struct Connection {
    pub peer: BdAddr,
    pub conn_id: Handle,
    pub subscribed: bool,
    pub mtu: Option<u16>,
}

/// What is known of the service and of the peers.
pub struct State {
    gatt_if: Option<GattInterface>,
    service_handle: Option<Handle>,
    c1_handle: Option<Handle>,
    c2_handle: Option<Handle>,
    c2_cccd_handle: Option<Handle>,
    connections: heapless::Vec<Connection, MAX_CONNECTIONS>,
}

/// The indication that waits to be sent.
pub struct IndBuffer {
    addr: BtAddr,
    data: heapless::Vec<u8, MAX_MTU_SIZE>,
}

/// The state of a `BtpGattPeripheral`, isolated so that it can outlive the peripheral.
pub struct BtpGattContext {
    state: State,
    max_connections: usize,
    ind: IndBuffer,
    ind_locked: bool,
    ind_in_flight: bool,
}

/// The contents of a `BtpGattContext`.
#[verifier::ext_equal]
pub struct GattModel {
    pub gatt_if: Option<GattInterface>,
    pub service_handle: Option<Handle>,
    pub c1_handle: Option<Handle>,
    pub c2_handle: Option<Handle>,
    pub c2_cccd_handle: Option<Handle>,
    pub connections: Seq<Connection>,
    pub max_connections: nat,
    pub ind_addr: BtAddr,
    pub ind_data: Seq<u8>,
    /// Whether the indication is just being sent.
    pub ind_locked: bool,
    /// Whether a sent indication waits for its confirmation.
    pub ind_in_flight: bool,
}

impl View for BtpGattContext {
    type V = GattModel;

    closed spec fn view(&self) -> GattModel {
        GattModel {
            gatt_if: self.state.gatt_if,
            service_handle: self.state.service_handle,
            c1_handle: self.state.c1_handle,
            c2_handle: self.state.c2_handle,
            c2_cccd_handle: self.state.c2_cccd_handle,
            connections: conns_of(self.state.connections),
            max_connections: self.max_connections as nat,
            ind_addr: self.ind.addr,
            ind_data: ind_bytes(self.ind.data),
            ind_locked: self.ind_locked,
            ind_in_flight: self.ind_in_flight,
        }
    }
}

/// Whether `i` is the first position of `conns` that `p` holds of.
pub open spec fn first_at(conns: Seq<Connection>, p: spec_fn(Connection) -> bool, i: int) -> bool {
    &&& 0 <= i < conns.len()
    &&& p(conns[i])
    &&& forall|j: int| 0 <= j < i ==> !p(#[trigger] conns[j])
}

/// The first position of `conns` that `p` holds of, where there is one.
pub open spec fn find(conns: Seq<Connection>, p: spec_fn(Connection) -> bool) -> Option<int> {
    if exists|i: int| first_at(conns, p, i) {
        Some(choose|i: int| first_at(conns, p, i))
    } else {
        None
    }
}

/// The connections with the given id.
pub open spec fn with_id(conn_id: ConnectionId) -> spec_fn(Connection) -> bool {
    |conn: Connection| conn.conn_id == conn_id
}

/// The connections of the given peer.
pub open spec fn of_peer(addr: [u8; 6]) -> spec_fn(Connection) -> bool {
    |conn: Connection| conn.peer.0 == addr
}

/// The connections of the given peer that are subscribed to indications.
pub open spec fn subscribed_of_peer(addr: [u8; 6]) -> spec_fn(Connection) -> bool {
    |conn: Connection| conn.peer.0 == addr && conn.subscribed
}

/// A position that `first_at` holds of is the one that `find` yields.
pub(crate) proof fn lemma_find(conns: Seq<Connection>, p: spec_fn(Connection) -> bool, i: int)
    requires
        first_at(conns, p, i),
    ensures
        find(conns, p) == Some(i),
{
    let k = choose|k: int| first_at(conns, p, k);
    assert(first_at(conns, p, k));
    if k < i {
        assert(!p(conns[k]));
    }
    if i < k {
        assert(!p(conns[i]));
    }
}

/// Where `p` holds of nothing, `find` yields nothing.
proof fn lemma_find_none(conns: Seq<Connection>, p: spec_fn(Connection) -> bool)
    requires
        forall|j: int| 0 <= j < conns.len() ==> !p(#[trigger] conns[j]),
    ensures
        find(conns, p) is None,
{
}

/// What `find` yields is the first position that `p` holds of.
pub(crate) proof fn lemma_find_inv(conns: Seq<Connection>, p: spec_fn(Connection) -> bool)
    ensures
        match find(conns, p) {
            Some(i) => first_at(conns, p, i),
            None => forall|j: int| 0 <= j < conns.len() ==> !p(#[trigger] conns[j]),
        },
{
    if find(conns, p) is None {
        assert forall|j: int| 0 <= j < conns.len() implies !p(#[trigger] conns[j]) by {
            if p(conns[j]) {
                lemma_first_exists(conns, p, j);
            }
        }
    }
}

/// Where `p` holds somewhere, it holds somewhere first.
proof fn lemma_first_exists(conns: Seq<Connection>, p: spec_fn(Connection) -> bool, j: int)
    requires
        0 <= j < conns.len(),
        p(conns[j]),
    ensures
        exists|i: int| first_at(conns, p, i),
    decreases j,
{
    if forall|k: int| 0 <= k < j ==> !p(#[trigger] conns[k]) {
        assert(first_at(conns, p, j));
    } else {
        let k = choose|k: int| 0 <= k < j && p(#[trigger] conns[k]);
        lemma_first_exists(conns, p, k);
    }
}

/// Compares two Bluetooth addresses.
pub fn addr_eq(a: &[u8; 6], b: &[u8; 6]) -> (r: bool)
    ensures
        r == (*a == *b),
{
    let r = a[0] == b[0] && a[1] == b[1] && a[2] == b[2] && a[3] == b[3] && a[4] == b[4] && a[5] == b[5];
    proof {
        if r {
            assert(*a =~= *b);
        }
    }
    r
}

/// The first position of a connection with the given id.
fn position_by_id(conns: &[Connection], conn_id: ConnectionId) -> (r: Option<usize>)
    ensures
        match r {
            Some(i) => find(conns@, with_id(conn_id)) == Some(i as int) && i < conns@.len(),
            None => find(conns@, with_id(conn_id)) is None,
        },
{
    let ghost p = with_id(conn_id);
    let mut i: usize = 0;
    while i < conns.len()
        invariant
            i <= conns@.len(),
            p == with_id(conn_id),
            forall|j: int| 0 <= j < i ==> !p(#[trigger] conns@[j]),
        decreases conns@.len() - i,
    {
        if conns[i].conn_id == conn_id {
            proof {
                assert(first_at(conns@, p, i as int));
                lemma_find(conns@, p, i as int);
            }
            return Some(i);
        }
        i += 1;
    }
    proof {
        lemma_find_none(conns@, p);
    }
    None
}

/// The first position of a connection of the given peer.
fn position_by_peer(conns: &[Connection], addr: &[u8; 6]) -> (r: Option<usize>)
    ensures
        match r {
            Some(i) => find(conns@, of_peer(*addr)) == Some(i as int) && i < conns@.len(),
            None => find(conns@, of_peer(*addr)) is None,
        },
{
    let ghost p = of_peer(*addr);
    let mut i: usize = 0;
    while i < conns.len()
        invariant
            i <= conns@.len(),
            p == of_peer(*addr),
            forall|j: int| 0 <= j < i ==> !p(#[trigger] conns@[j]),
        decreases conns@.len() - i,
    {
        if addr_eq(&conns[i].peer.0, addr) {
            proof {
                assert(first_at(conns@, p, i as int));
                lemma_find(conns@, p, i as int);
            }
            return Some(i);
        }
        i += 1;
    }
    proof {
        lemma_find_none(conns@, p);
    }
    None
}

/// The first position of a subscribed connection of the given peer.
fn position_subscribed(conns: &[Connection], addr: &[u8; 6]) -> (r: Option<usize>)
    ensures
        match r {
            Some(i) => find(conns@, subscribed_of_peer(*addr)) == Some(i as int) && i < conns@.len(),
            None => find(conns@, subscribed_of_peer(*addr)) is None,
        },
{
    let ghost p = subscribed_of_peer(*addr);
    let mut i: usize = 0;
    while i < conns.len()
        invariant
            i <= conns@.len(),
            p == subscribed_of_peer(*addr),
            forall|j: int| 0 <= j < i ==> !p(#[trigger] conns@[j]),
        decreases conns@.len() - i,
    {
        if addr_eq(&conns[i].peer.0, addr) && conns[i].subscribed {
            proof {
                assert(first_at(conns@, p, i as int));
                lemma_find(conns@, p, i as int);
            }
            return Some(i);
        }
        i += 1;
    }
    proof {
        lemma_find_none(conns@, p);
    }
    None
}

/// The calls that a handler asks for, or the error that it fails with.
pub open spec fn outcome<'a>(r: Result<Vec<GattAction<'a>>, EspError>) -> Result<Seq<GattAction<'a>>, EspError> {
    match r {
        Ok(actions) => Ok(actions@),
        Err(err) => Err(err),
    }
}

/// Characteristic `C1`: peers write to it, and the application answers.
pub open spec fn c1_characteristic() -> GattCharacteristic {
    GattCharacteristic {
        uuid: BtUuid::Uuid128(C1_CHARACTERISTIC_UUID),
        permissions: Permissions { read: false, write: true },
        properties: Properties { write: true, indicate: false },
        max_len: C1_MAX_LEN,
        auto_rsp: AutoResponse::ByApp,
    }
}

/// Characteristic `C2`: data is indicated on it, and the application answers.
pub open spec fn c2_characteristic() -> GattCharacteristic {
    GattCharacteristic {
        uuid: BtUuid::Uuid128(C2_CHARACTERISTIC_UUID),
        permissions: Permissions { read: true, write: true },
        properties: Properties { write: false, indicate: true },
        max_len: C2_MAX_LEN,
        auto_rsp: AutoResponse::ByApp,
    }
}

/// The descriptor through which a peer subscribes.
pub open spec fn cccd_descriptor() -> GattDescriptor {
    GattDescriptor { uuid: BtUuid::Uuid16(CCCD_UUID16), permissions: Permissions { read: true, write: true } }
}

/// How a write is answered: not at all unless the peer asks for it, and with the written
/// value where it is a prepared write.
pub open spec fn write_response<'a>(
    gatt_if: GattInterface,
    conn_id: ConnectionId,
    trans_id: TransferId,
    handle: Handle,
    offset: u16,
    need_rsp: bool,
    is_prep: bool,
    value: &'a [u8],
) -> Result<Seq<GattAction<'a>>, EspError> {
    if !need_rsp {
        Ok(seq![])
    } else if !is_prep {
        Ok(seq![GattAction::SendResponse { gatt_if, conn_id, trans_id, response: None }])
    } else if value@.len() <= MAX_RESPONSE_LEN {
        Ok(
            seq![
                GattAction::SendResponse {
                    gatt_if,
                    conn_id,
                    trans_id,
                    response: Some(GattResponse { attr_handle: handle, auth_req: 0, offset, value }),
                },
            ],
        )
    } else {
        Err(EspError { code: ESP_FAIL })
    }
}

impl GattModel {
    /// The invariant of a context: it never holds more peers than it was made for.
    pub open spec fn wf(self) -> bool {
        self.connections.len() <= self.max_connections <= MAX_CONNECTIONS
    }

    /// A context that knows of no service, no peer and no indication.
    pub open spec fn fresh(max_connections: nat) -> GattModel {
        GattModel {
            gatt_if: None,
            service_handle: None,
            c1_handle: None,
            c2_handle: None,
            c2_cccd_handle: None,
            connections: seq![],
            max_connections,
            ind_addr: BtAddr([0u8, 0, 0, 0, 0, 0]),
            ind_data: seq![],
            ind_locked: false,
            ind_in_flight: false,
        }
    }

    /// Forgets the service and any indication that is not just being sent. The peers stay.
    pub open spec fn reset(self) -> GattModel {
        GattModel {
            gatt_if: None,
            service_handle: None,
            c1_handle: None,
            c2_handle: None,
            c2_cccd_handle: None,
            ind_data: if self.ind_locked {
                self.ind_data
            } else {
                seq![]
            },
            ind_in_flight: false,
            ..self
        }
    }

    /// Where data for the peer is indicated: on `C2`, over the first connection of the peer
    /// that is subscribed.
    pub open spec fn ind_target(self, address: BtAddr) -> Option<IndTarget> {
        match (self.gatt_if, self.c2_handle, find(self.connections, subscribed_of_peer(address.0))) {
            (Some(gatt_if), Some(attr_handle), Some(i)) => Some(
                IndTarget { gatt_if, conn_id: self.connections[i].conn_id, attr_handle },
            ),
            _ => None,
        }
    }

    /// The service was created.
    pub open spec fn with_service(self, service_handle: Handle) -> GattModel {
        GattModel { service_handle: Some(service_handle), ..self }
    }

    /// The service was deleted: its attributes are gone.
    pub open spec fn delete_service(self, service_handle: Handle) -> GattModel {
        if self.service_handle == Some(service_handle) {
            GattModel { c1_handle: None, c2_handle: None, c2_cccd_handle: None, ..self }
        } else {
            self
        }
    }

    /// The service was unregistered: it is gone.
    pub open spec fn unregister_service(self, service_handle: Handle) -> GattModel {
        if self.service_handle == Some(service_handle) {
            GattModel { gatt_if: None, service_handle: None, ..self }
        } else {
            self
        }
    }

    /// A characteristic was added to a service.
    pub open spec fn register_characteristic(
        self,
        service_handle: Handle,
        attr_handle: Handle,
        char_uuid: BtUuid,
    ) -> GattModel {
        if self.service_handle != Some(service_handle) {
            self
        } else if char_uuid == BtUuid::Uuid128(C1_CHARACTERISTIC_UUID) {
            GattModel { c1_handle: Some(attr_handle), ..self }
        } else if char_uuid == BtUuid::Uuid128(C2_CHARACTERISTIC_UUID) {
            GattModel { c2_handle: Some(attr_handle), ..self }
        } else {
            self
        }
    }

    /// A descriptor was added to a service.
    pub open spec fn register_cccd_descriptor(
        self,
        service_handle: Handle,
        attr_handle: Handle,
        descr_uuid: BtUuid,
    ) -> GattModel {
        if descr_uuid == BtUuid::Uuid16(CCCD_UUID16) && self.service_handle == Some(service_handle) {
            GattModel { c2_cccd_handle: Some(attr_handle), ..self }
        } else {
            self
        }
    }

    /// The connection at `i` becomes `conn`.
    pub open spec fn with_conn(self, i: int, conn: Connection) -> GattModel {
        GattModel { connections: self.connections.update(i, conn), ..self }
    }

    /// The MTU of a connection is known.
    pub open spec fn register_conn_mtu(self, conn_id: ConnectionId, mtu: u16) -> GattModel {
        match find(self.connections, with_id(conn_id)) {
            Some(i) => self.with_conn(i, Connection { mtu: Some(mtu), ..self.connections[i] }),
            None => self,
        }
    }

    /// A peer connected: it is remembered where there is room.
    pub open spec fn create_conn(self, conn_id: ConnectionId, addr: BdAddr) -> GattModel {
        if self.connections.len() < self.max_connections {
            GattModel {
                connections: self.connections.push(
                    Connection { peer: addr, conn_id, subscribed: false, mtu: None },
                ),
                ..self
            }
        } else {
            self
        }
    }

    /// A peer disconnected: its first connection gives its place to the last one.
    pub open spec fn delete_conn(self, addr: BdAddr) -> GattModel {
        match find(self.connections, of_peer(addr.0)) {
            Some(i) => GattModel {
                connections: self.connections.update(i, self.connections.last()).drop_last(),
                ..self
            },
            None => self,
        }
    }

    /// What a write changes, and what the BTP protocol is told of it.
    ///
    /// A write of two bytes to the subscription descriptor subscribes the peer where the value,
    /// read as little endian, is 2, and unsubscribes it where it is anything else. A write to
    /// `C1` is data. Writes with an offset, and writes over unknown connections, are ignored.
    pub open spec fn on_write<'a>(
        self,
        conn_id: ConnectionId,
        addr: BdAddr,
        handle: Handle,
        offset: u16,
        value: &'a [u8],
    ) -> (GattModel, Option<GattPeripheralEvent<'a>>) {
        match find(self.connections, with_id(conn_id)) {
            None => (self, None),
            Some(i) => {
                let conn = self.connections[i];
                if offset != 0 {
                    (self, None)
                } else if self.c2_cccd_handle == Some(handle) {
                    let subscribe = value@[0] + 256 * value@[1] == 2;
                    if value@.len() != 2 || conn.subscribed == subscribe {
                        (self, None)
                    } else if subscribe {
                        (
                            self.with_conn(i, Connection { subscribed: true, ..conn }),
                            Some(GattPeripheralEvent::NotifySubscribed(BtAddr(addr.0))),
                        )
                    } else {
                        (
                            self.with_conn(i, Connection { subscribed: false, ..conn }),
                            Some(GattPeripheralEvent::NotifyUnsubscribed(BtAddr(addr.0))),
                        )
                    }
                } else if self.c1_handle == Some(handle) {
                    (
                        self,
                        Some(
                            GattPeripheralEvent::Write { address: BtAddr(addr.0), data: value, gatt_mtu: conn.mtu },
                        ),
                    )
                } else {
                    (self, None)
                }
            },
        }
    }

    /// The state after an event of the GATT server. Events that report a failure change nothing.
    pub open spec fn after_gatts_event(self, app_id: u16, gatt_if: GattInterface, event: GattsEvent<'_>) -> GattModel {
        match event {
            GattsEvent::ServiceRegistered { status: GattStatus::Success, app_id: registered } => if registered
                == app_id {
                GattModel { gatt_if: Some(gatt_if), ..self }
            } else {
                self
            },
            GattsEvent::ServiceCreated { status: GattStatus::Success, service_handle } => self.with_service(
                service_handle,
            ),
            GattsEvent::CharacteristicAdded {
                status: GattStatus::Success,
                attr_handle,
                service_handle,
                char_uuid,
            } => self.register_characteristic(service_handle, attr_handle, char_uuid),
            GattsEvent::DescriptorAdded {
                status: GattStatus::Success,
                attr_handle,
                service_handle,
                descr_uuid,
            } => self.register_cccd_descriptor(service_handle, attr_handle, descr_uuid),
            GattsEvent::ServiceDeleted { status: GattStatus::Success, service_handle } => self.delete_service(
                service_handle,
            ),
            GattsEvent::ServiceUnregistered { status: GattStatus::Success, service_handle } =>
            self.unregister_service(service_handle),
            GattsEvent::Mtu { conn_id, mtu } => self.register_conn_mtu(conn_id, mtu),
            GattsEvent::PeerConnected { conn_id, addr } => self.create_conn(conn_id, addr),
            GattsEvent::PeerDisconnected { addr } => self.delete_conn(addr),
            GattsEvent::Write { conn_id, addr, handle, offset, value, .. } => self.on_write(
                conn_id,
                addr,
                handle,
                offset,
                value,
            ).0,
            GattsEvent::Confirm { status: GattStatus::Success } => GattModel { ind_in_flight: false, ..self },
            _ => self,
        }
    }

    /// What an event of the GATT server asks for.
    pub open spec fn gatts_event_outcome<'a>(
        self,
        app_id: u16,
        service_name: &'a str,
        service_adv_data: &'a [u8],
        gatt_if: GattInterface,
        event: GattsEvent<'a>,
    ) -> Result<Seq<GattAction<'a>>, EspError> {
        match event {
            GattsEvent::ServiceRegistered { status: GattStatus::Success, app_id: registered } => if registered
                == app_id {
                Ok(
                    seq![
                        GattAction::SetDeviceName(service_name),
                        GattAction::SetRawAdvConf(service_adv_data),
                        GattAction::CreateService {
                            gatt_if,
                            uuid: BtUuid::Uuid16(MATTER_BLE_SERVICE_UUID16),
                            inst_id: 0,
                            is_primary: true,
                            num_handles: NUM_HANDLES,
                        },
                    ],
                )
            } else {
                Ok(seq![])
            },
            GattsEvent::ServiceCreated { status: GattStatus::Success, service_handle } => Ok(
                seq![
                    GattAction::StartService(service_handle),
                    GattAction::AddCharacteristic { service_handle, characteristic: c1_characteristic() },
                    GattAction::AddCharacteristic { service_handle, characteristic: c2_characteristic() },
                ],
            ),
            GattsEvent::CharacteristicAdded { status: GattStatus::Success, service_handle, char_uuid, .. } => if
            self.service_handle == Some(service_handle) && char_uuid == BtUuid::Uuid128(C2_CHARACTERISTIC_UUID) {
                Ok(seq![GattAction::AddDescriptor { service_handle, descriptor: cccd_descriptor() }])
            } else {
                Ok(seq![])
            },
            GattsEvent::PeerConnected { addr, .. } => if self.connections.len() < self.max_connections {
                Ok(
                    seq![
                        GattAction::SetConnParamsConf {
                            addr,
                            min_int_ms: 10,
                            max_int_ms: 20,
                            latency_ms: 0,
                            timeout_ms: 400,
                        },
                    ],
                )
            } else {
                Ok(seq![])
            },
            GattsEvent::PeerDisconnected { addr } => Ok(
                seq![GattAction::Callback(GattPeripheralEvent::NotifyUnsubscribed(BtAddr(addr.0)))],
            ),
            GattsEvent::Write { conn_id, trans_id, addr, handle, offset, need_rsp, is_prep, value } => match
            self.on_write(conn_id, addr, handle, offset, value).1 {
                None => Ok(seq![]),
                Some(told) => match write_response(
                    gatt_if,
                    conn_id,
                    trans_id,
                    handle,
                    offset,
                    need_rsp,
                    is_prep,
                    value,
                ) {
                    Ok(answer) => Ok(answer.push(GattAction::Callback(told))),
                    Err(err) => Err(err),
                },
            },
            GattsEvent::ServiceRegistered { status: GattStatus::Other(_), .. }
            | GattsEvent::ServiceCreated { status: GattStatus::Other(_), .. }
            | GattsEvent::CharacteristicAdded { status: GattStatus::Other(_), .. }
            | GattsEvent::DescriptorAdded { status: GattStatus::Other(_), .. }
            | GattsEvent::ServiceDeleted { status: GattStatus::Other(_), .. }
            | GattsEvent::ServiceUnregistered { status: GattStatus::Other(_), .. }
            | GattsEvent::Confirm { status: GattStatus::Other(_) } => Err(EspError { code: ESP_FAIL }),
            _ => Ok(seq![]),
        }
    }
}

/// Fails where the GAP operation did.
pub fn check_bt_status(status: BtStatus) -> (r: Result<(), EspError>)
    ensures
        r == (match status {
            BtStatus::Success => Result::<(), EspError>::Ok(()),
            BtStatus::Other(_) => Err(EspError { code: ESP_FAIL }),
        }),
{
    match status {
        BtStatus::Success => Ok(()),
        BtStatus::Other(_) => Err(EspError::from_infallible(ESP_FAIL)),
    }
}

/// Fails where the GATT operation did.
pub fn check_gatt_status(status: GattStatus) -> (r: Result<(), EspError>)
    ensures
        r == (match status {
            GattStatus::Success => Result::<(), EspError>::Ok(()),
            GattStatus::Other(_) => Err(EspError { code: ESP_FAIL }),
        }),
{
    match status {
        GattStatus::Success => Ok(()),
        GattStatus::Other(_) => Err(EspError::from_infallible(ESP_FAIL)),
    }
}

/// Answers an event of the GAP layer: once the advertising payload is set, advertising starts.
pub fn on_gap_event(event: BleGapEvent) -> (r: Result<Vec<GattAction<'static>>, EspError>)
    ensures
        outcome(r) == (match event {
            BleGapEvent::RawAdvertisingConfigured(BtStatus::Success) => Ok(seq![GattAction::StartAdvertising]),
            BleGapEvent::RawAdvertisingConfigured(BtStatus::Other(_)) => Err(EspError { code: ESP_FAIL }),
            BleGapEvent::Other => Ok(seq![]),
        }),
{
    match event {
        BleGapEvent::RawAdvertisingConfigured(status) => {
            match check_bt_status(status) {
                Err(err) => Err(err),
                Ok(()) => {
                    let actions = vec![GattAction::StartAdvertising];
                    assert(actions@ =~= seq![GattAction::StartAdvertising]);
                    Ok(actions)
                },
            }
        },
        BleGapEvent::Other => {
            let actions = Vec::new();
            assert(actions@ =~= seq![]);
            Ok(actions)
        },
    }
}

impl BtpGattContext {
    /// Create a new instance that remembers up to `DEFAULT_MAX_CONNECTIONS` peers.
    pub fn new() -> (r: Self)
        ensures
            r@.wf(),
            r@ == GattModel::fresh(DEFAULT_MAX_CONNECTIONS as nat),
    {
        Self::with_max_connections(DEFAULT_MAX_CONNECTIONS)
    }

    /// Create a new instance that remembers up to the given number of peers: that of the sessions
    /// that the BTP protocol keeps. There is room for `MAX_CONNECTIONS` of them.
    pub fn with_max_connections(max_connections: usize) -> (r: Self)
        requires
            max_connections <= MAX_CONNECTIONS,
        ensures
            r@.wf(),
            r@ == GattModel::fresh(max_connections as nat),
    {
        BtpGattContext {
            state: State {
                gatt_if: None,
                service_handle: None,
                c1_handle: None,
                c2_handle: None,
                c2_cccd_handle: None,
                connections: conns_new(),
            },
            max_connections,
            ind: IndBuffer { addr: BtAddr([0u8, 0, 0, 0, 0, 0]), data: ind_new() },
            ind_locked: false,
            ind_in_flight: false,
        }
    }

    /// Forget the service and any indication.
    ///
    /// Fails while an indication is being sent: then this indication alone is kept.
    pub fn reset(&mut self) -> (r: Result<(), EspError>)
        ensures
            final(self)@ == old(self)@.reset(),
            r == (if old(self)@.ind_locked {
                Result::<(), EspError>::Err(EspError { code: ESP_ERR_INVALID_STATE })
            } else {
                Ok(())
            }),
    {
        self.state.gatt_if = None;
        self.state.service_handle = None;
        self.state.c1_handle = None;
        self.state.c2_handle = None;
        self.state.c2_cccd_handle = None;

        self.ind_in_flight = false;

        if self.ind_locked {
            return Err(EspError::from_infallible(ESP_ERR_INVALID_STATE));
        }
        ind_clear(&mut self.ind.data);

        Ok(())
    }

    /// Whether an indication waits for its confirmation.
    pub fn in_flight(&self) -> (r: bool)
        ensures
            r == self@.ind_in_flight,
    {
        self.ind_in_flight
    }

    /// Where data for the peer is indicated, if the peer can be reached.
    pub fn ind_target(&self, address: BtAddr) -> (r: Option<IndTarget>)
        ensures
            r == self@.ind_target(address),
    {
        let conns = conns_as_slice(&self.state.connections);
        match (self.state.gatt_if, self.state.c2_handle, position_subscribed(conns, &address.0)) {
            (Some(gatt_if), Some(attr_handle), Some(i)) => Some(
                IndTarget { gatt_if, conn_id: conns[i].conn_id, attr_handle },
            ),
            _ => None,
        }
    }

    /// The application is registered: name the device, and create the service.
    fn create_service<'a>(
        &mut self,
        gatt_if: GattInterface,
        service_name: &'a str,
        service_adv_data: &'a [u8],
    ) -> (r: Vec<GattAction<'a>>)
        ensures
            final(self)@ == (GattModel { gatt_if: Some(gatt_if), ..old(self)@ }),
            r@ == seq![
                GattAction::SetDeviceName(service_name),
                GattAction::SetRawAdvConf(service_adv_data),
                GattAction::CreateService {
                    gatt_if,
                    uuid: BtUuid::Uuid16(MATTER_BLE_SERVICE_UUID16),
                    inst_id: 0,
                    is_primary: true,
                    num_handles: NUM_HANDLES,
                },
            ],
    {
        self.state.gatt_if = Some(gatt_if);

        vec![
            GattAction::SetDeviceName(service_name),
            GattAction::SetRawAdvConf(service_adv_data),
            GattAction::CreateService {
                gatt_if,
                uuid: BtUuid::Uuid16(MATTER_BLE_SERVICE_UUID16),
                inst_id: 0,
                is_primary: true,
                num_handles: NUM_HANDLES,
            },
        ]
    }

    /// The service is deleted: forget its attributes.
    fn delete_service(&mut self, service_handle: Handle)
        ensures
            final(self)@ == old(self)@.delete_service(service_handle),
    {
        if self.state.service_handle == Some(service_handle) {
            self.state.c1_handle = None;
            self.state.c2_handle = None;
            self.state.c2_cccd_handle = None;
        }
    }

    /// The service is unregistered: forget it.
    fn unregister_service(&mut self, service_handle: Handle)
        ensures
            final(self)@ == old(self)@.unregister_service(service_handle),
    {
        if self.state.service_handle == Some(service_handle) {
            self.state.gatt_if = None;
            self.state.service_handle = None;
        }
    }

    /// The service is created: start it, and add its characteristics.
    fn configure_and_start_service<'a>(&mut self, service_handle: Handle) -> (r: Vec<GattAction<'a>>)
        ensures
            final(self)@ == old(self)@.with_service(service_handle),
            r@ == seq![
                GattAction::StartService(service_handle),
                GattAction::AddCharacteristic { service_handle, characteristic: c1_characteristic() },
                GattAction::AddCharacteristic { service_handle, characteristic: c2_characteristic() },
            ],
    {
        self.state.service_handle = Some(service_handle);

        vec![
            GattAction::StartService(service_handle),
            GattAction::AddCharacteristic {
                service_handle,
                characteristic: GattCharacteristic {
                    uuid: BtUuid::Uuid128(C1_CHARACTERISTIC_UUID),
                    permissions: Permissions { read: false, write: true },
                    properties: Properties { write: true, indicate: false },
                    max_len: C1_MAX_LEN,
                    auto_rsp: AutoResponse::ByApp,
                },
            },
            GattAction::AddCharacteristic {
                service_handle,
                characteristic: GattCharacteristic {
                    uuid: BtUuid::Uuid128(C2_CHARACTERISTIC_UUID),
                    permissions: Permissions { read: true, write: true },
                    properties: Properties { write: false, indicate: true },
                    max_len: C2_MAX_LEN,
                    auto_rsp: AutoResponse::ByApp,
                },
            },
        ]
    }

    /// A characteristic is added: remember its handle, and add the descriptor of `C2`.
    fn register_characteristic<'a>(
        &mut self,
        service_handle: Handle,
        attr_handle: Handle,
        char_uuid: BtUuid,
    ) -> (r: Vec<GattAction<'a>>)
        ensures
            final(self)@ == old(self)@.register_characteristic(service_handle, attr_handle, char_uuid),
            r@ == (if old(self)@.service_handle == Some(service_handle) && char_uuid == BtUuid::Uuid128(
                C2_CHARACTERISTIC_UUID,
            ) {
                seq![GattAction::AddDescriptor { service_handle, descriptor: cccd_descriptor() }]
            } else {
                seq![]
            }),
    {
        if self.state.service_handle != Some(service_handle) {
            return Vec::new();
        }
        if char_uuid == BtUuid::Uuid128(C1_CHARACTERISTIC_UUID) {
            self.state.c1_handle = Some(attr_handle);

            Vec::new()
        } else if char_uuid == BtUuid::Uuid128(C2_CHARACTERISTIC_UUID) {
            self.state.c2_handle = Some(attr_handle);

            vec![
                GattAction::AddDescriptor {
                    service_handle,
                    descriptor: GattDescriptor {
                        uuid: BtUuid::Uuid16(CCCD_UUID16),
                        permissions: Permissions { read: true, write: true },
                    },
                },
            ]
        } else {
            Vec::new()
        }
    }

    /// A descriptor is added: remember the handle of the subscription descriptor.
    fn register_cccd_descriptor(&mut self, service_handle: Handle, attr_handle: Handle, descr_uuid: BtUuid)
        ensures
            final(self)@ == old(self)@.register_cccd_descriptor(service_handle, attr_handle, descr_uuid),
    {
        if descr_uuid == BtUuid::Uuid16(CCCD_UUID16) && self.state.service_handle == Some(service_handle) {
            self.state.c2_cccd_handle = Some(attr_handle);
        }
    }

    /// The MTU of a connection is negotiated: remember it.
    fn register_conn_mtu(&mut self, conn_id: ConnectionId, mtu: u16)
        ensures
            final(self)@ == old(self)@.register_conn_mtu(conn_id, mtu),
    {
        if let Some(i) = position_by_id(conns_as_slice(&self.state.connections), conn_id) {
            let conns = conns_as_mut_slice(&mut self.state.connections);
            conns[i].mtu = Some(mtu);
        }
    }

    /// A peer is connected: remember it where there is room, and tune its connection.
    fn create_conn<'a>(&mut self, conn_id: ConnectionId, addr: BdAddr) -> (r: Vec<GattAction<'a>>)
        requires
            old(self)@.wf(),
        ensures
            final(self)@ == old(self)@.create_conn(conn_id, addr),
            r@ == (if old(self)@.connections.len() < old(self)@.max_connections {
                seq![
                    GattAction::SetConnParamsConf {
                        addr,
                        min_int_ms: 10,
                        max_int_ms: 20,
                        latency_ms: 0,
                        timeout_ms: 400,
                    },
                ]
            } else {
                seq![]
            }),
    {
        if conns_as_slice(&self.state.connections).len() < self.max_connections {
            let _ = conns_push(
                &mut self.state.connections,
                Connection { peer: addr, conn_id, subscribed: false, mtu: None },
            );

            vec![
                GattAction::SetConnParamsConf {
                    addr,
                    min_int_ms: 10,
                    max_int_ms: 20,
                    latency_ms: 0,
                    timeout_ms: 400,
                },
            ]
        } else {
            Vec::new()
        }
    }

    /// A peer is disconnected: forget it, and tell that it is no longer subscribed.
    fn delete_conn<'a>(&mut self, addr: BdAddr) -> (r: Vec<GattAction<'a>>)
        ensures
            final(self)@ == old(self)@.delete_conn(addr),
            r@ == seq![GattAction::Callback(GattPeripheralEvent::NotifyUnsubscribed(BtAddr(addr.0)))],
    {
        if let Some(index) = position_by_peer(conns_as_slice(&self.state.connections), &addr.0) {
            let _ = conns_swap_remove(&mut self.state.connections, index);
        }
        vec![GattAction::Callback(GattPeripheralEvent::NotifyUnsubscribed(BtAddr(addr.0)))]
    }

    /// What a write changes, and what is told of it.
    fn on_write<'a>(
        &mut self,
        conn_id: ConnectionId,
        addr: BdAddr,
        handle: Handle,
        offset: u16,
        value: &'a [u8],
    ) -> (r: Option<GattPeripheralEvent<'a>>)
        ensures
            final(self)@ == old(self)@.on_write(conn_id, addr, handle, offset, value).0,
            r == old(self)@.on_write(conn_id, addr, handle, offset, value).1,
    {
        let c1_handle = self.state.c1_handle;
        let c2_cccd_handle = self.state.c2_cccd_handle;

        let i: usize = match position_by_id(conns_as_slice(&self.state.connections), conn_id) {
            Some(i) => i,
            None => {
                return None;
            },
        };
        let conns = conns_as_mut_slice(&mut self.state.connections);

        if c2_cccd_handle == Some(handle) {
            if offset == 0 && value.len() == 2 {
                let cccd: u16 = value[0] as u16 + 256 * (value[1] as u16);
                if cccd == 0x02 {
                    if !conns[i].subscribed {
                        conns[i].subscribed = true;
                        return Some(GattPeripheralEvent::NotifySubscribed(BtAddr(addr.0)));
                    }
                } else if conns[i].subscribed {
                    conns[i].subscribed = false;
                    return Some(GattPeripheralEvent::NotifyUnsubscribed(BtAddr(addr.0)));
                }
            }
        } else if c1_handle == Some(handle) && offset == 0 {
            return Some(
                GattPeripheralEvent::Write { address: BtAddr(addr.0), data: value, gatt_mtu: conns[i].mtu },
            );
        }
        None
    }

    /// A peer writes: change its subscription or take its data, answer it, and tell of it.
    fn write<'a>(
        &mut self,
        gatt_if: GattInterface,
        conn_id: ConnectionId,
        trans_id: TransferId,
        addr: BdAddr,
        handle: Handle,
        offset: u16,
        need_rsp: bool,
        is_prep: bool,
        value: &'a [u8],
    ) -> (r: Result<Vec<GattAction<'a>>, EspError>)
        ensures
            final(self)@ == old(self)@.on_write(conn_id, addr, handle, offset, value).0,
            outcome(r) == (match old(self)@.on_write(conn_id, addr, handle, offset, value).1 {
                None => Ok(seq![]),
                Some(told) => match write_response(
                    gatt_if,
                    conn_id,
                    trans_id,
                    handle,
                    offset,
                    need_rsp,
                    is_prep,
                    value,
                ) {
                    Ok(answer) => Ok(answer.push(GattAction::Callback(told))),
                    Err(err) => Err(err),
                },
            }),
    {
        match self.on_write(conn_id, addr, handle, offset, value) {
            None => {
                let actions = Vec::new();
                assert(actions@ =~= seq![]);
                Ok(actions)
            },
            Some(told) => {
                match send_write_response(gatt_if, conn_id, trans_id, handle, offset, need_rsp, is_prep, value) {
                    Err(err) => Err(err),
                    Ok(answer) => {
                        let mut actions = answer;
                        actions.push(GattAction::Callback(told));
                        Ok(actions)
                    },
                }
            },
        }
    }

    /// Answer an event of the GATT server.
    ///
    /// A confirmation is expected only while an indication is in flight, and the advertising
    /// payload has to fit once it is needed.
    pub fn on_gatts_event<'a>(
        &mut self,
        app_id: u16,
        service_name: &'a str,
        service_adv_data: &'a [u8],
        gatt_if: GattInterface,
        event: GattsEvent<'a>,
    ) -> (r: Result<Vec<GattAction<'a>>, EspError>)
        requires
            old(self)@.wf(),
            event == (GattsEvent::ServiceRegistered { status: GattStatus::Success, app_id })
                ==> service_adv_data@.len() <= MAX_ADV_LEN,
            event == (GattsEvent::Confirm { status: GattStatus::Success }) ==> old(self)@.ind_in_flight,
        ensures
            final(self)@.wf(),
            final(self)@ == old(self)@.after_gatts_event(app_id, gatt_if, event),
            outcome(r) == old(self)@.gatts_event_outcome(app_id, service_name, service_adv_data, gatt_if, event),
    {
        proof {
            lemma_find_all(self@.connections);
        }
        let mut actions = Vec::new();
        match event {
            GattsEvent::ServiceRegistered { status, app_id: registered } => {
                check_gatt_status(status)?;
                if registered == app_id {
                    actions = self.create_service(gatt_if, service_name, service_adv_data);
                }
            },
            GattsEvent::ServiceCreated { status, service_handle } => {
                check_gatt_status(status)?;
                actions = self.configure_and_start_service(service_handle);
            },
            GattsEvent::CharacteristicAdded { status, attr_handle, service_handle, char_uuid } => {
                check_gatt_status(status)?;
                actions = self.register_characteristic(service_handle, attr_handle, char_uuid);
            },
            GattsEvent::DescriptorAdded { status, attr_handle, service_handle, descr_uuid } => {
                check_gatt_status(status)?;
                self.register_cccd_descriptor(service_handle, attr_handle, descr_uuid);
            },
            GattsEvent::ServiceDeleted { status, service_handle } => {
                check_gatt_status(status)?;
                self.delete_service(service_handle);
            },
            GattsEvent::ServiceUnregistered { status, service_handle } => {
                check_gatt_status(status)?;
                self.unregister_service(service_handle);
            },
            GattsEvent::Mtu { conn_id, mtu } => {
                self.register_conn_mtu(conn_id, mtu);
            },
            GattsEvent::PeerConnected { conn_id, addr } => {
                actions = self.create_conn(conn_id, addr);
            },
            GattsEvent::PeerDisconnected { addr } => {
                actions = self.delete_conn(addr);
            },
            GattsEvent::Write { conn_id, trans_id, addr, handle, offset, need_rsp, is_prep, value } => {
                return self.write(gatt_if, conn_id, trans_id, addr, handle, offset, need_rsp, is_prep, value);
            },
            GattsEvent::Confirm { status } => {
                check_gatt_status(status)?;
                self.ind_in_flight = false;
            },
            GattsEvent::Other => {},
        }
        Ok(actions)
    }
}

/// How a write is answered.
fn send_write_response<'a>(
    gatt_if: GattInterface,
    conn_id: ConnectionId,
    trans_id: TransferId,
    handle: Handle,
    offset: u16,
    need_rsp: bool,
    is_prep: bool,
    value: &'a [u8],
) -> (r: Result<Vec<GattAction<'a>>, EspError>)
    ensures
        outcome(r) == write_response(gatt_if, conn_id, trans_id, handle, offset, need_rsp, is_prep, value),
{
    let mut actions = Vec::new();
    if need_rsp {
        if is_prep {
            if value.len() > MAX_RESPONSE_LEN {
                return Err(EspError::from_infallible(ESP_FAIL));
            }
            actions.push(
                GattAction::SendResponse {
                    gatt_if,
                    conn_id,
                    trans_id,
                    response: Some(GattResponse { attr_handle: handle, auth_req: 0, offset, value }),
                },
            );
        } else {
            actions.push(GattAction::SendResponse { gatt_if, conn_id, trans_id, response: None });
        }
    }
    proof {
        let expected = write_response(gatt_if, conn_id, trans_id, handle, offset, need_rsp, is_prep, value);
        assert(actions@ =~= expected->Ok_0);
    }
    Ok(actions)
}

/// What `find` yields is a position of the sequence.
proof fn lemma_find_all(conns: Seq<Connection>)
    ensures
        forall|p: spec_fn(Connection) -> bool| #[trigger] find(conns, p) is Some ==> 0 <= find(conns, p)->0
            < conns.len(),
{
    assert forall|p: spec_fn(Connection) -> bool| #[trigger] find(conns, p) is Some implies 0 <= find(conns, p)->0
        < conns.len() by {
        lemma_find_inv(conns, p);
    }
}

impl Default for BtpGattContext {
    fn default() -> (r: Self)
        ensures
            r@.wf(),
            r@ == GattModel::fresh(DEFAULT_MAX_CONNECTIONS as nat),
    {
        Self::new()
    }
}

/// What happened to a running peripheral.
#[derive(Debug, Copy, Clone, PartialEq, Eq)]
pub enum RunEvent {
    /// The events of the Bluetooth stack are subscribed to.
    Subscribed,
    /// The application was registered, or not.
    Registered(Result<(), EspError>),
    /// The context may have changed.
    Woken,
    /// The indication was handed to the Bluetooth stack, or not.
    Indicated(Result<(), EspError>),
}

/// What a running peripheral does next.
#[derive(Debug, PartialEq, Eq)]
pub enum RunAction {
    RegisterApp(u16),
    /// Wait until the context has changed.
    Wait,
    Indicate { target: IndTarget, data: Vec<u8> },
    /// Stop with the error.
    Fail(EspError),
}

/// The contents of a `RunAction`.
#[verifier::ext_equal]
pub enum RunStep {
    RegisterApp(u16),
    Wait,
    Indicate { target: IndTarget, data: Seq<u8> },
    Fail(EspError),
}

impl View for RunAction {
    type V = RunStep;

    open spec fn view(&self) -> RunStep {
        match *self {
            RunAction::RegisterApp(app_id) => RunStep::RegisterApp(app_id),
            RunAction::Wait => RunStep::Wait,
            RunAction::Indicate { target, data } => RunStep::Indicate { target, data: data@ },
            RunAction::Fail(err) => RunStep::Fail(err),
        }
    }
}

impl GattModel {
    /// An indication is submitted: it is taken where none waits.
    pub open spec fn submit(self, data: Seq<u8>, address: BtAddr) -> (GattModel, bool) {
        if self.ind_data.len() == 0 && !self.ind_locked {
            (GattModel { ind_data: data, ind_addr: address, ..self }, true)
        } else {
            (self, false)
        }
    }

    /// The running peripheral looks at the context. Once no indication is in flight, the one
    /// that waits is sent, or dropped where its peer cannot be reached; it counts as in flight
    /// either way.
    pub open spec fn poll(self) -> (GattModel, RunStep) {
        if self.ind_in_flight || self.ind_locked || self.ind_data.len() == 0 {
            (self, RunStep::Wait)
        } else {
            match self.ind_target(self.ind_addr) {
                Some(target) => (
                    GattModel { ind_in_flight: true, ind_locked: true, ..self },
                    RunStep::Indicate { target, data: self.ind_data },
                ),
                None => (GattModel { ind_in_flight: true, ind_data: seq![], ..self }, RunStep::Wait),
            }
        }
    }

    /// One step of the running peripheral.
    pub open spec fn run(self, app_id: u16, event: RunEvent) -> (GattModel, RunStep) {
        match event {
            RunEvent::Subscribed => (self, RunStep::RegisterApp(app_id)),
            RunEvent::Registered(Err(err)) => (self, RunStep::Fail(err)),
            RunEvent::Registered(Ok(())) | RunEvent::Woken => self.poll(),
            RunEvent::Indicated(Err(err)) => (GattModel { ind_locked: false, ..self }, RunStep::Fail(err)),
            RunEvent::Indicated(Ok(())) => (
                GattModel { ind_locked: false, ind_data: seq![], ..self },
                RunStep::Wait,
            ),
        }
    }
}

/// A GATT peripheral for the BTP protocol.
#[derive(Debug, PartialEq, Eq)]
pub struct BtpGattPeripheral {
    /// The application id under which the peripheral registers with the Bluetooth stack.
    pub app_id: u16,
}

impl BtpGattPeripheral {
    /// Create a new instance.
    ///
    /// Creation fails if the GATT context cannot be reset, so there should be no other GATT
    /// peripheral running on it.
    pub fn new(app_id: u16, context: &mut BtpGattContext) -> (r: Result<Self, EspError>)
        ensures
            final(context)@ == old(context)@.reset(),
            r == (if old(context)@.ind_locked {
                Err(EspError { code: ESP_ERR_INVALID_STATE })
            } else {
                Ok(BtpGattPeripheral { app_id })
            }),
    {
        match context.reset() {
            Err(err) => Err(err),
            Ok(()) => Ok(BtpGattPeripheral { app_id }),
        }
    }

    /// Run the GATT peripheral, one step at a time.
    pub fn run(&self, context: &mut BtpGattContext, event: RunEvent) -> (r: RunAction)
        ensures
            final(context)@ == old(context)@.run(self.app_id, event).0,
            r@ == old(context)@.run(self.app_id, event).1,
    {
        match event {
            RunEvent::Subscribed => RunAction::RegisterApp(self.app_id),
            RunEvent::Registered(Err(err)) => RunAction::Fail(err),
            RunEvent::Registered(Ok(())) | RunEvent::Woken => {
                if context.ind_in_flight || context.ind_locked || ind_as_slice(&context.ind.data).len() == 0 {
                    return RunAction::Wait;
                }
                context.ind_in_flight = true;

                match context.ind_target(context.ind.addr) {
                    Some(target) => {
                        context.ind_locked = true;
                        RunAction::Indicate { target, data: vstd::slice::slice_to_vec(ind_as_slice(&context.ind.data)) }
                    },
                    None => {
                        ind_clear(&mut context.ind.data);
                        RunAction::Wait
                    },
                }
            },
            RunEvent::Indicated(Err(err)) => {
                context.ind_locked = false;
                RunAction::Fail(err)
            },
            RunEvent::Indicated(Ok(())) => {
                context.ind_locked = false;
                ind_clear(&mut context.ind.data);
                RunAction::Wait
            },
        }
    }

    /// Indicate new data on characteristic `C2` to a remote peer.
    ///
    /// Returns whether the data was taken. Where it was not, another indication waits, and the
    /// caller tries again once the context has changed.
    pub fn indicate(&self, context: &mut BtpGattContext, data: &[u8], address: BtAddr) -> (r: bool)
        requires
            data@.len() <= MAX_MTU_SIZE,
        ensures
            final(context)@ == old(context)@.submit(data@, address).0,
            r == old(context)@.submit(data@, address).1,
    {
        if context.ind_locked || ind_as_slice(&context.ind.data).len() != 0 {
            return false;
        }
        let _ = ind_extend_from_slice(&mut context.ind.data, data);
        context.ind.addr = address;
        proof {
            assert(Seq::<u8>::empty() + data@ =~= data@);
            assert(ind_bytes(old(context).ind.data) =~= seq![]);
        }
        true
    }
}

} // verus!
