//! What holds of the GATT peripheral as a whole.

use vstd::prelude::*;

use crate::ble::{
    find, first_at, lemma_find, lemma_find_inv, of_peer, outcome, subscribed_of_peer, with_id, BdAddr, BtAddr, BtUuid, Connection, ConnectionId, GattAction, GattInterface, GattModel, GattPeripheralEvent, GattStatus,
    GattsEvent, Handle, IndTarget, RunAction, RunEvent, RunStep, TransferId, C1_CHARACTERISTIC_UUID, C2_CHARACTERISTIC_UUID,
    CCCD_UUID16, MAX_CONNECTIONS, MAX_RESPONSE_LEN,
};
use crate::error::{EspError, ESP_FAIL};

verus! {

/// The number of connections of a peer.
pub open spec fn count_of(conns: Seq<Connection>, addr: [u8; 6]) -> nat
    decreases conns.len(),
{
    if conns.len() == 0 {
        0
    } else {
        count_of(conns.drop_last(), addr) + if conns.last().peer.0 == addr {
            1nat
        } else {
            0nat
        }
    }
}

/// Whether some connection of the peer is subscribed.
pub open spec fn is_subscribed(conns: Seq<Connection>, addr: [u8; 6]) -> bool {
    exists|i: int| 0 <= i < conns.len() && (#[trigger] conns[i]).peer.0 == addr && conns[i].subscribed
}

/// No event of the GATT server makes the context hold more peers than it was made for, and
/// none changes for how many it was made.
pub proof fn law_events_keep_invariant(m: GattModel, app_id: u16, gatt_if: GattInterface, event: GattsEvent<'_>)
    requires
        m.wf(),
    ensures
        m.after_gatts_event(app_id, gatt_if, event).wf(),
        m.after_gatts_event(app_id, gatt_if, event).max_connections == m.max_connections,
{
    match event {
        GattsEvent::Mtu { conn_id, .. } => {
            lemma_find_inv(m.connections, with_id(conn_id));
        },
        GattsEvent::PeerDisconnected { addr } => {
            lemma_find_inv(m.connections, of_peer(addr.0));
        },
        GattsEvent::Write { conn_id, .. } => {
            lemma_find_inv(m.connections, with_id(conn_id));
        },
        _ => {},
    }
}

/// A peer that connects to a full context is neither remembered nor answered.
pub proof fn law_full_context_ignores_peers<'a>(
    m: GattModel,
    app_id: u16,
    name: &'a str,
    adv: &'a [u8],
    gatt_if: GattInterface,
    conn_id: ConnectionId,
    addr: BdAddr,
)
    requires
        m.wf(),
        m.connections.len() == m.max_connections,
    ensures
        ({
            let event = GattsEvent::PeerConnected { conn_id, addr };
            &&& m.after_gatts_event(app_id, gatt_if, event) == m
            &&& m.gatts_event_outcome(app_id, name, adv, gatt_if, event) == Ok::<Seq<GattAction<'a>>, EspError>(
                seq![],
            )
        }),
{
}

/// Whether the event reports that an operation failed.
pub open spec fn reports_failure(event: GattsEvent<'_>) -> bool {
    match event {
        GattsEvent::ServiceRegistered { status, .. }
        | GattsEvent::ServiceCreated { status, .. }
        | GattsEvent::CharacteristicAdded { status, .. }
        | GattsEvent::DescriptorAdded { status, .. }
        | GattsEvent::ServiceDeleted { status, .. }
        | GattsEvent::ServiceUnregistered { status, .. }
        | GattsEvent::Confirm { status } => status is Other,
        _ => false,
    }
}

/// Whether the event is a prepared write that is to be answered, but whose value is too long for
/// an answer.
pub open spec fn is_unanswerable(m: GattModel, event: GattsEvent<'_>) -> bool {
    match event {
        GattsEvent::Write { conn_id, addr, handle, offset, need_rsp, is_prep, value, .. } => {
            &&& m.on_write(conn_id, addr, handle, offset, value).1 is Some
            &&& need_rsp && is_prep
            &&& value@.len() > MAX_RESPONSE_LEN
        },
        _ => false,
    }
}

/// An event fails exactly where it reports a failure or is a write that cannot be answered, and
/// with the generic code. An event that reports a failure changes nothing.
pub proof fn law_failures_change_nothing<'a>(
    m: GattModel,
    app_id: u16,
    name: &'a str,
    adv: &'a [u8],
    gatt_if: GattInterface,
    event: GattsEvent<'a>,
)
    ensures
        m.gatts_event_outcome(app_id, name, adv, gatt_if, event) is Err <==> reports_failure(event)
            || is_unanswerable(m, event),
        m.gatts_event_outcome(app_id, name, adv, gatt_if, event) matches Err(err) ==> err == (EspError {
            code: ESP_FAIL,
        }),
        reports_failure(event) ==> m.after_gatts_event(app_id, gatt_if, event) == m,
{
}

/// A peer can be reached exactly while the interface and `C2` are known and one of its
/// connections is subscribed. Data for it then goes on `C2` over such a connection, and never
/// to another peer.
pub proof fn law_target_is_subscribed(m: GattModel, address: BtAddr)
    ensures
        m.ind_target(address) is Some <==> m.gatt_if is Some && m.c2_handle is Some && is_subscribed(
            m.connections,
            address.0,
        ),
        m.ind_target(address) matches Some(target) ==> {
            &&& m.gatt_if == Some(target.gatt_if)
            &&& m.c2_handle == Some(target.attr_handle)
            &&& exists|i: int|
                0 <= i < m.connections.len() && (#[trigger] m.connections[i]).peer.0 == address.0
                    && m.connections[i].subscribed && m.connections[i].conn_id == target.conn_id
        },
{
    let p = subscribed_of_peer(address.0);
    lemma_find_inv(m.connections, p);
    if find(m.connections, p) is None {
        assert forall|i: int| 0 <= i < m.connections.len() implies !((#[trigger] m.connections[i]).peer.0
            == address.0 && m.connections[i].subscribed) by {
            assert(!p(m.connections[i]));
        }
    } else {
        let i = find(m.connections, p)->0;
        assert(p(m.connections[i]));
        assert(m.connections[i].peer.0 == address.0 && m.connections[i].subscribed);
    }
}

/// A reset context reaches no peer and has nothing in flight. It keeps its peers, and a second
/// reset changes nothing.
pub proof fn law_reset(m: GattModel, address: BtAddr)
    ensures
        m.reset().ind_target(address) is None,
        !m.reset().ind_in_flight,
        m.reset().connections == m.connections,
        m.reset().reset() == m.reset(),
        m.wf() ==> m.reset().wf(),
{
}

proof fn lemma_count_update(conns: Seq<Connection>, i: int, conn: Connection, addr: [u8; 6])
    requires
        0 <= i < conns.len(),
    ensures
        count_of(conns.update(i, conn), addr) + (if conns[i].peer.0 == addr {
            1nat
        } else {
            0nat
        }) == count_of(conns, addr) + (if conn.peer.0 == addr {
            1nat
        } else {
            0nat
        }),
    decreases conns.len(),
{
    let updated = conns.update(i, conn);
    if i == conns.len() - 1 {
        assert(updated.drop_last() =~= conns.drop_last());
    } else {
        lemma_count_update(conns.drop_last(), i, conn, addr);
        assert(updated.drop_last() =~= conns.drop_last().update(i, conn));
    }
}

proof fn lemma_count_positive(conns: Seq<Connection>, i: int, addr: [u8; 6])
    requires
        0 <= i < conns.len(),
        conns[i].peer.0 == addr,
    ensures
        count_of(conns, addr) > 0,
    decreases conns.len(),
{
    if i < conns.len() - 1 {
        lemma_count_positive(conns.drop_last(), i, addr);
    }
}

/// A peer that disconnects loses one connection, if it has any, and no other peer loses one.
pub proof fn law_disconnect_forgets_one(m: GattModel, addr: BdAddr, other: BdAddr)
    ensures
        count_of(m.delete_conn(addr).connections, addr.0) == (if count_of(m.connections, addr.0) > 0 {
            count_of(m.connections, addr.0) - 1
        } else {
            0
        }),
        other != addr ==> count_of(m.delete_conn(addr).connections, other.0) == count_of(m.connections, other.0),
        forall|i: int|
            0 <= i < m.delete_conn(addr).connections.len() ==> m.connections.contains(
                #[trigger] m.delete_conn(addr).connections[i],
            ),
{
    let conns = m.connections;
    let p = of_peer(addr.0);
    lemma_find_inv(conns, p);
    match find(conns, p) {
        Some(i) => {
            assert(p(conns[i]));
            lemma_count_positive(conns, i, addr.0);
            let moved = conns.update(i, conns.last());
            lemma_count_update(conns, i, conns.last(), addr.0);
            lemma_count_update(conns, i, conns.last(), other.0);
            assert(m.delete_conn(addr).connections == moved.drop_last());
            assert(moved.last() == conns.last());
        },
        None => {
            lemma_count_none(conns, addr.0);
        },
    }
}

proof fn lemma_count_none(conns: Seq<Connection>, addr: [u8; 6])
    requires
        forall|j: int| 0 <= j < conns.len() ==> !of_peer(addr)(#[trigger] conns[j]),
    ensures
        count_of(conns, addr) == 0,
    decreases conns.len(),
{
    if conns.len() > 0 {
        assert(!of_peer(addr)(conns[conns.len() - 1]));
        assert forall|j: int| 0 <= j < conns.drop_last().len() implies !of_peer(addr)(
            #[trigger] conns.drop_last()[j],
        ) by {
            assert(!of_peer(addr)(conns[j]));
        }
        lemma_count_none(conns.drop_last(), addr);
    }
}

/// A peer with a single connection cannot be reached once it has disconnected.
pub proof fn law_disconnected_peer_is_unreachable(m: GattModel, addr: BdAddr)
    requires
        count_of(m.connections, addr.0) <= 1,
    ensures
        m.delete_conn(addr).ind_target(BtAddr(addr.0)) is None,
{
    law_disconnect_forgets_one(m, addr, addr);
    let after = m.delete_conn(addr);
    law_target_is_subscribed(after, BtAddr(addr.0));
    if is_subscribed(after.connections, addr.0) {
        let i = choose|i: int|
            0 <= i < after.connections.len() && (#[trigger] after.connections[i]).peer.0 == addr.0
                && after.connections[i].subscribed;
        lemma_count_positive(after.connections, i, addr.0);
    }
}

/// A write of `subscribe`, two bytes long, to the subscription descriptor.
pub open spec fn is_cccd_write(m: GattModel, handle: Handle, value: &[u8], subscribe: bool) -> bool {
    &&& m.c2_cccd_handle == Some(handle)
    &&& value@.len() == 2
    &&& subscribe == (value@[0] + 256 * value@[1] == 2)
}

/// After a write to the subscription descriptor, the connection is subscribed or not as the
/// write asks. The change is told once: the same write again changes nothing and tells nothing.
pub proof fn law_subscription_follows_writes(
    m: GattModel,
    conn_id: ConnectionId,
    addr: BdAddr,
    handle: Handle,
    value: &[u8],
    subscribe: bool,
    i: int,
)
    requires
        is_cccd_write(m, handle, value, subscribe),
        first_at(m.connections, with_id(conn_id), i),
    ensures
        ({
            let (after, told) = m.on_write(conn_id, addr, handle, 0, value);
            &&& after.connections == m.connections.update(i, Connection { subscribed: subscribe, ..m.connections[i] })
            &&& told == (if m.connections[i].subscribed == subscribe {
                None
            } else if subscribe {
                Some(GattPeripheralEvent::NotifySubscribed(BtAddr(addr.0)))
            } else {
                Some(GattPeripheralEvent::NotifyUnsubscribed(BtAddr(addr.0)))
            })
            &&& after.on_write(conn_id, addr, handle, 0, value) == (after, None::<GattPeripheralEvent<'_>>)
        }),
{
    let p = with_id(conn_id);
    lemma_find(m.connections, p, i);
    let (after, told) = m.on_write(conn_id, addr, handle, 0, value);
    assert(after.connections =~= m.connections.update(i, Connection { subscribed: subscribe, ..m.connections[i] }));
    assert(first_at(after.connections, p, i)) by {
        assert forall|j: int| 0 <= j < i implies !p(#[trigger] after.connections[j]) by {
            assert(!p(m.connections[j]));
        }
    }
    lemma_find(after.connections, p, i);
}

/// A peer that has subscribed can be reached as soon as the interface and `C2` are known.
pub proof fn law_subscribed_peer_is_reachable(
    m: GattModel,
    conn_id: ConnectionId,
    addr: BdAddr,
    handle: Handle,
    value: &[u8],
    i: int,
)
    requires
        is_cccd_write(m, handle, value, true),
        first_at(m.connections, with_id(conn_id), i),
        m.gatt_if is Some,
        m.c2_handle is Some,
    ensures
        m.on_write(conn_id, addr, handle, 0, value).0.ind_target(BtAddr(m.connections[i].peer.0)) is Some,
{
    law_subscription_follows_writes(m, conn_id, addr, handle, value, true, i);
    let after = m.on_write(conn_id, addr, handle, 0, value).0;
    assert(after.connections[i].subscribed);
    law_target_is_subscribed(after, BtAddr(m.connections[i].peer.0));
}

proof fn lemma_count_two(conns: Seq<Connection>, i: int, j: int, addr: [u8; 6])
    requires
        0 <= i < j < conns.len(),
        conns[i].peer.0 == addr,
        conns[j].peer.0 == addr,
    ensures
        count_of(conns, addr) >= 2,
    decreases conns.len(),
{
    if j == conns.len() - 1 {
        lemma_count_positive(conns.drop_last(), i, addr);
    } else {
        lemma_count_two(conns.drop_last(), i, j, addr);
    }
}

/// A peer with a single connection that has unsubscribed cannot be reached.
pub proof fn law_unsubscribed_peer_is_unreachable(
    m: GattModel,
    conn_id: ConnectionId,
    addr: BdAddr,
    handle: Handle,
    value: &[u8],
    i: int,
)
    requires
        is_cccd_write(m, handle, value, false),
        first_at(m.connections, with_id(conn_id), i),
        count_of(m.connections, m.connections[i].peer.0) == 1,
    ensures
        m.on_write(conn_id, addr, handle, 0, value).0.ind_target(BtAddr(m.connections[i].peer.0)) is None,
{
    law_subscription_follows_writes(m, conn_id, addr, handle, value, false, i);
    let after = m.on_write(conn_id, addr, handle, 0, value).0;
    let peer = m.connections[i].peer.0;
    law_target_is_subscribed(after, BtAddr(peer));
    if is_subscribed(after.connections, peer) {
        let j = choose|j: int|
            0 <= j < after.connections.len() && (#[trigger] after.connections[j]).peer.0 == peer
                && after.connections[j].subscribed;
        assert(j != i);
        assert(m.connections[j] == after.connections[j]);
        if i < j {
            lemma_count_two(m.connections, i, j, peer);
        } else {
            lemma_count_two(m.connections, j, i, peer);
        }
    }
}

/// What can happen to a context.
pub enum Happening<'a> {
    /// An event of the GATT server, on an interface.
    Gatts(GattInterface, GattsEvent<'a>),
    /// A step of the running peripheral.
    Run(RunEvent),
    /// Data is submitted for a peer.
    Submit(Seq<u8>, BtAddr),
    /// The context is reset.
    Reset,
}

impl GattModel {
    /// The state after one thing has happened.
    pub open spec fn after(self, app_id: u16, happening: Happening<'_>) -> GattModel {
        match happening {
            Happening::Gatts(gatt_if, event) => self.after_gatts_event(app_id, gatt_if, event),
            Happening::Run(event) => self.run(app_id, event).0,
            Happening::Submit(data, address) => self.submit(data, address).0,
            Happening::Reset => self.reset(),
        }
    }
}

/// The state after a number of things have happened.
pub open spec fn after_all(m: GattModel, app_id: u16, history: Seq<Happening<'_>>) -> GattModel
    decreases history.len(),
{
    if history.len() == 0 {
        m
    } else {
        after_all(m, app_id, history.drop_last()).after(app_id, history.last())
    }
}

/// Whatever happens to a context, it never holds more peers than it was made for.
pub proof fn law_any_history_keeps_invariant(max_connections: nat, app_id: u16, history: Seq<Happening<'_>>)
    requires
        max_connections <= MAX_CONNECTIONS,
    ensures
        after_all(GattModel::fresh(max_connections), app_id, history).wf(),
        after_all(GattModel::fresh(max_connections), app_id, history).max_connections == max_connections,
    decreases history.len(),
{
    if history.len() > 0 {
        law_any_history_keeps_invariant(max_connections, app_id, history.drop_last());
        if let Happening::Gatts(gatt_if, event) = history.last() {
            law_events_keep_invariant(
                after_all(GattModel::fresh(max_connections), app_id, history.drop_last()),
                app_id,
                gatt_if,
                event,
            );
        }
    }
}

/// A peer that was not known and that disconnects again leaves the context as it was.
pub proof fn law_disconnect_undoes_connect(
    m: GattModel,
    app_id: u16,
    gatt_if: GattInterface,
    conn_id: ConnectionId,
    addr: BdAddr,
)
    requires
        count_of(m.connections, addr.0) == 0,
    ensures
        m.after_gatts_event(app_id, gatt_if, GattsEvent::PeerConnected { conn_id, addr }).after_gatts_event(
            app_id,
            gatt_if,
            GattsEvent::PeerDisconnected { addr },
        ) == m,
{
    let p = of_peer(addr.0);
    lemma_find_inv(m.connections, p);
    if let Some(i) = find(m.connections, p) {
        assert(p(m.connections[i]));
        lemma_count_positive(m.connections, i, addr.0);
    }
    let mid = m.create_conn(conn_id, addr);
    let n = m.connections.len() as int;
    if m.connections.len() < m.max_connections {
        assert(first_at(mid.connections, p, n)) by {
            assert forall|j: int| 0 <= j < n implies !p(#[trigger] mid.connections[j]) by {
                assert(!p(m.connections[j]));
            }
        }
        lemma_find(mid.connections, p, n);
        assert(mid.delete_conn(addr).connections =~= m.connections);
    }
}

/// The MTU that was last registered for a connection, since it was made.
pub open spec fn last_mtu(history: Seq<Happening<'_>>, conn_id: ConnectionId) -> Option<u16>
    decreases history.len(),
{
    if history.len() == 0 {
        None
    } else {
        let before = last_mtu(history.drop_last(), conn_id);
        match history.last() {
            Happening::Gatts(_, GattsEvent::Mtu { conn_id: id, mtu }) => if id == conn_id {
                Some(mtu)
            } else {
                before
            },
            Happening::Gatts(_, GattsEvent::PeerConnected { conn_id: id, .. }) => if id == conn_id {
                None
            } else {
                before
            },
            _ => before,
        }
    }
}

/// Whether the context knows a connection with the given id.
pub open spec fn is_known(conns: Seq<Connection>, conn_id: ConnectionId) -> bool {
    exists|i: int| 0 <= i < conns.len() && (#[trigger] conns[i]).conn_id == conn_id
}

/// Whether no connection is made under the id of one that the context still knows.
pub open spec fn ids_are_free(m: GattModel, app_id: u16, history: Seq<Happening<'_>>) -> bool
    decreases history.len(),
{
    history.len() > 0 ==> {
        &&& ids_are_free(m, app_id, history.drop_last())
        &&& history.last() matches Happening::Gatts(_, GattsEvent::PeerConnected { conn_id, .. }) ==> !is_known(
            after_all(m, app_id, history.drop_last()).connections,
            conn_id,
        )
    }
}

/// The connections have different ids, and each has the MTU that was last registered for it.
spec fn mtus_are_current(conns: Seq<Connection>, history: Seq<Happening<'_>>) -> bool {
    &&& forall|i: int, j: int|
        0 <= i < j < conns.len() ==> (#[trigger] conns[i]).conn_id != (#[trigger] conns[j]).conn_id
    &&& forall|i: int| 0 <= i < conns.len() ==> (#[trigger] conns[i]).mtu == last_mtu(history, conns[i].conn_id)
}

proof fn lemma_mtus_are_current(max_connections: nat, app_id: u16, history: Seq<Happening<'_>>)
    requires
        ids_are_free(GattModel::fresh(max_connections), app_id, history),
    ensures
        mtus_are_current(after_all(GattModel::fresh(max_connections), app_id, history).connections, history),
    decreases history.len(),
{
    if history.len() > 0 {
        lemma_mtus_are_current(max_connections, app_id, history.drop_last());
        let before = after_all(GattModel::fresh(max_connections), app_id, history.drop_last());
        let conns = before.connections;
        match history.last() {
            Happening::Gatts(_, GattsEvent::Mtu { conn_id, .. }) => {
                let p = with_id(conn_id);
                lemma_find_inv(conns, p);
                if let Some(i) = find(conns, p) {
                    assert(p(conns[i]));
                } else {
                    assert forall|j: int| 0 <= j < conns.len() implies (#[trigger] conns[j]).conn_id != conn_id by {
                        assert(!p(conns[j]));
                    }
                }
            },
            Happening::Gatts(_, GattsEvent::PeerDisconnected { addr }) => {
                lemma_find_inv(conns, of_peer(addr.0));
            },
            Happening::Gatts(_, GattsEvent::Write { conn_id, .. }) => {
                lemma_find_inv(conns, with_id(conn_id));
            },
            _ => {},
        }
    }
}

/// The MTU that is told with data is the one that was last registered for the connection that the
/// data comes over, whatever happened to the context in between, and none where none was since
/// the connection was made. The Bluetooth stack makes no connection under the id of one that is
/// still there.
pub proof fn law_last_mtu_is_told_with_data(
    max_connections: nat,
    app_id: u16,
    history: Seq<Happening<'_>>,
    conn_id: ConnectionId,
    addr: BdAddr,
    handle: Handle,
    offset: u16,
    value: &[u8],
)
    requires
        ids_are_free(GattModel::fresh(max_connections), app_id, history),
    ensures
        after_all(GattModel::fresh(max_connections), app_id, history).on_write(
            conn_id,
            addr,
            handle,
            offset,
            value,
        ).1 matches Some(GattPeripheralEvent::Write { address, data, gatt_mtu }) ==> {
            &&& gatt_mtu == last_mtu(history, conn_id)
            &&& address == BtAddr(addr.0)
            &&& data == value
        },
{
    lemma_mtus_are_current(max_connections, app_id, history);
    let conns = after_all(GattModel::fresh(max_connections), app_id, history).connections;
    let p = with_id(conn_id);
    lemma_find_inv(conns, p);
    if let Some(i) = find(conns, p) {
        assert(p(conns[i]));
    }
}

/// Whether the running peripheral sends an indication at this place of a history.
pub open spec fn indicates(m: GattModel, app_id: u16, history: Seq<Happening<'_>>, i: int) -> bool {
    history[i] matches Happening::Run(event) && after_all(m, app_id, history.take(i)).run(app_id, event).1 is Indicate
}

/// Whether an indication that is in flight is confirmed, or forgotten with the whole context.
pub open spec fn ends_flight(happening: Happening<'_>) -> bool {
    match happening {
        Happening::Gatts(_, event) => event == (GattsEvent::Confirm { status: GattStatus::Success }),
        Happening::Reset => true,
        _ => false,
    }
}

proof fn lemma_stays_in_flight(m: GattModel, app_id: u16, history: Seq<Happening<'_>>, i: int, j: int)
    requires
        0 <= i < j <= history.len(),
        indicates(m, app_id, history, i),
        forall|k: int| i < k < j ==> !ends_flight(#[trigger] history[k]),
    ensures
        after_all(m, app_id, history.take(j)).ind_in_flight,
    decreases j,
{
    let before = after_all(m, app_id, history.take(j - 1));
    assert(history.take(j).drop_last() =~= history.take(j - 1));
    if j - 1 > i {
        lemma_stays_in_flight(m, app_id, history, i, j - 1);
        assert(!ends_flight(history[j - 1]));
        if let Happening::Gatts(gatt_if, event) = history[j - 1] {
            law_only_confirmation_ends_flight(before, app_id, gatt_if, event);
        }
    }
}

/// Whatever happens to a context, between two indications lies a confirmation, or a reset of the
/// context.
pub proof fn law_confirmation_between_indications(
    m: GattModel,
    app_id: u16,
    history: Seq<Happening<'_>>,
    i: int,
    j: int,
)
    requires
        0 <= i < j < history.len(),
        indicates(m, app_id, history, i),
        indicates(m, app_id, history, j),
    ensures
        exists|k: int| i < k < j && ends_flight(#[trigger] history[k]),
{
    if forall|k: int| i < k < j ==> !ends_flight(#[trigger] history[k]) {
        lemma_stays_in_flight(m, app_id, history, i, j);
    }
}

/// A peer that subscribes and then unsubscribes leaves the context as it was.
pub proof fn law_unsubscribe_undoes_subscribe(
    m: GattModel,
    conn_id: ConnectionId,
    addr: BdAddr,
    handle: Handle,
    on: &[u8],
    off: &[u8],
    i: int,
)
    requires
        is_cccd_write(m, handle, on, true),
        is_cccd_write(m, handle, off, false),
        first_at(m.connections, with_id(conn_id), i),
        !m.connections[i].subscribed,
    ensures
        m.on_write(conn_id, addr, handle, 0, on).0.on_write(conn_id, addr, handle, 0, off).0 == m,
{
    let p = with_id(conn_id);
    lemma_find(m.connections, p, i);
    let mid = m.on_write(conn_id, addr, handle, 0, on).0;
    assert(first_at(mid.connections, p, i)) by {
        assert forall|j: int| 0 <= j < i implies !p(#[trigger] mid.connections[j]) by {
            assert(!p(m.connections[j]));
        }
    }
    lemma_find(mid.connections, p, i);
    let end = mid.on_write(conn_id, addr, handle, 0, off).0;
    assert(end.connections =~= m.connections);
}

/// Of a write, the BTP protocol is told last: an answer, where the peer asks for one, goes out
/// before it. A write of which nothing is told is not answered.
pub proof fn law_answer_precedes_callback<'a>(
    m: GattModel,
    app_id: u16,
    name: &'a str,
    adv: &'a [u8],
    gatt_if: GattInterface,
    conn_id: ConnectionId,
    trans_id: TransferId,
    addr: BdAddr,
    handle: Handle,
    offset: u16,
    need_rsp: bool,
    is_prep: bool,
    value: &'a [u8],
)
    ensures
        ({
            let event = GattsEvent::Write { conn_id, trans_id, addr, handle, offset, need_rsp, is_prep, value };
            let told = m.on_write(conn_id, addr, handle, offset, value).1;
            m.gatts_event_outcome(app_id, name, adv, gatt_if, event) matches Ok(actions) ==> {
                &&& told is None ==> actions.len() == 0
                &&& told matches Some(told) ==> {
                    &&& actions.len() == if need_rsp {
                        2int
                    } else {
                        1
                    }
                    &&& actions.last() == GattAction::Callback(told)
                    &&& need_rsp ==> actions[0] is SendResponse
                }
            }
        }),
{
}

/// Data that a peer writes to `C1` is handed on unchanged, under the peer's address and with
/// the MTU of its connection, whatever its length.
pub proof fn law_written_data_is_handed_on(
    m: GattModel,
    conn_id: ConnectionId,
    addr: BdAddr,
    handle: Handle,
    value: &[u8],
    i: int,
)
    requires
        m.c1_handle == Some(handle),
        m.c2_cccd_handle != Some(handle),
        first_at(m.connections, with_id(conn_id), i),
    ensures
        m.on_write(conn_id, addr, handle, 0, value) == (
            m,
            Some(
                GattPeripheralEvent::Write {
                    address: BtAddr(addr.0),
                    data: value,
                    gatt_mtu: m.connections[i].mtu,
                },
            ),
        ),
{
    lemma_find(m.connections, with_id(conn_id), i);
}

/// The negotiated MTU of a connection is the one that is told with the data that comes over it.
pub proof fn law_mtu_is_told_with_data(
    m: GattModel,
    conn_id: ConnectionId,
    mtu: u16,
    addr: BdAddr,
    handle: Handle,
    value: &[u8],
    i: int,
)
    requires
        m.c1_handle == Some(handle),
        m.c2_cccd_handle != Some(handle),
        first_at(m.connections, with_id(conn_id), i),
    ensures
        m.register_conn_mtu(conn_id, mtu).on_write(conn_id, addr, handle, 0, value).1 == Some(
            GattPeripheralEvent::Write { address: BtAddr(addr.0), data: value, gatt_mtu: Some(mtu) },
        ),
{
    let p = with_id(conn_id);
    lemma_find(m.connections, p, i);
    let after = m.register_conn_mtu(conn_id, mtu);
    assert(first_at(after.connections, p, i)) by {
        assert forall|j: int| 0 <= j < i implies !p(#[trigger] after.connections[j]) by {
            assert(!p(m.connections[j]));
        }
    }
    law_written_data_is_handed_on(after, conn_id, addr, handle, value, i);
}

/// At most one indication is in flight: while one is, the running peripheral sends nothing, and
/// sending one puts it in flight.
pub proof fn law_one_indication_in_flight(m: GattModel, app_id: u16, event: RunEvent)
    ensures
        m.run(app_id, event).1 is Indicate ==> !m.ind_in_flight && m.run(app_id, event).0.ind_in_flight,
        m.ind_in_flight ==> m.run(app_id, event).0.ind_in_flight,
{
}

/// An indication stays in flight until it is confirmed: no other event of the GATT server ends
/// it.
pub proof fn law_only_confirmation_ends_flight(
    m: GattModel,
    app_id: u16,
    gatt_if: GattInterface,
    event: GattsEvent<'_>,
)
    ensures
        m.after_gatts_event(app_id, gatt_if, event).ind_in_flight == (m.ind_in_flight && event
            != (GattsEvent::Confirm { status: GattStatus::Success })),
{
}

/// What is indicated is what was submitted, and it goes to the peer that it was submitted for,
/// as soon as nothing is in flight and the peer can be reached.
pub proof fn law_submitted_is_indicated(m: GattModel, app_id: u16, data: Seq<u8>, address: BtAddr, target: IndTarget)
    requires
        !m.ind_in_flight,
        !m.ind_locked,
        m.ind_data.len() == 0,
        data.len() > 0,
        m.ind_target(address) == Some(target),
    ensures
        m.submit(data, address).1,
        m.submit(data, address).0.run(app_id, RunEvent::Woken).1 == (RunStep::Indicate { target, data }),
{
}

/// A submitted indication is not replaced before it is sent, and once it is sent there is room
/// for the next one.
pub proof fn law_indications_queue_up(m: GattModel, app_id: u16, data: Seq<u8>, address: BtAddr)
    ensures
        m.ind_data.len() > 0 ==> m.submit(data, address) == (m, false),
        m.run(app_id, RunEvent::Indicated(Ok(()))).0.submit(data, address).1,
{
}

/// The state once the interface, the service, its characteristics and its descriptor are known,
/// in the order in which the Bluetooth stack reports them.
pub open spec fn set_up(
    m: GattModel,
    app_id: u16,
    gatt_if: GattInterface,
    service_handle: Handle,
    c1: Handle,
    c2: Handle,
    cccd: Handle,
) -> GattModel {
    let status = GattStatus::Success;
    m.after_gatts_event(app_id, gatt_if, GattsEvent::ServiceRegistered { status, app_id }).after_gatts_event(
        app_id,
        gatt_if,
        GattsEvent::ServiceCreated { status, service_handle },
    ).after_gatts_event(
        app_id,
        gatt_if,
        GattsEvent::CharacteristicAdded {
            status,
            attr_handle: c1,
            service_handle,
            char_uuid: BtUuid::Uuid128(C1_CHARACTERISTIC_UUID),
        },
    ).after_gatts_event(
        app_id,
        gatt_if,
        GattsEvent::CharacteristicAdded {
            status,
            attr_handle: c2,
            service_handle,
            char_uuid: BtUuid::Uuid128(C2_CHARACTERISTIC_UUID),
        },
    ).after_gatts_event(
        app_id,
        gatt_if,
        GattsEvent::DescriptorAdded {
            status,
            attr_handle: cccd,
            service_handle,
            descr_uuid: BtUuid::Uuid16(CCCD_UUID16),
        },
    )
}

/// Once the service is set up, all its handles are known and the peers are those of before.
/// Once it is deleted and unregistered, all of them are forgotten again.
pub proof fn law_service_life_cycle(
    m: GattModel,
    app_id: u16,
    gatt_if: GattInterface,
    service_handle: Handle,
    c1: Handle,
    c2: Handle,
    cccd: Handle,
)
    ensures
        set_up(m, app_id, gatt_if, service_handle, c1, c2, cccd) == (GattModel {
            gatt_if: Some(gatt_if),
            service_handle: Some(service_handle),
            c1_handle: Some(c1),
            c2_handle: Some(c2),
            c2_cccd_handle: Some(cccd),
            ..m
        }),
        set_up(m, app_id, gatt_if, service_handle, c1, c2, cccd).delete_service(service_handle).unregister_service(
            service_handle,
        ) == (GattModel {
            gatt_if: None,
            service_handle: None,
            c1_handle: None,
            c2_handle: None,
            c2_cccd_handle: None,
            ..m
        }),
{
}

/// Events of another service leave the attributes of this one alone.
pub proof fn law_other_services_are_ignored(
    m: GattModel,
    app_id: u16,
    gatt_if: GattInterface,
    status: GattStatus,
    attr_handle: Handle,
    other: Handle,
    uuid: BtUuid,
)
    requires
        m.service_handle != Some(other),
    ensures
        m.after_gatts_event(
            app_id,
            gatt_if,
            GattsEvent::CharacteristicAdded { status, attr_handle, service_handle: other, char_uuid: uuid },
        ) == m,
        m.after_gatts_event(
            app_id,
            gatt_if,
            GattsEvent::DescriptorAdded { status, attr_handle, service_handle: other, descr_uuid: uuid },
        ) == m,
        m.after_gatts_event(app_id, gatt_if, GattsEvent::ServiceDeleted { status, service_handle: other }) == m,
        m.after_gatts_event(app_id, gatt_if, GattsEvent::ServiceUnregistered { status, service_handle: other }) == m,
{
}

/// Whether the connection at `i` is the first one with the given id.
pub open spec fn is_first_with_id(conns: Seq<Connection>, conn_id: ConnectionId, i: int) -> bool {
    &&& 0 <= i < conns.len()
    &&& conns[i].conn_id == conn_id
    &&& forall|j: int| 0 <= j < i ==> (#[trigger] conns[j]).conn_id != conn_id
}

/// Whether the connection at `i` is the first one of the given peer.
pub open spec fn is_first_of_peer(conns: Seq<Connection>, addr: [u8; 6], i: int) -> bool {
    &&& 0 <= i < conns.len()
    &&& conns[i].peer.0 == addr
    &&& forall|j: int| 0 <= j < i ==> (#[trigger] conns[j]).peer.0 != addr
}

/// Whether the connection at `i` is the first one of the given peer that is subscribed.
pub open spec fn is_first_subscribed(conns: Seq<Connection>, addr: [u8; 6], i: int) -> bool {
    &&& 0 <= i < conns.len()
    &&& conns[i].peer.0 == addr && conns[i].subscribed
    &&& forall|j: int| 0 <= j < i ==> !((#[trigger] conns[j]).peer.0 == addr && conns[j].subscribed)
}

proof fn lemma_first_with_id(conns: Seq<Connection>, conn_id: ConnectionId)
    ensures
        forall|i: int| #[trigger] is_first_with_id(conns, conn_id, i) ==> find(conns, with_id(conn_id)) == Some(i),
        !is_known(conns, conn_id) ==> find(conns, with_id(conn_id)) is None,
{
    let p = with_id(conn_id);
    assert forall|i: int| #[trigger] is_first_with_id(conns, conn_id, i) implies find(conns, p) == Some(i) by {
        assert(first_at(conns, p, i)) by {
            assert forall|j: int| 0 <= j < i implies !p(#[trigger] conns[j]) by {
                assert(conns[j].conn_id != conn_id);
            }
        }
        lemma_find(conns, p, i);
    }
    lemma_find_inv(conns, p);
    if let Some(i) = find(conns, p) {
        assert(p(conns[i]));
    }
}

proof fn lemma_first_of_peer(conns: Seq<Connection>, addr: [u8; 6])
    ensures
        forall|i: int| #[trigger] is_first_of_peer(conns, addr, i) ==> find(conns, of_peer(addr)) == Some(i),
        (forall|i: int| 0 <= i < conns.len() ==> (#[trigger] conns[i]).peer.0 != addr) ==> find(conns, of_peer(addr)) is None,
{
    let p = of_peer(addr);
    assert forall|i: int| #[trigger] is_first_of_peer(conns, addr, i) implies find(conns, p) == Some(i) by {
        assert(first_at(conns, p, i)) by {
            assert forall|j: int| 0 <= j < i implies !p(#[trigger] conns[j]) by {
                assert(conns[j].peer.0 != addr);
            }
        }
        lemma_find(conns, p, i);
    }
    lemma_find_inv(conns, p);
    if let Some(i) = find(conns, p) {
        assert(p(conns[i]));
    }
}

proof fn lemma_first_subscribed(conns: Seq<Connection>, addr: [u8; 6])
    ensures
        forall|i: int| #[trigger]
            is_first_subscribed(conns, addr, i) ==> find(conns, subscribed_of_peer(addr)) == Some(i),
        !is_subscribed(conns, addr) ==> find(conns, subscribed_of_peer(addr)) is None,
{
    let p = subscribed_of_peer(addr);
    assert forall|i: int| #[trigger] is_first_subscribed(conns, addr, i) implies find(conns, p) == Some(i) by {
        assert(first_at(conns, p, i)) by {
            assert forall|j: int| 0 <= j < i implies !p(#[trigger] conns[j]) by {
                assert(!(conns[j].peer.0 == addr && conns[j].subscribed));
            }
        }
        lemma_find(conns, p, i);
    }
    lemma_find_inv(conns, p);
    if let Some(i) = find(conns, p) {
        assert(p(conns[i]));
    }
}

/// A write that is to be answered is answered over the interface and the connection that it came
/// over, under its own transfer id: a prepared write with its own handle, offset and value, another
/// one with no value. A write that is not to be answered is not. What is told of the write comes
/// after the answer.
///
/// Only a prepared write of more than 600 bytes that is to be answered fails.
pub proof fn law_writes_are_answered_where_they_came_from<'a>(
    m: GattModel,
    app_id: u16,
    name: &'a str,
    adv: &'a [u8],
    gatt_if: GattInterface,
    conn_id: ConnectionId,
    trans_id: TransferId,
    addr: BdAddr,
    handle: Handle,
    offset: u16,
    need_rsp: bool,
    is_prep: bool,
    value: &'a [u8],
)
    ensures
        ({
            let event = GattsEvent::Write { conn_id, trans_id, addr, handle, offset, need_rsp, is_prep, value };
            let outcome = m.gatts_event_outcome(app_id, name, adv, gatt_if, event);
            let (after, told) = m.on_write(conn_id, addr, handle, offset, value);
            &&& m.after_gatts_event(app_id, gatt_if, event) == after
            &&& told is None ==> outcome is Ok && outcome->Ok_0.len() == 0
            &&& told is Some ==> (outcome is Err <==> need_rsp && is_prep && value@.len() > 600)
            &&& told is Some && outcome is Ok && !need_rsp ==> {
                &&& outcome->Ok_0.len() == 1
                &&& outcome->Ok_0[0] == GattAction::Callback(told->0)
            }
            &&& told is Some && outcome is Ok && need_rsp ==> {
                &&& outcome->Ok_0.len() == 2
                &&& outcome->Ok_0[0] matches GattAction::SendResponse {
                    gatt_if: to_if,
                    conn_id: to_conn,
                    trans_id: to_trans,
                    response,
                } && to_if == gatt_if && to_conn == conn_id && to_trans == trans_id && (if is_prep {
                    response matches Some(response) && response.attr_handle == handle && response.auth_req == 0
                        && response.offset == offset && response.value == value
                } else {
                    response is None
                })
                &&& outcome->Ok_0[1] == GattAction::Callback(told->0)
            }
        }),
{
}

/// A write over an unknown connection, at an offset, to anything but `C1` and the subscription
/// descriptor, or to this descriptor with a length other than two, changes nothing, and nothing
/// is told of it.
pub proof fn law_other_writes_are_ignored(
    m: GattModel,
    conn_id: ConnectionId,
    addr: BdAddr,
    handle: Handle,
    offset: u16,
    value: &[u8],
)
    requires
        !is_known(m.connections, conn_id) || offset != 0 || (m.c2_cccd_handle != Some(handle) && m.c1_handle != Some(
            handle,
        )) || (m.c2_cccd_handle == Some(handle) && value@.len() != 2),
    ensures
        m.on_write(conn_id, addr, handle, offset, value) == (m, None::<GattPeripheralEvent<'_>>),
{
    lemma_first_with_id(m.connections, conn_id);
}

/// A write of two bytes to the subscription descriptor asks to subscribe where they are 2 and 0,
/// and to unsubscribe where they are anything else. It changes the first connection with the id
/// that it came over, where this is not as asked yet, and nothing else. The peer that wrote is told
/// of exactly where something changes.
pub proof fn law_subscription_writes(
    m: GattModel,
    conn_id: ConnectionId,
    addr: BdAddr,
    handle: Handle,
    value: &[u8],
    i: int,
)
    requires
        is_first_with_id(m.connections, conn_id, i),
        m.c2_cccd_handle == Some(handle),
        value@.len() == 2,
    ensures
        ({
            let (after, told) = m.on_write(conn_id, addr, handle, 0, value);
            let subscribe = value@[0] == 2 && value@[1] == 0;
            &&& after == (GattModel { connections: after.connections, ..m })
            &&& after.connections.len() == m.connections.len()
            &&& forall|j: int| 0 <= j < m.connections.len() && j != i ==> #[trigger] after.connections[j]
                == m.connections[j]
            &&& after.connections[i] == (Connection { subscribed: subscribe, ..m.connections[i] })
            &&& told is Some <==> m.connections[i].subscribed != subscribe
            &&& told matches Some(told) ==> told == (if subscribe {
                GattPeripheralEvent::NotifySubscribed(BtAddr(addr.0))
            } else {
                GattPeripheralEvent::NotifyUnsubscribed(BtAddr(addr.0))
            })
        }),
{
    lemma_first_with_id(m.connections, conn_id);
}

/// Whatever is written to `C1` over a known connection is told, unchanged, under the address of
/// the peer that wrote and with the MTU of the first connection with the id. Nothing changes.
pub proof fn law_c1_writes(
    m: GattModel,
    conn_id: ConnectionId,
    addr: BdAddr,
    handle: Handle,
    value: &[u8],
    i: int,
)
    requires
        is_first_with_id(m.connections, conn_id, i),
        m.c1_handle == Some(handle),
        m.c2_cccd_handle != Some(handle),
    ensures
        m.on_write(conn_id, addr, handle, 0, value).0 == m,
        m.on_write(conn_id, addr, handle, 0, value).1 matches Some(GattPeripheralEvent::Write { address, data, gatt_mtu })
            && address.0 == addr.0 && data == value && gatt_mtu == m.connections[i].mtu,
{
    lemma_first_with_id(m.connections, conn_id);
}

/// The registration of the own application names the device, sets the advertising payload and
/// creates the primary Matter service, all with what the caller gave, and the interface is
/// remembered. That of another application does nothing.
pub proof fn law_registration<'a>(
    m: GattModel,
    app_id: u16,
    name: &'a str,
    adv: &'a [u8],
    gatt_if: GattInterface,
    registered: u16,
)
    ensures
        ({
            let event = GattsEvent::ServiceRegistered { status: GattStatus::Success, app_id: registered };
            let after = m.after_gatts_event(app_id, gatt_if, event);
            let outcome = m.gatts_event_outcome(app_id, name, adv, gatt_if, event);
            &&& outcome is Ok
            &&& registered != app_id ==> after == m && outcome->Ok_0.len() == 0
            &&& registered == app_id ==> {
                &&& after == (GattModel { gatt_if: Some(gatt_if), ..m })
                &&& outcome->Ok_0.len() == 3
                &&& outcome->Ok_0[0] == GattAction::SetDeviceName(name)
                &&& outcome->Ok_0[1] == GattAction::SetRawAdvConf(adv)
                &&& outcome->Ok_0[2] == (GattAction::CreateService {
                    gatt_if,
                    uuid: BtUuid::Uuid16(0xFFF6),
                    inst_id: 0,
                    is_primary: true,
                    num_handles: 8,
                })
            }
        }),
{
}

/// A created service is remembered, started, and given its two characteristics, which the
/// application answers for: peers can write `C1`, and data is indicated on `C2`. Both hold up to
/// 247 bytes.
pub proof fn law_service_creation<'a>(
    m: GattModel,
    app_id: u16,
    name: &'a str,
    adv: &'a [u8],
    gatt_if: GattInterface,
    handle: Handle,
)
    ensures
        ({
            let event = GattsEvent::ServiceCreated { status: GattStatus::Success, service_handle: handle };
            let outcome = m.gatts_event_outcome(app_id, name, adv, gatt_if, event);
            &&& m.after_gatts_event(app_id, gatt_if, event) == (GattModel { service_handle: Some(handle), ..m })
            &&& outcome is Ok
            &&& outcome->Ok_0.len() == 3
            &&& outcome->Ok_0[0] == GattAction::StartService(handle)
            &&& outcome->Ok_0[1] matches GattAction::AddCharacteristic { service_handle, characteristic: c1 }
                && service_handle == handle && c1.uuid == BtUuid::Uuid128(0x18EE2EF5263D4559959F4F9C429F9D11)
                && !c1.permissions.read && c1.permissions.write && c1.properties.write && !c1.properties.indicate
                && c1.max_len == 247 && c1.auto_rsp is ByApp
            &&& outcome->Ok_0[2] matches GattAction::AddCharacteristic { service_handle, characteristic: c2 }
                && service_handle == handle && c2.uuid == BtUuid::Uuid128(0x18EE2EF5263D4559959F4F9C429F9D12)
                && c2.permissions.read && c2.permissions.write && !c2.properties.write && c2.properties.indicate
                && c2.max_len == 247 && c2.auto_rsp is ByApp
        }),
{
}

/// Of the characteristics of the own service, the handles of `C1` and of `C2` are remembered, each
/// as such, and `C2` gets the subscription descriptor, which peers can read and write. Nothing
/// else happens when a characteristic is added.
pub proof fn law_characteristics<'a>(
    m: GattModel,
    app_id: u16,
    name: &'a str,
    adv: &'a [u8],
    gatt_if: GattInterface,
    attr_handle: Handle,
    service_handle: Handle,
    char_uuid: BtUuid,
)
    ensures
        ({
            let event = GattsEvent::CharacteristicAdded {
                status: GattStatus::Success,
                attr_handle,
                service_handle,
                char_uuid,
            };
            let own = m.service_handle == Some(service_handle);
            let is_c1 = char_uuid == BtUuid::Uuid128(0x18EE2EF5263D4559959F4F9C429F9D11);
            let is_c2 = char_uuid == BtUuid::Uuid128(0x18EE2EF5263D4559959F4F9C429F9D12);
            let after = m.after_gatts_event(app_id, gatt_if, event);
            let outcome = m.gatts_event_outcome(app_id, name, adv, gatt_if, event);
            &&& after == (GattModel { c1_handle: after.c1_handle, c2_handle: after.c2_handle, ..m })
            &&& after.c1_handle == (if own && is_c1 {
                Some(attr_handle)
            } else {
                m.c1_handle
            })
            &&& after.c2_handle == (if own && is_c2 {
                Some(attr_handle)
            } else {
                m.c2_handle
            })
            &&& outcome is Ok
            &&& outcome->Ok_0.len() == (if own && is_c2 {
                1int
            } else {
                0
            })
            &&& own && is_c2 ==> (outcome->Ok_0[0] matches GattAction::AddDescriptor { service_handle: to, descriptor }
                && to == service_handle && descriptor.uuid == BtUuid::Uuid16(0x2902) && descriptor.permissions.read
                && descriptor.permissions.write)
        }),
{
}

/// Of the descriptors of the own service, the handle of the subscription descriptor is remembered.
/// Nothing else happens when a descriptor is added.
pub proof fn law_descriptors<'a>(
    m: GattModel,
    app_id: u16,
    name: &'a str,
    adv: &'a [u8],
    gatt_if: GattInterface,
    attr_handle: Handle,
    service_handle: Handle,
    descr_uuid: BtUuid,
)
    ensures
        ({
            let event = GattsEvent::DescriptorAdded {
                status: GattStatus::Success,
                attr_handle,
                service_handle,
                descr_uuid,
            };
            let after = m.after_gatts_event(app_id, gatt_if, event);
            let outcome = m.gatts_event_outcome(app_id, name, adv, gatt_if, event);
            &&& after == (GattModel { c2_cccd_handle: after.c2_cccd_handle, ..m })
            &&& after.c2_cccd_handle == (if m.service_handle == Some(service_handle) && descr_uuid == BtUuid::Uuid16(
                0x2902,
            ) {
                Some(attr_handle)
            } else {
                m.c2_cccd_handle
            })
            &&& outcome is Ok && outcome->Ok_0.len() == 0
        }),
{
}

/// The deletion of the own service takes the handles of its attributes with it, and its
/// unregistration the interface and the handle of the service. Neither asks for anything, and
/// nothing else is touched.
pub proof fn law_service_removal<'a>(
    m: GattModel,
    app_id: u16,
    name: &'a str,
    adv: &'a [u8],
    gatt_if: GattInterface,
    handle: Handle,
)
    requires
        m.service_handle == Some(handle),
    ensures
        ({
            let deleted = GattsEvent::ServiceDeleted { status: GattStatus::Success, service_handle: handle };
            let unregistered = GattsEvent::ServiceUnregistered {
                status: GattStatus::Success,
                service_handle: handle,
            };
            let outcome = m.gatts_event_outcome(app_id, name, adv, gatt_if, deleted);
            let other_outcome = m.gatts_event_outcome(app_id, name, adv, gatt_if, unregistered);
            &&& m.after_gatts_event(app_id, gatt_if, deleted) == (GattModel {
                c1_handle: None,
                c2_handle: None,
                c2_cccd_handle: None,
                ..m
            })
            &&& m.after_gatts_event(app_id, gatt_if, unregistered) == (GattModel {
                gatt_if: None,
                service_handle: None,
                ..m
            })
            &&& outcome is Ok && outcome->Ok_0.len() == 0
            &&& other_outcome is Ok && other_outcome->Ok_0.len() == 0
        }),
{
}

/// A negotiated MTU is remembered of the first connection with the id, and of no other. It changes
/// nothing else, and asks for nothing.
pub proof fn law_mtu_is_remembered<'a>(
    m: GattModel,
    app_id: u16,
    name: &'a str,
    adv: &'a [u8],
    gatt_if: GattInterface,
    conn_id: ConnectionId,
    mtu: u16,
    i: int,
)
    ensures
        ({
            let event = GattsEvent::Mtu { conn_id, mtu };
            let after = m.after_gatts_event(app_id, gatt_if, event);
            let outcome = m.gatts_event_outcome(app_id, name, adv, gatt_if, event);
            &&& after == (GattModel { connections: after.connections, ..m })
            &&& after.connections.len() == m.connections.len()
            &&& 0 <= i < m.connections.len() ==> after.connections[i] == (if is_first_with_id(
                m.connections,
                conn_id,
                i,
            ) {
                Connection { mtu: Some(mtu), ..m.connections[i] }
            } else {
                m.connections[i]
            })
            &&& outcome is Ok && outcome->Ok_0.len() == 0
        }),
{
    let conns = m.connections;
    let p = with_id(conn_id);
    lemma_first_with_id(conns, conn_id);
    lemma_find_inv(conns, p);
    if let Some(k) = find(conns, p) {
        assert(p(conns[k]));
        assert(is_first_with_id(conns, conn_id, k)) by {
            assert forall|j: int| 0 <= j < k implies (#[trigger] conns[j]).conn_id != conn_id by {
                assert(!p(conns[j]));
            }
        }
    } else if 0 <= i < conns.len() {
        assert(!p(conns[i]));
    }
}

/// A peer that connects while there is room is remembered last, under its address and id, not
/// subscribed and without an MTU, and its connection is tuned: intervals of 10 to 20, no latency, a
/// timeout of 400 milliseconds.
pub proof fn law_connected_peer_is_remembered<'a>(
    m: GattModel,
    app_id: u16,
    name: &'a str,
    adv: &'a [u8],
    gatt_if: GattInterface,
    conn_id: ConnectionId,
    peer: BdAddr,
)
    requires
        m.connections.len() < m.max_connections,
    ensures
        ({
            let event = GattsEvent::PeerConnected { conn_id, addr: peer };
            let after = m.after_gatts_event(app_id, gatt_if, event);
            let outcome = m.gatts_event_outcome(app_id, name, adv, gatt_if, event);
            &&& after == (GattModel { connections: after.connections, ..m })
            &&& after.connections.drop_last() == m.connections
            &&& after.connections.last() == (Connection { peer, conn_id, subscribed: false, mtu: None })
            &&& outcome is Ok && outcome->Ok_0.len() == 1
            &&& outcome->Ok_0[0] matches GattAction::SetConnParamsConf {
                addr,
                min_int_ms,
                max_int_ms,
                latency_ms,
                timeout_ms,
            } && addr == peer && min_int_ms == 10 && max_int_ms == 20 && latency_ms == 0 && timeout_ms == 400
        }),
{
    let event = GattsEvent::PeerConnected { conn_id, addr: peer };
    assert(m.after_gatts_event(app_id, gatt_if, event).connections.drop_last() =~= m.connections);
}

/// A peer that disconnects is always told of as unsubscribed. Its first connection, where there is
/// one, gives its place to the last one, and nothing else changes.
pub proof fn law_disconnected_peer_is_forgotten<'a>(
    m: GattModel,
    app_id: u16,
    name: &'a str,
    adv: &'a [u8],
    gatt_if: GattInterface,
    addr: BdAddr,
    i: int,
)
    ensures
        ({
            let event = GattsEvent::PeerDisconnected { addr };
            let after = m.after_gatts_event(app_id, gatt_if, event);
            let outcome = m.gatts_event_outcome(app_id, name, adv, gatt_if, event);
            &&& outcome is Ok && outcome->Ok_0.len() == 1
            &&& outcome->Ok_0[0] == GattAction::Callback(GattPeripheralEvent::NotifyUnsubscribed(BtAddr(addr.0)))
            &&& after == (GattModel { connections: after.connections, ..m })
            &&& count_of(m.connections, addr.0) == 0 ==> after == m
            &&& is_first_of_peer(m.connections, addr.0, i) ==> {
                &&& after.connections.len() == m.connections.len() - 1
                &&& forall|j: int|
                    0 <= j < after.connections.len() && j != i ==> #[trigger] after.connections[j] == m.connections[j]
                &&& i < after.connections.len() ==> after.connections[i] == m.connections[m.connections.len() - 1]
            }
        }),
{
    let conns = m.connections;
    lemma_first_of_peer(conns, addr.0);
    if count_of(conns, addr.0) == 0 {
        assert forall|j: int| 0 <= j < conns.len() implies (#[trigger] conns[j]).peer.0 != addr.0 by {
            if conns[j].peer.0 == addr.0 {
                lemma_count_positive(conns, j, addr.0);
            }
        }
    }
}

/// A confirmation ends the flight of an indication, and does nothing else. An event that the
/// peripheral does not act on does nothing at all.
pub proof fn law_confirmation<'a>(m: GattModel, app_id: u16, name: &'a str, adv: &'a [u8], gatt_if: GattInterface)
    ensures
        ({
            let event = GattsEvent::Confirm { status: GattStatus::Success };
            let outcome = m.gatts_event_outcome(app_id, name, adv, gatt_if, event);
            let other_outcome = m.gatts_event_outcome(app_id, name, adv, gatt_if, GattsEvent::Other);
            &&& m.after_gatts_event(app_id, gatt_if, event) == (GattModel { ind_in_flight: false, ..m })
            &&& m.after_gatts_event(app_id, gatt_if, GattsEvent::Other) == m
            &&& outcome is Ok && outcome->Ok_0.len() == 0
            &&& other_outcome is Ok && other_outcome->Ok_0.len() == 0
        }),
{
}

/// Data for a peer goes over the first of its connections that is subscribed, on the interface and
/// on `C2`. Without one of the three it goes nowhere.
pub proof fn law_first_subscribed_connection_is_used(m: GattModel, address: BtAddr, i: int)
    ensures
        m.gatt_if is None || m.c2_handle is None || !is_subscribed(m.connections, address.0) ==> m.ind_target(
            address,
        ) is None,
        m.gatt_if is Some && m.c2_handle is Some && is_first_subscribed(m.connections, address.0, i) ==> m.ind_target(
            address,
        ) == Some(
            IndTarget {
                gatt_if: m.gatt_if->0,
                conn_id: m.connections[i].conn_id,
                attr_handle: m.c2_handle->0,
            },
        ),
{
    lemma_first_subscribed(m.connections, address.0);
}

/// The running peripheral registers its own application first, and gives up with the error where
/// that, or sending an indication, fails. A failure keeps the data that was to be sent.
pub proof fn law_run_failures(m: GattModel, app_id: u16, err: EspError)
    ensures
        m.run(app_id, RunEvent::Subscribed) == (m, RunStep::RegisterApp(app_id)),
        m.run(app_id, RunEvent::Registered(Err(err))) == (m, RunStep::Fail(err)),
        m.run(app_id, RunEvent::Indicated(Err(err))) == (GattModel { ind_locked: false, ..m }, RunStep::Fail(err)),
{
}

/// A look at the context sends what waits, to the peer that it is for, once nothing is in flight
/// or just being sent. What waits for a peer that cannot be reached is dropped, but counts as in
/// flight. Otherwise nothing happens. A look comes once the application is registered, and whenever
/// the context may have changed; what was sent is forgotten, and nothing else.
pub proof fn law_looks_send_what_waits(m: GattModel, app_id: u16, i: int)
    ensures
        ({
            let look = m.run(app_id, RunEvent::Woken);
            let idle = !m.ind_in_flight && !m.ind_locked && m.ind_data.len() > 0;
            let reachable = m.gatt_if is Some && m.c2_handle is Some && is_subscribed(m.connections, m.ind_addr.0);
            &&& m.run(app_id, RunEvent::Registered(Ok(()))) == look
            &&& !idle ==> look == (m, RunStep::Wait)
            &&& idle && !reachable ==> look == (
                GattModel { ind_in_flight: true, ind_data: Seq::<u8>::empty(), ..m },
                RunStep::Wait,
            )
            &&& idle && reachable && is_first_subscribed(m.connections, m.ind_addr.0, i) ==> look == (
                GattModel { ind_in_flight: true, ind_locked: true, ..m },
                RunStep::Indicate {
                    target: IndTarget {
                        gatt_if: m.gatt_if->0,
                        conn_id: m.connections[i].conn_id,
                        attr_handle: m.c2_handle->0,
                    },
                    data: m.ind_data,
                },
            )
            &&& m.run(app_id, RunEvent::Indicated(Ok(()))) == (
                GattModel { ind_locked: false, ind_data: Seq::<u8>::empty(), ..m },
                RunStep::Wait,
            )
        }),
{
    law_first_subscribed_connection_is_used(m, m.ind_addr, i);
    law_target_is_subscribed(m, m.ind_addr);
}

/// Data is taken exactly where none waits and none is just being sent, with the peer that it is
/// for. Data that is not taken changes nothing.
pub proof fn law_submission(m: GattModel, data: Seq<u8>, address: BtAddr)
    ensures
        m.ind_data.len() == 0 && !m.ind_locked ==> m.submit(data, address) == (
            GattModel { ind_data: data, ind_addr: address, ..m },
            true,
        ),
        m.ind_data.len() > 0 || m.ind_locked ==> m.submit(data, address) == (m, false),
{
}

/// A reset forgets the interface, the service and all its attributes, and that anything is in
/// flight. It forgets the data that waits unless this is just being sent. The peers and everything
/// else stay.
pub proof fn law_reset_forgets_the_service(m: GattModel)
    ensures
        ({
            let after = m.reset();
            &&& after == (GattModel {
                gatt_if: None,
                service_handle: None,
                c1_handle: None,
                c2_handle: None,
                c2_cccd_handle: None,
                ind_data: after.ind_data,
                ind_in_flight: false,
                ..m
            })
            &&& m.ind_locked ==> after.ind_data == m.ind_data
            &&& !m.ind_locked ==> after.ind_data.len() == 0
        }),
{
}

/// A fresh context knows nothing: no service, no peer, no data.
pub proof fn law_fresh_context_is_empty(max_connections: nat)
    ensures
        ({
            let m = GattModel::fresh(max_connections);
            &&& m.gatt_if is None && m.service_handle is None
            &&& m.c1_handle is None && m.c2_handle is None && m.c2_cccd_handle is None
            &&& m.connections.len() == 0 && m.max_connections == max_connections
            &&& m.ind_data.len() == 0 && !m.ind_locked && !m.ind_in_flight
        }),
{
}

/// What is said of an action, and of what a handler asks for, is all that they hold.
pub proof fn law_actions_show_their_contents<'a>(action: RunAction, asked: Result<Vec<GattAction<'a>>, EspError>)
    ensures
        match action {
            RunAction::RegisterApp(app_id) => action@ == RunStep::RegisterApp(app_id),
            RunAction::Wait => action@ is Wait,
            RunAction::Indicate { target, data } => action@ is Indicate && action@->target == target && action@->data
                == data@,
            RunAction::Fail(err) => action@ == RunStep::Fail(err),
        },
        match asked {
            Ok(actions) => outcome(asked) is Ok && outcome(asked)->Ok_0 == actions@,
            Err(err) => outcome(asked) is Err && outcome(asked)->Err_0 == err,
        },
{
}

} // verus!
