//! How the services of a Matter node are published over SRP.
//!
//! The Thread stack itself is driven from outside: the publisher says what to do next, and is
//! told how that went.

use vstd::prelude::*;

use crate::bounded::{thread_name_new, thread_name_of, thread_name_push};
use crate::bytes::{upper_digit, upper_digits, upper_hex};
use crate::error::{net_error, to_net_error, Error, ErrorCode, EspError};
use crate::netif::Ipv6Addr;
use crate::thread::MAX_THREAD_NAME_LEN;

verus! {

/// How many services can be published.
pub const MAX_MATTER_SERVICES: usize = 3;

/// A service of a Matter node.
#[derive(Debug, Copy, Clone, PartialEq, Eq, Structural)]
pub enum MatterMdnsService {
    Commissioned { compressed_fabric_id: u64, node_id: u64 },
    Commissionable { id: u64, discriminator: u16 },
}

/// What the Thread stack knows a published service by.
#[derive(Debug, Copy, Clone, PartialEq, Eq, Structural)]
pub struct SrpServiceSlot(pub usize);

/// A service, as mDNS describes it.
#[derive(Debug, Copy, Clone)]
pub struct Service<'a> {
    pub name: &'a str,
    pub service_protocol: &'a str,
    pub port: u16,
    pub service_subtypes: &'a [&'a str],
    pub txt_kvs: &'a [(&'a str, &'a str)],
}

/// A service, as the Thread stack publishes it.
#[derive(Debug)]
pub struct SrpService<'a> {
    pub name: &'a str,
    pub instance_name: &'a str,
    pub port: u16,
    pub subtype_labels: &'a [&'a str],
    pub txt_entries: Vec<(&'a str, &'a [u8])>,
    pub priority: u16,
    pub weight: u16,
    pub lease_secs: u32,
    pub key_lease_secs: u32,
}

/// The entries that a list of keys and values stands for: entries without a key are left out,
/// and values are taken as bytes.
pub open spec fn txt_entries_of(kvs: Seq<(&str, &str)>) -> Seq<(Seq<char>, Seq<u8>)> {
    kvs.filter(|kv: (&str, &str)| kv.0@.len() > 0).map_values(
        |kv: (&str, &str)| (kv.0@, vstd::utf8::encode_utf8(kv.1@)),
    )
}

/// The contents of a list of entries.
pub open spec fn entries_shown(entries: Seq<(&str, &[u8])>) -> Seq<(Seq<char>, Seq<u8>)> {
    entries.map_values(|entry: (&str, &[u8])| (entry.0@, entry.1@))
}

/// How the Thread stack publishes a service.
pub fn srp_service<'a>(service: &Service<'a>) -> (r: SrpService<'a>)
    ensures
        r.name == service.service_protocol,
        r.instance_name == service.name,
        r.port == service.port,
        r.subtype_labels == service.service_subtypes,
        entries_shown(r.txt_entries@) == txt_entries_of(service.txt_kvs@),
        r.priority == 0 && r.weight == 0 && r.lease_secs == 0 && r.key_lease_secs == 0,
{
    let kvs = service.txt_kvs;
    let mut entries: Vec<(&'a str, &'a [u8])> = Vec::new();
    let mut i: usize = 0;
    proof {
        reveal(Seq::filter);
        assert(entries_shown(entries@) =~= txt_entries_of(kvs@.take(0)));
    }
    while i < kvs.len()
        invariant
            i <= kvs@.len(),
            entries_shown(entries@) == txt_entries_of(kvs@.take(i as int)),
        decreases kvs@.len() - i,
    {
        let (key, value) = kvs[i];
        let ghost before = entries@;
        let kept = !key.is_empty();
        if kept {
            entries.push((key, value.as_bytes()));
        }
        proof {
            reveal(Seq::filter);
            let longer = kvs@.take(i + 1);
            assert(longer.drop_last() =~= kvs@.take(i as int));
            assert(longer.last() == kvs@[i as int]);
            if kept {
                assert(entries_shown(entries@) =~= entries_shown(before).push(
                    (key@, vstd::utf8::encode_utf8(value@)),
                ));
            }
            assert(entries_shown(entries@) =~= txt_entries_of(longer));
        }
        i += 1;
    }
    assert(kvs@.take(i as int) =~= kvs@);
    SrpService {
        name: service.service_protocol,
        instance_name: service.name,
        port: service.port,
        subtype_labels: service.service_subtypes,
        txt_entries: entries,
        priority: 0,
        weight: 0,
        lease_secs: 0,
        key_lease_secs: 0,
    }
}

/// The host name of a node: its hardware address, in hexadecimal digits.
pub fn hostname(ieee_eui64: &[u8; 8]) -> (r: heapless::String<MAX_THREAD_NAME_LEN>)
    ensures
        thread_name_of(r) == upper_hex(ieee_eui64@),
{
    let mut name = thread_name_new();
    let mut i: usize = 0;
    proof {
        assert(upper_hex(ieee_eui64@).take(0) =~= seq![]);
    }
    while i < 8
        invariant
            i <= 8,
            ieee_eui64@.len() == 8,
            thread_name_of(name) == upper_hex(ieee_eui64@).take(2 * i),
        decreases 8 - i,
    {
        let ghost all = upper_hex(ieee_eui64@);
        proof {
            lemma_hex_is_ascii(ieee_eui64@);
            lemma_fits(all, 2 * i);
            lemma_fits(all, 2 * i + 1);
        }
        let byte: u8 = ieee_eui64[i];
        let _ = thread_name_push(&mut name, upper_digit(byte / 16));
        assert(thread_name_of(name) =~= all.take(2 * i + 1));
        let _ = thread_name_push(&mut name, upper_digit(byte % 16));
        assert(thread_name_of(name) =~= all.take(2 * i + 2));
        i += 1;
    }
    assert(upper_hex(ieee_eui64@).take(16) =~= upper_hex(ieee_eui64@));
    name
}

proof fn lemma_hex_is_ascii(bytes: Seq<u8>)
    ensures
        vstd::utf8::is_ascii_chars(upper_hex(bytes)),
        forall|i: int| 0 <= i < bytes.len() ==> upper_hex(bytes)[2 * i] == upper_digits()[(#[trigger] bytes[i]) as int
            / 16],
        forall|i: int| 0 <= i < bytes.len() ==> upper_hex(bytes)[2 * i + 1] == upper_digits()[(
        #[trigger] bytes[i]) as int % 16],
{
    assert forall|i: int| 0 <= i < upper_hex(bytes).len() implies '\0' <= #[trigger] upper_hex(bytes)[i] <= '\u{7f}' by {
        let value = if i % 2 == 0 {
            bytes[i / 2] as int / 16
        } else {
            bytes[i / 2] as int % 16
        };
        assert(0 <= value < 16);
        assert('\0' <= upper_digits()[value] <= '\u{7f}');
    }
}

proof fn lemma_fits(chars: Seq<char>, n: int)
    requires
        0 <= n < chars.len() == 16,
        vstd::utf8::is_ascii_chars(chars),
    ensures
        vstd::utf8::encode_utf8(chars.take(n)).len() == n,
        vstd::utf8::encode_utf8(seq![chars[n]]).len() == 1,
{
    vstd::utf8::is_ascii_chars_encode_utf8(chars.take(n));
    vstd::utf8::is_ascii_chars_encode_utf8(seq![chars[n]]);
}

/// Whether the service is among the published ones.
pub open spec fn is_published(services: Seq<(MatterMdnsService, SrpServiceSlot)>, service: MatterMdnsService) -> bool {
    exists|i: int| 0 <= i < services.len() && (#[trigger] services[i]).0 == service
}

/// The first place, from `i` on, of a wanted service that is not published.
pub open spec fn first_missing(
    wanted: Seq<MatterMdnsService>,
    services: Seq<(MatterMdnsService, SrpServiceSlot)>,
    i: int,
) -> Option<int>
    decreases wanted.len() - i,
{
    if i >= wanted.len() {
        None
    } else if !is_published(services, wanted[i]) {
        Some(i)
    } else {
        first_missing(wanted, services, i + 1)
    }
}

/// The first place, from `i` on, of a published service that is not wanted.
pub open spec fn first_unwanted(
    services: Seq<(MatterMdnsService, SrpServiceSlot)>,
    wanted: Seq<MatterMdnsService>,
    i: int,
) -> Option<int>
    decreases services.len() - i,
{
    if i >= services.len() {
        None
    } else if !wanted.contains(services[i].0) {
        Some(i)
    } else {
        first_unwanted(services, wanted, i + 1)
    }
}

/// The published services but for those in the slot.
pub open spec fn without_slot(
    services: Seq<(MatterMdnsService, SrpServiceSlot)>,
    slot: SrpServiceSlot,
) -> Seq<(MatterMdnsService, SrpServiceSlot)> {
    services.filter(|entry: (MatterMdnsService, SrpServiceSlot)| entry.1 != slot)
}

/// What the publisher does next.
#[derive(Debug)]
pub enum SrpAction {
    /// Read the hardware address.
    ReadMac,
    /// Set the name and the addresses of the host.
    SetConf { host_name: heapless::String<MAX_THREAD_NAME_LEN>, host_addrs: Vec<Ipv6Addr> },
    /// Wait until the services of the node have changed, and collect them.
    WaitMdns,
    Register(MatterMdnsService),
    /// Deregister the service in the slot, with the flag whether to do so immediately.
    Deregister { slot: SrpServiceSlot, immediate: bool },
    /// Stop with the error.
    Fail(Error),
}

/// The contents of an `SrpAction`.
#[verifier::ext_equal]
pub enum SrpStep {
    ReadMac,
    SetConf { host_name: Seq<char>, host_addrs: Seq<Ipv6Addr> },
    WaitMdns,
    Register(MatterMdnsService),
    Deregister { slot: SrpServiceSlot, immediate: bool },
    Fail(Error),
}

impl View for SrpAction {
    type V = SrpStep;

    open spec fn view(&self) -> SrpStep {
        match *self {
            SrpAction::ReadMac => SrpStep::ReadMac,
            SrpAction::SetConf { host_name, host_addrs } => SrpStep::SetConf {
                host_name: thread_name_of(host_name),
                host_addrs: host_addrs@,
            },
            SrpAction::WaitMdns => SrpStep::WaitMdns,
            SrpAction::Register(service) => SrpStep::Register(service),
            SrpAction::Deregister { slot, immediate } => SrpStep::Deregister { slot, immediate },
            SrpAction::Fail(err) => SrpStep::Fail(err),
        }
    }
}

/// What happened to the publisher.
#[derive(Debug, Copy, Clone)]
pub enum SrpEvent {
    Begin,
    MacRead(Result<[u8; 8], EspError>),
    ConfSet(Result<(), EspError>),
    /// The services were collected.
    Collected(Result<(), Error>),
    Registered(Result<SrpServiceSlot, Error>),
    Deregistered(Result<(), Error>),
}

/// How far the publisher is.
#[derive(Debug, Copy, Clone, PartialEq, Eq, Structural)]
pub enum SrpPhase {
    Idle,
    ReadingMac,
    Configuring,
    Collecting,
    /// The wanted service at this place is being registered.
    Registering(usize),
    /// The service in this slot is being deregistered.
    Deregistering(SrpServiceSlot),
}

/// Publishes the services of a Matter node.
#[derive(Debug)]
pub struct EspMatterThreadSrp {
    services: Vec<(MatterMdnsService, SrpServiceSlot)>,
    wanted: Vec<MatterMdnsService>,
    phase: SrpPhase,
}

/// The contents of an `EspMatterThreadSrp`.
#[verifier::ext_equal]
pub struct SrpModel {
    pub services: Seq<(MatterMdnsService, SrpServiceSlot)>,
    pub wanted: Seq<MatterMdnsService>,
    pub phase: SrpPhase,
}

impl View for EspMatterThreadSrp {
    type V = SrpModel;

    closed spec fn view(&self) -> SrpModel {
        SrpModel { services: self.services@, wanted: self.wanted@, phase: self.phase }
    }
}

impl SrpModel {
    /// No more services are published or wanted than can be.
    pub open spec fn wf(self) -> bool {
        &&& self.services.len() <= MAX_MATTER_SERVICES
        &&& self.wanted.len() <= MAX_MATTER_SERVICES
        &&& self.phase matches SrpPhase::Registering(i) ==> i < self.wanted.len()
    }

    /// Whether this can happen now.
    pub open spec fn expects(self, event: SrpEvent) -> bool {
        match event {
            SrpEvent::Begin => true,
            SrpEvent::MacRead(_) => self.phase is ReadingMac,
            SrpEvent::ConfSet(_) => self.phase is Configuring,
            SrpEvent::Collected(_) => self.phase is Collecting,
            SrpEvent::Registered(_) => self.phase is Registering,
            SrpEvent::Deregistered(_) => self.phase is Deregistering,
        }
    }

    /// Waits for the services, and collects them from scratch.
    pub open spec fn wait(self) -> (SrpModel, SrpStep) {
        (SrpModel { wanted: seq![], phase: SrpPhase::Collecting, ..self }, SrpStep::WaitMdns)
    }

    /// Gives up.
    pub open spec fn fail(self, err: Error) -> (SrpModel, SrpStep) {
        (SrpModel { phase: SrpPhase::Idle, ..self }, SrpStep::Fail(err))
    }

    /// Deregisters the first service that is not wanted, or waits where all are.
    pub open spec fn deregister_next(self) -> (SrpModel, SrpStep) {
        match first_unwanted(self.services, self.wanted, 0) {
            Some(k) => {
                let slot = self.services[k].1;
                (
                    SrpModel { phase: SrpPhase::Deregistering(slot), ..self },
                    SrpStep::Deregister { slot, immediate: false },
                )
            },
            None => self.wait(),
        }
    }

    /// Registers the first wanted service, from `i` on, that is not published.
    pub open spec fn register_next(self, i: int) -> (SrpModel, SrpStep) {
        match first_missing(self.wanted, self.services, i) {
            Some(k) => (
                SrpModel { phase: SrpPhase::Registering(k as usize), ..self },
                SrpStep::Register(self.wanted[k]),
            ),
            None => self.deregister_next(),
        }
    }

    /// Collects one of the services of the node.
    pub open spec fn collect(self, service: MatterMdnsService) -> (SrpModel, Result<(), Error>) {
        if self.wanted.len() < MAX_MATTER_SERVICES {
            (SrpModel { wanted: self.wanted.push(service), ..self }, Ok(()))
        } else {
            (self, Err(Error { code: ErrorCode::ConstraintError }))
        }
    }

    /// One step of the publisher.
    pub open spec fn run(self, event: SrpEvent) -> (SrpModel, SrpStep) {
        match event {
            SrpEvent::Begin => (SrpModel { phase: SrpPhase::ReadingMac, ..self }, SrpStep::ReadMac),
            SrpEvent::MacRead(Ok(mac)) => (
                SrpModel { phase: SrpPhase::Configuring, ..self },
                SrpStep::SetConf { host_name: upper_hex(mac@), host_addrs: seq![] },
            ),
            SrpEvent::ConfSet(Ok(())) => self.wait(),
            SrpEvent::MacRead(Err(_)) | SrpEvent::ConfSet(Err(_)) => self.fail(net_error()),
            SrpEvent::Collected(Ok(())) => self.register_next(0),
            SrpEvent::Registered(Ok(slot)) => {
                let i = self.phase->Registering_0;
                if self.services.len() < MAX_MATTER_SERVICES {
                    SrpModel { services: self.services.push((self.wanted[i as int], slot)), ..self }.register_next(
                        i + 1,
                    )
                } else {
                    self.fail(Error { code: ErrorCode::ConstraintError })
                }
            },
            SrpEvent::Deregistered(Ok(())) => SrpModel {
                services: without_slot(self.services, self.phase->Deregistering_0),
                ..self
            }.deregister_next(),
            SrpEvent::Collected(Err(err)) | SrpEvent::Registered(Err(err)) | SrpEvent::Deregistered(Err(err)) =>
            self.fail(err),
        }
    }
}

impl EspMatterThreadSrp {
    /// Create a new instance of the `EspMatterThreadSrp` type.
    pub fn new() -> (r: Self)
        ensures
            r@.wf(),
            r@ == (SrpModel { services: seq![], wanted: seq![], phase: SrpPhase::Idle }),
    {
        let r = EspMatterThreadSrp { services: Vec::new(), wanted: Vec::new(), phase: SrpPhase::Idle };
        assert(r.services@ =~= seq![]);
        assert(r.wanted@ =~= seq![]);
        r
    }

    /// Whether the service is among the published ones.
    fn is_published(&self, service: MatterMdnsService) -> (r: bool)
        ensures
            r == is_published(self@.services, service),
    {
        let mut i: usize = 0;
        while i < self.services.len()
            invariant
                i <= self.services@.len(),
                forall|j: int| 0 <= j < i ==> (#[trigger] self.services@[j]).0 != service,
            decreases self.services@.len() - i,
        {
            if self.services[i].0 == service {
                assert(self.services@[i as int].0 == service);
                return true;
            }
            i += 1;
        }
        false
    }

    /// Whether the service is among the wanted ones.
    fn is_wanted(&self, service: MatterMdnsService) -> (r: bool)
        ensures
            r == self@.wanted.contains(service),
    {
        let mut i: usize = 0;
        while i < self.wanted.len()
            invariant
                i <= self.wanted@.len(),
                forall|j: int| 0 <= j < i ==> self.wanted@[j] != service,
            decreases self.wanted@.len() - i,
        {
            if self.wanted[i] == service {
                assert(self.wanted@[i as int] == service);
                return true;
            }
            i += 1;
        }
        false
    }

    fn wait(&mut self) -> (r: SrpAction)
        ensures
            (final(self)@, r@) == old(self)@.wait(),
    {
        self.wanted = Vec::new();
        self.phase = SrpPhase::Collecting;
        assert(self.wanted@ =~= seq![]);
        SrpAction::WaitMdns
    }

    fn fail(&mut self, err: Error) -> (r: SrpAction)
        ensures
            (final(self)@, r@) == old(self)@.fail(err),
    {
        self.phase = SrpPhase::Idle;
        SrpAction::Fail(err)
    }

    /// Deregister the first service that is not wanted.
    fn deregister_next(&mut self) -> (r: SrpAction)
        ensures
            (final(self)@, r@) == old(self)@.deregister_next(),
    {
        let mut i: usize = 0;
        while i < self.services.len()
            invariant
                *self == *old(self),
                i <= self.services@.len(),
                first_unwanted(self@.services, self@.wanted, 0) == first_unwanted(
                    self@.services,
                    self@.wanted,
                    i as int,
                ),
            decreases self.services@.len() - i,
        {
            if !self.is_wanted(self.services[i].0) {
                let slot = self.services[i].1;
                self.phase = SrpPhase::Deregistering(slot);
                return SrpAction::Deregister { slot, immediate: false };
            }
            i += 1;
        }
        self.wait()
    }

    /// Register the first wanted service, from `from` on, that is not published.
    fn register_next(&mut self, from: usize) -> (r: SrpAction)
        requires
            from <= old(self)@.wanted.len(),
        ensures
            (final(self)@, r@) == old(self)@.register_next(from as int),
    {
        let mut i: usize = from;
        while i < self.wanted.len()
            invariant
                *self == *old(self),
                i <= self.wanted@.len(),
                first_missing(self@.wanted, self@.services, from as int) == first_missing(
                    self@.wanted,
                    self@.services,
                    i as int,
                ),
            decreases self.wanted@.len() - i,
        {
            if !self.is_published(self.wanted[i]) {
                self.phase = SrpPhase::Registering(i);
                return SrpAction::Register(self.wanted[i]);
            }
            i += 1;
        }
        self.deregister_next()
    }

    /// Forget the services in the slot.
    fn forget(&mut self, slot: SrpServiceSlot)
        ensures
            final(self)@ == (SrpModel { services: without_slot(old(self)@.services, slot), ..old(self)@ }),
    {
        let mut kept: Vec<(MatterMdnsService, SrpServiceSlot)> = Vec::new();
        let mut i: usize = 0;
        proof {
            reveal(Seq::filter);
            assert(kept@ =~= without_slot(self.services@.take(0), slot));
        }
        while i < self.services.len()
            invariant
                *self == *old(self),
                i <= self.services@.len(),
                kept@ == without_slot(self.services@.take(i as int), slot),
            decreases self.services@.len() - i,
        {
            let entry = self.services[i];
            if entry.1 != slot {
                kept.push(entry);
            }
            proof {
                reveal(Seq::filter);
                assert(self.services@.take(i + 1).drop_last() =~= self.services@.take(i as int));
            }
            i += 1;
        }
        assert(self.services@.take(i as int) =~= self.services@);
        self.services = kept;
    }

    /// Collect one of the services of the node.
    pub fn collect(&mut self, service: MatterMdnsService) -> (r: Result<(), Error>)
        requires
            old(self)@.wf(),
            old(self)@.phase is Collecting,
        ensures
            final(self)@.wf(),
            (final(self)@, r) == old(self)@.collect(service),
    {
        if self.wanted.len() < MAX_MATTER_SERVICES {
            self.wanted.push(service);
            Ok(())
        } else {
            Err(Error::from(ErrorCode::ConstraintError))
        }
    }

    /// Publish the services of the node, one step at a time.
    pub fn run(&mut self, event: SrpEvent) -> (r: SrpAction)
        requires
            old(self)@.wf(),
            old(self)@.expects(event),
        ensures
            final(self)@.wf(),
            (final(self)@, r@) == old(self)@.run(event),
    {
        proof {
            law_run_keeps_invariant(self@, event);
        }
        match event {
            SrpEvent::Begin => {
                self.phase = SrpPhase::ReadingMac;
                SrpAction::ReadMac
            },
            SrpEvent::MacRead(Ok(mac)) => {
                self.phase = SrpPhase::Configuring;
                let host_addrs: Vec<Ipv6Addr> = Vec::new();
                assert(host_addrs@ =~= seq![]);
                SrpAction::SetConf { host_name: hostname(&mac), host_addrs }
            },
            SrpEvent::ConfSet(Ok(())) => self.wait(),
            SrpEvent::MacRead(Err(err)) | SrpEvent::ConfSet(Err(err)) => self.fail(to_net_error(err)),
            SrpEvent::Collected(Ok(())) => self.register_next(0),
            SrpEvent::Registered(Ok(slot)) => {
                let i: usize = match self.phase {
                    SrpPhase::Registering(i) => i,
                    _ => 0,
                };
                if self.services.len() < MAX_MATTER_SERVICES {
                    self.services.push((self.wanted[i], slot));
                    self.register_next(i + 1)
                } else {
                    self.fail(Error::from(ErrorCode::ConstraintError))
                }
            },
            SrpEvent::Deregistered(Ok(())) => {
                if let SrpPhase::Deregistering(slot) = self.phase {
                    self.forget(slot);
                }
                self.deregister_next()
            },
            SrpEvent::Collected(Err(err)) | SrpEvent::Registered(Err(err)) | SrpEvent::Deregistered(Err(err)) =>
            self.fail(err),
        }
    }
}

proof fn lemma_first_missing(
    wanted: Seq<MatterMdnsService>,
    services: Seq<(MatterMdnsService, SrpServiceSlot)>,
    i: int,
)
    requires
        0 <= i,
    ensures
        match first_missing(wanted, services, i) {
            Some(k) => i <= k < wanted.len() && !is_published(services, wanted[k]) && forall|j: int|
                i <= j < k ==> is_published(services, #[trigger] wanted[j]),
            None => forall|j: int| i <= j < wanted.len() ==> is_published(services, #[trigger] wanted[j]),
        },
    decreases wanted.len() - i,
{
    if i < wanted.len() && is_published(services, wanted[i]) {
        lemma_first_missing(wanted, services, i + 1);
    }
}

proof fn lemma_first_unwanted(
    services: Seq<(MatterMdnsService, SrpServiceSlot)>,
    wanted: Seq<MatterMdnsService>,
    i: int,
)
    requires
        0 <= i,
    ensures
        match first_unwanted(services, wanted, i) {
            Some(k) => i <= k < services.len() && !wanted.contains(services[k].0),
            None => forall|j: int| i <= j < services.len() ==> wanted.contains((#[trigger] services[j]).0),
        },
    decreases services.len() - i,
{
    if i < services.len() && wanted.contains(services[i].0) {
        lemma_first_unwanted(services, wanted, i + 1);
    }
}

/// What stays of the published services once a slot is empty: those in other slots, in their
/// order.
proof fn lemma_without_slot(services: Seq<(MatterMdnsService, SrpServiceSlot)>, slot: SrpServiceSlot)
    ensures
        without_slot(services, slot).len() <= services.len(),
        forall|i: int|
            0 <= i < services.len() && (#[trigger] services[i]).1 != slot ==> without_slot(services, slot).contains(
                services[i],
            ),
        forall|i: int|
            0 <= i < without_slot(services, slot).len() ==> (#[trigger] without_slot(services, slot)[i]).1 != slot
                && services.contains(without_slot(services, slot)[i]),
        (exists|i: int| 0 <= i < services.len() && (#[trigger] services[i]).1 == slot) ==> without_slot(
            services,
            slot,
        ).len() < services.len(),
    decreases services.len(),
{
    reveal(Seq::filter);
    if services.len() > 0 {
        let shorter = services.drop_last();
        lemma_without_slot(shorter, slot);
        let kept = without_slot(services, slot);
        assert forall|i: int| 0 <= i < services.len() && (#[trigger] services[i]).1 != slot implies kept.contains(
            services[i],
        ) by {
            if i < services.len() - 1 {
                assert(shorter[i] == services[i]);
                let j = choose|j: int| 0 <= j < without_slot(shorter, slot).len() && without_slot(shorter, slot)[j]
                    == services[i];
                assert(kept[j] == services[i]);
            } else {
                assert(kept.last() == services[i]);
            }
        }
        assert forall|i: int| 0 <= i < kept.len() implies (#[trigger] kept[i]).1 != slot && services.contains(
            kept[i],
        ) by {
            if i < without_slot(shorter, slot).len() {
                assert(kept[i] == without_slot(shorter, slot)[i]);
                let j = choose|j: int| 0 <= j < shorter.len() && shorter[j] == kept[i];
                assert(services[j] == kept[i]);
            } else {
                assert(services[services.len() - 1] == kept[i]);
            }
        }
        if exists|i: int| 0 <= i < services.len() && (#[trigger] services[i]).1 == slot {
            let i = choose|i: int| 0 <= i < services.len() && (#[trigger] services[i]).1 == slot;
            if i < services.len() - 1 {
                assert(shorter[i].1 == slot);
            }
        }
    }
}

/// No step makes the publisher publish or want more services than can be.
pub proof fn law_run_keeps_invariant(m: SrpModel, event: SrpEvent)
    requires
        m.wf(),
        m.expects(event),
    ensures
        m.run(event).0.wf(),
{
    match event {
        SrpEvent::Collected(Ok(())) => {
            lemma_first_missing(m.wanted, m.services, 0);
        },
        SrpEvent::Registered(Ok(slot)) => {
            let i = m.phase->Registering_0 as int;
            lemma_first_missing(m.wanted, m.services.push((m.wanted[i], slot)), i + 1);
        },
        SrpEvent::Deregistered(Ok(())) => {
            lemma_without_slot(m.services, m.phase->Deregistering_0);
        },
        _ => {},
    }
}

/// No two published services share a slot.
pub open spec fn distinct_slots(services: Seq<(MatterMdnsService, SrpServiceSlot)>) -> bool {
    forall|i: int, j: int|
        0 <= i < j < services.len() ==> (#[trigger] services[i]).1 != (#[trigger] services[j]).1
}

impl SrpModel {
    /// What holds while the published services are brought in line with the wanted ones.
    pub open spec fn in_update(self) -> bool {
        &&& self.wf()
        &&& distinct_slots(self.services)
        &&& self.phase matches SrpPhase::Registering(i) ==> {
            &&& forall|j: int| 0 <= j < i ==> is_published(self.services, #[trigger] self.wanted[j])
            &&& !is_published(self.services, self.wanted[i as int])
        }
        &&& self.phase matches SrpPhase::Deregistering(slot) ==> {
            &&& forall|j: int| 0 <= j < self.wanted.len() ==> is_published(self.services, #[trigger] self.wanted[j])
            &&& exists|k: int|
                0 <= k < self.services.len() && (#[trigger] self.services[k]).1 == slot && !self.wanted.contains(
                    self.services[k].0,
                )
        }
    }

    /// How many steps the update can take at most, once it has begun.
    pub open spec fn steps_left(self) -> nat {
        match self.phase {
            SrpPhase::Registering(i) => (MAX_MATTER_SERVICES + 1 + self.wanted.len() - i) as nat,
            SrpPhase::Deregistering(_) => self.services.len(),
            _ => 0,
        }
    }
}

/// Whether the publisher learns that a step of the update went well.
pub open spec fn is_progress(event: SrpEvent) -> bool {
    ||| event matches SrpEvent::Collected(Ok(()))
    ||| event matches SrpEvent::Registered(Ok(_))
    ||| event matches SrpEvent::Deregistered(Ok(()))
}

/// A published service stays published when another one is added.
proof fn lemma_published_push(
    services: Seq<(MatterMdnsService, SrpServiceSlot)>,
    entry: (MatterMdnsService, SrpServiceSlot),
    service: MatterMdnsService,
)
    ensures
        is_published(services.push(entry), service) <==> is_published(services, service) || entry.0 == service,
{
    let longer = services.push(entry);
    if is_published(services, service) {
        let i = choose|i: int| 0 <= i < services.len() && (#[trigger] services[i]).0 == service;
        assert(longer[i].0 == service);
    }
    if entry.0 == service {
        assert(longer[services.len() as int].0 == service);
    }
    if is_published(longer, service) {
        let i = choose|i: int| 0 <= i < longer.len() && (#[trigger] longer[i]).0 == service;
        if i < services.len() {
            assert(services[i].0 == service);
        }
    }
}

proof fn lemma_deregister_next(m: SrpModel)
    requires
        m.wf(),
        distinct_slots(m.services),
        forall|j: int| 0 <= j < m.wanted.len() ==> is_published(m.services, #[trigger] m.wanted[j]),
    ensures
        ({
            let (after, step) = m.deregister_next();
            &&& after.in_update()
            &&& after.services == m.services
            &&& step is WaitMdns ==> forall|k: int|
                0 <= k < m.services.len() ==> m.wanted.contains((#[trigger] m.services[k]).0)
            &&& step is WaitMdns || step is Deregister && after.steps_left() == m.services.len()
        }),
{
    lemma_first_unwanted(m.services, m.wanted, 0);
}

proof fn lemma_register_next(m: SrpModel, i: int)
    requires
        m.wf(),
        0 <= i <= m.wanted.len(),
        distinct_slots(m.services),
        forall|j: int| 0 <= j < i ==> is_published(m.services, #[trigger] m.wanted[j]),
    ensures
        ({
            let (after, step) = m.register_next(i);
            &&& after.in_update()
            &&& after.services == m.services
            &&& step is WaitMdns ==> {
                &&& forall|j: int| 0 <= j < m.wanted.len() ==> is_published(m.services, #[trigger] m.wanted[j])
                &&& forall|k: int| 0 <= k < m.services.len() ==> m.wanted.contains((#[trigger] m.services[k]).0)
            }
            &&& step is WaitMdns || after.steps_left() <= MAX_MATTER_SERVICES + 1 + m.wanted.len() - i
            &&& step is Fail ==> false
        }),
{
    lemma_first_missing(m.wanted, m.services, i);
    if first_missing(m.wanted, m.services, i) is None {
        lemma_deregister_next(m);
    }
}

/// An update of the published services, each step of which goes well, ends with exactly the
/// wanted services published. On its way, a wanted service that is published keeps its slot, and
/// every step brings the update nearer to its end.
///
/// The Thread stack never hands out a slot that is in use.
pub proof fn law_update_publishes_the_wanted(m: SrpModel, event: SrpEvent)
    requires
        m.in_update(),
        m.expects(event),
        is_progress(event),
        event matches SrpEvent::Registered(Ok(slot)) ==> forall|i: int|
            0 <= i < m.services.len() ==> (#[trigger] m.services[i]).1 != slot,
        event is Registered ==> m.services.len() < MAX_MATTER_SERVICES,
    ensures
        ({
            let (after, step) = m.run(event);
            &&& after.in_update()
            &&& step is WaitMdns ==> {
                &&& forall|j: int| 0 <= j < m.wanted.len() ==> is_published(after.services, #[trigger] m.wanted[j])
                &&& forall|k: int|
                    0 <= k < after.services.len() ==> m.wanted.contains((#[trigger] after.services[k]).0)
            }
            &&& forall|k: int|
                0 <= k < m.services.len() && m.wanted.contains((#[trigger] m.services[k]).0)
                    ==> after.services.contains(m.services[k])
            &&& event is Collected || step is WaitMdns || after.steps_left() < m.steps_left()
        }),
{
    match event {
        SrpEvent::Collected(Ok(())) => {
            lemma_register_next(m, 0);
        },
        SrpEvent::Registered(Ok(slot)) => {
            let i = m.phase->Registering_0 as int;
            let entry = (m.wanted[i], slot);
            let mid = SrpModel { services: m.services.push(entry), ..m };
            assert forall|j: int| 0 <= j < i + 1 implies is_published(mid.services, #[trigger] mid.wanted[j]) by {
                lemma_published_push(m.services, entry, m.wanted[j]);
            }
            lemma_register_next(mid, i + 1);
            assert forall|k: int| 0 <= k < m.services.len() implies mid.services.contains(
                #[trigger] m.services[k],
            ) by {
                assert(mid.services[k] == m.services[k]);
            }
        },
        SrpEvent::Deregistered(Ok(())) => {
            let slot = m.phase->Deregistering_0;
            let mid = SrpModel { services: without_slot(m.services, slot), ..m };
            lemma_without_slot(m.services, slot);
            lemma_without_slot_distinct(m.services, slot);
            let gone = choose|k: int|
                0 <= k < m.services.len() && (#[trigger] m.services[k]).1 == slot && !m.wanted.contains(
                    m.services[k].0,
                );
            assert forall|k: int| 0 <= k < m.services.len() && m.wanted.contains(
                (#[trigger] m.services[k]).0,
            ) implies mid.services.contains(m.services[k]) by {
                if m.services[k].1 == slot {
                    assert(k == gone);
                }
            }
            assert forall|j: int| 0 <= j < mid.wanted.len() implies is_published(
                mid.services,
                #[trigger] mid.wanted[j],
            ) by {
                assert(is_published(m.services, m.wanted[j]));
                let k = choose|k: int| 0 <= k < m.services.len() && (#[trigger] m.services[k]).0 == m.wanted[j];
                assert(m.wanted.contains(m.services[k].0));
                assert(mid.services.contains(m.services[k]));
                let l = choose|l: int| 0 <= l < mid.services.len() && mid.services[l] == m.services[k];
                assert(mid.services[l].0 == m.wanted[j]);
            }
            lemma_deregister_next(mid);
        },
        _ => {},
    }
}

proof fn lemma_without_slot_distinct(services: Seq<(MatterMdnsService, SrpServiceSlot)>, slot: SrpServiceSlot)
    requires
        distinct_slots(services),
    ensures
        distinct_slots(without_slot(services, slot)),
    decreases services.len(),
{
    reveal(Seq::filter);
    if services.len() > 0 {
        let shorter = services.drop_last();
        lemma_without_slot_distinct(shorter, slot);
        lemma_without_slot(shorter, slot);
        let before = without_slot(shorter, slot);
        let kept = without_slot(services, slot);
        assert forall|i: int, j: int| 0 <= i < j < kept.len() implies (#[trigger] kept[i]).1 != (
        #[trigger] kept[j]).1 by {
            assert(kept[i] == before[i]);
            if j < before.len() {
                assert(kept[j] == before[j]);
            } else {
                let k = choose|k: int| 0 <= k < shorter.len() && shorter[k] == before[i];
                assert(services[k] == before[i]);
                assert(kept[j] == services[services.len() - 1]);
            }
        }
    }
}

/// Only a wanted service that is not published is registered, and only a published service that
/// is not wanted is deregistered.
pub proof fn law_update_does_no_more(m: SrpModel, event: SrpEvent)
    requires
        m.in_update(),
        m.expects(event),
        is_progress(event),
    ensures
        ({
            let (after, step) = m.run(event);
            &&& step matches SrpStep::Register(service) ==> m.wanted.contains(service) && !is_published(
                after.services,
                service,
            )
            &&& step matches SrpStep::Deregister { slot, .. } ==> exists|k: int|
                0 <= k < after.services.len() && (#[trigger] after.services[k]).1 == slot && !m.wanted.contains(
                    after.services[k].0,
                )
        }),
{
    let (after, step) = m.run(event);
    match event {
        SrpEvent::Collected(Ok(())) => {
            lemma_first_missing(m.wanted, m.services, 0);
        },
        SrpEvent::Registered(Ok(slot)) => {
            let i = m.phase->Registering_0 as int;
            lemma_first_missing(m.wanted, m.services.push((m.wanted[i], slot)), i + 1);
        },
        _ => {},
    }
    lemma_first_unwanted(after.services, m.wanted, 0);
}

/// A host name has two hexadecimal digits for each byte of the hardware address, so that
/// different nodes have different ones.
pub proof fn law_hostname_is_unique(a: [u8; 8], b: [u8; 8])
    ensures
        upper_hex(a@).len() == 16,
        upper_hex(a@) == upper_hex(b@) ==> a@ == b@,
{
    if upper_hex(a@) == upper_hex(b@) {
        assert forall|i: int| 0 <= i < 8 implies a@[i] == b@[i] by {
            lemma_same_byte(a@, b@, i);
        }
        assert(a@ =~= b@);
    }
}

#[verifier::spinoff_prover]
proof fn lemma_same_byte(a: Seq<u8>, b: Seq<u8>, i: int)
    requires
        0 <= i < a.len(),
        i < b.len(),
        upper_hex(a) == upper_hex(b),
    ensures
        a[i] == b[i],
{
    let (x, y) = (a[i] as int, b[i] as int);
    assert(upper_digits()[x / 16] == upper_digits()[y / 16] && upper_digits()[x % 16] == upper_digits()[y % 16]) by {
        lemma_hex_is_ascii(a);
        lemma_hex_is_ascii(b);
    }
    lemma_digits_differ(x / 16, y / 16);
    lemma_digits_differ(x % 16, y % 16);
}

#[verifier::spinoff_prover]
proof fn lemma_digits_differ(x: int, y: int)
    requires
        0 <= x < 16,
        0 <= y < 16,
        upper_digits()[x] == upper_digits()[y],
    ensures
        x == y,
{
}

/// Where an update ends, in so many steps at most, whose every step goes well and whose services
/// get the given slots in turn, and the calls that it makes.
pub open spec fn run_update(m: SrpModel, step: SrpStep, slots: Seq<SrpServiceSlot>, fuel: nat) -> (
    SrpModel,
    Seq<SrpStep>,
)
    decreases fuel,
{
    if fuel == 0 {
        (m, seq![])
    } else {
        match step {
            SrpStep::Register(_) => {
                let (after, next) = m.run(SrpEvent::Registered(Ok(slots.first())));
                let (end, calls) = run_update(after, next, slots.drop_first(), (fuel - 1) as nat);
                (end, seq![step] + calls)
            },
            SrpStep::Deregister { .. } => {
                let (after, next) = m.run(SrpEvent::Deregistered(Ok(())));
                let (end, calls) = run_update(after, next, slots, (fuel - 1) as nat);
                (end, seq![step] + calls)
            },
            _ => (m, seq![]),
        }
    }
}

/// Where a whole update ends, from the collected services on, and the calls that it makes.
pub open spec fn update(m: SrpModel, slots: Seq<SrpServiceSlot>) -> (SrpModel, Seq<SrpStep>) {
    let (begun, step) = m.run(SrpEvent::Collected(Ok(())));
    run_update(begun, step, slots, 8)
}

/// Whether none of the slots is in use.
pub open spec fn are_unused(
    services: Seq<(MatterMdnsService, SrpServiceSlot)>,
    slots: Seq<SrpServiceSlot>,
) -> bool {
    forall|i: int, j: int|
        0 <= i < services.len() && 0 <= j < slots.len() ==> (#[trigger] services[i]).1 != #[trigger] slots[j]
}

/// Whether an update can begin, and the Thread stack can hand out the slots to it: they are
/// different ones, none is in use, and there is one for each wanted service.
pub open spec fn can_update(m: SrpModel, slots: Seq<SrpServiceSlot>) -> bool {
    &&& m.wf()
    &&& m.phase is Collecting
    &&& distinct_slots(m.services)
    &&& slots.no_duplicates()
    &&& are_unused(m.services, slots)
    &&& m.wanted.len() <= slots.len()
}

/// Whether exactly the wanted services are published.
pub open spec fn in_line(
    services: Seq<(MatterMdnsService, SrpServiceSlot)>,
    wanted: Seq<MatterMdnsService>,
) -> bool {
    &&& forall|j: int| 0 <= j < wanted.len() ==> is_published(services, #[trigger] wanted[j])
    &&& forall|k: int| 0 <= k < services.len() ==> wanted.contains((#[trigger] services[k]).0)
}

/// The services that are published, without their slots.
pub open spec fn names(services: Seq<(MatterMdnsService, SrpServiceSlot)>) -> Seq<MatterMdnsService> {
    services.map_values(|entry: (MatterMdnsService, SrpServiceSlot)| entry.0)
}

/// The services that are published or wanted.
pub open spec fn involved(
    services: Seq<(MatterMdnsService, SrpServiceSlot)>,
    wanted: Seq<MatterMdnsService>,
) -> Set<MatterMdnsService> {
    names(services).to_set().union(wanted.to_set())
}

proof fn lemma_names(services: Seq<(MatterMdnsService, SrpServiceSlot)>, service: MatterMdnsService)
    ensures
        is_published(services, service) <==> names(services).contains(service),
{
    let names = names(services);
    if is_published(services, service) {
        let i = choose|i: int| 0 <= i < services.len() && (#[trigger] services[i]).0 == service;
        assert(names[i] == service);
    }
    if names.contains(service) {
        let i = choose|i: int| 0 <= i < names.len() && names[i] == service;
        assert(services[i].0 == service);
    }
}

/// Where everything that is wanted is published, nothing else is involved.
proof fn lemma_involved_published(
    services: Seq<(MatterMdnsService, SrpServiceSlot)>,
    wanted: Seq<MatterMdnsService>,
)
    requires
        names(services).no_duplicates(),
        forall|j: int| 0 <= j < wanted.len() ==> is_published(services, #[trigger] wanted[j]),
    ensures
        involved(services, wanted).len() == services.len(),
{
    assert forall|service: MatterMdnsService| wanted.contains(service) implies names(services).contains(service) by {
        let j = choose|j: int| 0 <= j < wanted.len() && wanted[j] == service;
        assert(is_published(services, wanted[j]));
        lemma_names(services, service);
    }
    assert(involved(services, wanted) =~= names(services).to_set());
    names(services).unique_seq_to_set();
}

/// A wanted service that is not published is one more than the published ones.
proof fn lemma_involved_missing(
    services: Seq<(MatterMdnsService, SrpServiceSlot)>,
    wanted: Seq<MatterMdnsService>,
    i: int,
)
    requires
        names(services).no_duplicates(),
        0 <= i < wanted.len(),
        !is_published(services, wanted[i]),
    ensures
        involved(services, wanted).len() > services.len(),
{
    let published = names(services).to_set();
    names(services).unique_seq_to_set();
    lemma_names(services, wanted[i]);
    assert(wanted.contains(wanted[i]));
    let all = involved(services, wanted);
    assert(published.insert(wanted[i]).subset_of(all));
    vstd::set_lib::lemma_len_subset(published.insert(wanted[i]), all);
}

/// Publishing a wanted service involves no other service, and publishes none twice.
proof fn lemma_involved_push(
    services: Seq<(MatterMdnsService, SrpServiceSlot)>,
    wanted: Seq<MatterMdnsService>,
    i: int,
    slot: SrpServiceSlot,
)
    requires
        0 <= i < wanted.len(),
        !is_published(services, wanted[i]),
    ensures
        involved(services.push((wanted[i], slot)), wanted) == involved(services, wanted),
        names(services).no_duplicates() ==> names(services.push((wanted[i], slot))).no_duplicates(),
{
    let longer = services.push((wanted[i], slot));
    assert(names(longer) =~= names(services).push(wanted[i]));
    assert(wanted.contains(wanted[i]));
    lemma_names(services, wanted[i]);
    assert forall|service: MatterMdnsService| involved(longer, wanted).contains(service) == #[trigger] involved(
        services,
        wanted,
    ).contains(service) by {
        lemma_names(longer, service);
        lemma_names(services, service);
        lemma_published_push(services, (wanted[i], slot), service);
    }
    assert(involved(longer, wanted) =~= involved(services, wanted));
}

proof fn lemma_without_slot_names(services: Seq<(MatterMdnsService, SrpServiceSlot)>, slot: SrpServiceSlot)
    requires
        names(services).no_duplicates(),
    ensures
        names(without_slot(services, slot)).no_duplicates(),
    decreases services.len(),
{
    reveal(Seq::filter);
    if services.len() > 0 {
        let shorter = services.drop_last();
        let before = without_slot(shorter, slot);
        let kept = without_slot(services, slot);
        assert(names(shorter) =~= names(services).drop_last());
        lemma_without_slot_names(shorter, slot);
        lemma_without_slot(shorter, slot);
        let last = services.last();
        if last.1 != slot {
            assert(names(kept) =~= names(before).push(last.0));
            if names(before).contains(last.0) {
                let i = choose|i: int| 0 <= i < names(before).len() && names(before)[i] == last.0;
                assert(shorter.contains(before[i]));
                let j = choose|j: int| 0 <= j < shorter.len() && shorter[j] == before[i];
                assert(names(services)[j] == names(services)[services.len() - 1]);
            }
        }
    }
}

/// No service is published twice: a step of the update keeps it so.
pub proof fn law_services_are_published_once(m: SrpModel, event: SrpEvent)
    requires
        m.in_update(),
        m.expects(event),
        is_progress(event),
        names(m.services).no_duplicates(),
    ensures
        names(m.run(event).0.services).no_duplicates(),
{
    match event {
        SrpEvent::Registered(Ok(slot)) => {
            lemma_involved_push(m.services, m.wanted, m.phase->Registering_0 as int, slot);
        },
        SrpEvent::Deregistered(Ok(())) => {
            lemma_without_slot_names(m.services, m.phase->Deregistering_0);
        },
        _ => {},
    }
}

proof fn lemma_run_update(
    m: SrpModel,
    step: SrpStep,
    wanted: Seq<MatterMdnsService>,
    slots: Seq<SrpServiceSlot>,
    fuel: nat,
)
    requires
        m.in_update(),
        slots.no_duplicates(),
        are_unused(m.services, slots),
        m.steps_left() < fuel,
        match step {
            SrpStep::Register(_) => m.phase is Registering && m.wanted == wanted && wanted.len()
                - m.phase->Registering_0 <= slots.len(),
            SrpStep::Deregister { .. } => m.phase is Deregistering && m.wanted == wanted,
            SrpStep::WaitMdns => m.phase is Collecting && m.wanted.len() == 0 && in_line(m.services, wanted),
            SrpStep::Fail(_) => m.phase is Idle,
            _ => false,
        },
    ensures
        ({
            let (end, calls) = run_update(m, step, slots, fuel);
            &&& end.phase is Idle || end.phase is Collecting && end.wanted.len() == 0 && in_line(end.services, wanted)
            &&& step is Deregister || step is WaitMdns ==> end.phase is Collecting
            &&& end.wf()
            &&& distinct_slots(end.services)
            &&& calls.len() <= m.steps_left()
            &&& names(m.services).no_duplicates() ==> names(end.services).no_duplicates()
            &&& step is Register && names(m.services).no_duplicates() ==> (end.phase is Idle <==> involved(
                m.services,
                wanted,
            ).len() > MAX_MATTER_SERVICES)
            &&& forall|k: int|
                0 <= k < m.services.len() && wanted.contains((#[trigger] m.services[k]).0) ==> end.services.contains(
                    m.services[k],
                )
            &&& forall|k: int|
                0 <= k < end.services.len() ==> m.services.contains(#[trigger] end.services[k]) || slots.contains(
                    end.services[k].1,
                )
            &&& end.phase is Idle ==> {
                &&& m.services.is_prefix_of(end.services)
                &&& forall|k: int| 0 <= k < calls.len() ==> (#[trigger] calls[k]) is Register
            }
        }),
    decreases fuel,
{
    match step {
        SrpStep::Register(_) => {
            let slot = slots.first();
            let rest = slots.drop_first();
            let event = SrpEvent::Registered(Ok(slot));
            let (after, next) = m.run(event);
            let (end, calls) = run_update(after, next, rest, (fuel - 1) as nat);
            let i = m.phase->Registering_0 as int;
            assert(slot == slots[0]);
            assert forall|x: int, y: int| 0 <= x < rest.len() && 0 <= y < rest.len() && x != y implies rest[x]
                != rest[y] by {
                assert(slots[x + 1] != slots[y + 1]);
            }
            if m.services.len() < MAX_MATTER_SERVICES {
                let entry = (wanted[i], slot);
                let mid = SrpModel { services: m.services.push(entry), ..m };
                law_update_publishes_the_wanted(m, event);
                lemma_involved_push(m.services, wanted, i, slot);
                assert forall|j: int| 0 <= j < i + 1 implies is_published(mid.services, #[trigger] mid.wanted[j]) by {
                    lemma_published_push(m.services, entry, wanted[j]);
                }
                lemma_register_next(mid, i + 1);
                lemma_first_missing(wanted, mid.services, i + 1);
                assert(after.services == mid.services);
                assert forall|x: int, y: int| 0 <= x < after.services.len() && 0 <= y < rest.len() implies (
                #[trigger] after.services[x]).1 != #[trigger] rest[y] by {
                    assert(rest[y] == slots[y + 1]);
                    if x == m.services.len() {
                        assert(slots[0] != slots[y + 1]);
                    } else {
                        assert(after.services[x] == m.services[x]);
                    }
                }
                lemma_run_update(after, next, wanted, rest, (fuel - 1) as nat);
                if names(m.services).no_duplicates() && !(next is Register) {
                    lemma_involved_published(mid.services, wanted);
                }
                assert forall|k: int| 0 <= k < m.services.len() && wanted.contains(
                    (#[trigger] m.services[k]).0,
                ) implies end.services.contains(m.services[k]) by {
                    assert(after.services[k] == m.services[k]);
                }
                assert forall|k: int| 0 <= k < end.services.len() implies m.services.contains(
                    #[trigger] end.services[k],
                ) || slots.contains(end.services[k].1) by {
                    lemma_from_rest(m.services, entry, slots, end.services[k]);
                }
                if end.phase is Idle {
                    assert(m.services =~= end.services.subrange(0, m.services.len() as int)) by {
                        assert forall|k: int| 0 <= k < m.services.len() implies m.services[k] == #[trigger]
                            end.services[k] by {
                            assert(after.services[k] == end.services.subrange(0, after.services.len() as int)[k]);
                        }
                    }
                }
            } else {
                lemma_run_update(after, next, wanted, rest, (fuel - 1) as nat);
                if names(m.services).no_duplicates() {
                    lemma_involved_missing(m.services, wanted, i);
                }
                assert(end.services == m.services);
            }
        },
        SrpStep::Deregister { .. } => {
            let event = SrpEvent::Deregistered(Ok(()));
            let (after, next) = m.run(event);
            let end = run_update(after, next, slots, (fuel - 1) as nat).0;
            law_update_publishes_the_wanted(m, event);
            lemma_without_slot(m.services, m.phase->Deregistering_0);
            if names(m.services).no_duplicates() {
                lemma_without_slot_names(m.services, m.phase->Deregistering_0);
            }
            assert forall|x: int, y: int| 0 <= x < after.services.len() && 0 <= y < slots.len() implies (
            #[trigger] after.services[x]).1 != #[trigger] slots[y] by {
                let j = choose|j: int| 0 <= j < m.services.len() && m.services[j] == after.services[x];
                assert(m.services[j].1 != slots[y]);
            }
            lemma_run_update(after, next, wanted, slots, (fuel - 1) as nat);
            assert forall|k: int| 0 <= k < m.services.len() && wanted.contains(
                (#[trigger] m.services[k]).0,
            ) implies end.services.contains(m.services[k]) by {
                let j = choose|j: int| 0 <= j < after.services.len() && after.services[j] == m.services[k];
                assert(wanted.contains(after.services[j].0));
            }
            assert forall|k: int| 0 <= k < end.services.len() implies m.services.contains(
                #[trigger] end.services[k],
            ) || slots.contains(end.services[k].1) by {
                if after.services.contains(end.services[k]) {
                    let j = choose|j: int| 0 <= j < after.services.len() && after.services[j] == end.services[k];
                    assert(m.services.contains(after.services[j]));
                }
            }
        },
        _ => {},
    }
}

/// A service that was there once the first slot was handed out, or got one of the others, was there
/// before or got one of the slots.
proof fn lemma_from_rest(
    services: Seq<(MatterMdnsService, SrpServiceSlot)>,
    entry: (MatterMdnsService, SrpServiceSlot),
    slots: Seq<SrpServiceSlot>,
    found: (MatterMdnsService, SrpServiceSlot),
)
    requires
        slots.len() > 0,
        entry.1 == slots[0],
        services.push(entry).contains(found) || slots.drop_first().contains(found.1),
    ensures
        services.contains(found) || slots.contains(found.1),
{
    let longer = services.push(entry);
    if longer.contains(found) {
        let i = choose|i: int| 0 <= i < longer.len() && longer[i] == found;
        if i < services.len() {
            assert(services[i] == found);
        }
    } else {
        let i = choose|i: int| 0 <= i < slots.drop_first().len() && slots.drop_first()[i] == found.1;
        assert(slots[i + 1] == found.1);
    }
}

/// An update whose every step goes well ends with exactly the wanted services published and none
/// collected, or gives up for want of room, after at most seven calls. A wanted service that was published keeps its
/// slot, every other one gets one of those handed out, and no two share one. Where no service is
/// published twice to begin with, none is in the end, and the update gives up exactly where the
/// published and the wanted services together are more different ones than can be published.
pub proof fn law_update_outcome(m: SrpModel, slots: Seq<SrpServiceSlot>)
    requires
        can_update(m, slots),
    ensures
        ({
            let (end, calls) = update(m, slots);
            &&& end.wf()
            &&& end.phase is Idle || end.phase is Collecting && end.wanted.len() == 0 && in_line(
                end.services,
                m.wanted,
            )
            &&& calls.len() <= 7
            &&& distinct_slots(end.services)
            &&& forall|k: int|
                0 <= k < m.services.len() && m.wanted.contains((#[trigger] m.services[k]).0)
                    ==> end.services.contains(m.services[k])
            &&& forall|k: int|
                0 <= k < end.services.len() ==> m.services.contains(#[trigger] end.services[k]) || slots.contains(
                    end.services[k].1,
                )
            &&& names(m.services).no_duplicates() ==> {
                &&& names(end.services).no_duplicates()
                &&& end.phase is Idle <==> involved(m.services, m.wanted).len() > MAX_MATTER_SERVICES
            }
        }),
{
    let event = SrpEvent::Collected(Ok(()));
    let (begun, step) = m.run(event);
    law_update_publishes_the_wanted(m, event);
    lemma_register_next(m, 0);
    lemma_run_update(begun, step, m.wanted, slots, 8);
    if names(m.services).no_duplicates() && !(step is Register) {
        lemma_involved_published(m.services, m.wanted);
    }
}

/// An update that gives up for want of room gives back no slot: it makes no call but to register,
/// and what was published before stays published, in its place.
pub proof fn law_update_that_does_not_fit_gives_nothing_back(m: SrpModel, slots: Seq<SrpServiceSlot>)
    requires
        can_update(m, slots),
        update(m, slots).0.phase is Idle,
    ensures
        m.services.is_prefix_of(update(m, slots).0.services),
        forall|k: int| 0 <= k < update(m, slots).1.len() ==> (#[trigger] update(m, slots).1[k]) is Register,
{
    let event = SrpEvent::Collected(Ok(()));
    let (begun, step) = m.run(event);
    law_update_publishes_the_wanted(m, event);
    lemma_register_next(m, 0);
    lemma_run_update(begun, step, m.wanted, slots, 8);
}

/// Where exactly the wanted services are published, an update makes no call and changes nothing
/// but that the services are collected anew.
pub proof fn law_same_services_change_nothing(m: SrpModel, slots: Seq<SrpServiceSlot>)
    requires
        m.phase is Collecting,
        in_line(m.services, m.wanted),
    ensures
        m.run(SrpEvent::Collected(Ok(()))) == (SrpModel { wanted: seq![], ..m }, SrpStep::WaitMdns),
        update(m, slots) == (SrpModel { wanted: seq![], ..m }, Seq::<SrpStep>::empty()),
{
    lemma_first_missing(m.wanted, m.services, 0);
    lemma_first_unwanted(m.services, m.wanted, 0);
    assert(update(m, slots).1 =~= seq![]);
}

/// A second update with the same services as the first, in whatever order, makes no call and
/// changes nothing.
pub proof fn law_second_update_changes_nothing(
    m: SrpModel,
    slots: Seq<SrpServiceSlot>,
    again: Seq<MatterMdnsService>,
    other_slots: Seq<SrpServiceSlot>,
)
    requires
        can_update(m, slots),
        update(m, slots).0.phase is Collecting,
        again.to_set() == m.wanted.to_set(),
    ensures
        update(SrpModel { wanted: again, ..update(m, slots).0 }, other_slots) == (
            update(m, slots).0,
            Seq::<SrpStep>::empty(),
        ),
{
    law_update_outcome(m, slots);
    let end = update(m, slots).0;
    let next = SrpModel { wanted: again, ..end };
    assert forall|j: int| 0 <= j < again.len() implies is_published(end.services, #[trigger] again[j]) by {
        assert(again.to_set().contains(again[j]));
        assert(m.wanted.contains(again[j]));
    }
    assert forall|k: int| 0 <= k < end.services.len() implies again.contains((#[trigger] end.services[k]).0) by {
        assert(m.wanted.to_set().contains(end.services[k].0));
    }
    law_same_services_change_nothing(next, other_slots);
    assert(end.wanted =~= seq![]);
}

/// The publisher reads the hardware address, names the host by it, without addresses, and then waits
/// for the services, collecting them from scratch. What is published stays published. A failure on
/// the way is a network error.
pub proof fn law_publisher_sets_up(m: SrpModel, mac: [u8; 8], err: EspError)
    ensures
        ({
            let failed = (
                SrpModel { phase: SrpPhase::Idle, ..m },
                SrpStep::Fail(Error { code: ErrorCode::NoNetworkInterface }),
            );
            let (named, conf) = m.run(SrpEvent::MacRead(Ok(mac)));
            let (ready, wait) = m.run(SrpEvent::ConfSet(Ok(())));
            &&& m.run(SrpEvent::Begin) == (SrpModel { phase: SrpPhase::ReadingMac, ..m }, SrpStep::ReadMac)
            &&& named == (SrpModel { phase: SrpPhase::Configuring, ..m })
            &&& conf matches SrpStep::SetConf { host_name, host_addrs } && host_name == upper_hex(mac@)
                && host_addrs.len() == 0
            &&& ready.services == m.services && ready.wanted.len() == 0 && ready.phase is Collecting
            &&& wait is WaitMdns
            &&& m.run(SrpEvent::MacRead(Err(err))) == failed
            &&& m.run(SrpEvent::ConfSet(Err(err))) == failed
        }),
{
}

/// A failure to collect, to register or to deregister stops the publisher with this very failure.
/// What is published is still known.
pub proof fn law_failures_stop_the_publisher(m: SrpModel, err: Error)
    ensures
        ({
            let failed = (SrpModel { phase: SrpPhase::Idle, ..m }, SrpStep::Fail(err));
            &&& m.run(SrpEvent::Collected(Err(err))) == failed
            &&& m.run(SrpEvent::Registered(Err(err))) == failed
            &&& m.run(SrpEvent::Deregistered(Err(err))) == failed
        }),
{
}

/// A service is collected behind those before it, up to three of them. A fourth one breaks a
/// constraint, and changes nothing.
pub proof fn law_up_to_three_services_are_collected(m: SrpModel, service: MatterMdnsService)
    ensures
        m.wanted.len() < 3 ==> {
            let (after, result) = m.collect(service);
            &&& result is Ok
            &&& after == (SrpModel { wanted: after.wanted, ..m })
            &&& after.wanted.len() == m.wanted.len() + 1 && after.wanted.last() == service
            &&& forall|i: int| 0 <= i < m.wanted.len() ==> #[trigger] after.wanted[i] == m.wanted[i]
        },
        m.wanted.len() >= 3 ==> m.collect(service) == (
            m,
            Err::<(), Error>(Error { code: ErrorCode::ConstraintError }),
        ),
{
}

/// A service counts as published exactly where it is the name of a published one.
pub proof fn law_published_services_are_known_by_name(
    services: Seq<(MatterMdnsService, SrpServiceSlot)>,
    service: MatterMdnsService,
)
    ensures
        is_published(services, service) <==> names(services).contains(service),
{
    lemma_names(services, service);
}

/// Once the services are collected, and after each step, an update goes on with the first wanted
/// service that is not published: this is registered. Once all of them are, the first published
/// service that is not wanted is deregistered, by its slot and not at once. Where there is none of
/// either, the services are waited for and collected anew.
///
/// `from` is a place up to which all the wanted services are published already.
pub proof fn law_update_goes_on(m: SrpModel, from: int, k: int)
    requires
        m.wf(),
        0 <= from <= m.wanted.len(),
        forall|j: int| 0 <= j < from ==> names(m.services).contains(#[trigger] m.wanted[j]),
    ensures
        ({
            let (after, step) = m.register_next(from);
            let all_published = forall|j: int|
                0 <= j < m.wanted.len() ==> names(m.services).contains(#[trigger] m.wanted[j]);
            let all_wanted = forall|j: int|
                0 <= j < m.services.len() ==> m.wanted.contains(#[trigger] names(m.services)[j]);
            &&& 0 <= k < m.wanted.len() && !names(m.services).contains(m.wanted[k]) && (forall|j: int|
                0 <= j < k ==> names(m.services).contains(#[trigger] m.wanted[j])) ==> {
                &&& step == SrpStep::Register(m.wanted[k])
                &&& after == (SrpModel { phase: SrpPhase::Registering(k as usize), ..m })
            }
            &&& all_published && 0 <= k < m.services.len() && !m.wanted.contains(m.services[k].0) && (forall|j: int|
                0 <= j < k ==> m.wanted.contains(#[trigger] names(m.services)[j])) ==> {
                &&& step == (SrpStep::Deregister { slot: m.services[k].1, immediate: false })
                &&& after == (SrpModel { phase: SrpPhase::Deregistering(m.services[k].1), ..m })
                &&& m.deregister_next() == (after, step)
            }
            &&& all_published && all_wanted ==> {
                &&& step is WaitMdns
                &&& after.services == m.services && after.wanted.len() == 0 && after.phase is Collecting
                &&& m.deregister_next() == (after, step)
            }
        }),
{
    let (services, wanted) = (m.services, m.wanted);
    assert forall|j: int| 0 <= j < wanted.len() implies is_published(services, #[trigger] wanted[j]) == names(
        services,
    ).contains(wanted[j]) by {
        lemma_names(services, wanted[j]);
    }
    lemma_first_missing(wanted, services, from);
    lemma_first_unwanted_is_first(services, wanted, 0);
    if let Some(first) = first_missing(wanted, services, from) {
        assert(!names(services).contains(wanted[first]));
        if 0 <= k < wanted.len() && !names(services).contains(wanted[k]) && (forall|j: int|
            0 <= j < k ==> names(services).contains(#[trigger] wanted[j])) {
            assert(!(first < k));
            assert(!(k < first)) by {
                if k < first {
                    assert(k >= from);
                    assert(is_published(services, wanted[k]));
                }
            }
        }
    } else {
        assert forall|j: int| 0 <= j < wanted.len() implies names(services).contains(#[trigger] wanted[j]) by {
            if j >= from {
                assert(is_published(services, wanted[j]));
            }
        }
        assert forall|j: int| 0 <= j < services.len() implies #[trigger] names(services)[j] == services[j].0 by {}
        if let Some(first) = first_unwanted(services, wanted, 0) {
            assert(names(services)[first] == services[first].0);
            if 0 <= k < services.len() && !wanted.contains(services[k].0) && (forall|j: int|
                0 <= j < k ==> wanted.contains(#[trigger] names(services)[j])) {
                assert(!(first < k));
                assert(!(k < first));
            }
        }
    }
}

proof fn lemma_first_unwanted_is_first(
    services: Seq<(MatterMdnsService, SrpServiceSlot)>,
    wanted: Seq<MatterMdnsService>,
    i: int,
)
    requires
        0 <= i,
    ensures
        match first_unwanted(services, wanted, i) {
            Some(k) => i <= k < services.len() && !wanted.contains(services[k].0) && forall|j: int|
                i <= j < k ==> wanted.contains((#[trigger] services[j]).0),
            None => forall|j: int| i <= j < services.len() ==> wanted.contains((#[trigger] services[j]).0),
        },
    decreases services.len() - i,
{
    if i < services.len() && wanted.contains(services[i].0) {
        lemma_first_unwanted_is_first(services, wanted, i + 1);
    }
}

/// A collected update begins with the first wanted service. A registered service is published in the
/// slot that it got, behind the others, where there is room for it; a fourth one breaks a
/// constraint. A deregistered slot is empty, and the other services stay as they are.
pub proof fn law_update_keeps_track_of_slots(m: SrpModel, slot: SrpServiceSlot, i: usize)
    requires
        m.wf(),
    ensures
        m.run(SrpEvent::Collected(Ok(()))) == m.register_next(0),
        m.phase == SrpPhase::Registering(i) && m.services.len() < 3 ==> m.run(SrpEvent::Registered(Ok(slot))) == (
        SrpModel { services: m.services.push((m.wanted[i as int], slot)), ..m }).register_next(i + 1),
        m.phase == SrpPhase::Registering(i) && m.services.len() >= 3 ==> m.run(SrpEvent::Registered(Ok(slot))) == (
            SrpModel { phase: SrpPhase::Idle, ..m },
            SrpStep::Fail(Error { code: ErrorCode::ConstraintError }),
        ),
        m.phase == SrpPhase::Deregistering(slot) ==> m.run(SrpEvent::Deregistered(Ok(()))) == (SrpModel {
            services: without_slot(m.services, slot),
            ..m
        }).deregister_next(),
{
}

/// What stays of two lists of services once a slot is empty is what stays of the first and then what
/// stays of the second. A single service stays exactly where it is in another slot.
pub proof fn law_other_slots_stay(
    services: Seq<(MatterMdnsService, SrpServiceSlot)>,
    more: Seq<(MatterMdnsService, SrpServiceSlot)>,
    one: (MatterMdnsService, SrpServiceSlot),
    slot: SrpServiceSlot,
)
    ensures
        without_slot(services + more, slot) == without_slot(services, slot) + without_slot(more, slot),
        without_slot(seq![one], slot) == (if one.1 == slot {
            seq![]
        } else {
            seq![one]
        }),
        without_slot(seq![], slot).len() == 0,
{
    reveal(Seq::filter);
    let p = |entry: (MatterMdnsService, SrpServiceSlot)| entry.1 != slot;
    Seq::filter_distributes_over_add(services, more, p);
    let empty = Seq::<(MatterMdnsService, SrpServiceSlot)>::empty();
    assert(seq![one].drop_last() =~= empty);
    assert(without_slot(empty, slot) =~= empty);
    assert(without_slot(seq![one], slot) =~= (if one.1 == slot {
        empty
    } else {
        seq![one]
    }));
}

/// What is published of two lists of keys and values is what is of the first and then what is of the
/// second. A single pair is published, with the bytes of its value, exactly where it has a key.
pub proof fn law_keyed_entries_are_published(kvs: Seq<(&str, &str)>, more: Seq<(&str, &str)>, key: &str, value: &str)
    ensures
        txt_entries_of(kvs + more) == txt_entries_of(kvs) + txt_entries_of(more),
        txt_entries_of(seq![(key, value)]) == (if key@.len() == 0 {
            seq![]
        } else {
            seq![(key@, vstd::utf8::encode_utf8(value@))]
        }),
        txt_entries_of(seq![]).len() == 0,
{
    reveal(Seq::filter);
    let p = |kv: (&str, &str)| kv.0@.len() > 0;
    let f = |kv: (&str, &str)| (kv.0@, vstd::utf8::encode_utf8(kv.1@));
    Seq::filter_distributes_over_add(kvs, more, p);
    assert((kvs.filter(p) + more.filter(p)).map_values(f) =~= kvs.filter(p).map_values(f) + more.filter(p).map_values(
        f,
    ));
    let one = seq![(key, value)];
    let empty = Seq::<(&str, &str)>::empty();
    assert(one.drop_last() =~= empty);
    assert(empty.filter(p) =~= empty);
    assert(txt_entries_of(one) =~= (if key@.len() == 0 {
        seq![]
    } else {
        seq![(key@, vstd::utf8::encode_utf8(value@))]
    }));
}

/// What is said of an action is all that the action holds.
pub proof fn law_actions_show_their_contents(action: SrpAction)
    ensures
        match action {
            SrpAction::ReadMac => action@ is ReadMac,
            SrpAction::SetConf { host_name, host_addrs } => action@ == (SrpStep::SetConf {
                host_name: thread_name_of(host_name),
                host_addrs: host_addrs@,
            }),
            SrpAction::WaitMdns => action@ is WaitMdns,
            SrpAction::Register(service) => action@ == SrpStep::Register(service),
            SrpAction::Deregister { slot, immediate } => action@ is Deregister && action@->slot == slot
                && action@->immediate == immediate,
            SrpAction::Fail(err) => action@ == SrpStep::Fail(err),
        },
{
}

/// A list of entries shows each of them, in its place, with its key and all the bytes of its value.
pub proof fn law_entries_show_keys_and_values(entries: Seq<(&str, &[u8])>, i: int)
    ensures
        entries_shown(entries).len() == entries.len(),
        0 <= i < entries.len() ==> entries_shown(entries)[i].0 == entries[i].0@ && entries_shown(entries)[i].1
            == entries[i].1@,
{
}

} // verus!
