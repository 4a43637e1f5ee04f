//! How the state of a Matter node is kept in the non-volatile storage.
//!
//! The storage and the state are dealt with from outside: `Psm` says what to do next, and is told
//! how that went.

use vstd::prelude::*;

use crate::error::{Error, EspError};

verus! {

/// The network whose settings are kept.
#[derive(Debug, Copy, Clone, PartialEq, Eq, Structural)]
pub enum Network {
    /// There is nothing to keep.
    Unmanaged,
    Wifi,
}

/// A part of the state that is kept.
#[derive(Debug, Copy, Clone, PartialEq, Eq, Structural)]
pub enum Blob {
    Acls,
    Fabrics,
    Wifi,
}

/// What keeping the state can fail with.
#[derive(Debug, Copy, Clone, PartialEq, Eq, Structural)]
pub enum PsmError {
    /// The storage failed.
    Esp(EspError),
    /// The state could not be read or written.
    Matter(Error),
}

impl Blob {
    /// The string that the part is stored under.
    pub open spec fn key_chars(self) -> Seq<char> {
        match self {
            Blob::Acls => "acls"@,
            Blob::Fabrics => "fabrics"@,
            Blob::Wifi => "wifi"@,
        }
    }

    /// The string that the part is stored under.
    pub fn key(&self) -> (r: &'static str)
        ensures
            r@ == self.key_chars(),
    {
        match self {
            Blob::Acls => "acls",
            Blob::Fabrics => "fabrics",
            Blob::Wifi => "wifi",
        }
    }
}

impl Network {
    /// The string that the settings of the network are stored under.
    pub fn key(&self) -> (r: Option<&'static str>)
        ensures
            match *self {
                Network::Unmanaged => r is None,
                Network::Wifi => r is Some && r->0@ == "wifi"@,
            },
    {
        match self {
            Network::Unmanaged => None,
            Network::Wifi => Some("wifi"),
        }
    }

    /// The parts that are kept, in the order in which they are dealt with.
    pub open spec fn blobs(self) -> Seq<Blob> {
        match self {
            Network::Unmanaged => seq![Blob::Acls, Blob::Fabrics],
            Network::Wifi => seq![Blob::Acls, Blob::Fabrics, Blob::Wifi],
        }
    }

    /// The part that follows.
    pub open spec fn after(self, blob: Blob) -> Option<Blob> {
        match (blob, self) {
            (Blob::Acls, _) => Some(Blob::Fabrics),
            (Blob::Fabrics, Network::Wifi) => Some(Blob::Wifi),
            _ => None,
        }
    }
}

/// What to do next.
#[derive(Debug, Copy, Clone, PartialEq, Eq)]
pub enum PsmAction {
    /// Remove the part from the storage.
    RemoveBlob(Blob),
    /// Look the part up in the storage.
    LoadBlob(Blob),
    /// Take over the part that was found.
    Apply(Blob),
    /// Ask whether the state of the node has changed.
    IsChanged,
    /// Ask for the part of the state, where it is to be stored.
    Produce(Blob),
    /// Write the part to the storage.
    StoreBlob(Blob),
    /// Wait until the state of the node has changed.
    WaitChanged,
    Finish(Result<(), PsmError>),
}

/// How the last action went.
#[derive(Debug, Copy, Clone, PartialEq, Eq)]
pub enum PsmAnswer {
    /// The answer to `RemoveBlob` and `StoreBlob`.
    Nvs(Result<(), EspError>),
    /// Whether there is such a part.
    Loaded(Result<bool, EspError>),
    Applied(Result<(), Error>),
    Changed(bool),
    /// Whether the part is to be stored.
    Produced(Result<bool, Error>),
    /// The wait is over.
    Woken,
}

/// How far the work is.
#[derive(Debug, Copy, Clone, PartialEq, Eq, Structural)]
pub enum PsmPhase {
    Idle,
    Removing(Blob),
    Loading(Blob),
    Applying(Blob),
    Checking,
    Producing(Blob),
    Storing(Blob),
    Waiting,
}

/// Keeps the state of a Matter node.
#[derive(Debug, Copy, Clone, PartialEq, Eq, Structural)]
pub struct Psm {
    network: Network,
    phase: PsmPhase,
    /// Whether the state is kept for good.
    running: bool,
}

/// The contents of a `Psm`.
pub struct PsmModel {
    pub network: Network,
    pub phase: PsmPhase,
    pub running: bool,
}

impl View for Psm {
    type V = PsmModel;

    closed spec fn view(&self) -> PsmModel {
        PsmModel { network: self.network, phase: self.phase, running: self.running }
    }
}

impl PsmModel {
    /// Whether the answer is one to the last action, in this phase.
    pub open spec fn expects(self, answer: PsmAnswer) -> bool {
        match self.phase {
            PsmPhase::Idle => false,
            PsmPhase::Removing(_) | PsmPhase::Storing(_) => answer is Nvs,
            PsmPhase::Loading(_) => answer is Loaded,
            PsmPhase::Applying(_) => answer is Applied,
            PsmPhase::Checking => answer is Changed,
            PsmPhase::Producing(_) => answer is Produced,
            PsmPhase::Waiting => answer is Woken,
        }
    }

    pub open spec fn go(self, phase: PsmPhase, action: PsmAction) -> (PsmModel, PsmAction) {
        (PsmModel { phase, ..self }, action)
    }

    /// The work fails.
    pub open spec fn fail(self, err: PsmError) -> (PsmModel, PsmAction) {
        PsmModel { running: false, ..self }.go(PsmPhase::Idle, PsmAction::Finish(Err(err)))
    }

    /// The work is done: where the state is kept for good, the next change is waited for.
    pub open spec fn done(self) -> (PsmModel, PsmAction) {
        if self.running {
            self.go(PsmPhase::Waiting, PsmAction::WaitChanged)
        } else {
            self.go(PsmPhase::Idle, PsmAction::Finish(Ok(())))
        }
    }

    /// Goes on with the part that is removed next.
    pub open spec fn remove_next(self, blob: Option<Blob>) -> (PsmModel, PsmAction) {
        match blob {
            Some(blob) => self.go(PsmPhase::Removing(blob), PsmAction::RemoveBlob(blob)),
            None => self.done(),
        }
    }

    /// Goes on with the part that is loaded next.
    pub open spec fn load_next(self, blob: Option<Blob>) -> (PsmModel, PsmAction) {
        match blob {
            Some(blob) => self.go(PsmPhase::Loading(blob), PsmAction::LoadBlob(blob)),
            None => self.done(),
        }
    }

    /// Goes on with the part that is stored next.
    pub open spec fn store_next(self, blob: Option<Blob>) -> (PsmModel, PsmAction) {
        match blob {
            Some(blob) => self.go(PsmPhase::Producing(blob), PsmAction::Produce(blob)),
            None => self.done(),
        }
    }

    /// The state is loaded, and kept for good where the flag is set.
    pub open spec fn begin_load(self, running: bool) -> (PsmModel, PsmAction) {
        PsmModel { running, ..self }.load_next(Some(Blob::Acls))
    }

    /// The state is removed from the storage.
    pub open spec fn begin_reset(self) -> (PsmModel, PsmAction) {
        PsmModel { running: false, ..self }.remove_next(Some(Blob::Acls))
    }

    /// The state is stored, as far as it has changed.
    pub open spec fn begin_store(self) -> (PsmModel, PsmAction) {
        PsmModel { running: false, ..self }.go(PsmPhase::Checking, PsmAction::IsChanged)
    }

    /// How the work goes on once the last action is answered.
    ///
    /// The parts are dealt with one after the other, until one fails. A part that is not in the
    /// storage is not taken over, and one that the node does not produce is not stored. The
    /// access control lists and the fabrics are asked for only where the node has changed.
    pub open spec fn next(self, answer: PsmAnswer) -> (PsmModel, PsmAction) {
        match (self.phase, answer) {
            (PsmPhase::Removing(blob), PsmAnswer::Nvs(Ok(()))) => self.remove_next(self.network.after(blob)),
            (PsmPhase::Loading(blob), PsmAnswer::Loaded(Ok(true))) => self.go(
                PsmPhase::Applying(blob),
                PsmAction::Apply(blob),
            ),
            (PsmPhase::Loading(blob), PsmAnswer::Loaded(Ok(false)))
            | (PsmPhase::Applying(blob), PsmAnswer::Applied(Ok(()))) => self.load_next(self.network.after(blob)),
            (PsmPhase::Checking, PsmAnswer::Changed(true)) => self.store_next(Some(Blob::Acls)),
            (PsmPhase::Checking, PsmAnswer::Changed(false)) => self.store_next(self.network.after(Blob::Fabrics)),
            (PsmPhase::Producing(blob), PsmAnswer::Produced(Ok(true))) => self.go(
                PsmPhase::Storing(blob),
                PsmAction::StoreBlob(blob),
            ),
            (PsmPhase::Producing(blob), PsmAnswer::Produced(Ok(false)))
            | (PsmPhase::Storing(blob), PsmAnswer::Nvs(Ok(()))) => self.store_next(self.network.after(blob)),
            (PsmPhase::Waiting, PsmAnswer::Woken) => self.go(PsmPhase::Checking, PsmAction::IsChanged),
            (_, PsmAnswer::Nvs(Err(err))) | (_, PsmAnswer::Loaded(Err(err))) => self.fail(PsmError::Esp(err)),
            (_, PsmAnswer::Applied(Err(err))) | (_, PsmAnswer::Produced(Err(err))) => self.fail(
                PsmError::Matter(err),
            ),
            _ => (self, PsmAction::Finish(Ok(()))),
        }
    }
}

impl Psm {
    /// Create a new instance.
    pub fn new(network: Network) -> (r: Self)
        ensures
            r@ == (PsmModel { network, phase: PsmPhase::Idle, running: false }),
    {
        Psm { network, phase: PsmPhase::Idle, running: false }
    }

    /// Keep the state for good: load it, and store it whenever it has changed.
    pub fn run(&mut self) -> (r: PsmAction)
        ensures
            (final(self)@, r) == old(self)@.begin_load(true),
    {
        self.running = true;
        self.load_next(Some(Blob::Acls))
    }

    /// Remove the state from the storage.
    pub fn reset(&mut self) -> (r: PsmAction)
        ensures
            (final(self)@, r) == old(self)@.begin_reset(),
    {
        self.running = false;
        self.remove_next(Some(Blob::Acls))
    }

    /// Load the state.
    pub fn load(&mut self) -> (r: PsmAction)
        ensures
            (final(self)@, r) == old(self)@.begin_load(false),
    {
        self.running = false;
        self.load_next(Some(Blob::Acls))
    }

    /// Store the state, as far as it has changed.
    pub fn store(&mut self) -> (r: PsmAction)
        ensures
            (final(self)@, r) == old(self)@.begin_store(),
    {
        self.running = false;
        self.go(PsmPhase::Checking, PsmAction::IsChanged)
    }

    fn go(&mut self, phase: PsmPhase, action: PsmAction) -> (r: PsmAction)
        ensures
            (final(self)@, r) == old(self)@.go(phase, action),
    {
        self.phase = phase;
        action
    }

    fn fail(&mut self, err: PsmError) -> (r: PsmAction)
        ensures
            (final(self)@, r) == old(self)@.fail(err),
    {
        self.running = false;
        self.go(PsmPhase::Idle, PsmAction::Finish(Err(err)))
    }

    fn done(&mut self) -> (r: PsmAction)
        ensures
            (final(self)@, r) == old(self)@.done(),
    {
        if self.running {
            self.go(PsmPhase::Waiting, PsmAction::WaitChanged)
        } else {
            self.go(PsmPhase::Idle, PsmAction::Finish(Ok(())))
        }
    }

    fn remove_next(&mut self, blob: Option<Blob>) -> (r: PsmAction)
        ensures
            (final(self)@, r) == old(self)@.remove_next(blob),
    {
        match blob {
            Some(blob) => self.go(PsmPhase::Removing(blob), PsmAction::RemoveBlob(blob)),
            None => self.done(),
        }
    }

    fn load_next(&mut self, blob: Option<Blob>) -> (r: PsmAction)
        ensures
            (final(self)@, r) == old(self)@.load_next(blob),
    {
        match blob {
            Some(blob) => self.go(PsmPhase::Loading(blob), PsmAction::LoadBlob(blob)),
            None => self.done(),
        }
    }

    fn store_next(&mut self, blob: Option<Blob>) -> (r: PsmAction)
        ensures
            (final(self)@, r) == old(self)@.store_next(blob),
    {
        match blob {
            Some(blob) => self.go(PsmPhase::Producing(blob), PsmAction::Produce(blob)),
            None => self.done(),
        }
    }

    /// The part that follows.
    fn after(&self, blob: Blob) -> (r: Option<Blob>)
        ensures
            r == self@.network.after(blob),
    {
        match (blob, self.network) {
            (Blob::Acls, _) => Some(Blob::Fabrics),
            (Blob::Fabrics, Network::Wifi) => Some(Blob::Wifi),
            _ => None,
        }
    }

    /// Go on once the last action is answered.
    pub fn next(&mut self, answer: PsmAnswer) -> (r: PsmAction)
        requires
            old(self)@.expects(answer),
        ensures
            (final(self)@, r) == old(self)@.next(answer),
    {
        match answer {
            PsmAnswer::Nvs(Err(err)) | PsmAnswer::Loaded(Err(err)) => {
                return self.fail(PsmError::Esp(err));
            },
            PsmAnswer::Applied(Err(err)) | PsmAnswer::Produced(Err(err)) => {
                return self.fail(PsmError::Matter(err));
            },
            _ => {},
        }
        let yes: bool = match answer {
            PsmAnswer::Loaded(Ok(yes)) | PsmAnswer::Produced(Ok(yes)) | PsmAnswer::Changed(yes) => yes,
            _ => true,
        };
        match self.phase {
            PsmPhase::Removing(blob) => self.remove_next(self.after(blob)),
            PsmPhase::Loading(blob) => if yes {
                self.go(PsmPhase::Applying(blob), PsmAction::Apply(blob))
            } else {
                self.load_next(self.after(blob))
            },
            PsmPhase::Applying(blob) => self.load_next(self.after(blob)),
            PsmPhase::Checking => if yes {
                self.store_next(Some(Blob::Acls))
            } else {
                self.store_next(self.after(Blob::Fabrics))
            },
            PsmPhase::Producing(blob) => if yes {
                self.go(PsmPhase::Storing(blob), PsmAction::StoreBlob(blob))
            } else {
                self.store_next(self.after(blob))
            },
            PsmPhase::Storing(blob) => self.store_next(self.after(blob)),
            PsmPhase::Waiting | PsmPhase::Idle => self.go(PsmPhase::Checking, PsmAction::IsChanged),
        }
    }
}

/// A storage that does not fail, and a Matter node.
pub struct World {
    /// What the storage holds.
    pub storage: Map<Seq<char>, Seq<u8>>,
    /// What the node has taken over.
    pub node: Map<Blob, Seq<u8>>,
    /// Whether the node has changed.
    pub changed: bool,
    /// What the node has to store.
    pub produced: Map<Blob, Seq<u8>>,
}

impl World {
    /// What an action does, and how it is answered.
    pub open spec fn perform(self, action: PsmAction) -> (World, PsmAnswer) {
        match action {
            PsmAction::RemoveBlob(blob) => (
                World { storage: self.storage.remove(blob.key_chars()), ..self },
                PsmAnswer::Nvs(Ok(())),
            ),
            PsmAction::LoadBlob(blob) => (
                self,
                PsmAnswer::Loaded(Ok(self.storage.contains_key(blob.key_chars()))),
            ),
            PsmAction::Apply(blob) => (
                World { node: self.node.insert(blob, self.storage[blob.key_chars()]), ..self },
                PsmAnswer::Applied(Ok(())),
            ),
            PsmAction::IsChanged => (self, PsmAnswer::Changed(self.changed)),
            PsmAction::Produce(blob) => (self, PsmAnswer::Produced(Ok(self.produced.contains_key(blob)))),
            PsmAction::StoreBlob(blob) => (
                World { storage: self.storage.insert(blob.key_chars(), self.produced[blob]), ..self },
                PsmAnswer::Nvs(Ok(())),
            ),
            PsmAction::WaitChanged | PsmAction::Finish(_) => (self, PsmAnswer::Woken),
        }
    }

    /// Whether the part of the state is to be stored.
    pub open spec fn stores(self, network: Network, blob: Blob) -> bool {
        network.blobs().contains(blob) && self.produced.contains_key(blob) && (self.changed || blob is Wifi)
    }
}

/// How many steps are left at most.
pub open spec fn steps_left(phase: PsmPhase) -> nat {
    let left = |blob: Blob, k: nat|
        match blob {
            Blob::Acls => 4 + k,
            Blob::Fabrics => 2 + k,
            Blob::Wifi => k,
        };
    match phase {
        PsmPhase::Removing(blob) => left(blob, 1),
        PsmPhase::Loading(blob) | PsmPhase::Producing(blob) => left(blob, 2),
        PsmPhase::Applying(blob) | PsmPhase::Storing(blob) => left(blob, 1),
        PsmPhase::Checking => 7,
        PsmPhase::Waiting | PsmPhase::Idle => 0,
    }
}

/// The world once the work is done.
pub open spec fn run(m: PsmModel, action: PsmAction, world: World) -> World
    decreases steps_left(m.phase),
    when m.expects(world.perform(action).1)
{
    match action {
        PsmAction::WaitChanged | PsmAction::Finish(_) => world,
        _ => {
            let (after, answer) = world.perform(action);
            let (next, then_action) = m.next(answer);
            match then_action {
                PsmAction::WaitChanged | PsmAction::Finish(_) => after,
                _ => run(next, then_action, after),
            }
        },
    }
}

/// The parts are stored under different strings.
pub proof fn law_keys_do_not_clash(a: Blob, b: Blob)
    ensures
        a.key_chars() == b.key_chars() <==> a == b,
{
    reveal_strlit("acls");
    reveal_strlit("fabrics");
    reveal_strlit("wifi");
    assert("acls"@[0] == 'a' && "wifi"@[0] == 'w' && "fabrics"@.len() == 7);
}

/// A reset removes every part of the state that is kept from the storage, and nothing else.
pub proof fn law_reset_removes_the_state(m: PsmModel, world: World, key: Seq<char>)
    ensures
        ({
            let (begun, action) = m.begin_reset();
            let after = run(begun, action, world);
            &&& after.storage.contains_key(key) <==> world.storage.contains_key(key) && !(exists|blob: Blob| #[trigger]
                m.network.blobs().contains(blob) && blob.key_chars() == key)
            &&& after.storage.contains_key(key) ==> after.storage[key] == world.storage[key]
            &&& after.node == world.node
        }),
{
    reveal_with_fuel(run, 4);
    law_kept_parts(m.network);
    let blobs = m.network.blobs();
    if key == Blob::Acls.key_chars() {
        assert(blobs.contains(Blob::Acls));
    }
    if key == Blob::Fabrics.key_chars() {
        assert(blobs.contains(Blob::Fabrics));
    }
    if key == Blob::Wifi.key_chars() && m.network is Wifi {
        assert(blobs.contains(Blob::Wifi));
    }
}

/// The access control lists and the fabrics are always kept, and in this order. The Wi-Fi settings
/// are kept, as the last part, exactly where the network is a Wi-Fi one.
pub proof fn law_kept_parts(network: Network)
    ensures
        network.blobs().len() == (if network is Wifi {
            3int
        } else {
            2
        }),
        network.blobs()[0] == Blob::Acls && network.blobs()[1] == Blob::Fabrics,
        network.blobs().contains(Blob::Acls),
        network.blobs().contains(Blob::Fabrics),
        network.blobs().contains(Blob::Wifi) <==> network is Wifi,
{
    let blobs = network.blobs();
    assert(blobs[0] == Blob::Acls);
    assert(blobs[1] == Blob::Fabrics);
    if network is Wifi {
        assert(blobs[2] == Blob::Wifi);
    }
}

/// Loading takes over every part of the state that is kept and is in the storage, and leaves the
/// storage and the other parts alone, whether the state is then kept for good or not.
pub proof fn law_load_takes_over_the_state(m: PsmModel, running: bool, world: World, blob: Blob)
    ensures
        ({
            let (begun, action) = m.begin_load(running);
            let after = run(begun, action, world);
            let found = m.network.blobs().contains(blob) && world.storage.contains_key(blob.key_chars());
            &&& found ==> after.node.contains_key(blob) && after.node[blob] == world.storage[blob.key_chars()]
            &&& !found ==> after.node.contains_key(blob) == world.node.contains_key(blob) && after.node[blob]
                == world.node[blob]
            &&& after.storage == world.storage
        }),
{
    reveal_with_fuel(run, 8);
    law_kept_parts(m.network);
}

/// Where a part was stored, or not, the others are as they were.
proof fn lemma_store_writes_from(m: PsmModel, world: World, from: Blob, blob: Blob)
    requires
        m.phase == PsmPhase::Producing(from),
        from is Wifi ==> m.network is Wifi,
    ensures
        ({
            let after = run(m, PsmAction::Produce(from), world);
            let key = blob.key_chars();
            let is_left = match from {
                Blob::Acls => true,
                Blob::Fabrics => !(blob is Acls),
                Blob::Wifi => blob is Wifi,
            };
            let stores = is_left && m.network.blobs().contains(blob) && world.produced.contains_key(blob);
            &&& stores ==> after.storage.contains_key(key) && after.storage[key] == world.produced[blob]
            &&& !stores ==> after.storage.contains_key(key) == world.storage.contains_key(key) && after.storage[key]
                == world.storage[key]
            &&& after.node == world.node
        }),
    decreases steps_left(m.phase),
{
    reveal_with_fuel(run, 3);
    law_kept_parts(m.network);
    law_keys_do_not_clash(blob, from);
    let after = if world.produced.contains_key(from) {
        world.perform(PsmAction::StoreBlob(from)).0
    } else {
        world
    };
    if let Some(next) = m.network.after(from) {
        lemma_store_writes_from(PsmModel { phase: PsmPhase::Producing(next), ..m }, after, next, blob);
    }
}

proof fn lemma_store_writes(m: PsmModel, world: World, blob: Blob)
    requires
        m.phase is Checking,
    ensures
        ({
            let after = run(m, PsmAction::IsChanged, world);
            let key = blob.key_chars();
            &&& world.stores(m.network, blob) ==> after.storage.contains_key(key) && after.storage[key]
                == world.produced[blob]
            &&& !world.stores(m.network, blob) ==> after.storage.contains_key(key) == world.storage.contains_key(
                key,
            ) && after.storage[key] == world.storage[key]
            &&& after.node == world.node
        }),
{
    law_kept_parts(m.network);
    if world.changed {
        lemma_store_writes_from(PsmModel { phase: PsmPhase::Producing(Blob::Acls), ..m }, world, Blob::Acls, blob);
    } else if m.network is Wifi {
        lemma_store_writes_from(PsmModel { phase: PsmPhase::Producing(Blob::Wifi), ..m }, world, Blob::Wifi, blob);
    }
}

/// Storing writes the parts of the state that the node produces, and leaves what else is in the
/// storage alone.
pub proof fn law_store_writes_the_state(m: PsmModel, world: World, blob: Blob)
    ensures
        ({
            let (begun, action) = m.begin_store();
            let after = run(begun, action, world);
            let key = blob.key_chars();
            &&& world.stores(m.network, blob) ==> after.storage.contains_key(key) && after.storage[key]
                == world.produced[blob]
            &&& !world.stores(m.network, blob) ==> after.storage.contains_key(key) == world.storage.contains_key(
                key,
            ) && after.storage[key] == world.storage[key]
            &&& after.node == world.node
        }),
{
    lemma_store_writes(m.begin_store().0, world, blob);
}

/// What was stored is what a node takes over that loads the state later.
pub proof fn law_load_gives_back_what_was_stored(m: PsmModel, running: bool, world: World, blob: Blob)
    requires
        world.stores(m.network, blob),
    ensures
        ({
            let (storing, store) = m.begin_store();
            let (loading, load) = m.begin_load(running);
            let after = run(loading, load, run(storing, store, world));
            after.node.contains_key(blob) && after.node[blob] == world.produced[blob]
        }),
{
    law_store_writes_the_state(m, world, blob);
    let (storing, store) = m.begin_store();
    law_load_takes_over_the_state(m, running, run(storing, store, world), blob);
}

/// A change that wakes a node whose state is kept for good is stored as by a store: the parts of
/// the state that the node produces are written, and nothing else in the storage is touched.
pub proof fn law_changes_are_stored_while_running(m: PsmModel, world: World, blob: Blob)
    requires
        m.phase is Waiting,
    ensures
        ({
            let (begun, action) = m.next(PsmAnswer::Woken);
            let after = run(begun, action, world);
            let key = blob.key_chars();
            &&& world.stores(m.network, blob) ==> after.storage.contains_key(key) && after.storage[key]
                == world.produced[blob]
            &&& !world.stores(m.network, blob) ==> after.storage.contains_key(key) == world.storage.contains_key(
                key,
            ) && after.storage[key] == world.storage[key]
            &&& after.node == world.node
        }),
{
    lemma_store_writes(m.next(PsmAnswer::Woken).0, world, blob);
}

/// The actions of the work, from the given one to the last, in a world that does not fail.
pub open spec fn actions(m: PsmModel, action: PsmAction, world: World) -> Seq<PsmAction>
    decreases steps_left(m.phase),
    when m.expects(world.perform(action).1)
{
    match action {
        PsmAction::WaitChanged | PsmAction::Finish(_) => seq![action],
        _ => {
            let (after, answer) = world.perform(action);
            let (next, then_action) = m.next(answer);
            match then_action {
                PsmAction::WaitChanged | PsmAction::Finish(_) => seq![action, then_action],
                _ => seq![action] + actions(next, then_action, after),
            }
        },
    }
}

/// The last action of the work: to wait for a change where the state is kept for good, and to end
/// well otherwise.
pub open spec fn last_action(running: bool) -> PsmAction {
    if running {
        PsmAction::WaitChanged
    } else {
        PsmAction::Finish(Ok(()))
    }
}

/// What loading a part takes: it is looked up, and taken over where it is there.
pub open spec fn load_actions(world: World, blob: Blob) -> Seq<PsmAction> {
    if world.storage.contains_key(blob.key_chars()) {
        seq![PsmAction::LoadBlob(blob), PsmAction::Apply(blob)]
    } else {
        seq![PsmAction::LoadBlob(blob)]
    }
}

/// What storing a part takes: it is asked for, and written where the node has it.
pub open spec fn store_actions(world: World, blob: Blob) -> Seq<PsmAction> {
    if world.produced.contains_key(blob) {
        seq![PsmAction::Produce(blob), PsmAction::StoreBlob(blob)]
    } else {
        seq![PsmAction::Produce(blob)]
    }
}

proof fn lemma_load_actions(m: PsmModel, world: World, blob: Blob)
    requires
        m.phase == PsmPhase::Loading(blob),
    ensures
        ({
            let (next, action) = m.load_next(m.network.after(blob));
            actions(m, PsmAction::LoadBlob(blob), world) == load_actions(world, blob) + (if m.network.after(
                blob,
            ) is None {
                seq![action]
            } else {
                actions(
                    next,
                    action,
                    if world.storage.contains_key(blob.key_chars()) {
                        world.perform(PsmAction::Apply(blob)).0
                    } else {
                        world
                    },
                )
            })
        }),
{
    let (next, action) = m.load_next(m.network.after(blob));
    let after = world.perform(PsmAction::Apply(blob)).0;
    let applying = PsmModel { phase: PsmPhase::Applying(blob), ..m };
    if world.storage.contains_key(blob.key_chars()) {
        assert(applying.load_next(m.network.after(blob)) == (next, action));
        assert(actions(m, PsmAction::LoadBlob(blob), world) == seq![PsmAction::LoadBlob(blob)] + actions(
            applying,
            PsmAction::Apply(blob),
            world,
        ));
        if m.network.after(blob) is None {
            assert(actions(applying, PsmAction::Apply(blob), world) =~= seq![PsmAction::Apply(blob), action]);
            assert(actions(m, PsmAction::LoadBlob(blob), world) =~= load_actions(world, blob) + seq![action]);
        } else {
            assert(actions(m, PsmAction::LoadBlob(blob), world) =~= load_actions(world, blob) + actions(
                next,
                action,
                after,
            ));
        }
    } else {
        if m.network.after(blob) is None {
            assert(actions(m, PsmAction::LoadBlob(blob), world) =~= load_actions(world, blob) + seq![action]);
        }
    }
}

/// Loading deals with the access control lists, the fabrics and, on a Wi-Fi network, its settings,
/// in this order, and with nothing else. Then the next change is waited for, or the work is done.
pub proof fn law_load_takes_these_actions(m: PsmModel, running: bool, world: World)
    ensures
        ({
            let (begun, action) = m.begin_load(running);
            actions(begun, action, world) == load_actions(world, Blob::Acls) + load_actions(world, Blob::Fabrics) + (
            if m.network is Wifi {
                load_actions(world, Blob::Wifi)
            } else {
                seq![]
            }) + seq![last_action(running)]
        }),
{
    let (begun, action) = m.begin_load(running);
    let took = |world: World, blob: Blob|
        if world.storage.contains_key(blob.key_chars()) {
            world.perform(PsmAction::Apply(blob)).0
        } else {
            world
        };
    let second = took(world, Blob::Acls);
    let third = took(second, Blob::Fabrics);
    let fabrics = PsmModel { phase: PsmPhase::Loading(Blob::Fabrics), ..begun };
    let wifi = PsmModel { phase: PsmPhase::Loading(Blob::Wifi), ..begun };
    lemma_load_actions(begun, world, Blob::Acls);
    lemma_load_actions(fabrics, second, Blob::Fabrics);
    lemma_load_actions(wifi, third, Blob::Wifi);
    assert(load_actions(second, Blob::Fabrics) == load_actions(world, Blob::Fabrics));
    assert(load_actions(third, Blob::Wifi) == load_actions(world, Blob::Wifi));
    assert(actions(begun, action, world) =~= load_actions(world, Blob::Acls) + load_actions(world, Blob::Fabrics) + (
    if m.network is Wifi {
        load_actions(world, Blob::Wifi)
    } else {
        seq![]
    }) + seq![last_action(running)]);
}

proof fn lemma_store_actions(m: PsmModel, world: World, blob: Blob)
    requires
        m.phase == PsmPhase::Producing(blob),
    ensures
        ({
            let (next, action) = m.store_next(m.network.after(blob));
            actions(m, PsmAction::Produce(blob), world) == store_actions(world, blob) + (if m.network.after(
                blob,
            ) is None {
                seq![action]
            } else {
                actions(
                    next,
                    action,
                    if world.produced.contains_key(blob) {
                        world.perform(PsmAction::StoreBlob(blob)).0
                    } else {
                        world
                    },
                )
            })
        }),
{
    let (next, action) = m.store_next(m.network.after(blob));
    let after = world.perform(PsmAction::StoreBlob(blob)).0;
    let storing = PsmModel { phase: PsmPhase::Storing(blob), ..m };
    if world.produced.contains_key(blob) {
        assert(storing.store_next(m.network.after(blob)) == (next, action));
        assert(actions(m, PsmAction::Produce(blob), world) == seq![PsmAction::Produce(blob)] + actions(
            storing,
            PsmAction::StoreBlob(blob),
            world,
        ));
        if m.network.after(blob) is None {
            assert(actions(storing, PsmAction::StoreBlob(blob), world) =~= seq![PsmAction::StoreBlob(blob), action]);
            assert(actions(m, PsmAction::Produce(blob), world) =~= store_actions(world, blob) + seq![action]);
        } else {
            assert(actions(m, PsmAction::Produce(blob), world) =~= store_actions(world, blob) + actions(
                next,
                action,
                after,
            ));
        }
    } else {
        if m.network.after(blob) is None {
            assert(actions(m, PsmAction::Produce(blob), world) =~= store_actions(world, blob) + seq![action]);
        }
    }
}

/// What storing the parts from the given one on takes.
spec fn stores_from(network: Network, world: World, from: Blob) -> Seq<PsmAction> {
    let settings = if network is Wifi {
        store_actions(world, Blob::Wifi)
    } else {
        seq![]
    };
    match from {
        Blob::Acls => store_actions(world, Blob::Acls) + store_actions(world, Blob::Fabrics) + settings,
        Blob::Fabrics => store_actions(world, Blob::Fabrics) + settings,
        Blob::Wifi => settings,
    }
}

proof fn lemma_stores_from(m: PsmModel, world: World, from: Blob)
    requires
        m.phase == PsmPhase::Producing(from),
        from is Wifi ==> m.network is Wifi,
    ensures
        actions(m, PsmAction::Produce(from), world) == stores_from(m.network, world, from) + seq![
            last_action(m.running),
        ],
    decreases steps_left(m.phase),
{
    lemma_store_actions(m, world, from);
    let after = if world.produced.contains_key(from) {
        world.perform(PsmAction::StoreBlob(from)).0
    } else {
        world
    };
    if let Some(next) = m.network.after(from) {
        lemma_stores_from(PsmModel { phase: PsmPhase::Producing(next), ..m }, after, next);
        assert(stores_from(m.network, after, next) == stores_from(m.network, world, next));
        assert(stores_from(m.network, world, from) =~= store_actions(world, from) + stores_from(
            m.network,
            world,
            next,
        ));
    } else {
        assert(stores_from(m.network, world, from) =~= store_actions(world, from));
    }
    assert(actions(m, PsmAction::Produce(from), world) =~= stores_from(m.network, world, from) + seq![
        last_action(m.running),
    ]);
}

proof fn lemma_store_from_checking(m: PsmModel, world: World)
    requires
        m.phase is Checking,
    ensures
        actions(m, PsmAction::IsChanged, world) == seq![PsmAction::IsChanged] + (if world.changed {
            stores_from(m.network, world, Blob::Acls)
        } else {
            stores_from(m.network, world, Blob::Wifi)
        }) + seq![last_action(m.running)],
{
    if world.changed {
        lemma_stores_from(PsmModel { phase: PsmPhase::Producing(Blob::Acls), ..m }, world, Blob::Acls);
    } else if m.network is Wifi {
        lemma_stores_from(PsmModel { phase: PsmPhase::Producing(Blob::Wifi), ..m }, world, Blob::Wifi);
    }
    assert(actions(m, PsmAction::IsChanged, world) =~= seq![PsmAction::IsChanged] + (if world.changed {
        stores_from(m.network, world, Blob::Acls)
    } else {
        stores_from(m.network, world, Blob::Wifi)
    }) + seq![last_action(m.running)]);
}

/// Storing asks whether the node has changed, and deals with the access control lists and the
/// fabrics where it has, and with the settings of a Wi-Fi network in any case, in this order. Then
/// the next change is waited for, where a change began it, or the work is done.
pub proof fn law_store_takes_these_actions(m: PsmModel, running: bool, world: World)
    requires
        running ==> m.phase is Waiting && m.running,
    ensures
        ({
            let (begun, action) = if running {
                m.next(PsmAnswer::Woken)
            } else {
                m.begin_store()
            };
            actions(begun, action, world) == seq![PsmAction::IsChanged] + (if world.changed {
                store_actions(world, Blob::Acls) + store_actions(world, Blob::Fabrics)
            } else {
                seq![]
            }) + (if m.network is Wifi {
                store_actions(world, Blob::Wifi)
            } else {
                seq![]
            }) + seq![last_action(running)]
        }),
{
    let (begun, action) = if running {
        m.next(PsmAnswer::Woken)
    } else {
        m.begin_store()
    };
    lemma_store_from_checking(begun, world);
    let settings = stores_from(m.network, world, Blob::Wifi);
    assert(seq![PsmAction::IsChanged] + (if world.changed {
        store_actions(world, Blob::Acls) + store_actions(world, Blob::Fabrics)
    } else {
        seq![]
    }) + settings =~= seq![PsmAction::IsChanged] + (if world.changed {
        stores_from(m.network, world, Blob::Acls)
    } else {
        settings
    }));
}

/// A reset removes the access control lists, the fabrics and, on a Wi-Fi network, its settings, in
/// this order, and is then done.
pub proof fn law_reset_takes_these_actions(m: PsmModel, world: World)
    ensures
        ({
            let (begun, action) = m.begin_reset();
            actions(begun, action, world) == (if m.network is Wifi {
                seq![
                    PsmAction::RemoveBlob(Blob::Acls),
                    PsmAction::RemoveBlob(Blob::Fabrics),
                    PsmAction::RemoveBlob(Blob::Wifi),
                    PsmAction::Finish(Ok(())),
                ]
            } else {
                seq![
                    PsmAction::RemoveBlob(Blob::Acls),
                    PsmAction::RemoveBlob(Blob::Fabrics),
                    PsmAction::Finish(Ok(())),
                ]
            })
        }),
{
    reveal_with_fuel(actions, 4);
    let (begun, action) = m.begin_reset();
    if m.network is Wifi {
        assert(actions(begun, action, world) =~= seq![
            PsmAction::RemoveBlob(Blob::Acls),
            PsmAction::RemoveBlob(Blob::Fabrics),
            PsmAction::RemoveBlob(Blob::Wifi),
            PsmAction::Finish(Ok(())),
        ]);
    } else {
        assert(actions(begun, action, world) =~= seq![
            PsmAction::RemoveBlob(Blob::Acls),
            PsmAction::RemoveBlob(Blob::Fabrics),
            PsmAction::Finish(Ok(())),
        ]);
    }
}

/// Whatever fails ends the work at once, with its own error: one of the storage as such, and one of
/// the node as such. The state is then no longer kept.
pub proof fn law_failures_end_the_work(m: PsmModel, answer: PsmAnswer)
    requires
        m.expects(answer),
    ensures
        ({
            let (after, action) = m.next(answer);
            let ended = PsmModel { network: m.network, phase: PsmPhase::Idle, running: false };
            &&& answer matches PsmAnswer::Nvs(Err(err)) ==> after == ended && action == PsmAction::Finish(
                Err(PsmError::Esp(err)),
            )
            &&& answer matches PsmAnswer::Loaded(Err(err)) ==> after == ended && action == PsmAction::Finish(
                Err(PsmError::Esp(err)),
            )
            &&& answer matches PsmAnswer::Applied(Err(err)) ==> after == ended && action == PsmAction::Finish(
                Err(PsmError::Matter(err)),
            )
            &&& answer matches PsmAnswer::Produced(Err(err)) ==> after == ended && action == PsmAction::Finish(
                Err(PsmError::Matter(err)),
            )
            &&& action matches PsmAction::Finish(Err(_)) ==> after == ended
            &&& after.network == m.network
        }),
{
}

} // verus!
