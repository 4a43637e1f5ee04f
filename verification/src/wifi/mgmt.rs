//! How the Wi-Fi manager keeps the node connected.
//!
//! It goes through the configured networks in turn. It tries to connect to one with growing
//! delays, stays with it while the connection holds, and moves on once it has given up on it.
//! The Wi-Fi driver itself is driven from outside: the manager says what to do next, and is told
//! how that went.

use vstd::prelude::*;

use crate::bounded::{password_as_str, password_of, ssid_as_str, ssid_of, ssid_try_from};
use crate::error::{EspError, ESP_ERR_INVALID_STATE};
use crate::wifi::{AuthMethod, MAX_PASSWORD_LEN, MAX_SSID_LEN};

verus! {

/// How many times a connection is tried before the manager gives up on a network.
pub const ATTEMPTS: usize = 6;

/// How long to wait for an event of the driver before looking again whether it is connected.
pub const DISCONNECT_POLL_SECS: u64 = 5;

/// The name and the password of a network.
#[derive(Debug)]
pub struct WifiCredentials {
    pub ssid: heapless::String<MAX_SSID_LEN>,
    pub password: heapless::String<MAX_PASSWORD_LEN>,
}

/// How connecting to a network went.
#[derive(Debug, Copy, Clone, PartialEq, Eq, Structural)]
pub enum NetworkCommissioningStatus {
    Success,
    OtherConnectionFailure,
}

/// How connecting to a network went, last time.
#[derive(Debug)]
pub struct WifiStatus {
    pub ssid: heapless::String<MAX_SSID_LEN>,
    pub status: NetworkCommissioningStatus,
    pub value: i32,
}

/// The delays between the attempts, in seconds.
pub open spec fn delays() -> Seq<u64> {
    seq![2, 5, 10, 20, 30, 60]
}

/// The authentication methods that are tried with the given password, in order.
pub open spec fn auth_methods(password: Seq<char>) -> Seq<AuthMethod> {
    if password.len() == 0 {
        seq![AuthMethod::Open]
    } else {
        seq![AuthMethod::WPA2WPA3Personal, AuthMethod::WPAWPA2Personal, AuthMethod::WEP]
    }
}

/// What the manager does next.
#[derive(Debug, Copy, Clone, PartialEq, Eq, Structural)]
pub enum ManagerAction {
    /// Look up the network that follows the last one.
    NextNetwork,
    Stop,
    /// Hand the driver the name and the password of the network, and the authentication method.
    SetConf(AuthMethod),
    Start,
    Connect,
    /// Wait for this number of seconds.
    Wait(u64),
    /// Subscribe to the events of the driver.
    Subscribe,
    /// Ask the driver whether it is connected.
    IsConnected,
    /// Wait for an event of the driver, but no longer than this number of seconds.
    WaitEvent(u64),
    /// Stop with the error.
    Fail(EspError),
}

/// What happened to the manager.
#[derive(Debug)]
pub enum ManagerEvent {
    Begin,
    /// The network that follows the last one.
    Network(Option<WifiCredentials>),
    Done(Result<(), EspError>),
    IsConnected(Result<bool, EspError>),
    /// A wait is over.
    Waited,
}

/// How far the manager is. Of an attempt, `round` is its number and `method` that of the
/// authentication method that is tried.
#[derive(Debug, Copy, Clone, PartialEq, Eq, Structural)]
pub enum ManagerPhase {
    Idle,
    LookingUp,
    Stopping { round: usize, method: usize },
    Configuring { round: usize, method: usize },
    Starting { round: usize, method: usize },
    Connecting { round: usize, method: usize },
    Delaying { round: usize },
    Subscribing,
    Checking,
    Waiting,
}

/// Keeps the node connected to a Wi-Fi network.
#[derive(Debug)]
pub struct WifiManager {
    creds: Option<WifiCredentials>,
    phase: ManagerPhase,
    connected_once: bool,
    status: Option<WifiStatus>,
    round_over: bool,
}

/// The contents of a `WifiManager`.
#[verifier::ext_equal]
pub struct ManagerModel {
    /// The name and the password of the current network.
    pub creds: Option<(Seq<char>, Seq<char>)>,
    pub phase: ManagerPhase,
    /// Whether a connection was ever made.
    pub connected_once: bool,
    /// The network that was last tried, and how that went.
    pub status: Option<(Seq<char>, NetworkCommissioningStatus, i32)>,
    /// Whether the last step decided how connecting to the network went.
    pub round_over: bool,
}

impl View for WifiManager {
    type V = ManagerModel;

    closed spec fn view(&self) -> ManagerModel {
        ManagerModel {
            creds: match self.creds {
                Some(creds) => Some((ssid_of(creds.ssid), password_of(creds.password))),
                None => None,
            },
            phase: self.phase,
            connected_once: self.connected_once,
            status: match self.status {
                Some(status) => Some((ssid_of(status.ssid), status.status, status.value)),
                None => None,
            },
            round_over: self.round_over,
        }
    }
}

impl ManagerModel {
    /// A manager that has not begun.
    pub open spec fn idle() -> ManagerModel {
        ManagerModel { creds: None, phase: ManagerPhase::Idle, connected_once: false, status: None, round_over: false }
    }

    /// The name of the current network.
    pub open spec fn ssid(self) -> Seq<char> {
        match self.creds {
            Some((ssid, _)) => ssid,
            None => seq![],
        }
    }

    /// The authentication methods that are tried with the current network.
    pub open spec fn methods(self) -> Seq<AuthMethod> {
        match self.creds {
            Some((_, password)) => auth_methods(password),
            None => seq![],
        }
    }

    /// The manager works on a network unless it looks for one, and its attempt is one of those
    /// that it makes.
    pub open spec fn wf(self) -> bool {
        match self.phase {
            ManagerPhase::Idle | ManagerPhase::LookingUp => true,
            ManagerPhase::Stopping { round, method }
            | ManagerPhase::Configuring { round, method }
            | ManagerPhase::Starting { round, method }
            | ManagerPhase::Connecting { round, method } => self.creds is Some && round < ATTEMPTS && method
                < self.methods().len(),
            ManagerPhase::Delaying { round } => self.creds is Some && round < ATTEMPTS,
            ManagerPhase::Subscribing | ManagerPhase::Checking | ManagerPhase::Waiting => self.creds is Some,
        }
    }

    /// Whether this can happen now.
    pub open spec fn expects(self, event: ManagerEvent) -> bool {
        match event {
            ManagerEvent::Begin => true,
            ManagerEvent::Network(_) => self.phase is LookingUp,
            ManagerEvent::Done(_) => self.phase is Stopping || self.phase is Configuring || self.phase is Starting
                || self.phase is Connecting || self.phase is Subscribing,
            ManagerEvent::IsConnected(_) => self.phase is Checking,
            ManagerEvent::Waited => self.phase is Delaying || self.phase is Waiting,
        }
    }

    /// The manager goes on in the given phase.
    pub open spec fn go(self, phase: ManagerPhase, action: ManagerAction) -> (ManagerModel, ManagerAction) {
        (ManagerModel { phase, ..self }, action)
    }

    /// The manager moves on to the next network.
    pub open spec fn move_on(self) -> (ManagerModel, ManagerAction) {
        self.go(ManagerPhase::LookingUp, ManagerAction::NextNetwork)
    }

    /// An authentication method is tried.
    pub open spec fn attempt(self, round: usize, method: usize) -> (ManagerModel, ManagerAction) {
        self.go(ManagerPhase::Stopping { round, method }, ManagerAction::Stop)
    }

    /// An authentication method did not work: the next one is tried, and after the last one
    /// there is a delay.
    pub open spec fn attempt_failed(self, round: usize, method: usize) -> (ManagerModel, ManagerAction) {
        if method + 1 < self.methods().len() {
            self.attempt(round, (method + 1) as usize)
        } else {
            self.go(ManagerPhase::Delaying { round }, ManagerAction::Wait(delays()[round as int]))
        }
    }

    /// The connection is up: this is remembered, and watched.
    pub open spec fn connected(self) -> (ManagerModel, ManagerAction) {
        ManagerModel {
            connected_once: true,
            status: Some((self.ssid(), NetworkCommissioningStatus::Success, 0)),
            round_over: true,
            ..self
        }.go(ManagerPhase::Subscribing, ManagerAction::Subscribe)
    }

    /// The manager gives up on the network: this is remembered.
    pub open spec fn gave_up(self) -> (ManagerModel, ManagerAction) {
        ManagerModel {
            status: Some((self.ssid(), NetworkCommissioningStatus::OtherConnectionFailure, 0)),
            round_over: true,
            ..self
        }.move_on()
    }

    /// One step of the manager.
    pub open spec fn run(self, event: ManagerEvent) -> (ManagerModel, ManagerAction) {
        ManagerModel { round_over: false, ..self }.step(event)
    }

    /// What a step comes to, by how far the manager is.
    pub open spec fn step(self, event: ManagerEvent) -> (ManagerModel, ManagerAction) {
        match (self.phase, event) {
            (_, ManagerEvent::Begin) => ManagerModel { creds: None, ..self }.move_on(),
            (_, ManagerEvent::Network(Some(creds))) => ManagerModel {
                creds: Some((ssid_of(creds.ssid), password_of(creds.password))),
                ..self
            }.attempt(0, 0),
            (_, ManagerEvent::Network(None)) => self.go(
                ManagerPhase::Idle,
                ManagerAction::Fail(EspError { code: ESP_ERR_INVALID_STATE }),
            ),
            (ManagerPhase::Stopping { round, method }, _) => self.go(
                ManagerPhase::Configuring { round, method },
                ManagerAction::SetConf(self.methods()[method as int]),
            ),
            (ManagerPhase::Configuring { round, method }, ManagerEvent::Done(Ok(()))) => self.go(
                ManagerPhase::Starting { round, method },
                ManagerAction::Start,
            ),
            (ManagerPhase::Starting { round, method }, ManagerEvent::Done(Ok(()))) => if self.methods()[method as int]
                is Open {
                self.connected()
            } else {
                self.go(ManagerPhase::Connecting { round, method }, ManagerAction::Connect)
            },
            (ManagerPhase::Connecting { .. }, ManagerEvent::Done(Ok(()))) => self.connected(),
            (ManagerPhase::Configuring { round, method }, _)
            | (ManagerPhase::Starting { round, method }, _)
            | (ManagerPhase::Connecting { round, method }, _) => self.attempt_failed(round, method),
            (ManagerPhase::Delaying { round }, _) => if round + 1 < ATTEMPTS {
                self.attempt((round + 1) as usize, 0)
            } else {
                self.gave_up()
            },
            (ManagerPhase::Subscribing, ManagerEvent::Done(Ok(()))) | (ManagerPhase::Waiting, _) => self.go(
                ManagerPhase::Checking,
                ManagerAction::IsConnected,
            ),
            (ManagerPhase::Checking, ManagerEvent::IsConnected(Ok(true))) => self.go(
                ManagerPhase::Waiting,
                ManagerAction::WaitEvent(DISCONNECT_POLL_SECS),
            ),
            (ManagerPhase::Checking, ManagerEvent::IsConnected(Ok(false))) => self.attempt(0, 0),
            _ => self.move_on(),
        }
    }
}

/// The delay after an attempt.
fn delay(round: usize) -> (r: u64)
    requires
        round < ATTEMPTS,
    ensures
        r == delays()[round as int],
{
    match round {
        0 => 2,
        1 => 5,
        2 => 10,
        3 => 20,
        4 => 30,
        _ => 60,
    }
}

/// The authentication methods that are tried with the given credentials.
fn methods(creds: &WifiCredentials) -> (r: Vec<AuthMethod>)
    ensures
        r@ == auth_methods(password_of(creds.password)),
{
    if password_as_str(&creds.password).is_empty() {
        vec![AuthMethod::Open]
    } else {
        vec![AuthMethod::WPA2WPA3Personal, AuthMethod::WPAWPA2Personal, AuthMethod::WEP]
    }
}

impl WifiManager {
    /// Create a new instance.
    pub fn new() -> (r: Self)
        ensures
            r@ == ManagerModel::idle(),
            r@.wf(),
    {
        WifiManager { creds: None, phase: ManagerPhase::Idle, connected_once: false, status: None, round_over: false }
    }

    /// The name and the password of the current network.
    pub fn creds(&self) -> (r: Option<(&str, &str)>)
        ensures
            match r {
                Some((ssid, password)) => self@.creds == Some((ssid@, password@)),
                None => self@.creds is None,
            },
    {
        match &self.creds {
            Some(creds) => Some((ssid_as_str(&creds.ssid), password_as_str(&creds.password))),
            None => None,
        }
    }

    /// Whether a connection was ever made.
    pub fn connected_once(&self) -> (r: bool)
        ensures
            r == self@.connected_once,
    {
        self.connected_once
    }

    /// The network that was last tried, and how that went.
    pub fn status(&self) -> (r: Option<(&str, NetworkCommissioningStatus, i32)>)
        ensures
            match r {
                Some((ssid, status, value)) => self@.status == Some((ssid@, status, value)),
                None => self@.status is None,
            },
    {
        match &self.status {
            Some(status) => Some((ssid_as_str(&status.ssid), status.status, status.value)),
            None => None,
        }
    }

    /// Whether the last step decided how connecting to the network went.
    pub fn round_over(&self) -> (r: bool)
        ensures
            r == self@.round_over,
    {
        self.round_over
    }

    fn go(&mut self, phase: ManagerPhase, action: ManagerAction) -> (r: ManagerAction)
        ensures
            (final(self)@, r) == old(self)@.go(phase, action),
    {
        self.phase = phase;
        action
    }

    /// The authentication methods that are tried with the current network.
    fn methods(&self) -> (r: Vec<AuthMethod>)
        ensures
            r@ == self@.methods(),
    {
        match &self.creds {
            Some(creds) => methods(creds),
            None => Vec::new(),
        }
    }

    /// Remember how connecting to the current network went.
    fn set_status(&mut self, status: NetworkCommissioningStatus)
        requires
            old(self)@.creds is Some,
        ensures
            final(self)@ == (ManagerModel {
                status: Some((old(self)@.ssid(), status, 0)),
                round_over: true,
                ..old(self)@
            }),
    {
        self.round_over = true;
        if let Some(creds) = &self.creds {
            if let Ok(ssid) = ssid_try_from(ssid_as_str(&creds.ssid)) {
                self.status = Some(WifiStatus { ssid, status, value: 0 });
            }
        }
    }

    fn attempt_failed(&mut self, round: usize, method: usize) -> (r: ManagerAction)
        requires
            round < ATTEMPTS,
            method < old(self)@.methods().len(),
        ensures
            (final(self)@, r) == old(self)@.attempt_failed(round, method),
    {
        if method + 1 < self.methods().len() {
            self.go(ManagerPhase::Stopping { round, method: method + 1 }, ManagerAction::Stop)
        } else {
            self.go(ManagerPhase::Delaying { round }, ManagerAction::Wait(delay(round)))
        }
    }

    fn connected(&mut self) -> (r: ManagerAction)
        requires
            old(self)@.creds is Some,
        ensures
            (final(self)@, r) == old(self)@.connected(),
    {
        self.connected_once = true;
        self.set_status(NetworkCommissioningStatus::Success);
        self.go(ManagerPhase::Subscribing, ManagerAction::Subscribe)
    }

    /// Keep the node connected, one step at a time.
    pub fn run(&mut self, event: ManagerEvent) -> (r: ManagerAction)
        requires
            old(self)@.wf(),
            old(self)@.expects(event),
        ensures
            final(self)@.wf(),
            (final(self)@, r) == old(self)@.run(event),
    {
        self.round_over = false;
        let ok: bool = match event {
            ManagerEvent::Begin => {
                self.creds = None;
                return self.go(ManagerPhase::LookingUp, ManagerAction::NextNetwork);
            },
            ManagerEvent::Network(Some(creds)) => {
                self.creds = Some(creds);
                return self.go(ManagerPhase::Stopping { round: 0, method: 0 }, ManagerAction::Stop);
            },
            ManagerEvent::Network(None) => {
                return self.go(
                    ManagerPhase::Idle,
                    ManagerAction::Fail(EspError::from_infallible(ESP_ERR_INVALID_STATE)),
                );
            },
            ManagerEvent::IsConnected(Ok(connected)) => {
                return if connected {
                    self.go(ManagerPhase::Waiting, ManagerAction::WaitEvent(DISCONNECT_POLL_SECS))
                } else {
                    self.go(ManagerPhase::Stopping { round: 0, method: 0 }, ManagerAction::Stop)
                };
            },
            ManagerEvent::Done(Ok(())) | ManagerEvent::Waited => true,
            ManagerEvent::Done(Err(_)) | ManagerEvent::IsConnected(Err(_)) => false,
        };
        match self.phase {
            ManagerPhase::Stopping { round, method } => {
                let auth_method = self.methods()[method];
                self.go(ManagerPhase::Configuring { round, method }, ManagerAction::SetConf(auth_method))
            },
            ManagerPhase::Configuring { round, method } => if ok {
                self.go(ManagerPhase::Starting { round, method }, ManagerAction::Start)
            } else {
                self.attempt_failed(round, method)
            },
            ManagerPhase::Starting { round, method } => if !ok {
                self.attempt_failed(round, method)
            } else if self.methods()[method] == AuthMethod::Open {
                self.connected()
            } else {
                self.go(ManagerPhase::Connecting { round, method }, ManagerAction::Connect)
            },
            ManagerPhase::Connecting { round, method } => if ok {
                self.connected()
            } else {
                self.attempt_failed(round, method)
            },
            ManagerPhase::Delaying { round } => if round + 1 < ATTEMPTS {
                self.go(ManagerPhase::Stopping { round: round + 1, method: 0 }, ManagerAction::Stop)
            } else {
                self.set_status(NetworkCommissioningStatus::OtherConnectionFailure);
                self.go(ManagerPhase::LookingUp, ManagerAction::NextNetwork)
            },
            ManagerPhase::Subscribing | ManagerPhase::Waiting => if ok {
                self.go(ManagerPhase::Checking, ManagerAction::IsConnected)
            } else {
                self.go(ManagerPhase::LookingUp, ManagerAction::NextNetwork)
            },
            _ => self.go(ManagerPhase::LookingUp, ManagerAction::NextNetwork),
        }
    }
}

/// The driver is configured only with the authentication methods that the password of the
/// current network calls for.
pub proof fn law_configures_with_a_method(m: ManagerModel, event: ManagerEvent)
    requires
        m.wf(),
        m.expects(event),
    ensures
        m.run(event).1 matches ManagerAction::SetConf(auth_method) ==> m.creds is Some && auth_methods(
            m.creds->Some_0.1,
        ).contains(auth_method),
        m.run(event).1 is Connect ==> m.creds is Some && m.creds->Some_0.1.len() > 0,
{
    let (after, action) = m.run(event);
    if let ManagerPhase::Stopping { method, .. } = m.phase {
        assert(m.methods()[method as int] == auth_methods(m.creds->Some_0.1)[method as int]);
    }
}

/// A connection is watched only once it is up, and then the network is remembered as connected.
/// That a connection was made is never forgotten.
pub proof fn law_success_is_remembered(m: ManagerModel, event: ManagerEvent)
    requires
        m.wf(),
        m.expects(event),
    ensures
        m.run(event).1 is Subscribe ==> {
            &&& event matches ManagerEvent::Done(Ok(()))
            &&& m.run(event).0.connected_once
            &&& m.run(event).0.status == Some((m.ssid(), NetworkCommissioningStatus::Success, 0i32))
        },
        m.connected_once ==> m.run(event).0.connected_once,
{
}

/// How connecting went is decided, once for each round of attempts, where a connection is up or
/// the last delay is over. At no other step does the manager remember anything new of it.
pub proof fn law_status_is_set_once_a_round(m: ManagerModel, event: ManagerEvent)
    requires
        m.wf(),
        m.expects(event),
    ensures
        m.run(event).0.round_over <==> m.run(event).1 is Subscribe || (event is Waited && m.phase
            == (ManagerPhase::Delaying { round: (ATTEMPTS - 1) as usize })),
        m.run(event).0.round_over ==> m.run(event).0.status is Some,
        !m.run(event).0.round_over ==> m.run(event).0.status == m.status && m.run(event).0.connected_once
            == m.connected_once,
{
}

/// A connected network is kept until the driver says that it is gone, or cannot say.
pub proof fn law_connection_is_kept(m: ManagerModel, event: ManagerEvent)
    requires
        m.wf(),
        m.expects(event),
        m.phase is Checking || m.phase is Waiting,
        !(event is Begin),
    ensures
        m.run(event).1 == ManagerAction::IsConnected || m.run(event).1 == ManagerAction::WaitEvent(
            DISCONNECT_POLL_SECS,
        ) || (event matches ManagerEvent::IsConnected(answer) && answer != Ok::<bool, EspError>(true)),
{
}

/// How many steps of an attempt are left at most.
pub open spec fn steps_left(phase: ManagerPhase) -> nat {
    let left = |round: usize, method: usize, k: int|
        if round < ATTEMPTS && method < 3 {
            (100 * (ATTEMPTS - round) + 10 * (3 - method) + k) as nat
        } else {
            0
        };
    match phase {
        ManagerPhase::Stopping { round, method } => left(round, method, 5),
        ManagerPhase::Configuring { round, method } => left(round, method, 4),
        ManagerPhase::Starting { round, method } => left(round, method, 3),
        ManagerPhase::Connecting { round, method } => left(round, method, 2),
        ManagerPhase::Delaying { round } => left(round, 2, -10),
        _ => 0,
    }
}

/// Where the manager ends up, and how long it waits on its way, if the driver keeps failing.
pub open spec fn run_failing(m: ManagerModel, err: EspError) -> (ManagerModel, Seq<u64>)
    decreases steps_left(m.phase),
    when m.wf()
{
    match m.phase {
        ManagerPhase::Delaying { .. } => run_failing(m.run(ManagerEvent::Waited).0, err),
        ManagerPhase::Stopping { .. }
        | ManagerPhase::Configuring { .. }
        | ManagerPhase::Starting { .. }
        | ManagerPhase::Connecting { .. } => {
            let (after, action) = m.run(ManagerEvent::Done(Err(err)));
            let (end, waits) = run_failing(after, err);
            match action {
                ManagerAction::Wait(secs) => (end, seq![secs] + waits),
                _ => (end, waits),
            }
        },
        _ => (m, seq![]),
    }
}

proof fn lemma_run_failing_from(m: ManagerModel, err: EspError, round: usize)
    requires
        m.wf(),
        m.phase == (ManagerPhase::Stopping { round, method: 0 }),
    ensures
        run_failing(m, err).1 == delays().skip(round as int),
        run_failing(m, err).0 == m.gave_up().0,
    decreases ATTEMPTS - round,
{
    reveal_with_fuel(run_failing, 9);
    let delaying = ManagerModel { phase: ManagerPhase::Delaying { round }, ..m };
    let after = delaying.run(ManagerEvent::Waited).0;
    if round + 1 < ATTEMPTS {
        lemma_run_failing_from(after, err, (round + 1) as usize);
        assert(seq![delays()[round as int]] + delays().skip(round + 1) =~= delays().skip(round as int));
    } else {
        assert(run_failing(after, err).1 =~= seq![]);
        assert(seq![delays()[round as int]] + seq![] =~= delays().skip(round as int));
    }
}

/// A manager whose driver keeps failing waits through all the delays, in order, then remembers
/// the failure and moves on to the next network.
pub proof fn law_gives_up_after_the_delays(m: ManagerModel, creds: WifiCredentials, err: EspError)
    requires
        m.wf(),
        m.phase is LookingUp,
    ensures
        ({
            let begun = m.run(ManagerEvent::Network(Some(creds))).0;
            let (end, waits) = run_failing(begun, err);
            &&& waits == delays()
            &&& end.phase is LookingUp
            &&& end.status == Some((ssid_of(creds.ssid), NetworkCommissioningStatus::OtherConnectionFailure, 0i32))
            &&& end.connected_once == m.connected_once
        }),
{
    let begun = m.run(ManagerEvent::Network(Some(creds))).0;
    lemma_run_failing_from(begun, err, 0);
    assert(delays().skip(0) =~= delays());
}

/// The authentication method at a place, by whether there is a password.
pub open spec fn method_at(has_password: bool, method: usize) -> AuthMethod {
    if !has_password {
        AuthMethod::Open
    } else if method == 0 {
        AuthMethod::WPA2WPA3Personal
    } else if method == 1 {
        AuthMethod::WPAWPA2Personal
    } else {
        AuthMethod::WEP
    }
}

/// Which action goes with which phase of a manager. The driver is asked to do exactly what the
/// manager then takes the answer for: with the authentication methods in their order, with delays
/// of 2, 5, 10, 20, 30 and 60 seconds, and with a look every 5 seconds.
pub open spec fn goes_with(m: ManagerModel, action: ManagerAction) -> bool {
    match m.phase {
        ManagerPhase::Idle => action == ManagerAction::Fail(EspError { code: 0x103 }),
        ManagerPhase::LookingUp => action is NextNetwork,
        ManagerPhase::Stopping { .. } => action is Stop,
        ManagerPhase::Configuring { method, .. } => m.creds matches Some((_, password)) && action
            == ManagerAction::SetConf(method_at(password.len() > 0, method)),
        ManagerPhase::Starting { .. } => action is Start,
        ManagerPhase::Connecting { .. } => action is Connect,
        ManagerPhase::Delaying { round } => action matches ManagerAction::Wait(secs) && secs == (if round == 0 {
            2u64
        } else if round == 1 {
            5u64
        } else if round == 2 {
            10u64
        } else if round == 3 {
            20u64
        } else if round == 4 {
            30u64
        } else {
            60u64
        }),
        ManagerPhase::Subscribing => action is Subscribe,
        ManagerPhase::Checking => action is IsConnected,
        ManagerPhase::Waiting => action == ManagerAction::WaitEvent(5),
    }
}

/// The action that is asked for is the one that the phase that is entered stands for, whatever
/// happened.
pub proof fn law_action_goes_with_phase(m: ManagerModel, event: ManagerEvent)
    requires
        m.wf(),
        m.expects(event),
    ensures
        goes_with(m.run(event).0, m.run(event).1),
{
}

/// A driver that connects, in whichever round and with whichever authentication method, is
/// connected: the manager subscribes to its events, and remembers the network as a success. So is
/// a driver that starts for a network without a password; for one with a password it is asked to
/// connect first.
pub proof fn law_connection_is_a_success(m: ManagerModel, round: usize, method: usize)
    requires
        m.wf(),
        m.phase == (ManagerPhase::Connecting { round, method }) || m.phase == (ManagerPhase::Starting {
            round,
            method,
        }),
    ensures
        ({
            let (after, action) = m.run(ManagerEvent::Done(Ok(())));
            let has_password = m.creds->Some_0.1.len() > 0;
            &&& m.phase is Connecting || !has_password ==> {
                &&& action == ManagerAction::Subscribe
                &&& after == (ManagerModel {
                    phase: ManagerPhase::Subscribing,
                    connected_once: true,
                    status: Some((m.creds->Some_0.0, NetworkCommissioningStatus::Success, 0i32)),
                    round_over: true,
                    ..m
                })
            }
            &&& m.phase is Starting && has_password ==> {
                &&& action == ManagerAction::Connect
                &&& after == (ManagerModel {
                    phase: ManagerPhase::Connecting { round, method },
                    round_over: false,
                    ..m
                })
            }
        }),
{
}

/// A driver that fails to be configured, to start or to connect is tried with the next
/// authentication method, of which there are three with a password and one without. After the last
/// one there is a delay. A failure to stop does not count.
pub proof fn law_failed_method_is_followed_by_the_next(
    m: ManagerModel,
    round: usize,
    method: usize,
    err: EspError,
    stopped: Result<(), EspError>,
)
    requires
        m.wf(),
    ensures
        m.phase == (ManagerPhase::Configuring { round, method }) || m.phase == (ManagerPhase::Starting { round, method })
            || m.phase == (ManagerPhase::Connecting { round, method }) ==> m.run(ManagerEvent::Done(Err(err))).0 == (
        ManagerModel {
            phase: if m.creds->Some_0.1.len() > 0 && method < 2 {
                ManagerPhase::Stopping { round, method: (method + 1) as usize }
            } else {
                ManagerPhase::Delaying { round }
            },
            round_over: false,
            ..m
        }),
        m.phase == (ManagerPhase::Stopping { round, method }) ==> m.run(ManagerEvent::Done(stopped)).0 == (
        ManagerModel { phase: ManagerPhase::Configuring { round, method }, round_over: false, ..m }),
        m.phase == (ManagerPhase::Configuring { round, method }) ==> m.run(ManagerEvent::Done(Ok(()))).0 == (
        ManagerModel { phase: ManagerPhase::Starting { round, method }, round_over: false, ..m }),
{
}

/// After a delay all the authentication methods are tried once more, until there were six rounds.
/// Then the failure is remembered, under the name of the network, and the next network looked up.
pub proof fn law_rounds_follow_each_other(m: ManagerModel, round: usize)
    requires
        m.wf(),
        m.phase == (ManagerPhase::Delaying { round }),
    ensures
        ({
            let after = m.run(ManagerEvent::Waited).0;
            &&& round < 5 ==> after == (ManagerModel {
                phase: ManagerPhase::Stopping { round: (round + 1) as usize, method: 0 },
                round_over: false,
                ..m
            })
            &&& round == 5 ==> after == (ManagerModel {
                phase: ManagerPhase::LookingUp,
                status: Some((m.creds->Some_0.0, NetworkCommissioningStatus::OtherConnectionFailure, 0i32)),
                round_over: true,
                ..m
            })
            &&& round <= 5
        }),
{
}

/// A network that is looked up becomes the current one and is tried from the first method of the
/// first round on. Without one the manager stops. A manager that begins has no current network; a
/// later lookup goes on from the current one, which only a lookup replaces.
pub proof fn law_networks_are_taken_in_turn(m: ManagerModel, creds: WifiCredentials, event: ManagerEvent)
    requires
        m.wf(),
        m.expects(event),
    ensures
        m.run(ManagerEvent::Network(Some(creds))).0 == (ManagerModel {
            creds: Some((ssid_of(creds.ssid), password_of(creds.password))),
            phase: ManagerPhase::Stopping { round: 0, method: 0 },
            round_over: false,
            ..m
        }),
        m.run(ManagerEvent::Network(None)).0 == (ManagerModel { phase: ManagerPhase::Idle, round_over: false, ..m }),
        m.run(ManagerEvent::Begin).0 == (ManagerModel {
            creds: None,
            phase: ManagerPhase::LookingUp,
            round_over: false,
            ..m
        }),
        !(event is Begin || event is Network) ==> m.run(event).0.creds == m.creds,
{
}

/// A connection that is up is looked at once its events are subscribed to, and again after each
/// wait. A connection that is gone is made again, from the start; where nothing can be said of it,
/// the next network is looked up.
pub proof fn law_connection_is_watched(m: ManagerModel, err: EspError)
    requires
        m.wf(),
    ensures
        m.phase is Subscribing ==> m.run(ManagerEvent::Done(Ok(()))).0 == (ManagerModel {
            phase: ManagerPhase::Checking,
            round_over: false,
            ..m
        }),
        m.phase is Subscribing ==> m.run(ManagerEvent::Done(Err(err))).0 == (ManagerModel {
            phase: ManagerPhase::LookingUp,
            round_over: false,
            ..m
        }),
        m.phase is Waiting ==> m.run(ManagerEvent::Waited).0 == (ManagerModel {
            phase: ManagerPhase::Checking,
            round_over: false,
            ..m
        }),
        m.phase is Checking ==> m.run(ManagerEvent::IsConnected(Ok(true))).0 == (ManagerModel {
            phase: ManagerPhase::Waiting,
            round_over: false,
            ..m
        }),
        m.phase is Checking ==> m.run(ManagerEvent::IsConnected(Ok(false))).0 == (ManagerModel {
            phase: ManagerPhase::Stopping { round: 0, method: 0 },
            round_over: false,
            ..m
        }),
        m.phase is Checking ==> m.run(ManagerEvent::IsConnected(Err(err))).0 == (ManagerModel {
            phase: ManagerPhase::LookingUp,
            round_over: false,
            ..m
        }),
{
}

} // verus!
