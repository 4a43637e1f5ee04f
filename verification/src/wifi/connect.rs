//! How the Wi-Fi controller connects to a network.
//!
//! It tries one authentication method after the other until the driver connects, and then waits
//! for the IP addresses.

use vstd::prelude::*;
use vstd::utf8::{decode_utf8, encode_utf8, valid_utf8};

use crate::bounded::{password_as_str, password_of, password_try_from, ssid_as_str, ssid_of, ssid_try_from};
use crate::bytes::from_utf8;
use crate::error::{
    net_constr_error, net_error, to_net_constr_error, to_net_error, Error, ErrorCode, EspError, NetCtlError,
};
use crate::netif::{Ipv4Addr, Ipv6Addr, NetifModel, NetifShown};
use crate::networks::WirelessCreds;
use crate::wifi::{outcome_of, AuthMethod, MAX_PASSWORD_LEN, MAX_SSID_LEN};

verus! {

/// How long to wait for the IP addresses of a connected interface.
pub const IP_WAIT_SECS: u64 = 15;

/// How many authentication methods are tried.
pub const AUTH_METHODS: usize = 4;

/// What the controller does next.
#[derive(Debug, Copy, Clone, PartialEq, Eq)]
pub enum ConnectAction {
    /// Remember the state of the network interface.
    Load,
    /// Ask the driver whether it is started.
    IsStarted,
    Stop,
    /// Hand the driver the name and the password of the network, and the authentication method.
    SetConf(AuthMethod),
    Start,
    Connect,
    /// Give the interface a link-local IPv6 address.
    CreateIp6LinkLocal,
    /// Wait until the interface is operational, but no longer than this number of seconds.
    WaitIp(u64),
    Finish(Result<(), NetCtlError>),
}

/// How the last action went.
#[derive(Debug, Copy, Clone, PartialEq, Eq)]
pub enum ConnectAnswer {
    Done(Result<(), EspError>),
    /// The answer to `IsStarted`.
    Flag(Result<bool, EspError>),
}

/// How far the controller is. The number is that of the authentication method that is tried.
#[derive(Debug, Copy, Clone, PartialEq, Eq, Structural)]
pub enum ConnectPhase {
    Loading,
    StartedBefore(usize),
    Stopping(usize),
    Configuring(usize),
    StartedAfter(usize),
    Starting(usize),
    Connecting(usize),
    LinkLocal,
    WaitingIp,
    Finished,
}

/// The authentication methods, in the order in which they are tried.
pub open spec fn auth_methods() -> Seq<AuthMethod> {
    seq![AuthMethod::WPA2Personal, AuthMethod::WPA, AuthMethod::WPA2WPA3Personal, AuthMethod::WEP]
}

/// The name and the password that the driver is handed: those of the credentials, where they
/// are strings of a length that the driver can take.
pub open spec fn conf_of(ssid: Seq<u8>, pass: Seq<u8>) -> Option<(Seq<char>, Seq<char>)> {
    if valid_utf8(ssid) && ssid.len() <= MAX_SSID_LEN && valid_utf8(pass) && pass.len() <= MAX_PASSWORD_LEN {
        Some((decode_utf8(ssid), decode_utf8(pass)))
    } else {
        None
    }
}

/// A client configuration of the driver, but for the authentication method.
#[derive(Debug)]
struct ClientConf {
    ssid: heapless::String<MAX_SSID_LEN>,
    password: heapless::String<MAX_PASSWORD_LEN>,
}

/// A connection attempt.
#[derive(Debug)]
pub struct WifiConnect<'a> {
    ssid: &'a [u8],
    pass: &'a [u8],
    conf: Option<ClientConf>,
    phase: ConnectPhase,
}

/// The contents of a `WifiConnect`.
#[verifier::ext_equal]
pub struct ConnectModel {
    pub ssid: Seq<u8>,
    pub pass: Seq<u8>,
    pub conf: Option<(Seq<char>, Seq<char>)>,
    pub phase: ConnectPhase,
}

impl<'a> View for WifiConnect<'a> {
    type V = ConnectModel;

    closed spec fn view(&self) -> ConnectModel {
        ConnectModel {
            ssid: self.ssid@,
            pass: self.pass@,
            conf: match self.conf {
                Some(conf) => Some((ssid_of(conf.ssid), password_of(conf.password))),
                None => None,
            },
            phase: self.phase,
        }
    }
}

impl ConnectModel {
    /// A connection attempt that is about to begin.
    pub open spec fn begin(ssid: Seq<u8>, pass: Seq<u8>) -> ConnectModel {
        ConnectModel { ssid, pass, conf: None, phase: ConnectPhase::Loading }
    }

    /// Whether the answer is one to the last action, in this phase.
    pub open spec fn expects(self, answer: ConnectAnswer) -> bool {
        match self.phase {
            ConnectPhase::StartedBefore(i) | ConnectPhase::StartedAfter(i) => i < AUTH_METHODS && answer is Flag,
            ConnectPhase::Stopping(i)
            | ConnectPhase::Configuring(i)
            | ConnectPhase::Starting(i)
            | ConnectPhase::Connecting(i) => i < AUTH_METHODS && answer is Done,
            ConnectPhase::Loading | ConnectPhase::LinkLocal | ConnectPhase::WaitingIp => answer is Done,
            ConnectPhase::Finished => false,
        }
    }

    /// The attempt goes on in the given phase.
    pub open spec fn go(self, phase: ConnectPhase, action: ConnectAction) -> (ConnectModel, ConnectAction) {
        (ConnectModel { phase, ..self }, action)
    }

    /// The attempt ends.
    pub open spec fn finish(self, result: Result<(), NetCtlError>) -> (ConnectModel, ConnectAction) {
        self.go(ConnectPhase::Finished, ConnectAction::Finish(result))
    }

    /// How the attempt goes on once the last action is answered.
    pub open spec fn next(self, answer: ConnectAnswer) -> (ConnectModel, ConnectAction) {
        let failed = self.finish(Err(NetCtlError::Other(net_error())));
        match (self.phase, answer) {
            (ConnectPhase::Loading, ConnectAnswer::Done(Ok(()))) => match conf_of(self.ssid, self.pass) {
                Some(conf) => ConnectModel { conf: Some(conf), ..self }.go(
                    ConnectPhase::StartedBefore(0),
                    ConnectAction::IsStarted,
                ),
                None => self.finish(Err(net_constr_error())),
            },
            (ConnectPhase::StartedBefore(i), ConnectAnswer::Flag(Ok(true))) => self.go(
                ConnectPhase::Stopping(i),
                ConnectAction::Stop,
            ),
            (ConnectPhase::StartedBefore(i), ConnectAnswer::Flag(Ok(false)))
            | (ConnectPhase::Stopping(i), ConnectAnswer::Done(Ok(()))) => self.go(
                ConnectPhase::Configuring(i),
                ConnectAction::SetConf(auth_methods()[i as int]),
            ),
            (ConnectPhase::Configuring(i), ConnectAnswer::Done(Ok(()))) => self.go(
                ConnectPhase::StartedAfter(i),
                ConnectAction::IsStarted,
            ),
            (ConnectPhase::StartedAfter(i), ConnectAnswer::Flag(Ok(false))) => self.go(
                ConnectPhase::Starting(i),
                ConnectAction::Start,
            ),
            (ConnectPhase::StartedAfter(i), ConnectAnswer::Flag(Ok(true)))
            | (ConnectPhase::Starting(i), ConnectAnswer::Done(Ok(()))) => self.go(
                ConnectPhase::Connecting(i),
                ConnectAction::Connect,
            ),
            (ConnectPhase::Connecting(i), ConnectAnswer::Done(Err(_))) => if i + 1 < AUTH_METHODS {
                self.go(ConnectPhase::StartedBefore((i + 1) as usize), ConnectAction::IsStarted)
            } else {
                self.finish(Err(NetCtlError::OtherConnectionFailure))
            },
            (ConnectPhase::Connecting(_), ConnectAnswer::Done(Ok(()))) => self.go(
                ConnectPhase::LinkLocal,
                ConnectAction::CreateIp6LinkLocal,
            ),
            (ConnectPhase::LinkLocal, ConnectAnswer::Done(Ok(()))) => self.go(
                ConnectPhase::WaitingIp,
                ConnectAction::WaitIp(IP_WAIT_SECS),
            ),
            (ConnectPhase::WaitingIp, ConnectAnswer::Done(Err(_))) => self.finish(Err(NetCtlError::IpBindFailed)),
            (ConnectPhase::WaitingIp, ConnectAnswer::Done(Ok(()))) => self.finish(Ok(())),
            _ => failed,
        }
    }
}

/// The authentication method that is tried at the given place.
fn auth_method(i: usize) -> (r: AuthMethod)
    requires
        i < AUTH_METHODS,
    ensures
        r == auth_methods()[i as int],
{
    match i {
        0 => AuthMethod::WPA2Personal,
        1 => AuthMethod::WPA,
        2 => AuthMethod::WPA2WPA3Personal,
        _ => AuthMethod::WEP,
    }
}

/// The configuration that the driver is handed.
fn client_conf(ssid: &[u8], pass: &[u8]) -> (r: Result<ClientConf, NetCtlError>)
    ensures
        match r {
            Ok(conf) => conf_of(ssid@, pass@) == Some((ssid_of(conf.ssid), password_of(conf.password))),
            Err(err) => conf_of(ssid@, pass@) is None && err == net_constr_error(),
        },
{
    proof {
        if valid_utf8(ssid@) {
            vstd::utf8::decode_utf8_encode_utf8(ssid@);
        }
        if valid_utf8(pass@) {
            vstd::utf8::decode_utf8_encode_utf8(pass@);
        }
    }
    let ssid = match from_utf8(ssid) {
        None => {
            return Err(to_net_constr_error(()));
        },
        Some(ssid) => match ssid_try_from(ssid) {
            Err(err) => {
                return Err(to_net_constr_error(err));
            },
            Ok(ssid) => ssid,
        },
    };
    let password = match from_utf8(pass) {
        None => {
            return Err(to_net_constr_error(()));
        },
        Some(pass) => match password_try_from(pass) {
            Err(err) => {
                return Err(to_net_constr_error(err));
            },
            Ok(pass) => pass,
        },
    };
    Ok(ClientConf { ssid, password })
}

impl<'a> WifiConnect<'a> {
    /// Begin to connect. The first action is `ConnectAction::Load`.
    pub fn new(creds: &WirelessCreds<'a>) -> (r: Result<Self, NetCtlError>)
        ensures
            match *creds {
                WirelessCreds::Wifi { ssid, pass } => r is Ok && r->Ok_0@ == ConnectModel::begin(ssid@, pass@),
                _ => r == Err::<Self, NetCtlError>(NetCtlError::Other(Error { code: ErrorCode::InvalidData })),
            },
    {
        match *creds {
            WirelessCreds::Wifi { ssid, pass } => Ok(
                WifiConnect { ssid, pass, conf: None, phase: ConnectPhase::Loading },
            ),
            _ => Err(NetCtlError::from(Error::from(ErrorCode::InvalidData))),
        }
    }

    /// The name and the password of the network, once they are known to be good.
    pub fn conf(&self) -> (r: Option<(&str, &str)>)
        ensures
            match r {
                Some((ssid, password)) => self@.conf == Some((ssid@, password@)),
                None => self@.conf is None,
            },
    {
        match &self.conf {
            Some(conf) => Some((ssid_as_str(&conf.ssid), password_as_str(&conf.password))),
            None => None,
        }
    }

    fn go(&mut self, phase: ConnectPhase, action: ConnectAction) -> (r: ConnectAction)
        ensures
            (final(self)@, r) == old(self)@.go(phase, action),
    {
        self.phase = phase;
        action
    }

    fn finish(&mut self, result: Result<(), NetCtlError>) -> (r: ConnectAction)
        ensures
            (final(self)@, r) == old(self)@.finish(result),
    {
        self.go(ConnectPhase::Finished, ConnectAction::Finish(result))
    }

    /// Go on once the last action is answered.
    pub fn next(&mut self, answer: ConnectAnswer) -> (r: ConnectAction)
        requires
            old(self)@.expects(answer),
        ensures
            (final(self)@, r) == old(self)@.next(answer),
    {
        let started: bool = match answer {
            ConnectAnswer::Done(Err(err)) | ConnectAnswer::Flag(Err(err)) => {
                return match self.phase {
                    ConnectPhase::Connecting(i) => if i + 1 < AUTH_METHODS {
                        self.go(ConnectPhase::StartedBefore(i + 1), ConnectAction::IsStarted)
                    } else {
                        self.finish(Err(NetCtlError::OtherConnectionFailure))
                    },
                    ConnectPhase::WaitingIp => self.finish(Err(NetCtlError::IpBindFailed)),
                    _ => self.finish(Err(NetCtlError::from(to_net_error(err)))),
                };
            },
            ConnectAnswer::Done(Ok(())) => false,
            ConnectAnswer::Flag(Ok(started)) => started,
        };
        match self.phase {
            ConnectPhase::Loading => match client_conf(self.ssid, self.pass) {
                Err(err) => self.finish(Err(err)),
                Ok(conf) => {
                    self.conf = Some(conf);
                    self.go(ConnectPhase::StartedBefore(0), ConnectAction::IsStarted)
                },
            },
            ConnectPhase::StartedBefore(i) => if started {
                self.go(ConnectPhase::Stopping(i), ConnectAction::Stop)
            } else {
                self.go(ConnectPhase::Configuring(i), ConnectAction::SetConf(auth_method(i)))
            },
            ConnectPhase::Stopping(i) => self.go(
                ConnectPhase::Configuring(i),
                ConnectAction::SetConf(auth_method(i)),
            ),
            ConnectPhase::Configuring(i) => self.go(ConnectPhase::StartedAfter(i), ConnectAction::IsStarted),
            ConnectPhase::StartedAfter(i) => if started {
                self.go(ConnectPhase::Connecting(i), ConnectAction::Connect)
            } else {
                self.go(ConnectPhase::Starting(i), ConnectAction::Start)
            },
            ConnectPhase::Starting(i) => self.go(ConnectPhase::Connecting(i), ConnectAction::Connect),
            ConnectPhase::Connecting(_) => self.go(ConnectPhase::LinkLocal, ConnectAction::CreateIp6LinkLocal),
            ConnectPhase::LinkLocal => self.go(ConnectPhase::WaitingIp, ConnectAction::WaitIp(IP_WAIT_SECS)),
            ConnectPhase::WaitingIp | ConnectPhase::Finished => self.finish(Ok(())),
        }
    }
}

/// How the driver answers over a whole connection attempt: once, or once for each
/// authentication method.
pub struct DriverModel {
    pub load: Result<(), EspError>,
    pub started_before: spec_fn(usize) -> Result<bool, EspError>,
    pub stop: spec_fn(usize) -> Result<(), EspError>,
    pub set_conf: spec_fn(usize) -> Result<(), EspError>,
    pub started_after: spec_fn(usize) -> Result<bool, EspError>,
    pub start: spec_fn(usize) -> Result<(), EspError>,
    pub connect: spec_fn(usize) -> Result<(), EspError>,
    pub ip6_linklocal: Result<(), EspError>,
    pub ip_wait: Result<(), EspError>,
}

impl DriverModel {
    /// What the driver answers in the given phase.
    pub open spec fn answer(self, phase: ConnectPhase) -> ConnectAnswer {
        match phase {
            ConnectPhase::Loading | ConnectPhase::Finished => ConnectAnswer::Done(self.load),
            ConnectPhase::StartedBefore(i) => ConnectAnswer::Flag((self.started_before)(i)),
            ConnectPhase::Stopping(i) => ConnectAnswer::Done((self.stop)(i)),
            ConnectPhase::Configuring(i) => ConnectAnswer::Done((self.set_conf)(i)),
            ConnectPhase::StartedAfter(i) => ConnectAnswer::Flag((self.started_after)(i)),
            ConnectPhase::Starting(i) => ConnectAnswer::Done((self.start)(i)),
            ConnectPhase::Connecting(i) => ConnectAnswer::Done((self.connect)(i)),
            ConnectPhase::LinkLocal => ConnectAnswer::Done(self.ip6_linklocal),
            ConnectPhase::WaitingIp => ConnectAnswer::Done(self.ip_wait),
        }
    }

    /// Whether the driver gets as far as connecting with the given authentication method.
    pub open spec fn ready(self, i: usize) -> bool {
        &&& (self.started_before)(i) is Ok
        &&& (self.started_before)(i)->Ok_0 ==> (self.stop)(i) is Ok
        &&& (self.set_conf)(i) is Ok
        &&& (self.started_after)(i) is Ok
        &&& !(self.started_after)(i)->Ok_0 ==> (self.start)(i) is Ok
    }

    /// How an attempt ends that goes through the authentication methods from the given one on.
    pub open spec fn outcome_from(self, i: usize) -> Result<(), NetCtlError>
        decreases AUTH_METHODS - i,
    {
        if !self.ready(i) {
            Err(NetCtlError::Other(net_error()))
        } else if (self.connect)(i) is Err {
            if i + 1 < AUTH_METHODS {
                self.outcome_from((i + 1) as usize)
            } else {
                Err(NetCtlError::OtherConnectionFailure)
            }
        } else if self.ip6_linklocal is Err {
            Err(NetCtlError::Other(net_error()))
        } else if self.ip_wait is Err {
            Err(NetCtlError::IpBindFailed)
        } else {
            Ok(())
        }
    }
}

/// How many steps the attempt can take at most.
pub open spec fn steps_left(phase: ConnectPhase) -> nat {
    let left = |i: usize, k: nat|
        if i < AUTH_METHODS {
            (8 * (AUTH_METHODS - i) + k) as nat
        } else {
            k
        };
    match phase {
        ConnectPhase::Loading => 50,
        ConnectPhase::StartedBefore(i) => left(i, 8),
        ConnectPhase::Stopping(i) => left(i, 7),
        ConnectPhase::Configuring(i) => left(i, 6),
        ConnectPhase::StartedAfter(i) => left(i, 5),
        ConnectPhase::Starting(i) => left(i, 4),
        ConnectPhase::Connecting(i) => left(i, 3),
        ConnectPhase::LinkLocal => 2,
        ConnectPhase::WaitingIp => 1,
        ConnectPhase::Finished => 0,
    }
}

/// How the attempt ends if the driver answers so.
pub open spec fn run(m: ConnectModel, driver: DriverModel) -> Result<(), NetCtlError>
    decreases steps_left(m.phase),
{
    match m.next(driver.answer(m.phase)) {
        (_, ConnectAction::Finish(result)) => result,
        (after, _) => run(after, driver),
    }
}

/// Every answer brings the attempt nearer to its end, and the next answer is always one that
/// the attempt expects until it has ended.
pub proof fn law_connect_terminates(m: ConnectModel, answer: ConnectAnswer, driver: DriverModel)
    requires
        m.expects(answer),
    ensures
        steps_left(m.next(answer).0.phase) < steps_left(m.phase),
        m.next(answer).1 is Finish <==> m.next(answer).0.phase is Finished,
        !(m.next(answer).1 is Finish) ==> m.next(answer).0.expects(driver.answer(m.next(answer).0.phase)),
{
}

proof fn lemma_run_from(m: ConnectModel, driver: DriverModel, i: usize)
    requires
        m.phase == ConnectPhase::StartedBefore(i),
        i < AUTH_METHODS,
    ensures
        run(m, driver) == driver.outcome_from(i),
    decreases AUTH_METHODS - i,
{
    reveal_with_fuel(run, 9);
    if i + 1 < AUTH_METHODS {
        let after = ConnectModel { phase: ConnectPhase::StartedBefore((i + 1) as usize), ..m };
        lemma_run_from(after, driver, (i + 1) as usize);
    }
}

/// A connection attempt fails with a network error where the driver does, with a constraint
/// error on credentials that the driver cannot take, and as a connection failure only after
/// every authentication method was tried in turn. It succeeds exactly where the driver connects
/// with one of them and the interface then gets its addresses.
pub proof fn law_connect_outcome(ssid: Seq<u8>, pass: Seq<u8>, driver: DriverModel)
    ensures
        run(ConnectModel::begin(ssid, pass), driver) == (if driver.load is Err {
            Err::<(), NetCtlError>(NetCtlError::Other(net_error()))
        } else if conf_of(ssid, pass) is None {
            Err(net_constr_error())
        } else {
            driver.outcome_from(0)
        }),
{
    let m = ConnectModel::begin(ssid, pass);
    reveal_with_fuel(run, 2);
    if driver.load is Ok && conf_of(ssid, pass) is Some {
        let after = m.next(driver.answer(m.phase)).0;
        lemma_run_from(after, driver, 0);
    }
}

/// The driver is configured only with the name and the password that were asked for, and with
/// the authentication methods in their order.
pub proof fn law_connect_configures_credentials(m: ConnectModel, answer: ConnectAnswer)
    requires
        m.expects(answer),
        m.conf is Some ==> m.conf == conf_of(m.ssid, m.pass),
        m.conf is None ==> m.phase is Loading,
    ensures
        ({
            let (after, action) = m.next(answer);
            &&& after.ssid == m.ssid && after.pass == m.pass
            &&& after.conf is Some ==> after.conf == conf_of(m.ssid, m.pass)
            &&& after.conf is None ==> after.phase is Finished
            &&& action matches ConnectAction::SetConf(method) ==> {
                &&& after.conf matches Some((ssid, password)) && encode_utf8(ssid) == m.ssid && encode_utf8(
                    password,
                ) == m.pass
                &&& after.phase matches ConnectPhase::Configuring(i) && i < AUTH_METHODS && method
                    == auth_methods()[i as int]
            }
        }),
{
    if valid_utf8(m.ssid) {
        vstd::utf8::decode_utf8_encode_utf8(m.ssid);
    }
    if valid_utf8(m.pass) {
        vstd::utf8::decode_utf8_encode_utf8(m.pass);
    }
}

/// What the driver and the interface show at one look.
pub type Look = (bool, Result<NetifShown, EspError>);

/// A wait for the IP addresses, whose looks at the interface show this: what is remembered at its
/// end, and how it ends. Where no look decides, the time is up.
pub open spec fn wait_ip(m: NetifModel, looks: Seq<Look>, timeout: EspError) -> (NetifModel, Result<(), EspError>)
    decreases looks.len(),
{
    if looks.len() == 0 {
        (m, Err(timeout))
    } else {
        match looks[0] {
            (_, Err(err)) => (m, Err(err)),
            (up, Ok(shown)) => if outcome_of(m, up, shown).goes_on() {
                wait_ip(m.load(up, shown), looks.drop_first(), timeout)
            } else {
                (m.load(up, shown), Ok(()))
            },
        }
    }
}

/// A wait that ends well leaves the interface operational.
proof fn lemma_wait_ip(m: NetifModel, looks: Seq<Look>, timeout: EspError)
    ensures
        wait_ip(m, looks, timeout).1 is Ok ==> wait_ip(m, looks, timeout).0.is_operational(),
    decreases looks.len(),
{
    if looks.len() > 0 {
        if let (up, Ok(shown)) = looks[0] {
            lemma_wait_ip(m.load(up, shown), looks.drop_first(), timeout);
        }
    }
}

proof fn lemma_outcome_needs_ip(driver: DriverModel, i: usize)
    ensures
        driver.outcome_from(i) is Ok ==> driver.ip_wait is Ok,
    decreases AUTH_METHODS - i,
{
    if i + 1 < AUTH_METHODS {
        lemma_outcome_needs_ip(driver, (i + 1) as usize);
    }
}

/// A controller that has seen nothing is not connected. After a connection attempt that
/// succeeded, it is: its interface is up, and has an address of each family.
///
/// `m` is what the controller remembers when the wait for the addresses begins, and `looks` is what
/// the interface shows during the wait.
pub proof fn law_connected_after_connect(
    ssid: Seq<u8>,
    pass: Seq<u8>,
    driver: DriverModel,
    m: NetifModel,
    looks: Seq<Look>,
    timeout: EspError,
)
    requires
        driver.ip_wait == wait_ip(m, looks, timeout).1,
    ensures
        !NetifModel::unseen().is_operational(),
        run(ConnectModel::begin(ssid, pass), driver) is Ok ==> {
            let after = wait_ip(m, looks, timeout).0;
            &&& after.is_operational()
            &&& after.operational
            &&& after.ipv4_addr != Ipv4Addr::unspecified()
            &&& after.ipv6_addr != Ipv6Addr::unspecified()
        },
{
    law_connect_outcome(ssid, pass, driver);
    lemma_outcome_needs_ip(driver, 0);
    lemma_wait_ip(m, looks, timeout);
}

/// Which action goes with which phase. The driver is asked to do exactly what the attempt then
/// takes the answer for, with the authentication methods in the order WPA2, WPA, WPA2 or WPA3, and
/// WEP, and the IP addresses are waited for 15 seconds.
pub open spec fn goes_with(phase: ConnectPhase, action: ConnectAction) -> bool {
    match action {
        ConnectAction::Load => phase is Loading,
        ConnectAction::IsStarted => phase is StartedBefore || phase is StartedAfter,
        ConnectAction::Stop => phase is Stopping,
        ConnectAction::SetConf(method) => match method {
            AuthMethod::WPA2Personal => phase == ConnectPhase::Configuring(0),
            AuthMethod::WPA => phase == ConnectPhase::Configuring(1),
            AuthMethod::WPA2WPA3Personal => phase == ConnectPhase::Configuring(2),
            AuthMethod::WEP => phase == ConnectPhase::Configuring(3),
            _ => false,
        },
        ConnectAction::Start => phase is Starting,
        ConnectAction::Connect => phase is Connecting,
        ConnectAction::CreateIp6LinkLocal => phase is LinkLocal,
        ConnectAction::WaitIp(secs) => phase is WaitingIp && secs == 15,
        ConnectAction::Finish(_) => phase is Finished,
    }
}

/// The action that is handed out is the one that the phase that is entered stands for, whatever
/// was answered.
pub proof fn law_action_goes_with_phase(m: ConnectModel, answer: ConnectAnswer)
    requires
        m.expects(answer),
    ensures
        goes_with(m.next(answer).0.phase, m.next(answer).1),
{
}

/// Once the driver has connected, with whichever authentication method, the interface gets a
/// link-local IPv6 address, and then its addresses are waited for. Where all of that goes well the
/// attempt succeeds. A failed wait is told as such, and a failed address as a network error.
pub proof fn law_connected_driver_gets_addresses(m: ConnectModel, i: usize, err: EspError)
    requires
        m.phase == ConnectPhase::Connecting(i),
    ensures
        ({
            let done = ConnectAnswer::Done(Ok(()));
            let failed = ConnectAnswer::Done(Err(err));
            let (linked, first) = m.next(done);
            let (waiting, second) = linked.next(done);
            &&& first == ConnectAction::CreateIp6LinkLocal
            &&& second == ConnectAction::WaitIp(15)
            &&& waiting.next(done).1 == ConnectAction::Finish(Ok(()))
            &&& waiting.next(failed).1 == ConnectAction::Finish(Err(NetCtlError::IpBindFailed))
            &&& linked.next(failed).1 == ConnectAction::Finish(
                Err(NetCtlError::Other(Error { code: ErrorCode::NoNetworkInterface })),
            )
        }),
{
}

/// A driver that could not connect is tried with the next authentication method, from the start.
/// After the fourth one the attempt fails.
pub proof fn law_next_method_is_tried(m: ConnectModel, i: usize, err: EspError)
    requires
        m.phase == ConnectPhase::Connecting(i),
        i < 4,
    ensures
        i < 3 ==> m.next(ConnectAnswer::Done(Err(err))) == (
            ConnectModel { phase: ConnectPhase::StartedBefore((i + 1) as usize), ..m },
            ConnectAction::IsStarted,
        ),
        i == 3 ==> m.next(ConnectAnswer::Done(Err(err))).1 == ConnectAction::Finish(
            Err(NetCtlError::OtherConnectionFailure),
        ),
{
}

/// The actions of an attempt, from the given state on, if the driver answers so.
pub open spec fn actions(m: ConnectModel, driver: DriverModel) -> Seq<ConnectAction>
    decreases steps_left(m.phase),
{
    match m.next(driver.answer(m.phase)) {
        (_, ConnectAction::Finish(result)) => seq![ConnectAction::Finish(result)],
        (after, action) => seq![action] + actions(after, driver),
    }
}

/// The name of an authentication method, by its place.
pub open spec fn method_at(i: usize) -> AuthMethod {
    if i == 0 {
        AuthMethod::WPA2Personal
    } else if i == 1 {
        AuthMethod::WPA
    } else if i == 2 {
        AuthMethod::WPA2WPA3Personal
    } else {
        AuthMethod::WEP
    }
}

/// What an authentication method takes that the driver gets as far as connecting with, after the
/// question whether it is started: it is stopped where it is, configured, started where it is
/// not, and asked to connect.
pub open spec fn method_actions(driver: DriverModel, i: usize) -> Seq<ConnectAction> {
    (if (driver.started_before)(i)->Ok_0 {
        seq![ConnectAction::Stop]
    } else {
        seq![]
    }) + seq![ConnectAction::SetConf(method_at(i)), ConnectAction::IsStarted] + (if (driver.started_after)(
        i,
    )->Ok_0 {
        seq![]
    } else {
        seq![ConnectAction::Start]
    }) + seq![ConnectAction::Connect]
}

/// What follows once the driver was asked to connect with an authentication method. It is up to
/// the connection alone: the addresses where it is up, and the next method, or the end, where it is
/// not.
pub open spec fn actions_after_connect(m: ConnectModel, driver: DriverModel, i: usize) -> Seq<ConnectAction> {
    if (driver.connect)(i) is Err {
        if i == 3 {
            seq![ConnectAction::Finish(Err(NetCtlError::OtherConnectionFailure))]
        } else {
            seq![ConnectAction::IsStarted] + actions(
                ConnectModel { phase: ConnectPhase::StartedBefore((i + 1) as usize), ..m },
                driver,
            )
        }
    } else if driver.ip6_linklocal is Err {
        seq![
            ConnectAction::CreateIp6LinkLocal,
            ConnectAction::Finish(Err(NetCtlError::Other(Error { code: ErrorCode::NoNetworkInterface }))),
        ]
    } else if driver.ip_wait is Err {
        seq![
            ConnectAction::CreateIp6LinkLocal,
            ConnectAction::WaitIp(15),
            ConnectAction::Finish(Err(NetCtlError::IpBindFailed)),
        ]
    } else {
        seq![ConnectAction::CreateIp6LinkLocal, ConnectAction::WaitIp(15), ConnectAction::Finish(Ok(()))]
    }
}

proof fn lemma_actions_from_connecting(m: ConnectModel, driver: DriverModel, i: usize)
    requires
        m.phase == ConnectPhase::Connecting(i),
        i < 4,
    ensures
        actions(m, driver) == actions_after_connect(m, driver, i),
{
    reveal_with_fuel(actions, 4);
    assert(actions(m, driver) =~= actions_after_connect(m, driver, i));
}

proof fn lemma_actions_from_started_after(m: ConnectModel, driver: DriverModel, i: usize)
    requires
        m.phase == ConnectPhase::StartedAfter(i),
        i < 4,
        driver.ready(i),
    ensures
        actions(m, driver) == (if (driver.started_after)(i)->Ok_0 {
            Seq::<ConnectAction>::empty()
        } else {
            seq![ConnectAction::Start]
        }) + seq![ConnectAction::Connect] + actions_after_connect(m, driver, i),
{
    let connecting = ConnectModel { phase: ConnectPhase::Connecting(i), ..m };
    let starting = ConnectModel { phase: ConnectPhase::Starting(i), ..m };
    lemma_actions_from_connecting(connecting, driver, i);
    assert(actions_after_connect(connecting, driver, i) == actions_after_connect(m, driver, i));
    let tail = actions_after_connect(m, driver, i);
    if (driver.started_after)(i)->Ok_0 {
        assert(actions(m, driver) == seq![ConnectAction::Connect] + tail);
    } else {
        assert(actions(starting, driver) == seq![ConnectAction::Connect] + tail);
        assert(actions(m, driver) == seq![ConnectAction::Start] + actions(starting, driver));
    }
}

proof fn lemma_actions_from_configuring(m: ConnectModel, driver: DriverModel, i: usize)
    requires
        m.phase == ConnectPhase::Configuring(i),
        i < 4,
        driver.ready(i),
    ensures
        actions(m, driver) == seq![ConnectAction::IsStarted] + actions(
            ConnectModel { phase: ConnectPhase::StartedAfter(i), ..m },
            driver,
        ),
{
}

/// Sequences that are put together step by step are put together as a whole.
proof fn lemma_put_together(
    stop: Seq<ConnectAction>,
    conf: ConnectAction,
    start: Seq<ConnectAction>,
    tail: Seq<ConnectAction>,
)
    ensures
        stop + (seq![conf] + (seq![ConnectAction::IsStarted] + (start + seq![ConnectAction::Connect] + tail))) == stop
            + seq![conf, ConnectAction::IsStarted] + start + seq![ConnectAction::Connect] + tail,
{
    assert(stop + (seq![conf] + (seq![ConnectAction::IsStarted] + (start + seq![ConnectAction::Connect] + tail)))
        =~= stop + seq![conf, ConnectAction::IsStarted] + start + seq![ConnectAction::Connect] + tail);
}

/// With an authentication method that the driver gets as far as connecting with, exactly these
/// actions are taken, in this order.
#[verifier::spinoff_prover]
#[verifier::rlimit(40)]
pub proof fn law_method_takes_these_actions(m: ConnectModel, driver: DriverModel, i: usize)
    requires
        m.phase == ConnectPhase::StartedBefore(i),
        i < 4,
        driver.ready(i),
    ensures
        actions(m, driver) == method_actions(driver, i) + actions_after_connect(m, driver, i),
{
    let stopping = ConnectModel { phase: ConnectPhase::Stopping(i), ..m };
    let configuring = ConnectModel { phase: ConnectPhase::Configuring(i), ..m };
    let started = ConnectModel { phase: ConnectPhase::StartedAfter(i), ..m };
    let stop = if (driver.started_before)(i)->Ok_0 {
        seq![ConnectAction::Stop]
    } else {
        Seq::<ConnectAction>::empty()
    };
    let start = if (driver.started_after)(i)->Ok_0 {
        Seq::<ConnectAction>::empty()
    } else {
        seq![ConnectAction::Start]
    };
    let conf = ConnectAction::SetConf(method_at(i));
    let tail = actions_after_connect(m, driver, i);
    lemma_actions_from_configuring(configuring, driver, i);
    lemma_actions_from_started_after(started, driver, i);
    assert(actions_after_connect(started, driver, i) == tail);
    let configured = seq![conf] + actions(configuring, driver);
    if (driver.started_before)(i)->Ok_0 {
        assert(actions(stopping, driver) == configured);
        assert(actions(m, driver) == stop + configured);
    } else {
        assert(actions(m, driver) == configured);
        assert(stop + configured =~= configured);
    }
    lemma_put_together(stop, conf, start, tail);
}

/// An attempt begins with the interface, whose failure is a network error. It goes on with the
/// first authentication method exactly where the driver can take the name and the password:
/// strings of up to 32 and 64 bytes. Otherwise it ends with a constraint error.
pub proof fn law_connect_begins(ssid: Seq<u8>, pass: Seq<u8>, err: EspError)
    ensures
        ({
            let m = ConnectModel::begin(ssid, pass);
            let good = valid_utf8(ssid) && ssid.len() <= 32 && valid_utf8(pass) && pass.len() <= 64;
            let (after, action) = m.next(ConnectAnswer::Done(Ok(())));
            &&& m.expects(ConnectAnswer::Done(Ok(())))
            &&& m.ssid == ssid && m.pass == pass && m.conf is None
            &&& good ==> after.phase == ConnectPhase::StartedBefore(0) && action == ConnectAction::IsStarted
            &&& good ==> (after.conf matches Some((name, password)) && encode_utf8(name) == ssid && encode_utf8(
                password,
            ) == pass)
            &&& !good ==> action == ConnectAction::Finish(
                Err(NetCtlError::Other(Error { code: ErrorCode::ConstraintError })),
            )
            &&& m.next(ConnectAnswer::Done(Err(err))).1 == ConnectAction::Finish(
                Err(NetCtlError::Other(Error { code: ErrorCode::NoNetworkInterface })),
            )
        }),
{
    if valid_utf8(ssid) {
        vstd::utf8::decode_utf8_encode_utf8(ssid);
    }
    if valid_utf8(pass) {
        vstd::utf8::decode_utf8_encode_utf8(pass);
    }
}

/// Whatever else the driver fails at ends the attempt with a network error.
pub proof fn law_driver_failures_end_the_attempt(m: ConnectModel, answer: ConnectAnswer)
    requires
        m.expects(answer),
        !(m.phase is Connecting || m.phase is WaitingIp),
        answer matches ConnectAnswer::Done(result) ==> result is Err,
        answer matches ConnectAnswer::Flag(result) ==> result is Err,
    ensures
        m.next(answer).1 == ConnectAction::Finish(
            Err(NetCtlError::Other(Error { code: ErrorCode::NoNetworkInterface })),
        ),
        m.next(answer).0 == (ConnectModel { phase: ConnectPhase::Finished, ..m }),
{
}

} // verus!
