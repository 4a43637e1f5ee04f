use esp_idf_matter::error::{EspError, ESP_ERR_INVALID_STATE};
use esp_idf_matter::wifi::mgmt::{
    ManagerAction, ManagerEvent, NetworkCommissioningStatus, WifiCredentials, WifiManager,
};
use esp_idf_matter::wifi::AuthMethod;

const ERR: EspError = EspError { code: 42 };

fn network(ssid: &str, password: &str) -> ManagerEvent {
    ManagerEvent::Network(Some(WifiCredentials {
        ssid: ssid.try_into().unwrap(),
        password: password.try_into().unwrap(),
    }))
}

fn done() -> ManagerEvent {
    ManagerEvent::Done(Ok(()))
}

fn failed() -> ManagerEvent {
    ManagerEvent::Done(Err(ERR))
}

fn begun(ssid: &str, password: &str) -> WifiManager {
    let mut manager = WifiManager::new();
    assert_eq!(manager.run(ManagerEvent::Begin), ManagerAction::NextNetwork);
    assert_eq!(manager.run(network(ssid, password)), ManagerAction::Stop);
    manager
}

#[test]
fn without_networks_the_manager_stops() {
    let mut manager = WifiManager::new();
    manager.run(ManagerEvent::Begin);
    assert_eq!(
        manager.run(ManagerEvent::Network(None)),
        ManagerAction::Fail(EspError { code: ESP_ERR_INVALID_STATE })
    );
}

#[test]
fn manager_gives_up_after_the_delays() {
    let mut manager = begun("home", "secret");
    assert_eq!(manager.creds(), Some(("home", "secret")));
    let methods = [AuthMethod::WPA2WPA3Personal, AuthMethod::WPAWPA2Personal, AuthMethod::WEP];
    for (round, delay) in [2, 5, 10, 20, 30, 60].into_iter().enumerate() {
        for (i, method) in methods.into_iter().enumerate() {
            // A failure to stop is ignored.
            assert_eq!(manager.run(failed()), ManagerAction::SetConf(method));
            assert_eq!(manager.run(done()), ManagerAction::Start);
            assert_eq!(manager.run(done()), ManagerAction::Connect);
            let next = manager.run(failed());
            if i < 2 {
                assert_eq!(next, ManagerAction::Stop);
            } else {
                assert_eq!(next, ManagerAction::Wait(delay));
            }
        }
        let next = manager.run(ManagerEvent::Waited);
        if round < 5 {
            assert_eq!(next, ManagerAction::Stop);
            assert_eq!(manager.status(), None);
        } else {
            assert_eq!(next, ManagerAction::NextNetwork);
        }
    }
    assert_eq!(manager.status(), Some(("home", NetworkCommissioningStatus::OtherConnectionFailure, 0)));
    assert!(!manager.connected_once());
    assert!(manager.round_over());
    // The next network is tried, and the status stays that of the last one.
    assert_eq!(manager.run(network("other", "")), ManagerAction::Stop);
    assert_eq!(manager.creds(), Some(("other", "")));
    assert!(!manager.round_over());
    assert_eq!(manager.status(), Some(("home", NetworkCommissioningStatus::OtherConnectionFailure, 0)));
}

#[test]
fn configuration_and_start_failures_end_an_attempt() {
    let mut manager = begun("home", "secret");
    manager.run(done());
    assert_eq!(manager.run(failed()), ManagerAction::Stop);
    assert_eq!(manager.run(done()), ManagerAction::SetConf(AuthMethod::WPAWPA2Personal));
    manager.run(done());
    assert_eq!(manager.run(failed()), ManagerAction::Stop);
    assert_eq!(manager.run(done()), ManagerAction::SetConf(AuthMethod::WEP));
}

#[test]
fn open_network_is_not_connected_to() {
    let mut manager = begun("cafe", "");
    assert_eq!(manager.run(done()), ManagerAction::SetConf(AuthMethod::Open));
    assert_eq!(manager.run(done()), ManagerAction::Start);
    assert!(!manager.round_over());
    assert_eq!(manager.run(done()), ManagerAction::Subscribe);
    assert!(manager.round_over());
    assert_eq!(manager.status(), Some(("cafe", NetworkCommissioningStatus::Success, 0)));
    assert!(manager.connected_once());
}

#[test]
fn open_network_that_fails_is_tried_again() {
    let mut manager = begun("cafe", "");
    manager.run(done());
    assert_eq!(manager.run(failed()), ManagerAction::Wait(2));
    assert_eq!(manager.run(ManagerEvent::Waited), ManagerAction::Stop);
}

#[test]
fn connection_is_watched_and_made_again() {
    let watched = || {
        let mut manager = begun("home", "secret");
        manager.run(done());
        manager.run(done());
        manager.run(done());
        assert_eq!(manager.run(done()), ManagerAction::Subscribe);
        manager
    };
    let mut manager = watched();
    assert_eq!(manager.run(done()), ManagerAction::IsConnected);
    assert_eq!(manager.run(ManagerEvent::IsConnected(Ok(true))), ManagerAction::WaitEvent(5));
    assert_eq!(manager.run(ManagerEvent::Waited), ManagerAction::IsConnected);
    assert_eq!(manager.run(ManagerEvent::IsConnected(Ok(false))), ManagerAction::Stop);
    assert_eq!(manager.creds(), Some(("home", "secret")));
    assert!(manager.connected_once());

    let mut manager = watched();
    assert_eq!(manager.run(failed()), ManagerAction::NextNetwork);
    let mut manager = watched();
    manager.run(done());
    assert_eq!(manager.run(ManagerEvent::IsConnected(Err(ERR))), ManagerAction::NextNetwork);
    // A manager that begins anew knows no last network.
    assert_eq!(manager.run(ManagerEvent::Begin), ManagerAction::NextNetwork);
    assert_eq!(manager.creds(), None);
}
