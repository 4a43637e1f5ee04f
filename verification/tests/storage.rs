use std::cell::RefCell;
use std::collections::BTreeMap;

use esp_idf_matter::error::{Error, ErrorCode, EspError};
use esp_idf_matter::nvs::{Blob, Network, Psm, PsmAction, PsmAnswer, PsmError};
use esp_idf_matter::persist::{write_skey, EspKvBlobStore};

const ERR: EspError = EspError { code: 42 };

type Nvs = RefCell<BTreeMap<String, Vec<u8>>>;
type Store = EspKvBlobStore<Nvs>;

fn set(nvs: &Nvs, key: &str, data: &[u8]) -> Result<(), EspError> {
    nvs.borrow_mut().insert(key.to_string(), data.to_vec());
    Ok(())
}

fn load(nvs: &Nvs, key: u16) -> Option<Vec<u8>> {
    let mut loaded = None;
    let mut room = Vec::new();
    let buf = &mut room;
    Store::load(
        key,
        move |skey: &str| {
            Ok(nvs.borrow().get(skey).map(|data| {
                buf.extend_from_slice(data);
                &buf[..]
            }))
        },
        |data: Option<&[u8]>| {
            loaded = data.map(|data| data.to_vec());
            Ok(())
        },
    )
    .unwrap();
    loaded
}

#[test]
fn keys_are_four_hexadecimal_digits() {
    let mut skey = heapless::String::<5>::new();
    for (key, expected) in [(0, "0000"), (0xa, "000a"), (0x1f2e, "1f2e"), (0xffff, "ffff")] {
        write_skey(&mut skey, key);
        assert_eq!(skey.as_str(), expected);
    }
}

#[test]
fn default_namespace_is_opened_for_writing() {
    let mut opened = None;
    let store = EspKvBlobStore::new_default(|name: &str, read_write: bool| {
        opened = Some((name.to_string(), read_write));
        Ok(3u8)
    })
    .unwrap();
    assert_eq!(store.nvs, 3);
    assert_eq!(opened, Some(("esp-idf-matter".to_string(), true)));
    let failed = EspKvBlobStore::<u8>::new("other", |name: &str, _: bool| {
        assert_eq!(name, "other");
        Err(ERR)
    });
    assert!(matches!(failed, Err(err) if err == ERR));
}

#[test]
fn stored_blobs_are_loaded_back() {
    let nvs = Nvs::default();
    let buf = [1, 2, 3, 4];
    assert_eq!(load(&nvs, 7), None);
    Store::store_filled(7, &buf, Ok(3), |key: &str, data: &[u8]| set(&nvs, key, data)).unwrap();
    Store::store_filled(8, &buf, Ok(0), |key: &str, data: &[u8]| set(&nvs, key, data)).unwrap();
    assert_eq!(load(&nvs, 7), Some(vec![1, 2, 3]));
    assert_eq!(load(&nvs, 8), Some(vec![]));
    assert_eq!(nvs.borrow().keys().map(String::as_str).collect::<Vec<_>>(), vec!["0007", "0008"]);
    Store::remove(7, |key: &str| Ok(nvs.borrow_mut().remove(key).is_some())).unwrap();
    Store::remove(7, |key: &str| Ok(nvs.borrow_mut().remove(key).is_some())).unwrap();
    assert_eq!(load(&nvs, 7), None);
    assert_eq!(load(&nvs, 8), Some(vec![]));
}

#[test]
fn storage_failures_are_persistence_errors() {
    let failed = Err(Error { code: ErrorCode::StdIoError });
    assert_eq!(Store::load(1, |_: &str| Err(ERR), |_: Option<&[u8]>| Ok(())), failed);
    assert_eq!(Store::store_filled(1, &[0], Ok(1), |_: &str, _: &[u8]| Err(ERR)), failed);
    assert_eq!(Store::remove(1, |_: &str| Err(ERR)), failed);
    // Failures of the user of the store are passed on.
    let own = Error { code: ErrorCode::InvalidData };
    assert_eq!(Store::load(1, |_: &str| Ok(None), |_: Option<&[u8]>| Err(own)), Err(own));
    assert_eq!(Store::store_filled(1, &[0], Err(own), |_: &str, _: &[u8]| Ok(())), Err(own));
    let mut written = false;
    let r = Store::store(
        1,
        &mut [0],
        |_: &mut [u8]| Err(own),
        |_: &str, _: &[u8]| {
            written = true;
            Ok(())
        },
    );
    assert_eq!((r, written), (Err(own), false));
    assert_eq!(Store::store(1, &mut [0], |_: &mut [u8]| Ok(1), |_: &str, _: &[u8]| Err(ERR)), failed);
}

#[test]
fn stored_blob_is_what_was_filled_in() {
    let nvs = Nvs::default();
    let mut buf = [9, 9, 9, 9];
    let fill = |buf: &mut [u8]| {
        // The whole buffer is there to be filled, as it was.
        assert_eq!(buf, [9, 9, 9, 9]);
        buf[..2].copy_from_slice(&[5, 6]);
        Ok(3)
    };
    Store::store(0xab, &mut buf, fill, |key: &str, data: &[u8]| set(&nvs, key, data)).unwrap();
    assert_eq!(load(&nvs, 0xab), Some(vec![5, 6, 9]));
    assert_eq!(buf, [5, 6, 9, 9]);
}

#[test]
fn network_settings_have_a_key() {
    assert_eq!(Network::Unmanaged.key(), None);
    assert_eq!(Network::Wifi.key(), Some("wifi"));
    assert_eq!(Blob::Acls.key(), "acls");
    assert_eq!(Blob::Fabrics.key(), "fabrics");
    assert_eq!(Blob::Wifi.key(), "wifi");
}

#[test]
fn reset_removes_every_part() {
    let ok = PsmAnswer::Nvs(Ok(()));
    let mut psm = Psm::new(Network::Wifi);
    assert_eq!(psm.reset(), PsmAction::RemoveBlob(Blob::Acls));
    assert_eq!(psm.next(ok), PsmAction::RemoveBlob(Blob::Fabrics));
    assert_eq!(psm.next(ok), PsmAction::RemoveBlob(Blob::Wifi));
    assert_eq!(psm.next(ok), PsmAction::Finish(Ok(())));
    let mut psm = Psm::new(Network::Unmanaged);
    psm.reset();
    psm.next(ok);
    assert_eq!(psm.next(ok), PsmAction::Finish(Ok(())));
    psm.reset();
    assert_eq!(psm.next(PsmAnswer::Nvs(Err(ERR))), PsmAction::Finish(Err(PsmError::Esp(ERR))));
}

#[test]
fn load_takes_over_what_is_found() {
    let mut psm = Psm::new(Network::Wifi);
    assert_eq!(psm.load(), PsmAction::LoadBlob(Blob::Acls));
    assert_eq!(psm.next(PsmAnswer::Loaded(Ok(true))), PsmAction::Apply(Blob::Acls));
    assert_eq!(psm.next(PsmAnswer::Applied(Ok(()))), PsmAction::LoadBlob(Blob::Fabrics));
    assert_eq!(psm.next(PsmAnswer::Loaded(Ok(false))), PsmAction::LoadBlob(Blob::Wifi));
    assert_eq!(psm.next(PsmAnswer::Loaded(Ok(true))), PsmAction::Apply(Blob::Wifi));
    assert_eq!(psm.next(PsmAnswer::Applied(Ok(()))), PsmAction::Finish(Ok(())));
    psm.load();
    assert_eq!(psm.next(PsmAnswer::Loaded(Err(ERR))), PsmAction::Finish(Err(PsmError::Esp(ERR))));
    psm.load();
    psm.next(PsmAnswer::Loaded(Ok(true)));
    let err = Error { code: ErrorCode::InvalidData };
    assert_eq!(psm.next(PsmAnswer::Applied(Err(err))), PsmAction::Finish(Err(PsmError::Matter(err))));
}

#[test]
fn store_writes_what_is_produced() {
    let mut psm = Psm::new(Network::Wifi);
    assert_eq!(psm.store(), PsmAction::IsChanged);
    assert_eq!(psm.next(PsmAnswer::Changed(true)), PsmAction::Produce(Blob::Acls));
    assert_eq!(psm.next(PsmAnswer::Produced(Ok(true))), PsmAction::StoreBlob(Blob::Acls));
    assert_eq!(psm.next(PsmAnswer::Nvs(Ok(()))), PsmAction::Produce(Blob::Fabrics));
    assert_eq!(psm.next(PsmAnswer::Produced(Ok(false))), PsmAction::Produce(Blob::Wifi));
    assert_eq!(psm.next(PsmAnswer::Produced(Ok(true))), PsmAction::StoreBlob(Blob::Wifi));
    assert_eq!(psm.next(PsmAnswer::Nvs(Ok(()))), PsmAction::Finish(Ok(())));
    // An unchanged node stores its network settings only.
    psm.store();
    assert_eq!(psm.next(PsmAnswer::Changed(false)), PsmAction::Produce(Blob::Wifi));
    let err = Error { code: ErrorCode::InvalidData };
    assert_eq!(psm.next(PsmAnswer::Produced(Err(err))), PsmAction::Finish(Err(PsmError::Matter(err))));
    let mut psm = Psm::new(Network::Unmanaged);
    psm.store();
    assert_eq!(psm.next(PsmAnswer::Changed(false)), PsmAction::Finish(Ok(())));
}

#[test]
fn running_store_waits_for_changes() {
    let mut psm = Psm::new(Network::Unmanaged);
    assert_eq!(psm.run(), PsmAction::LoadBlob(Blob::Acls));
    psm.next(PsmAnswer::Loaded(Ok(false)));
    assert_eq!(psm.next(PsmAnswer::Loaded(Ok(false))), PsmAction::WaitChanged);
    assert_eq!(psm.next(PsmAnswer::Woken), PsmAction::IsChanged);
    psm.next(PsmAnswer::Changed(true));
    psm.next(PsmAnswer::Produced(Ok(false)));
    psm.next(PsmAnswer::Produced(Ok(true)));
    assert_eq!(psm.next(PsmAnswer::Nvs(Ok(()))), PsmAction::WaitChanged);
    psm.next(PsmAnswer::Woken);
    psm.next(PsmAnswer::Changed(true));
    psm.next(PsmAnswer::Produced(Ok(true)));
    assert_eq!(psm.next(PsmAnswer::Nvs(Err(ERR))), PsmAction::Finish(Err(PsmError::Esp(ERR))));
}

/// Does what it is asked to, on a storage that does not fail, until the work is done.
fn drive(
    psm: &mut Psm,
    action: PsmAction,
    nvs: &mut BTreeMap<&'static str, u8>,
    node: &mut BTreeMap<&'static str, u8>,
    produced: &BTreeMap<&'static str, u8>,
) {
    let mut action = action;
    loop {
        let answer = match action {
            PsmAction::RemoveBlob(blob) => {
                nvs.remove(blob.key());
                PsmAnswer::Nvs(Ok(()))
            }
            PsmAction::LoadBlob(blob) => PsmAnswer::Loaded(Ok(nvs.contains_key(blob.key()))),
            PsmAction::Apply(blob) => {
                node.insert(blob.key(), nvs[blob.key()]);
                PsmAnswer::Applied(Ok(()))
            }
            PsmAction::IsChanged => PsmAnswer::Changed(true),
            PsmAction::Produce(blob) => PsmAnswer::Produced(Ok(produced.contains_key(blob.key()))),
            PsmAction::StoreBlob(blob) => {
                nvs.insert(blob.key(), produced[blob.key()]);
                PsmAnswer::Nvs(Ok(()))
            }
            PsmAction::WaitChanged => PsmAnswer::Woken,
            PsmAction::Finish(result) => {
                assert_eq!(result, Ok(()));
                return;
            }
        };
        action = psm.next(answer);
    }
}

#[test]
fn stored_state_is_taken_over_and_removed() {
    let mut psm = Psm::new(Network::Wifi);
    let (mut nvs, mut node) = (BTreeMap::from([("other", 9)]), BTreeMap::new());
    let produced = BTreeMap::from([("acls", 1), ("wifi", 3)]);
    let action = psm.store();
    drive(&mut psm, action, &mut nvs, &mut node, &produced);
    assert_eq!(nvs, BTreeMap::from([("acls", 1), ("other", 9), ("wifi", 3)]));
    let action = psm.load();
    drive(&mut psm, action, &mut nvs, &mut node, &produced);
    assert_eq!(node, produced);
    let action = psm.reset();
    drive(&mut psm, action, &mut nvs, &mut node, &produced);
    assert_eq!(nvs, BTreeMap::from([("other", 9)]));
}
