//! The key-value store for BLOBs, on top of the non-volatile storage of ESP-IDF.
//!
//! The storage itself is passed in: the store says under which key, and with which data, it is
//! to be asked, and maps what it answers.

use vstd::prelude::*;

use crate::bounded::{skey_as_str, skey_clear, skey_new, skey_of, skey_push};
use crate::bytes::{digit_value, law_digits_have_their_values, lower_digit, lower_digits};
use crate::error::{persist_error, to_persist_error, Error, EspError};

verus! {

/// The room for a storage key, in bytes.
pub const SKEY_LEN: usize = 5;

/// The string that a BLOB is stored under: its key, in four hexadecimal digits.
pub open spec fn key_chars(key: u16) -> Seq<char> {
    seq![
        lower_digits()[key as int / 0x1000],
        lower_digits()[key as int / 0x100 % 0x10],
        lower_digits()[key as int / 0x10 % 0x10],
        lower_digits()[key as int % 0x10],
    ]
}

/// A store for BLOBs, in a namespace of the storage.
#[derive(Debug)]
pub struct EspKvBlobStore<T> {
    /// The opened namespace.
    pub nvs: T,
}

impl<T> EspKvBlobStore<T> {
    /// Create a new KV BLOB store instance that would persist in namespace `esp-idf-matter`.
    ///
    /// `open` opens a namespace of the storage, for reading and writing where the flag is set.
    pub fn new_default<O>(open: O) -> (r: Result<Self, EspError>) where O: FnOnce(&str, bool) -> Result<T, EspError>
        requires
            forall|name: &str| name@ == "esp-idf-matter"@ ==> #[trigger] open.requires((name, true)),
        ensures
            exists|name: &str, opened: Result<T, EspError>|
                name@ == "esp-idf-matter"@ && #[trigger] open.ensures((name, true), opened) && (match opened {
                    Ok(nvs) => r == Ok::<Self, EspError>(EspKvBlobStore { nvs }),
                    Err(err) => r == Err::<Self, EspError>(err),
                }),
    {
        Self::new("esp-idf-matter", open)
    }

    /// Create a new KV BLOB store instance.
    pub fn new<O>(namespace: &str, open: O) -> (r: Result<Self, EspError>) where
        O: FnOnce(&str, bool) -> Result<T, EspError>,

        requires
            open.requires((namespace, true)),
        ensures
            exists|opened: Result<T, EspError>| #[trigger]
                open.ensures((namespace, true), opened) && (match opened {
                    Ok(nvs) => r == Ok::<Self, EspError>(EspKvBlobStore { nvs }),
                    Err(err) => r == Err::<Self, EspError>(err),
                }),
    {
        match open(namespace, true) {
            Ok(nvs) => Ok(EspKvBlobStore { nvs }),
            Err(err) => Err(err),
        }
    }

    /// Load a BLOB, and hand it on. `get` reads from the storage.
    pub fn load<'b, G, F>(key: u16, get: G, cb: F) -> (r: Result<(), Error>) where
        G: FnOnce(&str) -> Result<Option<&'b [u8]>, EspError>,
        F: FnOnce(Option<&'b [u8]>) -> Result<(), Error>,

        requires
            forall|skey: &str| skey@ == key_chars(key) ==> #[trigger] get.requires((skey,)),
            forall|data: Option<&'b [u8]>| #[trigger] cb.requires((data,)),
        ensures
            exists|skey: &str, found: Result<Option<&'b [u8]>, EspError>|
                skey@ == key_chars(key) && #[trigger] get.ensures((skey,), found) && (match found {
                    Ok(data) => cb.ensures((data,), r),
                    Err(_) => r == Err::<(), Error>(persist_error()),
                }),
    {
        let mut skey = skey_new();
        write_skey(&mut skey, key);
        match get(skey_as_str(&skey)) {
            Ok(data) => cb(data),
            Err(err) => Err(to_persist_error(err)),
        }
    }

    /// Store a BLOB. `cb` fills the buffer, and tells how many of its bytes are the BLOB. `set` writes
    /// to the storage.
    pub fn store<F, S>(key: u16, buf: &mut [u8], cb: F, set: S) -> (r: Result<(), Error>) where
        F: FnOnce(&mut [u8]) -> Result<usize, Error>,
        S: FnOnce(&str, &[u8]) -> Result<(), EspError>,

        requires
            forall|b: &mut [u8]| b@ == old(buf)@ ==> #[trigger] cb.requires((b,)),
            forall|b: &mut [u8], len: usize| #[trigger]
                cb.ensures((b,), Ok::<usize, Error>(len)) && b@ == old(buf)@ ==> len <= final(b)@.len(),
            forall|skey: &str, data: &[u8]| skey@ == key_chars(key) ==> #[trigger] set.requires((skey, data)),
        ensures
            exists|b: &mut [u8], filled: Result<usize, Error>| #[trigger]
                cb.ensures((b,), filled) && b@ == old(buf)@ && final(b)@ == final(buf)@ && (match filled {
                    Err(err) => r == Err::<(), Error>(err),
                    Ok(len) => exists|skey: &str, data: &[u8], stored: Result<(), EspError>|
                        skey@ == key_chars(key) && data@ == final(buf)@.take(len as int) && #[trigger] set.ensures(
                            (skey, data),
                            stored,
                        ) && (match stored {
                            Ok(()) => r == Ok::<(), Error>(()),
                            Err(_) => r == Err::<(), Error>(persist_error()),
                        }),
                }),
    {
        let filled = cb(buf);
        Self::store_filled(key, buf, filled, set)
    }

    /// Store a BLOB: the part of the buffer that was filled. `set` writes to the storage.
    ///
    /// `filled` is how many bytes of the buffer are the BLOB, or why there is none.
    pub fn store_filled<S>(key: u16, buf: &[u8], filled: Result<usize, Error>, set: S) -> (r: Result<(), Error>) where
        S: FnOnce(&str, &[u8]) -> Result<(), EspError>,

        requires
            filled is Ok ==> filled->Ok_0 <= buf@.len(),
            forall|skey: &str, data: &[u8]|
                filled is Ok && skey@ == key_chars(key) && data@ == buf@.take(filled->Ok_0 as int)
                    ==> #[trigger] set.requires((skey, data)),
        ensures
            match filled {
                Err(err) => r == Err::<(), Error>(err),
                Ok(len) => exists|skey: &str, data: &[u8], stored: Result<(), EspError>|
                    skey@ == key_chars(key) && data@ == buf@.take(len as int) && #[trigger] set.ensures(
                        (skey, data),
                        stored,
                    ) && (match stored {
                        Ok(()) => r == Ok::<(), Error>(()),
                        Err(_) => r == Err::<(), Error>(persist_error()),
                    }),
            },
    {
        let len: usize = match filled {
            Ok(len) => len,
            Err(err) => {
                return Err(err);
            },
        };
        let data = vstd::slice::slice_subrange(buf, 0, len);
        assert(data@ =~= buf@.take(len as int));
        let mut skey = skey_new();
        write_skey(&mut skey, key);
        match set(skey_as_str(&skey), data) {
            Ok(()) => Ok(()),
            Err(err) => Err(to_persist_error(err)),
        }
    }

    /// Remove a BLOB. `remove` removes from the storage, and tells whether there was anything.
    pub fn remove<R>(key: u16, remove: R) -> (r: Result<(), Error>) where R: FnOnce(&str) -> Result<bool, EspError>
        requires
            forall|skey: &str| skey@ == key_chars(key) ==> #[trigger] remove.requires((skey,)),
        ensures
            exists|skey: &str, removed: Result<bool, EspError>|
                skey@ == key_chars(key) && #[trigger] remove.ensures((skey,), removed) && (match removed {
                    Ok(_) => r == Ok::<(), Error>(()),
                    Err(_) => r == Err::<(), Error>(persist_error()),
                }),
    {
        let mut skey = skey_new();
        write_skey(&mut skey, key);
        match remove(skey_as_str(&skey)) {
            Ok(_) => Ok(()),
            Err(err) => Err(to_persist_error(err)),
        }
    }
}

/// Write the string that a BLOB is stored under.
pub fn write_skey(skey: &mut heapless::String<SKEY_LEN>, key: u16)
    ensures
        skey_of(*final(skey)) == key_chars(key),
{
    let ghost chars = key_chars(key);
    proof {
        lemma_key_is_ascii(key);
    }
    skey_clear(skey);
    assert(skey_of(*skey) =~= chars.take(0));
    let _ = skey_push(skey, lower_digit(key / 0x1000));
    assert(skey_of(*skey) =~= chars.take(1));
    let _ = skey_push(skey, lower_digit(key / 0x100 % 0x10));
    assert(skey_of(*skey) =~= chars.take(2));
    let _ = skey_push(skey, lower_digit(key / 0x10 % 0x10));
    assert(skey_of(*skey) =~= chars.take(3));
    let _ = skey_push(skey, lower_digit(key % 0x10));
    assert(skey_of(*skey) =~= chars);
}

proof fn lemma_key_is_ascii(key: u16)
    ensures
        forall|n: int|
            0 <= n < 4 ==> vstd::utf8::encode_utf8(#[trigger] key_chars(key).take(n)).len() == n,
        forall|n: int| 0 <= n < 4 ==> vstd::utf8::encode_utf8(seq![#[trigger] key_chars(key)[n]]).len() == 1,
{
    let chars = key_chars(key);
    assert(vstd::utf8::is_ascii_chars(lower_digits()));
    assert(vstd::utf8::is_ascii_chars(chars));
    assert forall|n: int| 0 <= n < 4 implies vstd::utf8::encode_utf8(#[trigger] chars.take(n)).len() == n by {
        vstd::utf8::is_ascii_chars_encode_utf8(chars.take(n));
    }
    assert forall|n: int| 0 <= n < 4 implies vstd::utf8::encode_utf8(seq![#[trigger] chars[n]]).len() == 1 by {
        vstd::utf8::is_ascii_chars_encode_utf8(seq![chars[n]]);
    }
}

/// Different BLOBs are stored under different strings, of a length that fits a storage key.
pub proof fn law_keys_do_not_clash(a: u16, b: u16)
    ensures
        key_chars(a) == key_chars(b) <==> a == b,
        key_chars(a).len() == 4 < SKEY_LEN,
{
    if key_chars(a) == key_chars(b) {
        assert(key_chars(a)[0] == key_chars(b)[0]);
        assert(key_chars(a)[1] == key_chars(b)[1]);
        assert(key_chars(a)[2] == key_chars(b)[2]);
        assert(key_chars(a)[3] == key_chars(b)[3]);
        let (x, y) = (a as int, b as int);
        lemma_digits_differ(x / 0x1000, y / 0x1000);
        lemma_digits_differ(x / 0x100 % 0x10, y / 0x100 % 0x10);
        lemma_digits_differ(x / 0x10 % 0x10, y / 0x10 % 0x10);
        lemma_digits_differ(x % 0x10, y % 0x10);
    }
}

proof fn lemma_digits_differ(x: int, y: int)
    requires
        0 <= x < 16,
        0 <= y < 16,
        lower_digits()[x] == lower_digits()[y],
    ensures
        x == y,
{
}

/// The contents of a namespace of the storage.
pub type Storage = Map<Seq<char>, Seq<u8>>;

/// What a storage holds once a BLOB was stored.
pub open spec fn stored(storage: Storage, key: u16, data: Seq<u8>) -> Storage {
    storage.insert(key_chars(key), data)
}

/// What a storage holds once a BLOB was removed.
pub open spec fn removed(storage: Storage, key: u16) -> Storage {
    storage.remove(key_chars(key))
}

/// The BLOB that a storage holds.
pub open spec fn loaded(storage: Storage, key: u16) -> Option<Seq<u8>> {
    if storage.contains_key(key_chars(key)) {
        Some(storage[key_chars(key)])
    } else {
        None
    }
}

/// A BLOB that was stored is the one that is loaded, one that was removed is gone, and no other
/// BLOB is touched by either.
pub proof fn law_load_gives_back_what_was_stored(storage: Storage, key: u16, data: Seq<u8>, other: u16)
    ensures
        loaded(stored(storage, key, data), key) == Some(data),
        loaded(removed(storage, key), key) is None,
        other != key ==> loaded(stored(storage, key, data), other) == loaded(storage, other),
        other != key ==> loaded(removed(storage, key), other) == loaded(storage, other),
{
    law_keys_do_not_clash(key, other);
}

/// The value of a digit of a key.
spec fn key_digit(key: u16, i: int) -> int {
    if i == 0 {
        key as int / 0x1000
    } else if i == 1 {
        key as int / 0x100 % 0x10
    } else if i == 2 {
        key as int / 0x10 % 0x10
    } else {
        key as int % 0x10
    }
}

#[verifier::spinoff_prover]
proof fn lemma_key_digit(key: u16, i: int)
    requires
        0 <= i < 4,
    ensures
        digit_value(key_chars(key)[i]) == Some(key_digit(key, i)),
        is_small_digit(key_chars(key)[i]),
{
    let value = key_digit(key, i);
    assert(0 <= value < 16);
    assert(key_chars(key)[i] == lower_digits()[value]) by {
        if i == 0 {
            assert(key_chars(key)[0] == lower_digits()[value]);
        } else if i == 1 {
            assert(key_chars(key)[1] == lower_digits()[value]);
        } else if i == 2 {
            assert(key_chars(key)[2] == lower_digits()[value]);
        } else {
            assert(key_chars(key)[3] == lower_digits()[value]);
        }
    }
    law_digits_have_their_values(value);
}

/// Whether the digit is no capital letter.
pub open spec fn is_small_digit(digit: char) -> bool {
    !('A' <= digit <= 'F')
}

/// The number that four digits stand for.
pub open spec fn number_of(digits: Seq<char>) -> int {
    0x1000 * digit_value(digits[0])->0 + 0x100 * digit_value(digits[1])->0 + 0x10 * digit_value(digits[2])->0
        + digit_value(digits[3])->0
}

/// The string that a BLOB is stored under is its key, read as a hexadecimal number of four digits
/// without capital letters.
#[verifier::spinoff_prover]
pub proof fn law_key_is_hexadecimal(key: u16)
    ensures
        key_chars(key).len() == 4,
        forall|i: int| 0 <= i < 4 ==> is_small_digit(#[trigger] key_chars(key)[i]) && digit_value(
            key_chars(key)[i],
        ) is Some,
        key == number_of(key_chars(key)),
{
    let digits = key_chars(key);
    assert forall|i: int| 0 <= i < 4 implies is_small_digit(#[trigger] digits[i]) && digit_value(digits[i]) is Some by {
        lemma_key_digit(key, i);
    }
    assert(key == number_of(digits)) by {
        lemma_key_digit(key, 0);
        lemma_key_digit(key, 1);
        lemma_key_digit(key, 2);
        lemma_key_digit(key, 3);
        lemma_number(digits, key);
    }
}

proof fn lemma_number(digits: Seq<char>, key: u16)
    requires
        digit_value(digits[0]) == Some(key_digit(key, 0)),
        digit_value(digits[1]) == Some(key_digit(key, 1)),
        digit_value(digits[2]) == Some(key_digit(key, 2)),
        digit_value(digits[3]) == Some(key_digit(key, 3)),
    ensures
        key == number_of(digits),
{
}

} // verus!
