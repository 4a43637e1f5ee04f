//! The bounded collections of `heapless`, as this crate uses them.
//!
//! Everything in this file is trusted: the contracts say what the methods of
//! `heapless::Vec` and `heapless::String` do to the contents of a collection.

use vstd::prelude::*;
use vstd::utf8::encode_utf8;

use crate::ble::{Connection, MAX_CONNECTIONS, MAX_MTU_SIZE};
use crate::netif::MAX_NETIF_NAME_LEN;
use crate::persist::SKEY_LEN;
use crate::thread::{OwnedScanResult, MAX_SCAN_RESULTS, MAX_THREAD_NAME_LEN};
use crate::wifi::{MAX_PASSWORD_LEN, MAX_SSID_LEN};

verus! {

/// Makes `heapless::Vec` known to the verifier, as an opaque type.
#[verifier::external_type_specification]
#[verifier::external_body]
#[verifier::reject_recursive_types(T)]
pub struct ExVec<T, const N: usize>(heapless::Vec<T, N>);

/// The connections that a vector holds, in order.
pub uninterp spec fn conns_of(conns: heapless::Vec<Connection, MAX_CONNECTIONS>) -> Seq<Connection>;

/// `heapless::Vec::new`: the vector is empty.
#[verifier::external_body]
pub(crate) fn conns_new() -> (r: heapless::Vec<Connection, MAX_CONNECTIONS>)
    ensures
        conns_of(r) == Seq::<Connection>::empty(),
{
    heapless::Vec::new()
}

/// `heapless::Vec::as_slice`: the slice holds the contents, of which there are never
/// more than the capacity.
#[verifier::external_body]
pub(crate) fn conns_as_slice(conns: &heapless::Vec<Connection, MAX_CONNECTIONS>) -> (r: &[Connection])
    ensures
        r@ == conns_of(*conns),
        r@.len() <= MAX_CONNECTIONS,
{
    conns.as_slice()
}

/// `heapless::Vec::as_mut_slice`: the slice holds the contents, and what is written
/// to it becomes the contents.
#[verifier::external_body]
pub(crate) fn conns_as_mut_slice(conns: &mut heapless::Vec<Connection, MAX_CONNECTIONS>) -> (r: &mut [Connection])
    ensures
        r@ == conns_of(*old(conns)),
        conns_of(*final(conns)) == final(r)@,
{
    conns.as_mut_slice()
}

/// `heapless::Vec::push`: appends while there is room; hands the item back and changes
/// nothing where there is none.
#[verifier::external_body]
pub(crate) fn conns_push(conns: &mut heapless::Vec<Connection, MAX_CONNECTIONS>, conn: Connection) -> (r: Result<
    (),
    Connection,
>)
    ensures
        conns_of(*old(conns)).len() < MAX_CONNECTIONS ==> r is Ok && conns_of(
            *final(conns),
        ) == conns_of(*old(conns)).push(conn),
        conns_of(*old(conns)).len() >= MAX_CONNECTIONS ==> r is Err && r->Err_0 == conn && conns_of(
            *final(conns),
        ) == conns_of(*old(conns)),
{
    conns.push(conn)
}

/// `heapless::Vec::swap_remove`: takes the item at the index out, and puts the last item
/// in its place. It panics outside the contents.
#[verifier::external_body]
pub(crate) fn conns_swap_remove(conns: &mut heapless::Vec<Connection, MAX_CONNECTIONS>, index: usize) -> (r: Connection)
    requires
        index < conns_of(*old(conns)).len(),
    ensures
        r == conns_of(*old(conns))[index as int],
        conns_of(*final(conns)) == conns_of(*old(conns)).update(
            index as int,
            conns_of(*old(conns)).last(),
        ).drop_last(),
{
    conns.swap_remove(index)
}

/// The bytes that an indication buffer holds.
pub uninterp spec fn ind_bytes(data: heapless::Vec<u8, MAX_MTU_SIZE>) -> Seq<u8>;

/// `heapless::Vec::new`: the buffer is empty.
#[verifier::external_body]
pub(crate) fn ind_new() -> (r: heapless::Vec<u8, MAX_MTU_SIZE>)
    ensures
        ind_bytes(r) == Seq::<u8>::empty(),
{
    heapless::Vec::new()
}

/// `heapless::Vec::as_slice`: the slice holds the contents.
#[verifier::external_body]
pub(crate) fn ind_as_slice(data: &heapless::Vec<u8, MAX_MTU_SIZE>) -> (r: &[u8])
    ensures
        r@ == ind_bytes(*data),
{
    data.as_slice()
}

/// `heapless::Vec::extend_from_slice`: appends all of the slice where it fits as a whole,
/// and nothing of it where it does not.
#[verifier::external_body]
pub(crate) fn ind_extend_from_slice(data: &mut heapless::Vec<u8, MAX_MTU_SIZE>, other: &[u8]) -> (r: Result<(), ()>)
    ensures
        ind_bytes(*old(data)).len() + other@.len() <= MAX_MTU_SIZE ==> r is Ok && ind_bytes(
            *final(data),
        ) == ind_bytes(*old(data)) + other@,
        ind_bytes(*old(data)).len() + other@.len() > MAX_MTU_SIZE ==> r is Err && ind_bytes(
            *final(data),
        ) == ind_bytes(*old(data)),
{
    data.extend_from_slice(other)
}

/// `heapless::Vec::clear`: the buffer is empty.
#[verifier::external_body]
pub(crate) fn ind_clear(data: &mut heapless::Vec<u8, MAX_MTU_SIZE>)
    ensures
        ind_bytes(*final(data)) == Seq::<u8>::empty(),
{
    data.clear()
}

/// Makes `heapless::String` known to the verifier, as an opaque type.
#[verifier::external_type_specification]
#[verifier::external_body]
pub struct ExString<const N: usize>(heapless::String<N>);

/// The characters of the name of a network interface.
pub uninterp spec fn netif_name_of(name: heapless::String<MAX_NETIF_NAME_LEN>) -> Seq<char>;

/// `heapless::String::new`: the string is empty.
#[verifier::external_body]
pub(crate) fn netif_name_new() -> (r: heapless::String<MAX_NETIF_NAME_LEN>)
    ensures
        netif_name_of(r) == Seq::<char>::empty(),
{
    heapless::String::new()
}

/// `TryFrom<&str>` of `heapless::String`: succeeds exactly where the bytes fit, and holds the
/// string then.
#[verifier::external_body]
pub(crate) fn netif_name_try_from(name: &str) -> (r: Result<heapless::String<MAX_NETIF_NAME_LEN>, ()>)
    ensures
        r is Ok <==> encode_utf8(name@).len() <= MAX_NETIF_NAME_LEN,
        r is Ok ==> netif_name_of(r->Ok_0) == name@,
{
    heapless::String::try_from(name)
}

/// `heapless::String::as_str`: the contents, which never take more bytes than the capacity.
#[verifier::external_body]
pub(crate) fn netif_name_as_str(name: &heapless::String<MAX_NETIF_NAME_LEN>) -> (r: &str)
    ensures
        r@ == netif_name_of(*name),
        encode_utf8(r@).len() <= MAX_NETIF_NAME_LEN,
{
    name.as_str()
}

/// The characters of the name of a Wi-Fi network.
pub uninterp spec fn ssid_of(ssid: heapless::String<MAX_SSID_LEN>) -> Seq<char>;

/// `TryFrom<&str>` of `heapless::String`: succeeds exactly where the bytes fit, and holds the
/// string then.
#[verifier::external_body]
pub(crate) fn ssid_try_from(ssid: &str) -> (r: Result<heapless::String<MAX_SSID_LEN>, ()>)
    ensures
        r is Ok <==> encode_utf8(ssid@).len() <= MAX_SSID_LEN,
        r is Ok ==> ssid_of(r->Ok_0) == ssid@,
{
    heapless::String::try_from(ssid)
}

/// `heapless::String::as_str`: the contents, which never take more bytes than the capacity.
#[verifier::external_body]
pub(crate) fn ssid_as_str(ssid: &heapless::String<MAX_SSID_LEN>) -> (r: &str)
    ensures
        r@ == ssid_of(*ssid),
        encode_utf8(r@).len() <= MAX_SSID_LEN,
{
    ssid.as_str()
}

/// The characters of the password of a Wi-Fi network.
pub uninterp spec fn password_of(password: heapless::String<MAX_PASSWORD_LEN>) -> Seq<char>;

/// `TryFrom<&str>` of `heapless::String`: succeeds exactly where the bytes fit, and holds the
/// string then.
#[verifier::external_body]
pub(crate) fn password_try_from(password: &str) -> (r: Result<heapless::String<MAX_PASSWORD_LEN>, ()>)
    ensures
        r is Ok <==> encode_utf8(password@).len() <= MAX_PASSWORD_LEN,
        r is Ok ==> password_of(r->Ok_0) == password@,
{
    heapless::String::try_from(password)
}

/// `heapless::String::as_str`: the contents.
#[verifier::external_body]
pub(crate) fn password_as_str(password: &heapless::String<MAX_PASSWORD_LEN>) -> (r: &str)
    ensures
        r@ == password_of(*password),
{
    password.as_str()
}

/// The characters of the name of a Thread network or host.
pub uninterp spec fn thread_name_of(name: heapless::String<MAX_THREAD_NAME_LEN>) -> Seq<char>;

/// `heapless::String::new`: the string is empty.
#[verifier::external_body]
pub(crate) fn thread_name_new() -> (r: heapless::String<MAX_THREAD_NAME_LEN>)
    ensures
        thread_name_of(r) == Seq::<char>::empty(),
{
    heapless::String::new()
}

/// `TryFrom<&str>` of `heapless::String`: succeeds exactly where the bytes fit, and holds the
/// string then.
#[verifier::external_body]
pub(crate) fn thread_name_try_from(name: &str) -> (r: Result<heapless::String<MAX_THREAD_NAME_LEN>, ()>)
    ensures
        r is Ok <==> encode_utf8(name@).len() <= MAX_THREAD_NAME_LEN,
        r is Ok ==> thread_name_of(r->Ok_0) == name@,
{
    heapless::String::try_from(name)
}

/// `heapless::String::push`: appends the character where its bytes fit, and nothing otherwise.
#[verifier::external_body]
pub(crate) fn thread_name_push(name: &mut heapless::String<MAX_THREAD_NAME_LEN>, c: char) -> (r: Result<(), ()>)
    ensures
        r is Ok <==> encode_utf8(thread_name_of(*old(name))).len() + encode_utf8(seq![c]).len()
            <= MAX_THREAD_NAME_LEN,
        r is Ok ==> thread_name_of(*final(name)) == thread_name_of(*old(name)).push(c),
        r is Err ==> thread_name_of(*final(name)) == thread_name_of(*old(name)),
{
    name.push(c)
}

/// `heapless::String::as_str`: the contents.
#[verifier::external_body]
pub(crate) fn thread_name_as_str(name: &heapless::String<MAX_THREAD_NAME_LEN>) -> (r: &str)
    ensures
        r@ == thread_name_of(*name),
{
    name.as_str()
}

/// The scan results that a vector holds, in order.
pub uninterp spec fn scan_results_of(results: heapless::Vec<OwnedScanResult, MAX_SCAN_RESULTS>) -> Seq<OwnedScanResult>;

/// `heapless::Vec::new`: the vector is empty.
#[verifier::external_body]
pub(crate) fn scan_results_new() -> (r: heapless::Vec<OwnedScanResult, MAX_SCAN_RESULTS>)
    ensures
        scan_results_of(r) == Seq::<OwnedScanResult>::empty(),
{
    heapless::Vec::new()
}

/// `heapless::Vec::push`: appends while there is room, and changes nothing where there is none.
#[verifier::external_body]
pub(crate) fn scan_results_push(
    results: &mut heapless::Vec<OwnedScanResult, MAX_SCAN_RESULTS>,
    result: OwnedScanResult,
) -> (r: Result<(), OwnedScanResult>)
    ensures
        r is Ok <==> scan_results_of(*old(results)).len() < MAX_SCAN_RESULTS,
        r is Ok ==> scan_results_of(*final(results)) == scan_results_of(*old(results)).push(result),
        r is Err ==> r->Err_0 == result && scan_results_of(*final(results)) == scan_results_of(*old(results)),
{
    results.push(result)
}

/// `heapless::Vec::as_slice`: the slice holds the contents.
#[verifier::external_body]
pub(crate) fn scan_results_as_slice(results: &heapless::Vec<OwnedScanResult, MAX_SCAN_RESULTS>) -> (r: &[OwnedScanResult])
    ensures
        r@ == scan_results_of(*results),
{
    results.as_slice()
}

/// The characters of a storage key.
pub uninterp spec fn skey_of(skey: heapless::String<SKEY_LEN>) -> Seq<char>;

/// `heapless::String::new`: the string is empty.
#[verifier::external_body]
pub(crate) fn skey_new() -> (r: heapless::String<SKEY_LEN>)
    ensures
        skey_of(r) == Seq::<char>::empty(),
{
    heapless::String::new()
}

/// `heapless::String::clear`: the string is empty.
#[verifier::external_body]
pub(crate) fn skey_clear(skey: &mut heapless::String<SKEY_LEN>)
    ensures
        skey_of(*final(skey)) == Seq::<char>::empty(),
{
    skey.clear()
}

/// `heapless::String::push`: appends the character where its bytes fit, and nothing otherwise.
#[verifier::external_body]
pub(crate) fn skey_push(skey: &mut heapless::String<SKEY_LEN>, c: char) -> (r: Result<(), ()>)
    ensures
        r is Ok <==> encode_utf8(skey_of(*old(skey))).len() + encode_utf8(seq![c]).len() <= SKEY_LEN,
        r is Ok ==> skey_of(*final(skey)) == skey_of(*old(skey)).push(c),
        r is Err ==> skey_of(*final(skey)) == skey_of(*old(skey)),
{
    skey.push(c)
}

/// `heapless::String::as_str`: the contents.
#[verifier::external_body]
pub(crate) fn skey_as_str(skey: &heapless::String<SKEY_LEN>) -> (r: &str)
    ensures
        r@ == skey_of(*skey),
{
    skey.as_str()
}

} // verus!
