//! The host's collections, as the rest of the library sees them.
//!
//! `soroban_sdk` keeps a vector, a map or a string inside the contract host and
//! hands out a handle to it. This module declares those types, names what each
//! one holds, and wraps the methods that the library calls.
//!
//! None of the host objects behind a handle ever changes: a method that takes
//! `&mut self` makes a new object and moves the handle to it. So what a handle
//! holds depends on the handle alone.
//!
//! The host meters every call, and ends the whole invocation when the budget of
//! the transaction runs out. No contract below speaks of that budget.
use vstd::prelude::*;

use crate::types::{Address, RegistryRow, Text};

verus! {

/// `soroban_sdk::Env`, the handle to the contract host. Nothing is known of a
/// value of it.
#[verifier::external_type_specification]
#[verifier::external_body]
pub struct ExEnv(soroban_sdk::Env);

/// `soroban_sdk::Vec`, a vector that the host keeps.
#[verifier::external_type_specification]
#[verifier::external_body]
#[verifier::reject_recursive_types(T)]
pub struct ExVec<T>(soroban_sdk::Vec<T>);

/// `soroban_sdk::Map`, an ordered map that the host keeps.
#[verifier::external_type_specification]
#[verifier::external_body]
#[verifier::reject_recursive_types(K)]
#[verifier::reject_recursive_types(V)]
pub struct ExMap<K, V>(soroban_sdk::Map<K, V>);

/// `soroban_sdk::String`, a string of bytes that the host keeps.
#[verifier::external_type_specification]
#[verifier::external_body]
pub struct ExString(soroban_sdk::String);

/// What a host vector of addresses holds, in order. The host does not check the
/// type of an element before it is read: `None` stands for one that is not an
/// address.
pub uninterp spec fn addresses(list: soroban_sdk::Vec<Address>) -> Seq<Option<Address>>;

/// What a host vector of amounts holds, in order. `None` stands for an element
/// that is not an amount.
pub uninterp spec fn amounts(list: soroban_sdk::Vec<i128>) -> Seq<Option<i128>>;

/// What a host vector of registry rows holds, in order.
pub uninterp spec fn rows(list: soroban_sdk::Vec<RegistryRow>) -> Seq<RegistryRow>;

/// What a host map of votes holds, over the keys that are addresses.
pub uninterp spec fn votes(map: soroban_sdk::Map<Address, bool>) -> Map<Address, bool>;

/// Whether every key of a host map of votes is an address and every value a
/// `bool`. The host does not check either before an entry is read.
pub uninterp spec fn votes_readable(map: soroban_sdk::Map<Address, bool>) -> bool;

/// How many entries a host map of votes has, whether they can be read or not.
pub uninterp spec fn vote_count(map: soroban_sdk::Map<Address, bool>) -> nat;

/// What a host map of reasons holds, over the keys that are addresses: for each,
/// the bytes of the text.
pub uninterp spec fn reasons(map: soroban_sdk::Map<Address, soroban_sdk::String>) -> Map<
    Address,
    Seq<u8>,
>;

/// How many entries a host map of reasons has, whether they can be read or not.
pub uninterp spec fn reason_count(map: soroban_sdk::Map<Address, soroban_sdk::String>) -> nat;

/// `soroban_sdk::Vec::new`: the new vector is empty.
#[verifier::external_body]
pub(crate) fn new_address_list(env: &soroban_sdk::Env) -> (list: soroban_sdk::Vec<Address>)
    ensures
        addresses(list) == Seq::<Option<Address>>::empty(),
{
    soroban_sdk::Vec::new(env)
}

/// `soroban_sdk::Vec::contains`: whether some element equals the address.
#[verifier::external_body]
pub(crate) fn address_list_contains(list: &soroban_sdk::Vec<Address>, address: Address) -> (found:
    bool)
    ensures
        found == addresses(*list).contains(Some(address)),
{
    list.contains(address)
}

/// `soroban_sdk::Vec::push_back`: the address goes behind the last element. The
/// host refuses to make a vector longer than `u32::MAX`.
#[verifier::external_body]
pub(crate) fn address_list_push_back(list: &mut soroban_sdk::Vec<Address>, address: Address)
    requires
        addresses(*old(list)).len() < u32::MAX,
    ensures
        addresses(*final(list)) == addresses(*old(list)).push(Some(address)),
{
    list.push_back(address)
}

/// `soroban_sdk::Vec::len`: the number of elements.
#[verifier::external_body]
pub(crate) fn address_list_len(list: &soroban_sdk::Vec<Address>) -> (len: u32)
    ensures
        len == addresses(*list).len(),
{
    list.len()
}

/// `soroban_sdk::Vec::try_get`: the element at the index, or `None` where the
/// index is past the end or the element is not an address.
#[verifier::external_body]
pub(crate) fn address_list_get(list: &soroban_sdk::Vec<Address>, i: u32) -> (element: Option<
    Address,
>)
    ensures
        element == if i < addresses(*list).len() {
            addresses(*list)[i as int]
        } else {
            None
        },
{
    match list.try_get(i) {
        Ok(element) => element,
        Err(_) => None,
    }
}

/// `soroban_sdk::Vec::len`: the number of elements.
#[verifier::external_body]
pub(crate) fn amount_list_len(list: &soroban_sdk::Vec<i128>) -> (len: u32)
    ensures
        len == amounts(*list).len(),
{
    list.len()
}

/// `soroban_sdk::Vec::try_get`: the element at the index, or `None` where the
/// index is past the end or the element is not an amount.
#[verifier::external_body]
pub(crate) fn amount_list_get(list: &soroban_sdk::Vec<i128>, i: u32) -> (element: Option<i128>)
    ensures
        element == if i < amounts(*list).len() {
            amounts(*list)[i as int]
        } else {
            None
        },
{
    match list.try_get(i) {
        Ok(element) => element,
        Err(_) => None,
    }
}

/// `soroban_sdk::Vec::push_back`: the row goes behind the last element. The host
/// refuses to make a vector longer than `u32::MAX`.
#[verifier::external_body]
pub(crate) fn row_list_push_back(list: &mut soroban_sdk::Vec<RegistryRow>, row: RegistryRow)
    requires
        rows(*old(list)).len() < u32::MAX,
    ensures
        rows(*final(list)) == rows(*old(list)).push(row),
{
    list.push_back(row)
}

/// `soroban_sdk::Vec::len`: the number of elements.
#[verifier::external_body]
pub(crate) fn row_list_len(list: &soroban_sdk::Vec<RegistryRow>) -> (len: u32)
    ensures
        len == rows(*list).len(),
{
    list.len()
}

/// `soroban_sdk::Vec::slice`, over a range that leaves its end out: the elements
/// of that range, in order. The host refuses a range that runs past the end.
#[verifier::external_body]
pub(crate) fn row_list_slice(list: &soroban_sdk::Vec<RegistryRow>, start: u32, end: u32) -> (part:
    soroban_sdk::Vec<RegistryRow>)
    requires
        start <= end <= rows(*list).len(),
    ensures
        rows(part) == rows(*list).subrange(start as int, end as int),
{
    list.slice(start..end)
}

/// `soroban_sdk::Map::contains_key`: whether the map has an entry for the
/// address.
#[verifier::external_body]
pub(crate) fn vote_map_contains_key(
    map: &soroban_sdk::Map<Address, bool>,
    address: Address,
) -> (found: bool)
    ensures
        found == votes(*map).contains_key(address),
{
    map.contains_key(address)
}

/// `soroban_sdk::Map::len`: the number of entries.
#[verifier::external_body]
pub(crate) fn vote_map_len(map: &soroban_sdk::Map<Address, bool>) -> (len: u32)
    ensures
        len == vote_count(*map),
{
    map.len()
}

/// `soroban_sdk::Map::set`: the entry for the address becomes the vote, all
/// others stay. The map grows by one entry where the address had none. A map that
/// could be read can still be read. The host refuses to make a map longer than
/// `u32::MAX`.
#[verifier::external_body]
pub(crate) fn vote_map_set(map: &mut soroban_sdk::Map<Address, bool>, address: Address, vote: bool)
    requires
        votes(*old(map)).contains_key(address) || vote_count(*old(map)) < u32::MAX,
    ensures
        votes(*final(map)) == votes(*old(map)).insert(address, vote),
        votes_readable(*old(map)) ==> votes_readable(*final(map)),
        vote_count(*final(map)) == vote_count(*old(map)) + if votes(*old(map)).contains_key(
            address,
        ) {
            0nat
        } else {
            1nat
        },
{
    map.set(address, vote)
}

/// `soroban_sdk::Map::try_iter`: each entry of the map once, in the order of the
/// addresses, or `None` where an entry cannot be read.
#[verifier::external_body]
pub(crate) fn vote_map_entries(map: &soroban_sdk::Map<Address, bool>) -> (entries: Option<
    Vec<(Address, bool)>,
>)
    ensures
        entries is Some <==> votes_readable(*map),
        entries matches Some(list) ==> {
            &&& forall|i: int|
                #![trigger list@[i]]
                0 <= i < list@.len() ==> votes(*map).contains_pair(list@[i].0, list@[i].1)
            &&& forall|i: int, j: int| 0 <= i < j < list@.len() ==> list@[i].0 < list@[j].0
            &&& forall|address: Address| #[trigger]
                votes(*map).contains_key(address) ==> exists|i: int|
                    0 <= i < list@.len() && #[trigger] list@[i].0 == address
        },
{
    map.try_iter().collect::<Result<Vec<(Address, bool)>, _>>().ok()
}

/// `soroban_sdk::Map::len`: the number of entries.
#[verifier::external_body]
pub(crate) fn reason_map_len(map: &soroban_sdk::Map<Address, soroban_sdk::String>) -> (len: u32)
    ensures
        len == reason_count(*map),
{
    map.len()
}

/// `soroban_sdk::Map::set`: the entry for the address becomes the text, all
/// others stay. The map grows by one entry where the address had none. The text is
/// copied into the host that keeps the map, by `soroban_sdk::String::from_bytes`. The host refuses a text, or a map, longer
/// than `u32::MAX`.
#[verifier::external_body]
pub(crate) fn reason_map_set(
    map: &mut soroban_sdk::Map<Address, soroban_sdk::String>,
    address: Address,
    text: &Text,
)
    requires
        text@.len() <= u32::MAX,
        reasons(*old(map)).contains_key(address) || reason_count(*old(map)) < u32::MAX,
    ensures
        reasons(*final(map)) == reasons(*old(map)).insert(address, text@),
        reason_count(*final(map)) == reason_count(*old(map)) + if reasons(
            *old(map),
        ).contains_key(address) {
            0nat
        } else {
            1nat
        },
{
    let text = soroban_sdk::String::from_bytes(map.env(), text);
    map.set(address, text)
}

} // verus!
