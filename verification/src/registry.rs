//! Who has registered as a contributor, and who may be asked to vote.
use vstd::prelude::*;

use crate::host::{
    address_list_contains, address_list_get, address_list_len, address_list_push_back, addresses,
    new_address_list, row_list_len, row_list_push_back, row_list_slice, rows,
};
use crate::types::{
    Address, ContractError, Event, RegistryEntry, RegistryEntryType, RegistryRow, Text,
};

verus! {

/// The form in which the host keeps an entry.
pub open spec fn row_of(entry: RegistryEntry) -> RegistryRow {
    (
        entry.address,
        entry.registered_at,
        entry.is_active,
        match entry.entry_type {
            RegistryEntryType::Contributor => None,
            RegistryEntryType::Other(number) => Some(number),
        },
    )
}

/// The entry that the host keeps as a row.
pub open spec fn entry_of(row: RegistryRow) -> RegistryEntry {
    RegistryEntry {
        address: row.0,
        registered_at: row.1,
        is_active: row.2,
        entry_type: match row.3 {
            None => RegistryEntryType::Contributor,
            Some(number) => RegistryEntryType::Other(number),
        },
    }
}

/// The form in which the host keeps an entry.
pub fn registry_row(entry: &RegistryEntry) -> (row: RegistryRow)
    ensures
        row == row_of(*entry),
        entry_of(row) == *entry,
{
    let number: Option<u32> = match entry.entry_type {
        RegistryEntryType::Contributor => None,
        RegistryEntryType::Other(number) => Some(number),
    };
    (entry.address, entry.registered_at, entry.is_active, number)
}

/// The entry that the host keeps as a row.
pub fn registry_entry(row: &RegistryRow) -> (entry: RegistryEntry)
    ensures
        entry == entry_of(*row),
        row_of(entry) == *row,
{
    let entry_type = match row.3 {
        None => RegistryEntryType::Contributor,
        Some(number) => RegistryEntryType::Other(number),
    };
    RegistryEntry { address: row.0, registered_at: row.1, is_active: row.2, entry_type }
}

/// The entry of a contributor who registers.
pub open spec fn new_contributor(address: Address, now: u64) -> RegistryEntry {
    RegistryEntry {
        address,
        registered_at: now,
        is_active: true,
        entry_type: RegistryEntryType::Contributor,
    }
}

/// Add a contributor to the index, and say what to publish.
///
/// The index is not searched for an entry of the same contributor: that would take
/// time in proportion to its length at each registration. Callers look the
/// contributor up before they call this, as those of `contributor_register` do.
pub fn register_contributor(
    index: &mut soroban_sdk::Vec<RegistryRow>,
    address: &Address,
    name: &Text,
    now: u64,
) -> (result: Result<Event, ContractError>)
    requires
        rows(*old(index)).len() < u32::MAX,
    ensures
        rows(*final(index)) == rows(*old(index)).push(row_of(new_contributor(*address, now))),
        result matches Ok(Event::ContributorRegistered { address: a, name: n }) && a == *address
            && n@ == name@,
{
    let entry = RegistryEntry {
        address: *address,
        registered_at: now,
        is_active: true,
        entry_type: RegistryEntryType::Contributor,
    };
    row_list_push_back(index, registry_row(&entry));
    let name_copy: Text = name.clone();
    assert(name_copy@ =~= name@);
    Ok(Event::ContributorRegistered { address: *address, name: name_copy })
}

/// Register a contributor whom the caller has looked up: one who is registered
/// already is refused, any other is added to the index by `register_contributor`.
/// Where the index is full, nothing happens and the result is `None`.
pub fn contributor_register(
    registered: bool,
    index: &mut soroban_sdk::Vec<RegistryRow>,
    address: &Address,
    name: &Text,
    now: u64,
) -> (result: Option<Result<Event, ContractError>>)
    ensures
        result is None <==> !registered && rows(*old(index)).len() == u32::MAX,
        result is None || registered ==> *final(index) == *old(index),
        registered ==> result == Some(
            Err::<Event, ContractError>(ContractError::AlreadyRegistered),
        ),
        !registered && result is Some ==> {
            &&& rows(*final(index)) == rows(*old(index)).push(
                row_of(new_contributor(*address, now)),
            )
            &&& result->0 matches Ok(Event::ContributorRegistered { address: a, name: n })
            &&& a == *address
            &&& n@ == name@
        },
{
    if registered {
        return Some(Err(ContractError::AlreadyRegistered));
    }
    if row_list_len(index) == u32::MAX {
        return None;
    }
    Some(register_contributor(index, address, name, now))
}

/// Whether a caller is the global admin.
pub open spec fn is_admin(global_admin: Option<Address>, caller: Address) -> bool {
    global_admin == Some(caller)
}

/// Refuse a caller who is not the global admin, or where there is none.
fn require_global_admin(global_admin: &Option<Address>, caller: &Address) -> (result: Result<
    (),
    ContractError,
>)
    ensures
        result == if is_admin(*global_admin, *caller) {
            Ok::<(), ContractError>(())
        } else {
            Err(ContractError::Unauthorized)
        },
{
    match global_admin {
        None => Err(ContractError::Unauthorized),
        Some(admin) => {
            if *admin != *caller {
                return Err(ContractError::Unauthorized);
            }
            Ok(())
        },
    }
}

/// The allowlist once an address was approved: it goes to the end, unless it is
/// on the list already.
pub open spec fn once_approved(list: Seq<Option<Address>>, address: Address) -> Seq<
    Option<Address>,
> {
    if list.contains(Some(address)) {
        list
    } else {
        list.push(Some(address))
    }
}

/// The allowlist once an address was revoked: all others stay, in their order.
pub open spec fn once_revoked(list: Seq<Option<Address>>, address: Address) -> Seq<
    Option<Address>,
> {
    list.filter(|element: Option<Address>| element != Some(address))
}

/// Whether every element of an allowlist can be read as an address.
pub open spec fn readable(list: Seq<Option<Address>>) -> bool {
    forall|i: int| 0 <= i < list.len() ==> #[trigger] list[i] is Some
}

/// Whether there is room to approve an address, where that takes room.
pub open spec fn approvable(
    global_admin: Option<Address>,
    list: Seq<Option<Address>>,
    admin: Address,
    address: Address,
) -> bool {
    is_admin(global_admin, admin) && !list.contains(Some(address)) ==> list.len() < u32::MAX
}

/// The answer to a request to approve an address.
pub open spec fn approval(
    global_admin: Option<Address>,
    list: Seq<Option<Address>>,
    admin: Address,
    address: Address,
) -> Result<Option<Event>, ContractError> {
    if !is_admin(global_admin, admin) {
        Err(ContractError::Unauthorized)
    } else if list.contains(Some(address)) {
        Ok(None)
    } else {
        Ok(Some(Event::ReviewerApproved { reviewer: address, admin }))
    }
}

/// The answer to a request to revoke an address.
pub open spec fn revocation(
    global_admin: Option<Address>,
    list: Seq<Option<Address>>,
    admin: Address,
    address: Address,
) -> Result<Event, ContractError> {
    if !is_admin(global_admin, admin) {
        Err(ContractError::Unauthorized)
    } else if !list.contains(Some(address)) {
        Err(ContractError::InvalidInput)
    } else {
        Ok(Event::ReviewerRevoked { reviewer: address, admin })
    }
}

/// Add an address to the allowlist, and say what to publish. Only the global admin
/// may do so. Nothing happens, and nothing is published, where the address is on
/// the list already.
pub fn approve_reviewer(
    global_admin: &Option<Address>,
    allowlist: &mut soroban_sdk::Vec<Address>,
    admin: &Address,
    reviewer: &Address,
) -> (result: Result<Option<Event>, ContractError>)
    requires
        approvable(*global_admin, addresses(*old(allowlist)), *admin, *reviewer),
    ensures
        result == approval(*global_admin, addresses(*old(allowlist)), *admin, *reviewer),
        result is Err ==> *final(allowlist) == *old(allowlist),
        result is Ok ==> addresses(*final(allowlist)) == once_approved(
            addresses(*old(allowlist)),
            *reviewer,
        ),
{
    if let Err(error) = require_global_admin(global_admin, admin) {
        return Err(error);
    }
    if address_list_contains(allowlist, *reviewer) {
        return Ok(None);
    }
    address_list_push_back(allowlist, *reviewer);
    Ok(Some(Event::ReviewerApproved { reviewer: *reviewer, admin: *admin }))
}

/// Add an address to the allowlist, as `approve_reviewer` does, or do nothing and
/// return `None` where the list is full.
pub fn checked_approve_reviewer(
    global_admin: &Option<Address>,
    allowlist: &mut soroban_sdk::Vec<Address>,
    admin: &Address,
    reviewer: &Address,
) -> (result: Option<Result<Option<Event>, ContractError>>)
    ensures
        result is Some <==> approvable(
            *global_admin,
            addresses(*old(allowlist)),
            *admin,
            *reviewer,
        ),
        result is None ==> *final(allowlist) == *old(allowlist),
        result matches Some(outcome) ==> {
            &&& outcome == approval(
                *global_admin,
                addresses(*old(allowlist)),
                *admin,
                *reviewer,
            )
            &&& outcome is Err ==> *final(allowlist) == *old(allowlist)
            &&& outcome is Ok ==> addresses(*final(allowlist)) == once_approved(
                addresses(*old(allowlist)),
                *reviewer,
            )
        },
{
    if address_list_len(allowlist) == u32::MAX && require_global_admin(
        global_admin,
        admin,
    ).is_ok() && !address_list_contains(allowlist, *reviewer) {
        return None;
    }
    Some(approve_reviewer(global_admin, allowlist, admin, reviewer))
}

/// Whether every element of an allowlist can be read as an address.
fn allowlist_readable(allowlist: &soroban_sdk::Vec<Address>) -> (result: bool)
    ensures
        result == readable(addresses(*allowlist)),
{
    let len: u32 = address_list_len(allowlist);
    let mut i: u32 = 0;
    while i < len
        invariant
            len == addresses(*allowlist).len(),
            i <= len,
            forall|j: int| 0 <= j < i ==> #[trigger] addresses(*allowlist)[j] is Some,
        decreases len - i,
    {
        if address_list_get(allowlist, i).is_none() {
            return false;
        }
        i = i + 1;
    }
    true
}

/// Take an address off the allowlist, and say what to publish. Only the global
/// admin may do so. An address that is not on the list is refused.
///
/// Every element of the list must be readable.
pub fn revoke_reviewer(
    env: &soroban_sdk::Env,
    global_admin: &Option<Address>,
    allowlist: &mut soroban_sdk::Vec<Address>,
    admin: &Address,
    reviewer: &Address,
) -> (result: Result<Event, ContractError>)
    requires
        is_admin(*global_admin, *admin) ==> readable(addresses(*old(allowlist))),
    ensures
        result == revocation(*global_admin, addresses(*old(allowlist)), *admin, *reviewer),
        result is Err ==> *final(allowlist) == *old(allowlist),
        result is Ok ==> addresses(*final(allowlist)) == once_revoked(
            addresses(*old(allowlist)),
            *reviewer,
        ),
{
    if let Err(error) = require_global_admin(global_admin, admin) {
        return Err(error);
    }
    let ghost list = addresses(*allowlist);
    let mut new_list = new_address_list(env);
    let mut found = false;
    let len: u32 = address_list_len(allowlist);
    let mut i: u32 = 0;
    assert(list.take(0) =~= Seq::<Option<Address>>::empty());
    proof {
        reveal(Seq::filter);
    }
    while i < len
        invariant
            list == addresses(*allowlist),
            *allowlist == *old(allowlist),
            readable(list),
            len == list.len(),
            i <= len,
            addresses(new_list) == once_revoked(list.take(i as int), *reviewer),
            addresses(new_list).len() <= i,
            found == list.take(i as int).contains(Some(*reviewer)),
        decreases len - i,
    {
        proof {
            reveal(Seq::filter);
            let next = list.take(i + 1);
            assert(next.drop_last() =~= list.take(i as int));
            assert(next.last() == list[i as int]);
            assert(list.take(i as int).contains(Some(*reviewer)) ==> next.contains(
                Some(*reviewer),
            )) by {
                if list.take(i as int).contains(Some(*reviewer)) {
                    let k = list.take(i as int).index_of(Some(*reviewer));
                    assert(next[k] == Some(*reviewer));
                }
            }
            assert(next.contains(Some(*reviewer)) ==> list.take(i as int).contains(Some(*reviewer))
                || list[i as int] == Some(*reviewer)) by {
                if next.contains(Some(*reviewer)) {
                    let k = next.index_of(Some(*reviewer));
                    if k < i {
                        assert(list.take(i as int)[k] == Some(*reviewer));
                    }
                }
            }
            assert(next[i as int] == list[i as int]);
        }
        if let Some(address) = address_list_get(allowlist, i) {
            if address == *reviewer {
                found = true;
            } else {
                address_list_push_back(&mut new_list, address);
            }
        }
        i = i + 1;
    }
    assert(list.take(len as int) =~= list);
    if !found {
        return Err(ContractError::InvalidInput);
    }
    *allowlist = new_list;
    Ok(Event::ReviewerRevoked { reviewer: *reviewer, admin: *admin })
}

/// Take an address off the allowlist, as `revoke_reviewer` does, or do nothing and
/// return `None` where the list cannot be read.
pub fn checked_revoke_reviewer(
    env: &soroban_sdk::Env,
    global_admin: &Option<Address>,
    allowlist: &mut soroban_sdk::Vec<Address>,
    admin: &Address,
    reviewer: &Address,
) -> (result: Option<Result<Event, ContractError>>)
    ensures
        result is Some <==> (is_admin(*global_admin, *admin) ==> readable(
            addresses(*old(allowlist)),
        )),
        result is None ==> *final(allowlist) == *old(allowlist),
        result matches Some(outcome) ==> {
            &&& outcome == revocation(
                *global_admin,
                addresses(*old(allowlist)),
                *admin,
                *reviewer,
            )
            &&& outcome is Err ==> *final(allowlist) == *old(allowlist)
            &&& outcome is Ok ==> addresses(*final(allowlist)) == once_revoked(
                addresses(*old(allowlist)),
                *reviewer,
            )
        },
{
    if require_global_admin(global_admin, admin).is_ok() && !allowlist_readable(allowlist) {
        return None;
    }
    Some(revoke_reviewer(env, global_admin, allowlist, admin, reviewer))
}

/// Whether an address is on the allowlist.
pub fn is_approved_reviewer(allowlist: &soroban_sdk::Vec<Address>, address: &Address) -> (result:
    bool)
    ensures
        result == addresses(*allowlist).contains(Some(*address)),
{
    address_list_contains(allowlist, *address)
}

/// The smaller of two positions.
pub open spec fn earlier(a: int, b: int) -> int {
    if a <= b {
        a
    } else {
        b
    }
}

/// At most `limit` entries of an index, from `offset` on.
pub open spec fn page(index: Seq<RegistryRow>, offset: int, limit: int) -> Seq<RegistryRow> {
    index.subrange(
        earlier(offset, index.len() as int),
        earlier(offset + limit, index.len() as int),
    )
}

/// A page of the index: at most `limit` entries, from `offset` on.
pub fn get_contributors_page(
    index: &soroban_sdk::Vec<RegistryRow>,
    offset: u32,
    limit: u32,
) -> (result: soroban_sdk::Vec<RegistryRow>)
    ensures
        rows(result) == page(rows(*index), offset as int, limit as int),
{
    let len: u32 = row_list_len(index);
    let start: u32 = if offset <= len {
        offset
    } else {
        len
    };
    let limited: u32 = offset.saturating_add(limit);
    let end: u32 = if limited <= len {
        limited
    } else {
        len
    };
    row_list_slice(index, start, end)
}

/// How many entries the index has.
pub fn contributor_count(index: &soroban_sdk::Vec<RegistryRow>) -> (count: u32)
    ensures
        count == rows(*index).len(),
{
    row_list_len(index)
}

} // verus!
