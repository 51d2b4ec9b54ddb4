//! What holds of every change of the registry.
use vstd::prelude::*;

use crate::registry::{
    approvable, approval, entry_of, is_admin, new_contributor, once_approved, once_revoked, page,
    readable, revocation, row_of,
};
use crate::types::{
    Address, ContractError, Event, RegistryEntry, RegistryEntryType, RegistryRow,
};

verus! {

/// An entry is read back from its row as it was, and a row from its entry.
pub proof fn law_rows_keep_entries(entry: RegistryEntry, row: RegistryRow)
    ensures
        entry_of(row_of(entry)) == entry,
        row_of(entry_of(row)) == row,
{
}

/// Approving an address puts it on the list, and changes nothing for any other.
pub proof fn law_approve_adds_one(list: Seq<Option<Address>>, address: Address, other: Address)
    ensures
        once_approved(list, address).contains(Some(address)),
        other != address ==> (once_approved(list, address).contains(Some(other))
            <==> list.contains(Some(other))),
{
    let after = once_approved(list, address);
    if !list.contains(Some(address)) {
        assert(after[list.len() as int] == Some(address));
    }
    if other != address {
        if list.contains(Some(other)) {
            let i = list.index_of(Some(other));
            assert(after[i] == Some(other));
        }
        if after.contains(Some(other)) {
            let i = after.index_of(Some(other));
            assert(i < list.len());
            assert(list[i] == Some(other));
        }
    }
}

/// Approving an address again changes nothing.
pub proof fn law_approve_twice_is_once(list: Seq<Option<Address>>, address: Address)
    ensures
        once_approved(once_approved(list, address), address) == once_approved(list, address),
{
    law_approve_adds_one(list, address, address);
}

/// Revoking an address takes it off the list, and changes nothing for any other.
pub proof fn law_revoke_removes_one(list: Seq<Option<Address>>, address: Address, other: Address)
    ensures
        !once_revoked(list, address).contains(Some(address)),
        other != address ==> (once_revoked(list, address).contains(Some(other))
            <==> list.contains(Some(other))),
    decreases list.len(),
{
    reveal(Seq::filter);
    if list.len() > 0 {
        let shorter = list.drop_last();
        law_revoke_removes_one(shorter, address, other);
        let kept = once_revoked(shorter, address);
        let after = once_revoked(list, address);
        assert(forall|a: Address|
            list.contains(Some(a)) <==> shorter.contains(Some(a)) || list.last() == Some(a)) by {
            assert forall|a: Address|
                list.contains(Some(a)) <==> shorter.contains(Some(a)) || list.last() == Some(a) by {
                if list.contains(Some(a)) {
                    let i = list.index_of(Some(a));
                    if i < shorter.len() {
                        assert(shorter[i] == Some(a));
                    }
                }
                if shorter.contains(Some(a)) {
                    let i = shorter.index_of(Some(a));
                    assert(list[i] == Some(a));
                }
                if list.last() == Some(a) {
                    assert(list[list.len() - 1] == Some(a));
                }
            }
        }
        if list.last() != Some(address) {
            assert(after == kept.push(list.last()));
            assert forall|a: Address|
                after.contains(Some(a)) <==> kept.contains(Some(a)) || list.last() == Some(a) by {
                if after.contains(Some(a)) {
                    let i = after.index_of(Some(a));
                    if i < kept.len() {
                        assert(kept[i] == Some(a));
                    }
                }
                if kept.contains(Some(a)) {
                    let i = kept.index_of(Some(a));
                    assert(after[i] == Some(a));
                }
                if list.last() == Some(a) {
                    assert(after[kept.len() as int] == Some(a));
                }
            }
        }
    }
}

/// Revoking an address that is not on the list would change nothing.
proof fn lemma_revoke_of_absent(list: Seq<Option<Address>>, address: Address)
    requires
        !list.contains(Some(address)),
    ensures
        once_revoked(list, address) == list,
    decreases list.len(),
{
    reveal(Seq::filter);
    if list.len() > 0 {
        let shorter = list.drop_last();
        assert(!shorter.contains(Some(address))) by {
            if shorter.contains(Some(address)) {
                let i = shorter.index_of(Some(address));
                assert(list[i] == Some(address));
            }
        }
        lemma_revoke_of_absent(shorter, address);
        assert(list[list.len() - 1] != Some(address));
        assert(shorter.push(list.last()) =~= list);
    } else {
        assert(once_revoked(list, address) =~= list);
    }
}

/// Revoking undoes approving.
pub proof fn law_revoke_undoes_approve(list: Seq<Option<Address>>, address: Address)
    requires
        !list.contains(Some(address)),
    ensures
        once_revoked(once_approved(list, address), address) == list,
{
    reveal(Seq::filter);
    let after = once_approved(list, address);
    assert(after.drop_last() =~= list);
    lemma_revoke_of_absent(list, address);
}

/// No address is on the list twice, however often addresses are approved and
/// revoked.
pub proof fn law_allowlist_stays_distinct(list: Seq<Option<Address>>, address: Address)
    requires
        list.no_duplicates(),
    ensures
        once_approved(list, address).no_duplicates(),
        once_revoked(list, address).no_duplicates(),
    decreases list.len(),
{
    reveal(Seq::filter);
    if !list.contains(Some(address)) {
        let after = once_approved(list, address);
        assert forall|i: int, j: int|
            0 <= i < after.len() && 0 <= j < after.len() && i != j implies after[i] != after[j] by {
            if i < list.len() {
                assert(list.contains(list[i]));
            }
            if j < list.len() {
                assert(list.contains(list[j]));
            }
        }
    }
    if list.len() > 0 {
        let shorter = list.drop_last();
        law_allowlist_stays_distinct(shorter, address);
        let kept = once_revoked(shorter, address);
        let after = once_revoked(list, address);
        if list.last() != Some(address) {
            assert forall|i: int| 0 <= i < kept.len() implies kept[i] != list.last() by {
                lemma_revoked_is_part(shorter, address, i);
                let k = shorter.index_of(kept[i]);
                assert(list[k] == kept[i]);
            }
            assert(after == kept.push(list.last()));
        }
    }
}

/// What is left after an address was revoked was on the list before.
proof fn lemma_revoked_is_part(list: Seq<Option<Address>>, address: Address, i: int)
    requires
        0 <= i < once_revoked(list, address).len(),
    ensures
        list.contains(once_revoked(list, address)[i]),
    decreases list.len(),
{
    reveal(Seq::filter);
    if list.len() > 0 {
        let shorter = list.drop_last();
        let kept = once_revoked(shorter, address);
        if i < kept.len() {
            lemma_revoked_is_part(shorter, address, i);
            let k = shorter.index_of(kept[i]);
            assert(list[k] == kept[i]);
        } else {
            assert(list[list.len() - 1] == once_revoked(list, address)[i]);
        }
    }
}

/// A list that can be read can still be read after an address was approved or
/// revoked.
pub proof fn law_allowlist_stays_readable(list: Seq<Option<Address>>, address: Address)
    requires
        readable(list),
    ensures
        readable(once_approved(list, address)),
        readable(once_revoked(list, address)),
{
    let after = once_revoked(list, address);
    assert forall|i: int| 0 <= i < after.len() implies #[trigger] after[i] is Some by {
        lemma_revoked_is_part(list, address, i);
        let k = list.index_of(after[i]);
        assert(list[k] is Some);
    }
}

/// A registration leaves all earlier entries in place and adds one behind them,
/// which is on the last page.
pub proof fn law_registration_appends(index: Seq<RegistryRow>, address: Address, now: u64)
    ensures
        index.push(row_of(new_contributor(address, now))).len() == index.len() + 1,
        page(index.push(row_of(new_contributor(address, now))), 0, index.len() as int) == index,
        page(index.push(row_of(new_contributor(address, now))), index.len() as int, 1) == seq![
            row_of(new_contributor(address, now)),
        ],
        entry_of(row_of(new_contributor(address, now))) == new_contributor(address, now),
{
    let after = index.push(row_of(new_contributor(address, now)));
    assert(page(after, 0, index.len() as int) =~= index);
    assert(page(after, index.len() as int, 1) =~= seq![row_of(new_contributor(address, now))]);
}

/// Whether no address has two entries.
pub open spec fn distinct(index: Seq<RegistryRow>) -> bool {
    forall|i: int, j: int|
        #![trigger index[i], index[j]]
        0 <= i < j < index.len() ==> index[i].0 != index[j].0
}

/// Whether an address has an entry.
pub open spec fn registered(index: Seq<RegistryRow>, address: Address) -> bool {
    exists|i: int| 0 <= i < index.len() && (#[trigger] index[i]).0 == address
}

/// As long as callers look a contributor up first, no address has two entries.
pub proof fn law_index_stays_distinct(index: Seq<RegistryRow>, address: Address, now: u64)
    requires
        distinct(index),
        !registered(index, address),
    ensures
        distinct(index.push(row_of(new_contributor(address, now)))),
        registered(index.push(row_of(new_contributor(address, now))), address),
{
    let after = index.push(row_of(new_contributor(address, now)));
    assert(after[index.len() as int].0 == address);
}

/// A page has `limit` entries, or those that are left; past the end it has none.
/// Two pages that follow each other make up one, and the page of everything is
/// the index.
pub proof fn law_pages_follow_each_other(
    index: Seq<RegistryRow>,
    offset: u32,
    limit: u32,
    next_limit: u32,
)
    ensures
        offset < index.len() ==> page(index, offset as int, limit as int).len() == if limit
            <= index.len() - offset {
            limit as int
        } else {
            index.len() - offset
        },
        offset >= index.len() ==> page(index, offset as int, limit as int).len() == 0,
        page(index, offset as int, limit as int) + page(
            index,
            offset + limit,
            next_limit as int,
        ) == page(index, offset as int, limit + next_limit),
        page(index, 0, index.len() as int) == index,
{
    assert(page(index, offset as int, limit as int) + page(
        index,
        offset + limit,
        next_limit as int,
    ) =~= page(index, offset as int, limit + next_limit));
    assert(page(index, 0, index.len() as int) =~= index);
}

/// A row holds the parts of its entry one by one. A contributor's row has no number
/// of a role.
pub proof fn law_rows_hold_the_parts(entry: RegistryEntry)
    ensures
        row_of(entry).0 == entry.address,
        row_of(entry).1 == entry.registered_at,
        row_of(entry).2 == entry.is_active,
        row_of(entry).3 is None <==> entry.entry_type == RegistryEntryType::Contributor,
        entry.entry_type matches RegistryEntryType::Other(number) ==> row_of(entry).3 == Some(
            number,
        ),
{
}

/// Who registers gets an active entry as a contributor, under the own address and at
/// the time of the registration.
pub proof fn law_new_contributor_is_active(address: Address, now: u64)
    ensures
        new_contributor(address, now).address == address,
        new_contributor(address, now).registered_at == now,
        new_contributor(address, now).is_active,
        new_contributor(address, now).entry_type == RegistryEntryType::Contributor,
        row_of(new_contributor(address, now)) == (address, now, true, None::<u32>),
{
}

/// Approving an address leaves the list as it is up to its end. The list grows by
/// the address alone, and only where it was not on the list.
pub proof fn law_approve_appends(list: Seq<Option<Address>>, address: Address)
    ensures
        once_approved(list, address).take(list.len() as int) == list,
        list.contains(Some(address)) ==> once_approved(list, address).len() == list.len(),
        !list.contains(Some(address)) ==> once_approved(list, address).len() == list.len() + 1
            && once_approved(list, address).last() == Some(address),
{
    assert(once_approved(list, address).take(list.len() as int) =~= list);
}

/// Revoking an address deals with each part of the list apart from the others, in
/// the order of the list: an element that is the address is left out, any other is
/// kept.
pub proof fn law_revoke_keeps_the_order(
    first: Seq<Option<Address>>,
    rest: Seq<Option<Address>>,
    element: Option<Address>,
    address: Address,
)
    ensures
        once_revoked(first + rest, address) == once_revoked(first, address) + once_revoked(
            rest,
            address,
        ),
        once_revoked(seq![element], address) == if element == Some(address) {
            Seq::<Option<Address>>::empty()
        } else {
            seq![element]
        },
        once_revoked(Seq::<Option<Address>>::empty(), address) == Seq::<Option<Address>>::empty(),
    decreases rest.len(),
{
    reveal(Seq::filter);
    assert(seq![element].drop_last() =~= Seq::<Option<Address>>::empty());
    reveal_with_fuel(Seq::filter, 2);
    if rest.len() == 0 {
        assert(first + rest =~= first);
        assert(once_revoked(first, address) + once_revoked(rest, address) =~= once_revoked(
            first,
            address,
        ));
    } else {
        law_revoke_keeps_the_order(first, rest.drop_last(), element, address);
        assert((first + rest).drop_last() =~= first + rest.drop_last());
        assert(once_revoked(first + rest, address) =~= once_revoked(first, address) + once_revoked(
            rest,
            address,
        ));
    }
}

/// Only the global admin changes the allowlist, and nobody does where there is none.
/// An address is told to be approved exactly where it was not on the list, and told
/// to be revoked exactly where it was. To revoke an address that is not on the list
/// is refused.
pub proof fn law_only_the_admin_decides(
    global_admin: Option<Address>,
    list: Seq<Option<Address>>,
    admin: Address,
    address: Address,
)
    ensures
        approval(global_admin, list, admin, address) is Ok <==> global_admin is Some
            && global_admin->0 == admin,
        approval(global_admin, list, admin, address) matches Err(error) ==> error
            == ContractError::Unauthorized,
        approval(global_admin, list, admin, address) matches Ok(told) ==> {
            &&& told is None <==> list.contains(Some(address))
            &&& told matches Some(event) ==> event == (Event::ReviewerApproved {
                reviewer: address,
                admin,
            })
        },
        revocation(global_admin, list, admin, address) is Ok <==> global_admin is Some
            && global_admin->0 == admin && list.contains(Some(address)),
        revocation(global_admin, list, admin, address) matches Ok(event) ==> event == (
        Event::ReviewerRevoked { reviewer: address, admin }),
        revocation(global_admin, list, admin, address) matches Err(error) ==> error == if approval(
            global_admin,
            list,
            admin,
            address,
        ) is Ok {
            ContractError::InvalidInput
        } else {
            ContractError::Unauthorized
        },
        is_admin(global_admin, admin) <==> approval(global_admin, list, admin, address) is Ok,
        !approvable(global_admin, list, admin, address) <==> global_admin is Some
            && global_admin->0 == admin && !list.contains(Some(address)) && list.len() >= u32::MAX,
{
}

/// A page shows the entries in their order, the one at `offset` first.
pub proof fn law_page_starts_at_offset(index: Seq<RegistryRow>, offset: u32, limit: u32, k: int)
    ensures
        0 <= k < limit && offset + k < index.len() ==> k < page(
            index,
            offset as int,
            limit as int,
        ).len() && page(index, offset as int, limit as int)[k] == index[offset + k],
        page(index, offset as int, limit as int).len() <= limit,
        page(index, offset as int, limit as int).len() > 0 ==> offset + page(
            index,
            offset as int,
            limit as int,
        ).len() <= index.len(),
{
}

/// A list cannot be read exactly where some element of it cannot.
pub proof fn law_one_element_spoils_the_list(list: Seq<Option<Address>>)
    ensures
        !readable(list) <==> exists|i: int| 0 <= i < list.len() && #[trigger] list[i] is None,
{
}

} // verus!
