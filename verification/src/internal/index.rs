//! The indices as they are kept: one vector of ids per account or creator,
//! taken out of its table, changed, and put back.

use crate::bounded::{bytes_63, same_bytes_63};
use crate::creator_map::CreatorMap;
use crate::ledger::index::{
    is_first_position, lemma_first_position_unique, swap_removed, without_first,
};
use crate::pallet::creator_id_bytes;
use crate::types::aliases::AccountId;
use crate::types::{CreatorId, TokenId};
use std::collections::HashMap;
use vstd::prelude::*;

verus! {

broadcast use vstd::std_specs::hash::group_hash_axioms;

/// Takes the entries of `account` out of `index`; none where it has none.
pub(crate) fn take_index<T>(
    index: &mut HashMap<AccountId, Vec<T>>,
    account: AccountId,
) -> (ids: Vec<T>)
    ensures
        final(index)@ == old(index)@.remove(account),
        old(index)@.contains_key(account) ==> ids == old(index)@[account],
        !old(index)@.contains_key(account) ==> ids@ == Seq::<T>::empty(),
{
    match index.remove(&account) {
        Some(ids) => ids,
        None => Vec::new(),
    }
}

/// Puts `ids` back as the entries of `account`; an account without entries
/// gets no place in the index.
pub(crate) fn put_index<T>(index: &mut HashMap<AccountId, Vec<T>>, account: AccountId, ids: Vec<T>)
    requires
        !old(index)@.contains_key(account),
    ensures
        final(index)@ == if ids@.len() == 0 {
            old(index)@
        } else {
            old(index)@.insert(account, ids)
        },
{
    if ids.len() > 0 {
        index.insert(account, ids);
    }
}

/// Takes the launch tokens of `creator` out of `index`; none where it has
/// none.
pub(crate) fn take_launch_index(
    index: &mut CreatorMap<Vec<TokenId>>,
    creator: &CreatorId,
) -> (ids: Vec<TokenId>)
    requires
        old(index).wf(),
    ensures
        final(index).wf(),
        final(index)@ == old(index)@.remove(bytes_63(*creator)),
        old(index)@.contains_key(bytes_63(*creator)) ==> ids == old(index)@[bytes_63(*creator)],
        !old(index)@.contains_key(bytes_63(*creator)) ==> ids@ == Seq::<TokenId>::empty(),
{
    match index.remove(creator) {
        Some(ids) => ids,
        None => Vec::new(),
    }
}

/// Puts `ids` back as the launch tokens of `creator`.
pub(crate) fn put_launch_index(
    index: &mut CreatorMap<Vec<TokenId>>,
    creator: CreatorId,
    ids: Vec<TokenId>,
)
    requires
        old(index).wf(),
        !old(index)@.contains_key(bytes_63(creator)),
    ensures
        final(index).wf(),
        final(index)@ == if ids@.len() == 0 {
            old(index)@
        } else {
            old(index)@.insert(bytes_63(creator), ids)
        },
{
    if ids.len() > 0 {
        index.insert(creator, ids);
    }
}

/// Removes the first occurrence of `id` by swapping the last id into its
/// place.
pub(crate) fn remove_token_id(ids: &mut Vec<TokenId>, id: TokenId)
    ensures
        final(ids)@ == without_first(old(ids)@, id),
{
    let mut at: usize = 0;
    while at < ids.len()
        invariant
            at <= ids.len(),
            *ids == *old(ids),
            forall|before: int| 0 <= before < at ==> ids@[before] != id,
        decreases ids.len() - at,
    {
        if ids[at] == id {
            proof {
                lemma_first_position_unique(ids@, id, at as int);
            }
            let _ = ids.swap_remove(at);
            return ;
        }
        at += 1;
    }
}

/// Removes the first id that holds the bytes of `id` by swapping the last
/// id into its place.
pub(crate) fn remove_creator_id(ids: &mut Vec<CreatorId>, id: &CreatorId)
    ensures
        creator_id_bytes(final(ids)@) == without_first(creator_id_bytes(old(ids)@), bytes_63(*id)),
{
    let mut at: usize = 0;
    while at < ids.len()
        invariant
            at <= ids.len(),
            *ids == *old(ids),
            forall|before: int| 0 <= before < at ==> bytes_63(ids@[before]) != bytes_63(*id),
        decreases ids.len() - at,
    {
        if same_bytes_63(&ids[at], id) {
            proof {
                let held = creator_id_bytes(ids@);
                assert(is_first_position(held, bytes_63(*id), at as int));
                lemma_first_position_unique(held, bytes_63(*id), at as int);
                assert(creator_id_bytes(swap_removed(ids@, at as int)) =~= swap_removed(
                    held,
                    at as int,
                ));
            }
            let _ = ids.swap_remove(at);
            return ;
        }
        at += 1;
    }
    proof {
        let held = creator_id_bytes(ids@);
        if held.contains(bytes_63(*id)) {
            let i = choose|i: int| 0 <= i < held.len() && held[i] == bytes_63(*id);
            assert(bytes_63(ids@[i]) != bytes_63(*id));
        }
    }
}

} // verus!
