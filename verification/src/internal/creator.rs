//! The creator registry.

use super::index::{put_index, remove_creator_id, take_index};
use crate::bounded::{bytes_63, clone_bytes_63, try_push_bounded};
use crate::ledger::index::without_first;
use crate::pallet::{creator_id_bytes, Pallet};
use crate::report::Error;
use crate::types::aliases::AccountId;
use crate::types::{Creator, CreatorId};
use vstd::prelude::*;

verus! {

broadcast use vstd::std_specs::hash::group_hash_axioms;

impl<
    const MAX_CREATOR_ACCOUNTS: u32,
    const MAX_LAUNCH_TOKENS: u32,
    const MAX_TOKENS: u32,
> Pallet<MAX_CREATOR_ACCOUNTS, MAX_LAUNCH_TOKENS, MAX_TOKENS> {
    /// Create new creator account with given id and add to account.
    ///
    /// Fails with `CreatorAccountTaken` where the id is in use, then with
    /// `MaxCreatorAccountsReached` where the account owns as many creator
    /// accounts as it may.  A failure changes nothing.
    pub fn add_new_creator_to_account(
        &mut self,
        creator_id: CreatorId,
        account: AccountId,
    ) -> (result: Result<(), Error>)
        requires
            old(self).wf(),
        ensures
            final(self).wf(),
            (final(self)@, result) == old(self)@.add_new_creator_to_account(
                bytes_63(creator_id),
                account,
            ),
    {
        let ghost before = self@;
        let ghost key = bytes_63(creator_id);
        let ghost held_before = self.creator_ids_for_account@;
        if self.creators.get(&creator_id).is_some() {
            return Err(Error::CreatorAccountTaken);
        }
        let ids = take_index(&mut self.creator_ids_for_account, account);
        proof {
            assert(creator_id_bytes(ids@) == before.creator_ids_of(account));
            if held_before.contains_key(account) {
                assert(before.creator_ids_for_account.contains_key(account));
            }
        }
        let ghost ids_before = ids@;
        let (ids, pushed) = try_push_bounded::<CreatorId, MAX_CREATOR_ACCOUNTS>(ids, clone_bytes_63(&creator_id));
        match pushed {
            Err(_) => {
                put_index(&mut self.creator_ids_for_account, account, ids);
                proof {
                    assert(self@.creator_ids_for_account =~= before.creator_ids_for_account);
                }
                Err(Error::MaxCreatorAccountsReached)
            },
            Ok(()) => {
                put_index(&mut self.creator_ids_for_account, account, ids);
                self.creators.insert(clone_bytes_63(&creator_id), Creator::new(creator_id, account));
                proof {
                    let after = before.add_new_creator_to_account(key, account).0;
                    assert(creator_id_bytes(ids@) =~= creator_id_bytes(ids_before).push(key));
                    assert(self@.creators =~= after.creators);
                    assert(self@.creator_ids_for_account =~= after.creator_ids_for_account);
                    before.lemma_add_new_creator_to_account(key, account);
                }
                Ok(())
            },
        }
    }

    /// Remove creator account with given id from account.
    ///
    /// Fails with `NotOwner` unless `account` owns the creator.  The creator
    /// is removed permanently if no launch token refers to it, and otherwise
    /// stays without owner.
    pub fn remove_creator_from_account(
        &mut self,
        creator_id: CreatorId,
        account: AccountId,
    ) -> (result: Result<(), Error>)
        requires
            old(self).wf(),
        ensures
            final(self).wf(),
            (final(self)@, result) == old(self)@.remove_creator_from_account(
                bytes_63(creator_id),
                account,
            ),
    {
        let ghost before = self@;
        let ghost key = bytes_63(creator_id);
        let ghost held_before = self.creator_ids_for_account@;
        if self.ensure_account_owns_creator(&account, &creator_id).is_err() {
            return Err(Error::NotOwner);
        }
        let minted_nothing = match self.launch_token_ids_for_creator.get(&creator_id) {
            Some(ids) => ids.len() == 0,
            None => true,
        };
        if minted_nothing {
            let _ = self.creators.remove(&creator_id);
        } else {
            let mut creator = Creator::new(clone_bytes_63(&creator_id), account);
            creator.disconnect();
            self.creators.insert(clone_bytes_63(&creator_id), creator);
        }
        let mut ids = take_index(&mut self.creator_ids_for_account, account);
        let ghost ids_before = ids@;
        remove_creator_id(&mut ids, &creator_id);
        put_index(&mut self.creator_ids_for_account, account, ids);
        proof {
            let after = before.remove_creator_from_account(key, account).0;
            assert(creator_id_bytes(ids_before) == before.creator_ids_of(account));
            assert(creator_id_bytes(ids@) == without_first(before.creator_ids_of(account), key));
            assert(self@.creators =~= after.creators);
            assert(self@.creator_ids_for_account =~= after.creator_ids_for_account);
            before.lemma_remove_creator_from_account(key, account);
        }
        Ok(())
    }

    /// Get creator owner if creator exists and has not been disconnected.
    pub fn get_creator_owner(&self, creator_id: &CreatorId) -> (owner: Option<AccountId>)
        requires
            self.wf(),
        ensures
            owner == self@.creator_owner(bytes_63(*creator_id)),
    {
        match self.creators.get(creator_id) {
            Some(creator) => creator.owner,
            None => None,
        }
    }

    /// Ensure account owns creator account.
    pub fn ensure_account_owns_creator(
        &self,
        account: &AccountId,
        creator_id: &CreatorId,
    ) -> (result: Result<(), Error>)
        requires
            self.wf(),
        ensures
            result == self@.ensure_account_owns_creator(*account, bytes_63(*creator_id)),
    {
        let owns = match self.creators.get(creator_id) {
            Some(creator) => match creator.owner {
                Some(owner) => owner == *account,
                None => false,
            },
            None => false,
        };
        if owns {
            Ok(())
        } else {
            Err(Error::NotOwner)
        }
    }
}

} // verus!
