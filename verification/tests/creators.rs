use fanbase::{Creator, CreatorId, Error, Event, LaunchTokenMetadata, Outcome, Pallet};

fn creator_id(name: &[u8]) -> CreatorId {
    CreatorId::try_from(name.to_vec()).unwrap()
}

fn metadata(supply: u32) -> LaunchTokenMetadata {
    LaunchTokenMetadata {
        name: Default::default(),
        mime_type: Default::default(),
        metadata_uri: Default::default(),
        supply,
    }
}

fn sorted(mut ids: Vec<CreatorId>) -> Vec<Vec<u8>> {
    let mut bytes: Vec<Vec<u8>> = ids.drain(..).map(|id| id.into_inner()).collect();
    bytes.sort();
    bytes
}

#[test]
fn new_ledger_is_empty() {
    let pallet = Pallet::<2, 2, 2>::new();
    assert_eq!(pallet.creators(&creator_id(b"alice")), None);
    assert_eq!(pallet.launch_tokens(1), None);
    assert_eq!(pallet.tokens(1), None);
    assert!(pallet.creator_ids_for_account(&1).is_empty());
    assert!(pallet.launch_token_ids_for_creator(&creator_id(b"alice")).is_empty());
    assert!(pallet.token_ids_for_account(&1).is_empty());
    assert_eq!(pallet.launch_issuance_nonce(), 0);
    assert_eq!(pallet.issuance_nonce(), 0);
}

#[test]
fn add_new_creator_records_creator_and_index() {
    let mut pallet = Pallet::<2, 2, 2>::new();
    assert_eq!(pallet.add_new_creator_to_account(creator_id(b"alice"), 1), Ok(()));
    assert_eq!(
        pallet.creators(&creator_id(b"alice")),
        Some(Creator { id: creator_id(b"alice"), owner: Some(1) })
    );
    assert_eq!(pallet.creator_ids_for_account(&1), vec![creator_id(b"alice")]);
    assert!(pallet.creator_ids_for_account(&2).is_empty());
}

#[test]
fn add_new_creator_refuses_taken_id() {
    let mut pallet = Pallet::<2, 2, 2>::new();
    assert_eq!(pallet.add_new_creator_to_account(creator_id(b"alice"), 1), Ok(()));
    assert_eq!(
        pallet.add_new_creator_to_account(creator_id(b"alice"), 2),
        Err(Error::CreatorAccountTaken)
    );
    assert_eq!(
        pallet.add_new_creator_to_account(creator_id(b"alice"), 1),
        Err(Error::CreatorAccountTaken)
    );
    assert_eq!(pallet.creators(&creator_id(b"alice")).unwrap().owner, Some(1));
    assert!(pallet.creator_ids_for_account(&2).is_empty());
    assert_eq!(pallet.creator_ids_for_account(&1).len(), 1);
}

#[test]
fn ids_that_differ_in_one_byte_are_different_creators() {
    let mut pallet = Pallet::<2, 2, 2>::new();
    assert_eq!(pallet.add_new_creator_to_account(creator_id(b"alice"), 1), Ok(()));
    assert_eq!(pallet.add_new_creator_to_account(creator_id(b"alicf"), 2), Ok(()));
    assert_eq!(pallet.creators(&creator_id(b"alice")).unwrap().owner, Some(1));
    assert_eq!(pallet.creators(&creator_id(b"alicf")).unwrap().owner, Some(2));
    assert_eq!(pallet.creators(&creator_id(b"alic")), None);
    assert_eq!(pallet.ensure_account_owns_creator(&1, &creator_id(b"alicf")), Err(Error::NotOwner));
}

#[test]
fn creator_capacity_is_enforced() {
    let mut pallet = Pallet::<2, 2, 2>::new();
    assert_eq!(pallet.add_new_creator_to_account(creator_id(b"a"), 1), Ok(()));
    assert_eq!(pallet.add_new_creator_to_account(creator_id(b"b"), 1), Ok(()));
    let before = pallet.creator_ids_for_account(&1);
    assert_eq!(
        pallet.add_new_creator_to_account(creator_id(b"c"), 1),
        Err(Error::MaxCreatorAccountsReached)
    );
    assert_eq!(pallet.creator_ids_for_account(&1), before);
    assert_eq!(pallet.creators(&creator_id(b"c")), None);
    // another account is not affected by the first one's limit
    assert_eq!(pallet.add_new_creator_to_account(creator_id(b"c"), 2), Ok(()));
}

#[test]
fn creator_capacity_of_zero_refuses_everything() {
    let mut pallet = Pallet::<0, 2, 2>::new();
    assert_eq!(
        pallet.add_new_creator_to_account(creator_id(b"a"), 1),
        Err(Error::MaxCreatorAccountsReached)
    );
    assert_eq!(pallet.creators(&creator_id(b"a")), None);
    assert!(pallet.creator_ids_for_account(&1).is_empty());
}

#[test]
fn taken_id_is_reported_before_full_index() {
    let mut pallet = Pallet::<1, 2, 2>::new();
    assert_eq!(pallet.add_new_creator_to_account(creator_id(b"a"), 1), Ok(()));
    assert_eq!(
        pallet.add_new_creator_to_account(creator_id(b"a"), 1),
        Err(Error::CreatorAccountTaken)
    );
}

#[test]
fn ensure_account_owns_creator_tells_owner_from_others() {
    let mut pallet = Pallet::<2, 2, 2>::new();
    assert_eq!(pallet.add_new_creator_to_account(creator_id(b"alice"), 1), Ok(()));
    assert_eq!(pallet.ensure_account_owns_creator(&1, &creator_id(b"alice")), Ok(()));
    assert_eq!(pallet.ensure_account_owns_creator(&2, &creator_id(b"alice")), Err(Error::NotOwner));
    assert_eq!(pallet.ensure_account_owns_creator(&1, &creator_id(b"bob")), Err(Error::NotOwner));
}

#[test]
fn remove_creator_without_launch_tokens_removes_the_record() {
    let mut pallet = Pallet::<2, 2, 2>::new();
    assert_eq!(pallet.add_new_creator_to_account(creator_id(b"alice"), 1), Ok(()));
    assert_eq!(pallet.remove_creator_from_account(creator_id(b"alice"), 1), Ok(()));
    assert_eq!(pallet.creators(&creator_id(b"alice")), None);
    assert!(pallet.creator_ids_for_account(&1).is_empty());
    // the id is free again
    assert_eq!(pallet.add_new_creator_to_account(creator_id(b"alice"), 2), Ok(()));
    assert_eq!(pallet.creators(&creator_id(b"alice")).unwrap().owner, Some(2));
}

#[test]
fn remove_creator_with_launch_tokens_disconnects_it() {
    let mut pallet = Pallet::<2, 2, 2>::new();
    assert_eq!(pallet.add_new_creator_to_account(creator_id(b"alice"), 1), Ok(()));
    assert_eq!(pallet.unchecked_mint(creator_id(b"alice"), 10, metadata(2)), Ok(1));
    assert_eq!(pallet.remove_creator_from_account(creator_id(b"alice"), 1), Ok(()));
    assert_eq!(
        pallet.creators(&creator_id(b"alice")),
        Some(Creator { id: creator_id(b"alice"), owner: None })
    );
    assert!(pallet.creator_ids_for_account(&1).is_empty());
    assert_eq!(pallet.launch_tokens(1).unwrap().creator, creator_id(b"alice"));
    assert_eq!(pallet.get_launch_token_owner(&1), None);
    // the id stays reserved, and nobody owns it
    assert_eq!(
        pallet.add_new_creator_to_account(creator_id(b"alice"), 1),
        Err(Error::CreatorAccountTaken)
    );
    assert_eq!(pallet.ensure_account_owns_creator(&1, &creator_id(b"alice")), Err(Error::NotOwner));
    assert_eq!(
        pallet.remove_creator_from_account(creator_id(b"alice"), 1),
        Err(Error::NotOwner)
    );
}

#[test]
fn remove_creator_refuses_who_does_not_own_it() {
    let mut pallet = Pallet::<2, 2, 2>::new();
    assert_eq!(pallet.add_new_creator_to_account(creator_id(b"alice"), 1), Ok(()));
    assert_eq!(
        pallet.remove_creator_from_account(creator_id(b"alice"), 2),
        Err(Error::NotOwner)
    );
    assert_eq!(pallet.remove_creator_from_account(creator_id(b"bob"), 1), Err(Error::NotOwner));
    assert_eq!(pallet.creators(&creator_id(b"alice")).unwrap().owner, Some(1));
    assert_eq!(pallet.creator_ids_for_account(&1), vec![creator_id(b"alice")]);
}

#[test]
fn remove_creator_swaps_the_last_id_into_its_place() {
    let mut pallet = Pallet::<3, 2, 2>::new();
    assert_eq!(pallet.add_new_creator_to_account(creator_id(b"a"), 1), Ok(()));
    assert_eq!(pallet.add_new_creator_to_account(creator_id(b"b"), 1), Ok(()));
    assert_eq!(pallet.add_new_creator_to_account(creator_id(b"c"), 1), Ok(()));
    assert_eq!(pallet.remove_creator_from_account(creator_id(b"a"), 1), Ok(()));
    assert_eq!(pallet.creator_ids_for_account(&1), vec![creator_id(b"c"), creator_id(b"b")]);
    assert_eq!(sorted(pallet.creator_ids_for_account(&1)), vec![b"b".to_vec(), b"c".to_vec()]);
    // a place is free again
    assert_eq!(pallet.add_new_creator_to_account(creator_id(b"d"), 1), Ok(()));
    assert_eq!(
        pallet.add_new_creator_to_account(creator_id(b"e"), 1),
        Err(Error::MaxCreatorAccountsReached)
    );
}

#[test]
fn create_account_reports_new_creator() {
    let mut pallet = Pallet::<1, 2, 2>::new();
    assert_eq!(
        pallet.create_account(1, creator_id(b"alice")),
        Ok(Outcome { event: Event::NewCreator, payment: None })
    );
    assert_eq!(pallet.creators(&creator_id(b"alice")).unwrap().owner, Some(1));
    assert_eq!(pallet.create_account(2, creator_id(b"alice")), Err(Error::CreatorAccountTaken));
    assert_eq!(
        pallet.create_account(1, creator_id(b"bob")),
        Err(Error::MaxCreatorAccountsReached)
    );
}

#[test]
fn drop_account_reports_dropped_creator() {
    let mut pallet = Pallet::<1, 2, 2>::new();
    assert_eq!(pallet.create_account(1, creator_id(b"alice")).map(|o| o.event), Ok(Event::NewCreator));
    assert_eq!(pallet.drop_account(2, creator_id(b"alice")), Err(Error::NotOwner));
    assert_eq!(
        pallet.drop_account(1, creator_id(b"alice")),
        Ok(Outcome { event: Event::DroppedCreator, payment: None })
    );
    assert_eq!(pallet.drop_account(1, creator_id(b"alice")), Err(Error::NotOwner));
}

#[test]
fn drop_account_without_launch_tokens_leaves_no_owner() {
    let mut pallet = Pallet::<2, 2, 2>::new();
    assert!(pallet.create_account(1, creator_id(b"alice")).is_ok());
    assert!(pallet.drop_account(1, creator_id(b"alice")).is_ok());
    assert_eq!(pallet.creators(&creator_id(b"alice")), None);
    assert_eq!(pallet.get_creator_owner(&creator_id(b"alice")), None);
    assert_eq!(pallet.get_launch_token_owner(&1), None);
}

#[test]
fn creator_owner_is_none_for_unknown_and_disconnected_creators() {
    let mut pallet = Pallet::<2, 2, 2>::new();
    assert_eq!(pallet.get_creator_owner(&creator_id(b"alice")), None);
    assert!(pallet.create_account(1, creator_id(b"alice")).is_ok());
    assert!(pallet.create_account(1, creator_id(b"bob")).is_ok());
    assert_eq!(pallet.get_creator_owner(&creator_id(b"alice")), Some(1));
    assert_eq!(pallet.unchecked_mint(creator_id(b"bob"), 10, metadata(2)), Ok(1));
    assert!(pallet.drop_account(1, creator_id(b"alice")).is_ok());
    assert!(pallet.drop_account(1, creator_id(b"bob")).is_ok());
    // removed for good
    assert_eq!(pallet.get_creator_owner(&creator_id(b"alice")), None);
    assert_eq!(pallet.creators(&creator_id(b"alice")), None);
    // kept without owner
    assert_eq!(pallet.get_creator_owner(&creator_id(b"bob")), None);
    assert!(pallet.creators(&creator_id(b"bob")).is_some());
}
