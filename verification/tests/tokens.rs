use fanbase::{
    CreatorId, Error, LaunchToken, LaunchTokenMetadata, MetatataUri, MimeType, Pallet, Token,
    TokenName,
};

fn creator_id(name: &[u8]) -> CreatorId {
    CreatorId::try_from(name.to_vec()).unwrap()
}

fn metadata(supply: u32) -> LaunchTokenMetadata {
    LaunchTokenMetadata {
        name: TokenName::try_from(b"first edition".to_vec()).unwrap(),
        mime_type: MimeType::try_from(b"image/png".to_vec()).unwrap(),
        metadata_uri: MetatataUri::try_from(b"ipfs://edition".to_vec()).unwrap(),
        supply,
    }
}

/// Account 1 owns creator "alice".
fn with_alice<const C: u32, const L: u32, const T: u32>() -> Pallet<C, L, T> {
    let mut pallet = Pallet::<C, L, T>::new();
    assert_eq!(pallet.add_new_creator_to_account(creator_id(b"alice"), 1), Ok(()));
    pallet
}

#[test]
fn mint_records_the_launch_token() {
    let mut pallet = with_alice::<2, 2, 2>();
    assert_eq!(pallet.unchecked_mint(creator_id(b"alice"), 10, metadata(5)), Ok(1));
    assert_eq!(
        pallet.launch_tokens(1),
        Some(LaunchToken::new(1, creator_id(b"alice"), 10, metadata(5)))
    );
    assert_eq!(pallet.launch_token_ids_for_creator(&creator_id(b"alice")), vec![1]);
    assert_eq!(pallet.launch_issuance_nonce(), 1);
    assert_eq!(pallet.issuance_nonce(), 0);
    assert_eq!(pallet.get_launch_token_owner(&1), Some(1));
}

#[test]
fn minted_ids_increase_across_failed_calls() {
    let mut pallet = with_alice::<2, 2, 2>();
    assert_eq!(pallet.add_new_creator_to_account(creator_id(b"bob"), 2), Ok(()));
    assert_eq!(pallet.unchecked_mint(creator_id(b"alice"), 10, metadata(5)), Ok(1));
    assert_eq!(pallet.unchecked_mint(creator_id(b"alice"), 10, metadata(5)), Ok(2));
    assert_eq!(
        pallet.unchecked_mint(creator_id(b"alice"), 10, metadata(5)),
        Err(Error::MaxLaunchTokensReached)
    );
    assert_eq!(pallet.mint(2, creator_id(b"alice"), 10, metadata(5)), Err(Error::NotOwner));
    assert_eq!(pallet.unchecked_mint(creator_id(b"bob"), 10, metadata(5)), Ok(3));
    assert_eq!(pallet.launch_issuance_nonce(), 3);
}

#[test]
fn refused_mint_leaves_no_trace() {
    let mut pallet = with_alice::<2, 1, 2>();
    assert_eq!(pallet.unchecked_mint(creator_id(b"alice"), 10, metadata(5)), Ok(1));
    assert_eq!(
        pallet.unchecked_mint(creator_id(b"alice"), 20, metadata(7)),
        Err(Error::MaxLaunchTokensReached)
    );
    assert_eq!(pallet.launch_issuance_nonce(), 1);
    assert_eq!(pallet.launch_tokens(2), None);
    assert_eq!(pallet.launch_token_ids_for_creator(&creator_id(b"alice")), vec![1]);
    assert_eq!(pallet.launch_tokens(1).unwrap().price, 10);
}

#[test]
fn mint_fails_when_no_id_is_left() {
    let mut pallet = Pallet::<2, 2, 2>::starting_at(u128::MAX, 0);
    assert_eq!(pallet.add_new_creator_to_account(creator_id(b"alice"), 1), Ok(()));
    assert_eq!(
        pallet.unchecked_mint(creator_id(b"alice"), 10, metadata(5)),
        Err(Error::LaunchTokensOverflow)
    );
    assert_eq!(pallet.launch_issuance_nonce(), u128::MAX);
    assert!(pallet.launch_token_ids_for_creator(&creator_id(b"alice")).is_empty());
}

#[test]
fn mint_uses_the_last_id() {
    let mut pallet = Pallet::<2, 2, 2>::starting_at(u128::MAX - 1, 0);
    assert_eq!(pallet.add_new_creator_to_account(creator_id(b"alice"), 1), Ok(()));
    assert_eq!(pallet.unchecked_mint(creator_id(b"alice"), 10, metadata(5)), Ok(u128::MAX));
    assert_eq!(
        pallet.unchecked_mint(creator_id(b"alice"), 10, metadata(5)),
        Err(Error::LaunchTokensOverflow)
    );
}

#[test]
fn launch_transfer_issues_a_token() {
    let mut pallet = with_alice::<2, 2, 2>();
    assert_eq!(pallet.unchecked_mint(creator_id(b"alice"), 10, metadata(5)), Ok(1));
    assert_eq!(pallet.unchecked_launch_transfer(&7, &1), Ok(1));
    let launch = pallet.launch_tokens(1).unwrap();
    assert_eq!(launch.issued, 1);
    assert_eq!(launch.supply, 5);
    assert_eq!(launch.destroyed, 0);
    assert_eq!(
        pallet.tokens(1),
        Some(Token::new(7, 1, LaunchToken::new(1, creator_id(b"alice"), 10, metadata(5))))
    );
    assert_eq!(pallet.tokens(1).unwrap().price, None);
    assert_eq!(pallet.tokens(1).unwrap().name, metadata(5).name);
    assert_eq!(pallet.token_ids_for_account(&7), vec![1]);
    assert_eq!(pallet.issuance_nonce(), 1);
    assert_eq!(pallet.launch_issuance_nonce(), 1);
}

#[test]
fn issued_counts_successful_issues() {
    let mut pallet = with_alice::<2, 2, 2>();
    assert_eq!(pallet.unchecked_mint(creator_id(b"alice"), 10, metadata(3)), Ok(1));
    assert_eq!(pallet.unchecked_launch_transfer(&7, &1), Ok(1));
    assert_eq!(pallet.launch_tokens(1).unwrap().issued, 1);
    assert_eq!(pallet.unchecked_launch_transfer(&7, &1), Ok(2));
    assert_eq!(pallet.launch_tokens(1).unwrap().issued, 2);
    // account 7 is full: the failed issue is not counted
    assert_eq!(pallet.unchecked_launch_transfer(&7, &1), Err(Error::MaxTokensReached));
    assert_eq!(pallet.launch_tokens(1).unwrap().issued, 2);
    assert_eq!(pallet.unchecked_launch_transfer(&8, &1), Ok(3));
    assert_eq!(pallet.launch_tokens(1).unwrap().issued, 3);
    assert_eq!(pallet.unchecked_launch_transfer(&8, &1), Err(Error::TokenSoldOut));
    assert_eq!(pallet.launch_tokens(1).unwrap().issued, 3);
    assert_eq!(pallet.issuance_nonce(), 3);
}

#[test]
fn launch_transfer_errors_come_in_order() {
    // no id left comes before an unknown launch token
    let mut pallet = Pallet::<2, 2, 1>::starting_at(0, u128::MAX);
    assert_eq!(pallet.unchecked_launch_transfer(&7, &1), Err(Error::TokensOverflow));
    assert_eq!(pallet.add_new_creator_to_account(creator_id(b"alice"), 1), Ok(()));
    assert_eq!(pallet.unchecked_mint(creator_id(b"alice"), 10, metadata(1)), Ok(1));
    assert_eq!(pallet.unchecked_launch_transfer(&7, &1), Err(Error::TokensOverflow));
    assert_eq!(pallet.launch_tokens(1).unwrap().issued, 0);

    // an unknown launch token comes before everything else
    let mut pallet = with_alice::<2, 2, 1>();
    assert_eq!(pallet.unchecked_launch_transfer(&7, &1), Err(Error::TokenNotFound));
    assert_eq!(pallet.unchecked_mint(creator_id(b"alice"), 10, metadata(1)), Ok(1));
    assert_eq!(pallet.unchecked_launch_transfer(&7, &1), Ok(1));
    // sold out comes before a full account
    assert_eq!(pallet.unchecked_launch_transfer(&7, &1), Err(Error::TokenSoldOut));
    assert_eq!(pallet.unchecked_mint(creator_id(b"alice"), 10, metadata(1)), Ok(2));
    assert_eq!(pallet.unchecked_launch_transfer(&7, &2), Err(Error::MaxTokensReached));
    assert_eq!(pallet.issuance_nonce(), 1);
    assert_eq!(pallet.tokens(2), None);
}

#[test]
fn launch_with_no_supply_is_sold_out() {
    let mut pallet = with_alice::<2, 2, 2>();
    assert_eq!(pallet.unchecked_mint(creator_id(b"alice"), 10, metadata(0)), Ok(1));
    assert_eq!(pallet.unchecked_launch_transfer(&7, &1), Err(Error::TokenSoldOut));
    assert_eq!(pallet.issuance_nonce(), 0);
    assert!(pallet.token_ids_for_account(&7).is_empty());
}

#[test]
fn transfer_moves_the_token_between_indices() {
    let mut pallet = with_alice::<2, 2, 3>();
    assert_eq!(pallet.unchecked_mint(creator_id(b"alice"), 10, metadata(5)), Ok(1));
    assert_eq!(pallet.unchecked_launch_transfer(&7, &1), Ok(1));
    assert_eq!(pallet.unchecked_launch_transfer(&7, &1), Ok(2));
    assert_eq!(pallet.unchecked_launch_transfer(&7, &1), Ok(3));
    assert_eq!(pallet.unchecked_transfer(&7, &8, &1), Ok(()));
    assert_eq!(pallet.tokens(1).unwrap().owner, 8);
    assert_eq!(pallet.token_ids_for_account(&8), vec![1]);
    // the last id took the place of the one removed
    assert_eq!(pallet.token_ids_for_account(&7), vec![3, 2]);
    assert_eq!(pallet.ensure_account_owns_token(&8, &1), Ok(()));
    assert_eq!(pallet.ensure_account_owns_token(&7, &1), Err(Error::NotOwner));
    assert_eq!(pallet.launch_tokens(1).unwrap().issued, 3);
}

#[test]
fn transfer_of_the_only_token_empties_the_index() {
    let mut pallet = with_alice::<2, 2, 3>();
    assert_eq!(pallet.unchecked_mint(creator_id(b"alice"), 10, metadata(5)), Ok(1));
    assert_eq!(pallet.unchecked_launch_transfer(&7, &1), Ok(1));
    assert_eq!(pallet.unchecked_transfer(&7, &8, &1), Ok(()));
    assert!(pallet.token_ids_for_account(&7).is_empty());
    assert_eq!(pallet.token_ids_for_account(&8), vec![1]);
    assert_eq!(pallet.unchecked_transfer(&8, &7, &1), Ok(()));
    assert_eq!(pallet.token_ids_for_account(&7), vec![1]);
    assert!(pallet.token_ids_for_account(&8).is_empty());
}

#[test]
fn transfer_fails_for_unknown_token_and_full_receiver() {
    let mut pallet = with_alice::<2, 2, 1>();
    assert_eq!(pallet.unchecked_transfer(&7, &8, &1), Err(Error::TokenNotFound));
    assert_eq!(pallet.unchecked_mint(creator_id(b"alice"), 10, metadata(5)), Ok(1));
    assert_eq!(pallet.unchecked_launch_transfer(&7, &1), Ok(1));
    assert_eq!(pallet.unchecked_launch_transfer(&8, &1), Ok(2));
    assert_eq!(pallet.unchecked_transfer(&7, &8, &1), Err(Error::MaxTokensReached));
    assert_eq!(pallet.tokens(1).unwrap().owner, 7);
    assert_eq!(pallet.token_ids_for_account(&7), vec![1]);
    assert_eq!(pallet.token_ids_for_account(&8), vec![2]);
}

#[test]
fn transfer_to_the_owner_changes_nothing() {
    let mut pallet = with_alice::<2, 2, 3>();
    assert_eq!(pallet.unchecked_mint(creator_id(b"alice"), 10, metadata(5)), Ok(1));
    assert_eq!(pallet.unchecked_launch_transfer(&7, &1), Ok(1));
    assert_eq!(pallet.unchecked_launch_transfer(&7, &1), Ok(2));
    assert_eq!(pallet.unchecked_transfer(&7, &7, &1), Ok(()));
    assert_eq!(pallet.token_ids_for_account(&7), vec![1, 2]);
    assert_eq!(pallet.tokens(1).unwrap().owner, 7);
    // with a full index there is no room for the id to enter before it leaves
    assert_eq!(pallet.unchecked_launch_transfer(&7, &1), Ok(3));
    assert_eq!(pallet.unchecked_transfer(&7, &7, &1), Err(Error::MaxTokensReached));
    assert_eq!(pallet.token_ids_for_account(&7), vec![1, 2, 3]);
}

#[test]
fn set_launch_price_overwrites() {
    let mut pallet = with_alice::<2, 2, 2>();
    assert_eq!(pallet.unchecked_set_launch_price(&1, 30), Err(Error::TokenNotFound));
    assert_eq!(pallet.unchecked_mint(creator_id(b"alice"), 10, metadata(5)), Ok(1));
    assert_eq!(pallet.unchecked_set_launch_price(&1, 30), Ok(()));
    let mut expected = LaunchToken::new(1, creator_id(b"alice"), 10, metadata(5));
    expected.price = 30;
    assert_eq!(pallet.launch_tokens(1), Some(expected));
    assert_eq!(pallet.unchecked_set_launch_price(&1, 0), Ok(()));
    assert_eq!(pallet.launch_tokens(1).unwrap().price, 0);
}

#[test]
fn set_price_overwrites_and_clears() {
    let mut pallet = with_alice::<2, 2, 2>();
    assert_eq!(pallet.unchecked_set_price(&1, Some(5)), Err(Error::TokenNotFound));
    assert_eq!(pallet.get_token_price(&1), None);
    assert_eq!(pallet.unchecked_mint(creator_id(b"alice"), 10, metadata(5)), Ok(1));
    assert_eq!(pallet.unchecked_launch_transfer(&7, &1), Ok(1));
    assert_eq!(pallet.get_token_price(&1), None);
    assert_eq!(pallet.unchecked_set_price(&1, Some(5)), Ok(()));
    assert_eq!(pallet.get_token_price(&1), Some(5));
    assert_eq!(pallet.unchecked_set_price(&1, Some(6)), Ok(()));
    assert_eq!(pallet.get_token_price(&1), Some(6));
    assert_eq!(pallet.tokens(1).unwrap().owner, 7);
    assert_eq!(pallet.unchecked_set_price(&1, None), Ok(()));
    assert_eq!(pallet.get_token_price(&1), None);
}

#[test]
fn burn_removes_the_token_and_shrinks_supply() {
    let mut pallet = with_alice::<2, 2, 3>();
    assert_eq!(pallet.unchecked_mint(creator_id(b"alice"), 10, metadata(2)), Ok(1));
    assert_eq!(pallet.unchecked_launch_transfer(&7, &1), Ok(1));
    assert_eq!(pallet.unchecked_launch_transfer(&7, &1), Ok(2));
    assert_eq!(pallet.unchecked_burn(&1), Ok(()));
    assert_eq!(pallet.tokens(1), None);
    assert_eq!(pallet.token_ids_for_account(&7), vec![2]);
    let launch = pallet.launch_tokens(1).unwrap();
    assert_eq!(launch.supply, 1);
    assert_eq!(launch.destroyed, 1);
    assert_eq!(launch.issued, 2);
    assert_eq!(launch.total_supply(), 2);
    // destroying frees no capacity
    assert_eq!(pallet.unchecked_launch_transfer(&7, &1), Err(Error::TokenSoldOut));
    // and is final
    assert_eq!(pallet.unchecked_burn(&1), Err(Error::TokenNotFound));
    assert_eq!(pallet.launch_tokens(1).unwrap().destroyed, 1);
    assert_eq!(pallet.issuance_nonce(), 2);
}

#[test]
fn burn_of_every_token_leaves_no_supply() {
    let mut pallet = with_alice::<2, 2, 3>();
    assert_eq!(pallet.unchecked_mint(creator_id(b"alice"), 10, metadata(2)), Ok(1));
    assert_eq!(pallet.unchecked_launch_transfer(&7, &1), Ok(1));
    assert_eq!(pallet.unchecked_launch_transfer(&8, &1), Ok(2));
    assert_eq!(pallet.unchecked_burn(&2), Ok(()));
    assert_eq!(pallet.unchecked_burn(&1), Ok(()));
    let launch = pallet.launch_tokens(1).unwrap();
    assert_eq!((launch.supply, launch.issued, launch.destroyed), (0, 2, 2));
    assert!(pallet.token_ids_for_account(&7).is_empty());
    assert!(pallet.token_ids_for_account(&8).is_empty());
}

#[test]
fn ensure_creator_owns_launch_token_tells_creator_from_others() {
    let mut pallet = with_alice::<2, 2, 2>();
    assert_eq!(pallet.add_new_creator_to_account(creator_id(b"bob"), 1), Ok(()));
    assert_eq!(pallet.unchecked_mint(creator_id(b"alice"), 10, metadata(2)), Ok(1));
    assert_eq!(pallet.ensure_creator_owns_launch_token(&creator_id(b"alice"), &1), Ok(()));
    assert_eq!(
        pallet.ensure_creator_owns_launch_token(&creator_id(b"bob"), &1),
        Err(Error::NotOwner)
    );
    assert_eq!(
        pallet.ensure_creator_owns_launch_token(&creator_id(b"alice"), &2),
        Err(Error::NotOwner)
    );
}

#[test]
fn ensure_account_owns_token_tells_owner_from_others() {
    let mut pallet = with_alice::<2, 2, 2>();
    assert_eq!(pallet.ensure_account_owns_token(&7, &1), Err(Error::NotOwner));
    assert_eq!(pallet.unchecked_mint(creator_id(b"alice"), 10, metadata(2)), Ok(1));
    assert_eq!(pallet.unchecked_launch_transfer(&7, &1), Ok(1));
    assert_eq!(pallet.ensure_account_owns_token(&7, &1), Ok(()));
    assert_eq!(pallet.ensure_account_owns_token(&1, &1), Err(Error::NotOwner));
}

#[test]
fn launch_token_owner_follows_the_creator() {
    let mut pallet = with_alice::<2, 2, 2>();
    assert_eq!(pallet.get_launch_token_owner(&1), None);
    assert_eq!(pallet.unchecked_mint(creator_id(b"alice"), 10, metadata(2)), Ok(1));
    assert_eq!(pallet.get_launch_token_owner(&1), Some(1));
    assert_eq!(pallet.get_launch_token_owner(&2), None);
    assert_eq!(pallet.remove_creator_from_account(creator_id(b"alice"), 1), Ok(()));
    assert_eq!(pallet.get_launch_token_owner(&1), None);
}

#[test]
fn mint_for_a_creator_that_was_never_created() {
    let mut pallet = Pallet::<2, 2, 2>::new();
    assert_eq!(pallet.unchecked_mint(creator_id(b"ghost"), 10, metadata(2)), Ok(1));
    assert_eq!(pallet.get_launch_token_owner(&1), None);
    assert_eq!(pallet.launch_token_ids_for_creator(&creator_id(b"ghost")), vec![1]);
    assert_eq!(pallet.creators(&creator_id(b"ghost")), None);
}

#[test]
fn next_ids_follow_the_counters_without_moving_them() {
    let mut pallet = with_alice::<2, 2, 2>();
    assert_eq!(pallet.next_launch_token_id(), Ok(1));
    assert_eq!(pallet.next_launch_token_id(), Ok(1));
    assert_eq!(pallet.next_token_id(), Ok(1));
    assert_eq!(pallet.launch_issuance_nonce(), 0);
    assert_eq!(pallet.issuance_nonce(), 0);
    assert_eq!(pallet.unchecked_mint(creator_id(b"alice"), 10, metadata(5)), Ok(1));
    assert_eq!(pallet.next_launch_token_id(), Ok(2));
    assert_eq!(pallet.next_token_id(), Ok(1));
    assert_eq!(pallet.unchecked_launch_transfer(&7, &1), Ok(1));
    assert_eq!(pallet.next_token_id(), Ok(2));
}

#[test]
fn next_ids_fail_at_the_last_id() {
    let pallet = Pallet::<2, 2, 2>::starting_at(u128::MAX, u128::MAX - 1);
    assert_eq!(pallet.next_launch_token_id(), Err(Error::LaunchTokensOverflow));
    assert_eq!(pallet.next_token_id(), Ok(u128::MAX));
    let pallet = Pallet::<2, 2, 2>::starting_at(41, u128::MAX);
    assert_eq!(pallet.next_launch_token_id(), Ok(42));
    assert_eq!(pallet.next_token_id(), Err(Error::TokensOverflow));
}

#[test]
fn token_owner_is_who_holds_it() {
    let mut pallet = with_alice::<2, 2, 2>();
    assert_eq!(pallet.get_token_owner(&1), None);
    assert_eq!(pallet.unchecked_mint(creator_id(b"alice"), 10, metadata(5)), Ok(1));
    assert_eq!(pallet.unchecked_launch_transfer(&7, &1), Ok(1));
    assert_eq!(pallet.get_token_owner(&1), Some(7));
    assert_eq!(pallet.unchecked_transfer(&7, &8, &1), Ok(()));
    assert_eq!(pallet.get_token_owner(&1), Some(8));
    assert_eq!(pallet.unchecked_burn(&1), Ok(()));
    assert_eq!(pallet.get_token_owner(&1), None);
}
