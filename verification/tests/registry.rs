use std::str::FromStr;

use movie_review::instructions::{mint_address, review_address};
use movie_review::{
    Mint, MintTo, MovieReviewError, Pubkey, Refund, Registry, RegistryError, TokenAccount,
};

fn key(byte: u8) -> Pubkey {
    Pubkey::new_from_array([byte; 32])
}

fn program_id() -> Pubkey {
    let id = anchor_lang::prelude::Pubkey::from_str("4fKehYqNQMRoLfGLNRQjwJWs3sZA1xTGM7QSD7mLaZmM")
        .unwrap();
    Pubkey::new_from_array(id.to_bytes())
}

fn with_mint() -> Registry {
    let mut registry = Registry::new(program_id());
    assert_eq!(registry.initialize_mint_authority(key(100)), Ok(()));
    registry
}

fn create(
    registry: &mut Registry,
    who: Pubkey,
    title: &str,
    rating: u8,
) -> Result<MintTo, RegistryError> {
    registry.create_review(who, title.to_string(), "Great film".to_string(), rating)
}

#[test]
fn new_registry_is_empty() {
    let registry = Registry::new(program_id());
    assert_eq!(registry.program_id(), program_id());
    assert_eq!(registry.mint(), None);
    assert_eq!(registry.len(), 0);
    assert!(registry.review("Up", &key(1)).is_none());
    assert!(registry.review_at(&key(1)).is_none());
}

#[test]
fn mint_is_initialized_with_six_decimals_as_its_own_authority() {
    let mut registry = Registry::new(program_id());
    assert_eq!(registry.initialize_mint_authority(key(100)), Ok(()));
    let (address, bump) = mint_address(&program_id()).unwrap();
    assert_eq!(
        registry.mint(),
        Some(Mint { address, bump, decimals: 6, mint_authority: address })
    );
    assert_eq!(registry.len(), 0);
}

#[test]
fn mint_is_initialized_once() {
    let mut registry = Registry::new(program_id());
    assert_eq!(registry.initialize_mint_authority(key(100)), Ok(()));
    let mint = registry.mint();
    let taken = Err(RegistryError::AccountAlreadyInUse);
    assert_eq!(registry.initialize_mint_authority(key(100)), taken);
    assert_eq!(registry.initialize_mint_authority(key(101)), taken);
    assert_eq!(registry.mint(), mint);
}

#[test]
fn mint_is_initialized_once_wherever_it_is_to_live() {
    let mut registry = Registry::new(program_id());
    assert_eq!(registry.initialize_mint_authority_at(key(50), 7, key(100)), Ok(()));
    assert_eq!(
        registry.initialize_mint_authority_at(key(51), 8, key(100)),
        Err(RegistryError::AccountAlreadyInUse)
    );
    assert_eq!(
        registry.mint(),
        Some(Mint { address: key(50), bump: 7, decimals: 6, mint_authority: key(50) })
    );
}

#[test]
fn review_needs_a_mint() {
    let mut registry = Registry::new(program_id());
    assert_eq!(create(&mut registry, key(1), "Up", 5), Err(RegistryError::AccountNotInitialized));
    assert_eq!(create(&mut registry, key(1), "Up", 0), Err(RegistryError::AccountNotInitialized));
    assert_eq!(registry.len(), 0);
    assert_eq!(registry.initialize_mint_authority(key(100)), Ok(()));
    assert!(create(&mut registry, key(1), "Up", 5).is_ok());
}

#[test]
fn create_mints_the_reward_to_the_reviewer() {
    let mut registry = with_mint();
    let mint = registry.mint().unwrap();
    let minted = create(&mut registry, key(1), "Up", 5).unwrap();
    assert_eq!(
        minted,
        MintTo {
            mint: mint.address,
            to: TokenAccount { mint: mint.address, owner: key(1) },
            authority: mint.address,
            amount: 120,
            bump: mint.bump,
        }
    );
}

#[test]
fn create_stores_the_review_at_its_derived_address() {
    let mut registry = with_mint();
    create(&mut registry, key(1), "Up", 5).unwrap();
    let address = review_address(&program_id(), "Up", &key(1)).unwrap();
    let at_address = registry.review_at(&address).unwrap();
    assert_eq!(at_address.reviewer, key(1));
    assert_eq!(at_address.title, "Up");
    assert_eq!(at_address.description, "Great film");
    assert_eq!(at_address.rating, 5);
    let by_title = registry.review("Up", &key(1)).unwrap();
    assert_eq!(by_title.title, "Up");
    assert_eq!(registry.len(), 1);
    assert!(registry.review_at(&key(1)).is_none());
}

#[test]
fn create_accepts_ratings_one_to_five_only() {
    let mut registry = with_mint();
    let invalid = Err(RegistryError::Review(MovieReviewError::InvalidRating));
    assert_eq!(create(&mut registry, key(1), "zero", 0), invalid);
    assert_eq!(create(&mut registry, key(1), "six", 6), invalid);
    assert_eq!(registry.len(), 0);
    assert!(create(&mut registry, key(1), "one", 1).is_ok());
    assert!(create(&mut registry, key(1), "five", 5).is_ok());
    assert_eq!(registry.len(), 2);
    assert!(registry.review("zero", &key(1)).is_none());
    assert!(registry.review("six", &key(1)).is_none());
    assert_eq!(registry.review("one", &key(1)).unwrap().rating, 1);
    assert_eq!(registry.review("five", &key(1)).unwrap().rating, 5);
}

#[test]
fn create_accepts_titles_up_to_twenty_characters() {
    let mut registry = with_mint();
    assert!(create(&mut registry, key(1), &"a".repeat(20), 3).is_ok());
    assert_eq!(
        create(&mut registry, key(1), &"a".repeat(21), 3),
        Err(RegistryError::Review(MovieReviewError::TitleTooLong))
    );
    assert_eq!(
        create(&mut registry, key(1), &"a".repeat(32), 3),
        Err(RegistryError::Review(MovieReviewError::TitleTooLong))
    );
    assert_eq!(registry.len(), 1);
}

#[test]
fn create_finds_no_address_for_a_title_of_thirty_three_bytes() {
    let mut registry = with_mint();
    assert_eq!(
        create(&mut registry, key(1), &"a".repeat(33), 3),
        Err(RegistryError::InvalidSeeds)
    );
    assert_eq!(create(&mut registry, key(1), &"a".repeat(33), 0), Err(RegistryError::InvalidSeeds));
    assert_eq!(registry.len(), 0);
}

#[test]
fn create_accepts_descriptions_up_to_fifty_characters() {
    let mut registry = with_mint();
    let created = registry.create_review(key(1), "fifty".to_string(), "d".repeat(50), 3);
    assert!(created.is_ok());
    let refused = registry.create_review(key(1), "fifty-one".to_string(), "d".repeat(51), 3);
    assert_eq!(refused, Err(RegistryError::Review(MovieReviewError::DescriptionTooLong)));
    assert_eq!(registry.len(), 1);
}

#[test]
fn create_counts_characters_not_bytes() {
    let mut registry = with_mint();
    // sixteen characters in thirty-two bytes: within both bounds
    let title = "é".repeat(16);
    let created = registry.create_review(key(1), title.clone(), "é".repeat(50), 3);
    assert!(created.is_ok());
    assert_eq!(registry.review(&title, &key(1)).unwrap().description, "é".repeat(50));
    assert_eq!(
        registry.delete_review(key(1), title),
        Ok(Refund { recipient: key(1), space: 49 + 32 + 100 })
    );
    // twenty characters in forty bytes: a title that fits but derives no address
    let title = "é".repeat(20);
    assert_eq!(
        registry.create_review(key(1), title.clone(), "Great film".to_string(), 3),
        Err(RegistryError::InvalidSeeds)
    );
    // at a given address it is created
    let created =
        registry.create_review_at(key(40), key(1), title.clone(), "Great film".to_string(), 3);
    assert!(created.is_ok());
    assert_eq!(registry.review_at(&key(40)).unwrap().title, title);
    assert_eq!(
        registry.delete_review_at(key(40), key(1), title),
        Ok(Refund { recipient: key(1), space: 49 + 40 + 10 })
    );
    let refused =
        registry.create_review_at(key(40), key(1), "é".repeat(21), "Great film".to_string(), 3);
    assert_eq!(refused, Err(RegistryError::Review(MovieReviewError::TitleTooLong)));
}

#[test]
fn update_accepts_a_description_of_fifty_characters_in_a_hundred_bytes() {
    let mut registry = with_mint();
    create(&mut registry, key(1), "Up", 5).unwrap();
    let description = "é".repeat(50);
    assert_eq!(description.len(), 100);
    let updated = registry.update_review(key(1), "Up".to_string(), description.clone(), 3);
    assert_eq!(updated, Ok(()));
    let review = registry.review("Up", &key(1)).unwrap();
    assert_eq!(review.description, description);
    assert_eq!(review.rating, 3);
    assert_eq!(
        registry.update_review(key(1), "Up".to_string(), "é".repeat(51), 3),
        Err(RegistryError::Review(MovieReviewError::DescriptionTooLong))
    );
    assert_eq!(registry.review("Up", &key(1)).unwrap().description, description);
}

#[test]
fn only_the_author_updates_at_an_address() {
    let mut registry = with_mint();
    let created =
        registry.create_review_at(key(40), key(1), "Up".to_string(), "Great film".to_string(), 5);
    assert!(created.is_ok());
    let by_another =
        registry.update_review_at(key(40), key(2), "Up".to_string(), "Mine now".to_string(), 1);
    assert_eq!(by_another, Err(RegistryError::SignerMismatch));
    // the mismatch is found before the arguments are tested
    let by_another =
        registry.update_review_at(key(40), key(2), "Up".to_string(), "Mine now".to_string(), 0);
    assert_eq!(by_another, Err(RegistryError::SignerMismatch));
    let review = registry.review_at(&key(40)).unwrap();
    assert_eq!(review.reviewer, key(1));
    assert_eq!(review.description, "Great film");
    assert_eq!(review.rating, 5);
    let by_the_author =
        registry.update_review_at(key(40), key(1), "Up".to_string(), "Still great".to_string(), 4);
    assert_eq!(by_the_author, Ok(()));
    assert_eq!(registry.review_at(&key(40)).unwrap().description, "Still great");
    // a missing record is found missing before anyone is tested
    assert_eq!(
        registry.update_review_at(key(41), key(2), "Up".to_string(), "Mine now".to_string(), 1),
        Err(RegistryError::AccountNotInitialized)
    );
}

#[test]
fn only_the_author_deletes_at_an_address() {
    let mut registry = with_mint();
    let created =
        registry.create_review_at(key(40), key(1), "Up".to_string(), "Great film".to_string(), 5);
    assert!(created.is_ok());
    let by_another = registry.delete_review_at(key(40), key(2), "Up".to_string());
    assert_eq!(by_another, Err(RegistryError::SignerMismatch));
    assert_eq!(registry.len(), 1);
    assert_eq!(registry.review_at(&key(40)).unwrap().reviewer, key(1));
    let by_the_author = registry.delete_review_at(key(40), key(1), "Up".to_string());
    assert_eq!(by_the_author, Ok(Refund { recipient: key(1), space: 61 }));
    assert_eq!(registry.len(), 0);
    assert_eq!(
        registry.delete_review_at(key(40), key(2), "Up".to_string()),
        Err(RegistryError::AccountNotInitialized)
    );
}

#[test]
fn create_twice_fails() {
    let mut registry = with_mint();
    assert!(create(&mut registry, key(1), "Up", 5).is_ok());
    assert_eq!(create(&mut registry, key(1), "Up", 5), Err(RegistryError::AccountAlreadyInUse));
    let again = registry.create_review(key(1), "Up".to_string(), "Other words".to_string(), 2);
    assert_eq!(again, Err(RegistryError::AccountAlreadyInUse));
    // the address is taken whatever the second review says
    assert_eq!(create(&mut registry, key(1), "Up", 0), Err(RegistryError::AccountAlreadyInUse));
    assert_eq!(registry.len(), 1);
    let kept = registry.review("Up", &key(1)).unwrap();
    assert_eq!(kept.description, "Great film");
    assert_eq!(kept.rating, 5);
}

#[test]
fn create_with_another_title_or_another_reviewer_succeeds() {
    let mut registry = with_mint();
    assert!(create(&mut registry, key(1), "Up", 5).is_ok());
    assert!(create(&mut registry, key(1), "Us", 4).is_ok());
    assert!(create(&mut registry, key(2), "Up", 3).is_ok());
    assert_eq!(registry.len(), 3);
    assert_eq!(registry.review("Up", &key(1)).unwrap().rating, 5);
    assert_eq!(registry.review("Us", &key(1)).unwrap().rating, 4);
    assert_eq!(registry.review("Up", &key(2)).unwrap().rating, 3);
    assert_eq!(registry.review("Up", &key(2)).unwrap().reviewer, key(2));
    assert!(registry.review("Us", &key(2)).is_none());
}

#[test]
fn create_at_reserves_the_bytes_of_the_record() {
    let mut registry = with_mint();
    let created =
        registry.create_review_at(key(40), key(1), "Up".to_string(), "Great film".to_string(), 5);
    assert!(created.is_ok());
    let deleted = registry.delete_review_at(key(40), key(1), "Up".to_string());
    assert_eq!(deleted, Ok(Refund { recipient: key(1), space: 61 }));
}

#[test]
fn create_at_a_taken_address_fails() {
    let mut registry = with_mint();
    let first =
        registry.create_review_at(key(40), key(1), "Up".to_string(), "Great film".to_string(), 5);
    assert!(first.is_ok());
    let second =
        registry.create_review_at(key(40), key(2), "Us".to_string(), "Scary".to_string(), 4);
    assert_eq!(second, Err(RegistryError::AccountAlreadyInUse));
    let elsewhere =
        registry.create_review_at(key(41), key(2), "Us".to_string(), "Scary".to_string(), 4);
    assert!(elsewhere.is_ok());
    assert_eq!(registry.review_at(&key(40)).unwrap().title, "Up");
    assert_eq!(registry.review_at(&key(41)).unwrap().title, "Us");
}

#[test]
fn update_replaces_description_and_rating() {
    let mut registry = with_mint();
    create(&mut registry, key(1), "Up", 5).unwrap();
    create(&mut registry, key(2), "Up", 2).unwrap();
    let updated = registry.update_review(key(1), "Up".to_string(), "Still great".to_string(), 4);
    assert_eq!(updated, Ok(()));
    let review = registry.review("Up", &key(1)).unwrap();
    assert_eq!(review.reviewer, key(1));
    assert_eq!(review.title, "Up");
    assert_eq!(review.description, "Still great");
    assert_eq!(review.rating, 4);
    let other = registry.review("Up", &key(2)).unwrap();
    assert_eq!(other.reviewer, key(2));
    assert_eq!(other.description, "Great film");
    assert_eq!(other.rating, 2);
    assert_eq!(registry.len(), 2);
}

#[test]
fn update_tests_rating_and_description() {
    let mut registry = with_mint();
    create(&mut registry, key(1), "Up", 5).unwrap();
    let title = || "Up".to_string();
    assert_eq!(
        registry.update_review(key(1), title(), "Still great".to_string(), 0),
        Err(RegistryError::Review(MovieReviewError::InvalidRating))
    );
    assert_eq!(
        registry.update_review(key(1), title(), "Still great".to_string(), 6),
        Err(RegistryError::Review(MovieReviewError::InvalidRating))
    );
    assert_eq!(
        registry.update_review(key(1), title(), "d".repeat(51), 4),
        Err(RegistryError::Review(MovieReviewError::DescriptionTooLong))
    );
    let review = registry.review("Up", &key(1)).unwrap();
    assert_eq!(review.description, "Great film");
    assert_eq!(review.rating, 5);
    assert_eq!(registry.update_review(key(1), title(), "d".repeat(50), 1), Ok(()));
    assert_eq!(registry.update_review(key(1), title(), String::new(), 5), Ok(()));
    assert_eq!(registry.review("Up", &key(1)).unwrap().description, "");
}

#[test]
fn update_needs_the_review() {
    let mut registry = with_mint();
    create(&mut registry, key(1), "Up", 5).unwrap();
    let missing = Err(RegistryError::AccountNotInitialized);
    assert_eq!(registry.update_review(key(1), "Us".to_string(), "Scary".to_string(), 4), missing);
    // someone else's signature derives another address
    assert_eq!(registry.update_review(key(2), "Up".to_string(), "Scary".to_string(), 4), missing);
    assert_eq!(registry.update_review(key(2), "Up".to_string(), "Scary".to_string(), 0), missing);
    assert_eq!(
        registry.update_review(key(1), "t".repeat(33), "Scary".to_string(), 4),
        Err(RegistryError::InvalidSeeds)
    );
    assert_eq!(registry.review("Up", &key(1)).unwrap().description, "Great film");
}

#[test]
fn update_keeps_the_reserved_bytes() {
    let mut registry = with_mint();
    create(&mut registry, key(1), "Up", 5).unwrap();
    assert_eq!(registry.update_review(key(1), "Up".to_string(), "d".repeat(50), 4), Ok(()));
    assert_eq!(
        registry.delete_review(key(1), "Up".to_string()),
        Ok(Refund { recipient: key(1), space: 61 })
    );
}

#[test]
fn delete_removes_the_review_and_refunds_its_creator() {
    let mut registry = with_mint();
    create(&mut registry, key(1), "Up", 5).unwrap();
    create(&mut registry, key(1), "Us", 4).unwrap();
    let creator = registry.review("Up", &key(1)).unwrap().reviewer;
    let deleted = registry.delete_review(key(1), "Up".to_string()).unwrap();
    assert_eq!(deleted.recipient, creator);
    assert_eq!(deleted.space, 49 + 2 + 10);
    assert!(registry.review("Up", &key(1)).is_none());
    let address = review_address(&program_id(), "Up", &key(1)).unwrap();
    assert!(registry.review_at(&address).is_none());
    assert_eq!(registry.review("Us", &key(1)).unwrap().rating, 4);
    assert_eq!(registry.len(), 1);
}

#[test]
fn delete_needs_the_review() {
    let mut registry = with_mint();
    create(&mut registry, key(1), "Up", 5).unwrap();
    let missing = Err(RegistryError::AccountNotInitialized);
    assert_eq!(registry.delete_review(key(1), "Us".to_string()), missing);
    assert_eq!(registry.delete_review(key(2), "Up".to_string()), missing);
    assert_eq!(registry.delete_review(key(1), "t".repeat(33)), Err(RegistryError::InvalidSeeds));
    assert_eq!(registry.len(), 1);
    assert!(registry.delete_review(key(1), "Up".to_string()).is_ok());
    assert_eq!(registry.delete_review(key(1), "Up".to_string()), missing);
    assert_eq!(
        registry.update_review(key(1), "Up".to_string(), "Gone".to_string(), 3),
        Err(RegistryError::AccountNotInitialized)
    );
    assert_eq!(registry.len(), 0);
}

#[test]
fn deleted_review_can_be_created_again() {
    let mut registry = with_mint();
    create(&mut registry, key(1), "Up", 5).unwrap();
    registry.delete_review(key(1), "Up".to_string()).unwrap();
    assert!(create(&mut registry, key(1), "Up", 2).is_ok());
    assert_eq!(registry.review("Up", &key(1)).unwrap().rating, 2);
}

#[test]
fn delete_keeps_the_mint() {
    let mut registry = with_mint();
    let mint = registry.mint();
    create(&mut registry, key(1), "Up", 5).unwrap();
    registry.update_review(key(1), "Up".to_string(), "Still great".to_string(), 4).unwrap();
    registry.delete_review(key(1), "Up".to_string()).unwrap();
    assert_eq!(registry.mint(), mint);
}

#[test]
fn create_update_delete() {
    let a = key(65);
    let mut registry = with_mint();
    let created = registry.create_review(a, "Up".to_string(), "Great film".to_string(), 5);
    assert!(created.is_ok());
    let review = registry.review("Up", &a).unwrap();
    assert_eq!(review.reviewer, a);
    assert_eq!(review.rating, 5);
    let updated = registry.update_review(a, "Up".to_string(), "Still great".to_string(), 4);
    assert_eq!(updated, Ok(()));
    assert_eq!(registry.review("Up", &a).unwrap().rating, 4);
    let deleted = registry.delete_review(a, "Up".to_string());
    assert!(deleted.is_ok());
    assert!(registry.review("Up", &a).is_none());
}

#[test]
fn many_reviews_are_kept_apart() {
    let mut registry = with_mint();
    for i in 0..20u8 {
        let title = format!("film {i}");
        assert!(create(&mut registry, key(i % 4), &title, i % 5 + 1).is_ok());
    }
    assert_eq!(registry.len(), 20);
    for i in (0..20u8).step_by(2) {
        let title = format!("film {i}");
        assert!(registry.delete_review(key(i % 4), title).is_ok());
    }
    assert_eq!(registry.len(), 10);
    for i in 0..20u8 {
        let title = format!("film {i}");
        let found = registry.review(&title, &key(i % 4));
        if i % 2 == 0 {
            assert!(found.is_none());
        } else {
            let review = found.unwrap();
            assert_eq!(review.title, title);
            assert_eq!(review.rating, i % 5 + 1);
            assert_eq!(review.reviewer, key(i % 4));
        }
    }
}
