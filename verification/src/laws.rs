//! What holds of the instructions and of the registry, whatever the
//! arguments and whatever came before.

use vstd::prelude::*;
use crate::error::{MovieReviewError, RegistryError};
use crate::instructions::{
    spec_review_address, validate_new, validate_update, MintTo, TokenAccount,
};
use crate::pubkey::Pubkey;
use crate::registry::{Refund, RegistryView};
use crate::state::{
    byte_len, description_fits, lemma_byte_len_bounds, rating_in_range, title_fits,
};

verus! {

/// A rating is accepted exactly when it lies between 1 and 5, both
/// included, and is otherwise the first thing to be turned down: with
/// `InvalidRating`, for a new review and for an update alike.
pub proof fn lemma_rating_decides(title: Seq<char>, description: Seq<char>, rating: u8)
    ensures
        rating_in_range(rating) <==> 1 <= rating <= 5,
        !rating_in_range(rating) <==> validate_new(title, description, rating) == Err::<
            (),
            MovieReviewError,
        >(MovieReviewError::InvalidRating),
        !rating_in_range(rating) <==> validate_update(description, rating) == Err::<
            (),
            MovieReviewError,
        >(MovieReviewError::InvalidRating),
        title_fits(title) && description_fits(description) ==> (validate_new(
            title,
            description,
            rating,
        ) is Ok <==> 1 <= rating <= 5),
        description_fits(description) ==> (validate_update(description, rating) is Ok <==> 1
            <= rating <= 5),
{
}

/// With a rating in range, a title is accepted exactly when it has at most
/// 20 characters, and is otherwise turned down with `TitleTooLong`.
pub proof fn lemma_title_decides(title: Seq<char>, description: Seq<char>, rating: u8)
    requires
        rating_in_range(rating),
    ensures
        title_fits(title) <==> title.len() <= 20,
        !title_fits(title) <==> validate_new(title, description, rating) == Err::<
            (),
            MovieReviewError,
        >(MovieReviewError::TitleTooLong),
        description_fits(description) ==> (validate_new(title, description, rating) is Ok
            <==> title.len() <= 20),
{
}

/// With a rating in range, and for a new review a title that fits, a
/// description is accepted exactly when it has at most 50 characters, and
/// is otherwise turned down with `DescriptionTooLong`.
pub proof fn lemma_description_decides(title: Seq<char>, description: Seq<char>, rating: u8)
    requires
        rating_in_range(rating),
    ensures
        description_fits(description) <==> description.len() <= 50,
        validate_update(description, rating) is Ok <==> description.len() <= 50,
        !description_fits(description) <==> validate_update(description, rating) == Err::<
            (),
            MovieReviewError,
        >(MovieReviewError::DescriptionTooLong),
        title_fits(title) ==> (validate_new(title, description, rating) is Ok
            <==> description.len() <= 50),
        title_fits(title) ==> (!description_fits(description) <==> validate_new(
            title,
            description,
            rating,
        ) == Err::<(), MovieReviewError>(MovieReviewError::DescriptionTooLong)),
{
}

/// Once there is a mint, a review is created at a free address exactly
/// when its arguments are within their bounds, and an existing review is
/// updated by its author exactly when the new description and rating are.
pub proof fn lemma_arguments_decide(
    registry: RegistryView,
    address: Pubkey,
    initializer: Pubkey,
    title: Seq<char>,
    description: Seq<char>,
    rating: u8,
)
    ensures
        registry.mint is Some && !registry.reviews.contains_key(address) ==> (
        registry.create_outcome(address, initializer, title, description, rating) is Ok <==> {
            &&& 1 <= rating <= 5
            &&& title.len() <= 20
            &&& description.len() <= 50
        }),
        registry.reviews.contains_key(address) && registry.reviews[address].data.reviewer
            == initializer ==> (registry.update_outcome(
            address,
            initializer,
            description,
            rating,
        ) is Ok <==> {
            &&& 1 <= rating <= 5
            &&& description.len() <= 50
        }),
{
}

/// A new record reserves exactly the bytes that it takes: 49 for the tag,
/// the author, the rating and the two lengths, and the bytes of the title
/// and of the description. Each of their characters takes from one to
/// four bytes, so a record takes 329 bytes at most.
pub proof fn lemma_space_is_exact(
    initializer: Pubkey,
    title: Seq<char>,
    description: Seq<char>,
    rating: u8,
)
    requires
        validate_new(title, description, rating) is Ok,
    ensures
        RegistryView::new_review(initializer, title, description, rating).space == 49
            + byte_len(title) + byte_len(description),
        49 + title.len() + description.len() <= RegistryView::new_review(
            initializer,
            title,
            description,
            rating,
        ).space <= 49 + 4 * 20 + 4 * 50,
{
    lemma_byte_len_bounds(title);
    lemma_byte_len_bounds(description);
}

/// Every new review asks for the same reward: 120 base units of the
/// registry's mint, to the initializer's account, with the mint as its own
/// authority.
pub proof fn lemma_reward_is_fixed(
    registry: RegistryView,
    address: Pubkey,
    initializer: Pubkey,
    title: Seq<char>,
    description: Seq<char>,
    rating: u8,
)
    requires
        registry.create_outcome(address, initializer, title, description, rating) is Ok,
    ensures
        ({
            let request = registry.create_outcome(
                address,
                initializer,
                title,
                description,
                rating,
            )->Ok_0;
            let mint = registry.mint->Some_0;
            &&& registry.mint is Some
            &&& request.amount == 120
            &&& request.mint == mint.address
            &&& request.authority == mint.address
            &&& request.bump == mint.bump
            &&& request.to == (TokenAccount { mint: mint.address, owner: initializer })
        }),
{
}

/// A review cannot be created twice: once a review has been created at an
/// address, creating another one there fails, whatever it says, and leaves
/// the first as it is. The review of one title by one author always has
/// the same address.
pub proof fn lemma_create_twice_fails(
    registry: RegistryView,
    address: Pubkey,
    initializer: Pubkey,
    title: Seq<char>,
    description: Seq<char>,
    rating: u8,
    second_initializer: Pubkey,
    second_title: Seq<char>,
    second_description: Seq<char>,
    second_rating: u8,
)
    requires
        registry.create_outcome(address, initializer, title, description, rating) is Ok,
    ensures
        ({
            let once = registry.create_at(address, initializer, title, description, rating);
            &&& once.create_outcome(
                address,
                second_initializer,
                second_title,
                second_description,
                second_rating,
            ) == Err::<MintTo, RegistryError>(RegistryError::AccountAlreadyInUse)
            &&& once.create_at(
                address,
                second_initializer,
                second_title,
                second_description,
                second_rating,
            ) == once
        }),
{
}

/// Reviews at different addresses do not stand in each other's way:
/// whether a review can be created at one address, and with what answer,
/// does not depend on a review created at another, and the one created
/// first stays as it is.
pub proof fn lemma_create_elsewhere(
    registry: RegistryView,
    address: Pubkey,
    initializer: Pubkey,
    title: Seq<char>,
    description: Seq<char>,
    rating: u8,
    other_address: Pubkey,
    other_initializer: Pubkey,
    other_title: Seq<char>,
    other_description: Seq<char>,
    other_rating: u8,
)
    requires
        address != other_address,
    ensures
        ({
            let first = registry.create_at(address, initializer, title, description, rating);
            let both = first.create_at(
                other_address,
                other_initializer,
                other_title,
                other_description,
                other_rating,
            );
            &&& first.create_outcome(
                other_address,
                other_initializer,
                other_title,
                other_description,
                other_rating,
            ) == registry.create_outcome(
                other_address,
                other_initializer,
                other_title,
                other_description,
                other_rating,
            )
            &&& both.reviews.contains_key(address) == first.reviews.contains_key(address)
            &&& first.reviews.contains_key(address) ==> both.reviews[address]
                == first.reviews[address]
        }),
{
}

/// Where every review lives at the address derived from its title and its
/// author, no two reviews have the same title and the same author.
pub proof fn lemma_one_review_per_title_and_reviewer(
    registry: RegistryView,
    address: Pubkey,
    other_address: Pubkey,
)
    requires
        registry.reviews.contains_key(address),
        registry.reviews.contains_key(other_address),
        registry.reviews[address].data.title == registry.reviews[other_address].data.title,
        registry.reviews[address].data.reviewer == registry.reviews[other_address].data.reviewer,
    ensures
        registry.addresses_derived() ==> address == other_address,
{
}

/// A review created at the address that its title and its initializer
/// derive keeps the reviews at their derived addresses, whether it was
/// created or turned down.
pub proof fn lemma_create_keeps_addresses_derived(
    registry: RegistryView,
    address: Pubkey,
    initializer: Pubkey,
    title: Seq<char>,
    description: Seq<char>,
    rating: u8,
)
    requires
        registry.addresses_derived(),
    ensures
        spec_review_address(registry.program_id, title, initializer) == Some(address)
            ==> registry.create_at(
            address,
            initializer,
            title,
            description,
            rating,
        ).addresses_derived(),
{
    if spec_review_address(registry.program_id, title, initializer) == Some(address) {
        let created = registry.create_at(address, initializer, title, description, rating);
        assert forall|a: Pubkey| #[trigger]
            created.reviews.contains_key(a) implies spec_review_address(
            created.program_id,
            created.reviews[a].data.title,
            created.reviews[a].data.reviewer,
        ) == Some(a) by {
            if a != address {
                assert(registry.reviews.contains_key(a));
            }
        }
    }
}

/// An update keeps the reviews at their derived addresses: it changes
/// neither a title nor an author.
pub proof fn lemma_update_keeps_addresses_derived(
    registry: RegistryView,
    address: Pubkey,
    initializer: Pubkey,
    description: Seq<char>,
    rating: u8,
)
    requires
        registry.addresses_derived(),
    ensures
        registry.update_at(address, initializer, description, rating).addresses_derived(),
{
    let updated = registry.update_at(address, initializer, description, rating);
    assert forall|a: Pubkey| #[trigger]
        updated.reviews.contains_key(a) implies spec_review_address(
        updated.program_id,
        updated.reviews[a].data.title,
        updated.reviews[a].data.reviewer,
    ) == Some(a) by {
        assert(registry.reviews.contains_key(a));
    }
}

/// A deletion keeps the remaining reviews at their derived addresses.
pub proof fn lemma_delete_keeps_addresses_derived(
    registry: RegistryView,
    address: Pubkey,
    initializer: Pubkey,
)
    requires
        registry.addresses_derived(),
    ensures
        registry.delete_at(address, initializer).addresses_derived(),
{
    let deleted = registry.delete_at(address, initializer);
    assert forall|a: Pubkey| #[trigger]
        deleted.reviews.contains_key(a) implies spec_review_address(
        deleted.program_id,
        deleted.reviews[a].data.title,
        deleted.reviews[a].data.reviewer,
    ) == Some(a) by {
        assert(registry.reviews.contains_key(a));
    }
}

/// Only its author changes or closes a review: for anyone else the update
/// and the deletion are turned down with `SignerMismatch`, whatever the
/// other arguments are, and leave the registry as it was.
pub proof fn lemma_only_the_author(
    registry: RegistryView,
    address: Pubkey,
    initializer: Pubkey,
    description: Seq<char>,
    rating: u8,
)
    requires
        registry.reviews.contains_key(address),
        registry.reviews[address].data.reviewer != initializer,
    ensures
        registry.update_outcome(address, initializer, description, rating) == Err::<
            (),
            RegistryError,
        >(RegistryError::SignerMismatch),
        registry.update_at(address, initializer, description, rating) == registry,
        registry.delete_outcome(address, initializer) == Err::<Refund, RegistryError>(
            RegistryError::SignerMismatch,
        ),
        registry.delete_at(address, initializer) == registry,
{
}

/// An update changes the description and the rating of one review and
/// nothing else about the reviews: the review keeps its title, its author
/// and its reserved bytes, and every other review stays as it is. A failed
/// update changes nothing at all.
pub proof fn lemma_update_keeps_title_and_reviewer(
    registry: RegistryView,
    address: Pubkey,
    initializer: Pubkey,
    description: Seq<char>,
    rating: u8,
)
    ensures
        ({
            let updated = registry.update_at(address, initializer, description, rating);
            &&& updated.reviews.dom() == registry.reviews.dom()
            &&& forall|other: Pubkey|
                other != address && #[trigger] registry.reviews.contains_key(other)
                    ==> updated.reviews[other] == registry.reviews[other]
            &&& registry.reviews.contains_key(address) ==> {
                &&& updated.reviews[address].data.title == registry.reviews[address].data.title
                &&& updated.reviews[address].data.reviewer
                    == registry.reviews[address].data.reviewer
                &&& updated.reviews[address].space == registry.reviews[address].space
            }
            &&& registry.update_outcome(address, initializer, description, rating) is Ok ==> {
                &&& updated.reviews[address].data.description == description
                &&& updated.reviews[address].data.rating == rating
            }
            &&& registry.update_outcome(address, initializer, description, rating) is Err
                ==> updated == registry
        }),
{
    let updated = registry.update_at(address, initializer, description, rating);
    assert(updated.reviews.dom() =~= registry.reviews.dom());
}

/// A review deleted by its author is gone: nothing is found at its address
/// any more, so that it can be neither updated nor deleted again, while
/// every other review stays as it is. The refund names the author of the
/// review as the one to be paid back, and the bytes that the record had
/// reserved as what is paid back for.
pub proof fn lemma_delete_removes(
    registry: RegistryView,
    address: Pubkey,
    initializer: Pubkey,
    description: Seq<char>,
    rating: u8,
)
    requires
        registry.reviews.contains_key(address),
        registry.reviews[address].data.reviewer == initializer,
    ensures
        registry.delete_outcome(address, initializer) == Ok::<Refund, RegistryError>(
            Refund {
                recipient: registry.reviews[address].data.reviewer,
                space: registry.reviews[address].space,
            },
        ),
        ({
            let deleted = registry.delete_at(address, initializer);
            &&& !deleted.reviews.contains_key(address)
            &&& forall|other: Pubkey|
                other != address ==> (#[trigger] deleted.reviews.contains_key(other)
                    == registry.reviews.contains_key(other))
            &&& forall|other: Pubkey|
                other != address && #[trigger] registry.reviews.contains_key(other)
                    ==> deleted.reviews[other] == registry.reviews[other]
            &&& deleted.update_outcome(address, initializer, description, rating) == Err::<
                (),
                RegistryError,
            >(RegistryError::AccountNotInitialized)
            &&& deleted.delete_outcome(address, initializer) == Err::<Refund, RegistryError>(
                RegistryError::AccountNotInitialized,
            )
        }),
{
}

/// Whoever is refunded for a deleted review is its author.
pub proof fn lemma_refund_goes_to_the_author(
    registry: RegistryView,
    address: Pubkey,
    initializer: Pubkey,
)
    requires
        registry.delete_outcome(address, initializer) is Ok,
    ensures
        registry.reviews.contains_key(address),
        registry.delete_outcome(address, initializer)->Ok_0.recipient
            == registry.reviews[address].data.reviewer,
        registry.delete_outcome(address, initializer)->Ok_0.space
            == registry.reviews[address].space,
{
}

/// A review that was created, then updated, then deleted by its author
/// reads back at each step as the step left it.
pub proof fn lemma_create_update_delete(
    registry: RegistryView,
    address: Pubkey,
    initializer: Pubkey,
    title: Seq<char>,
    description: Seq<char>,
    rating: u8,
    new_description: Seq<char>,
    new_rating: u8,
)
    requires
        registry.create_outcome(address, initializer, title, description, rating) is Ok,
        validate_update(new_description, new_rating) is Ok,
    ensures
        ({
            let created = registry.create_at(address, initializer, title, description, rating);
            let updated = created.update_at(address, initializer, new_description, new_rating);
            let deleted = updated.delete_at(address, initializer);
            &&& created.reviews.contains_key(address)
            &&& created.reviews[address].data.reviewer == initializer
            &&& created.reviews[address].data.title == title
            &&& created.reviews[address].data.description == description
            &&& created.reviews[address].data.rating == rating
            &&& created.update_outcome(address, initializer, new_description, new_rating) is Ok
            &&& updated.reviews[address].data.reviewer == initializer
            &&& updated.reviews[address].data.title == title
            &&& updated.reviews[address].data.description == new_description
            &&& updated.reviews[address].data.rating == new_rating
            &&& updated.delete_outcome(address, initializer) is Ok
            &&& !deleted.reviews.contains_key(address)
            &&& deleted.reviews == registry.reviews
        }),
{
    let created = registry.create_at(address, initializer, title, description, rating);
    let updated = created.update_at(address, initializer, new_description, new_rating);
    let deleted = updated.delete_at(address, initializer);
    assert(deleted.reviews =~= registry.reviews);
}

/// The mint is initialized once: on a registry without a mint the
/// initialization succeeds and sets the mint up, every later one fails and
/// changes nothing, and no initialization touches the reviews.
pub proof fn lemma_initialize_once(
    registry: RegistryView,
    address: Pubkey,
    bump: u8,
    later_address: Pubkey,
    later_bump: u8,
)
    ensures
        registry.mint is None <==> registry.initialize_outcome() is Ok,
        ({
            let initialized = registry.initialize_at(address, bump);
            &&& initialized.mint is Some
            &&& registry.mint is None ==> initialized.mint == Some(
                RegistryView::new_mint(address, bump),
            )
            &&& initialized.reviews == registry.reviews
            &&& initialized.initialize_outcome() == Err::<(), RegistryError>(
                RegistryError::AccountAlreadyInUse,
            )
            &&& initialized.initialize_at(later_address, later_bump) == initialized
        }),
{
}

/// No creation, update or deletion of a review touches the mint or the
/// program that the registry belongs to.
pub proof fn lemma_reviews_leave_mint(
    registry: RegistryView,
    address: Pubkey,
    initializer: Pubkey,
    title: Seq<char>,
    description: Seq<char>,
    rating: u8,
)
    ensures
        registry.create_at(address, initializer, title, description, rating).mint
            == registry.mint,
        registry.update_at(address, initializer, description, rating).mint == registry.mint,
        registry.delete_at(address, initializer).mint == registry.mint,
        registry.create_at(address, initializer, title, description, rating).program_id
            == registry.program_id,
        registry.update_at(address, initializer, description, rating).program_id
            == registry.program_id,
        registry.delete_at(address, initializer).program_id == registry.program_id,
{
}

/// A registry in order stays in order: after every instruction, whether it
/// succeeded or not, each review is within its bounds and the mint, once
/// there is one, has the decimals of the reward token and is its own
/// authority.
pub proof fn lemma_inv_stays(
    registry: RegistryView,
    address: Pubkey,
    bump: u8,
    initializer: Pubkey,
    title: Seq<char>,
    description: Seq<char>,
    rating: u8,
)
    requires
        registry.inv(),
    ensures
        registry.initialize_at(address, bump).inv(),
        registry.create_at(address, initializer, title, description, rating).inv(),
        registry.update_at(address, initializer, description, rating).inv(),
        registry.delete_at(address, initializer).inv(),
{
    let created = registry.create_at(address, initializer, title, description, rating);
    assert forall|a: Pubkey| #[trigger]
        created.reviews.contains_key(a) implies created.reviews[a].data.is_valid() by {
        if a != address {
            assert(registry.reviews.contains_key(a));
        }
    }
    let updated = registry.update_at(address, initializer, description, rating);
    assert forall|a: Pubkey| #[trigger]
        updated.reviews.contains_key(a) implies updated.reviews[a].data.is_valid() by {
        assert(registry.reviews.contains_key(a));
    }
    let deleted = registry.delete_at(address, initializer);
    assert forall|a: Pubkey| #[trigger]
        deleted.reviews.contains_key(a) implies deleted.reviews[a].data.is_valid() by {
        assert(registry.reviews.contains_key(a));
    }
}

} // verus!
