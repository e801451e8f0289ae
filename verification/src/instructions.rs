//! The four instructions and the accounts that each works on.

use vstd::prelude::*;
use vstd::string::*;
use crate::error::MovieReviewError;
use crate::pubkey::{find_program_address, spec_find_program_address, Pubkey, MAX_SEED_LEN};
use crate::state::{
    byte_len, check_description, check_rating, check_title, description_fits, rating_in_range,
    title_fits, MovieAccountState, MovieAccountStateView,
};

verus! {

/// Decimal places of the reward token.
pub const MINT_DECIMALS: u8 = 6;

/// Base units of the reward token minted for each new review: ten times
/// `10 ^ 6`, where `^` is the bitwise exclusive or. That is 120 base units,
/// a small fraction of one token, and not ten tokens.
pub const REWARD_AMOUNT: u64 = 120;

/// The reward is ten times the exclusive or of ten and six.
pub proof fn lemma_reward_amount()
    ensures
        REWARD_AMOUNT == 10 * (10u64 ^ 6u64),
{
    assert(10u64 ^ 6u64 == 12u64) by (bit_vector);
}

/// The record of the reward token's mint.
#[derive(Clone, Copy, Debug, PartialEq, Eq)]
pub struct Mint {
    /// Where the record lives.
    pub address: Pubkey,
    /// The bump seed that completes the seeds of that address.
    pub bump: u8,
    /// Decimal places of the token.
    pub decimals: u8,
    /// Who may mint the token.
    pub mint_authority: Pubkey,
}

impl Mint {
    /// Whether the mint has the decimals of the reward token and is its own
    /// authority.
    pub open spec fn is_reward_mint(self) -> bool {
        &&& self.decimals == MINT_DECIMALS
        &&& self.mint_authority == self.address
    }
}

/// The account that holds one owner's balance of one mint's token. The
/// balance itself is kept by the token program.
#[derive(Clone, Copy, Debug, PartialEq, Eq)]
pub struct TokenAccount {
    /// The mint whose token the account holds.
    pub mint: Pubkey,
    /// Whose balance it is.
    pub owner: Pubkey,
}

/// A request to the token program: mint `amount` base units of `mint` to
/// the account `to`, signed for `authority` with the seeds of the mint and
/// `bump`.
#[derive(Clone, Copy, Debug, PartialEq, Eq)]
pub struct MintTo {
    pub mint: Pubkey,
    pub to: TokenAccount,
    pub authority: Pubkey,
    pub amount: u64,
    pub bump: u8,
}

/// The accounts of [`add_movie_review`].
#[derive(Debug)]
pub struct AddMovieReview {
    /// The new record, at the address derived from the title and the
    /// initializer.
    pub movie_review: MovieAccountState,
    /// Who signs, pays for the record and receives the reward.
    pub initializer: Pubkey,
    /// The mint of the reward token.
    pub mint: Mint,
    /// The initializer's account of the reward token.
    pub token_account: TokenAccount,
}

/// The accounts of [`update_movie_review`].
#[derive(Debug)]
pub struct UpdateMovieReview {
    /// The record at the address derived from the title and the
    /// initializer.
    pub movie_review: MovieAccountState,
    /// Who signs.
    pub initializer: Pubkey,
}

/// The accounts of [`delete_movie_review`].
#[derive(Debug)]
pub struct DeleteMovieReview {
    /// The record at the address derived from the title and the
    /// initializer. It is closed once the instruction has succeeded.
    pub movie_review: MovieAccountState,
    /// Who signs and receives what the record's storage had cost.
    pub initializer: Pubkey,
}

/// The accounts of [`initialize_token_mint`].
#[derive(Clone, Copy, Debug)]
pub struct InitializeMint {
    /// The new mint.
    pub mint: Mint,
    /// Who signs and pays for the mint.
    pub user: Pubkey,
}

/// The accounts of an instruction that takes none.
#[derive(Clone, Copy, Debug)]
pub struct Initialize {}

/// The seeds of a review's address: the bytes of its title, then its
/// author.
pub open spec fn spec_review_seeds(title: Seq<char>, initializer: Pubkey) -> Seq<Seq<u8>> {
    seq![vstd::utf8::encode_utf8(title), initializer@]
}

/// The seeds of the mint's address: one fixed tag.
pub open spec fn spec_mint_seeds() -> Seq<Seq<u8>> {
    seq![vstd::utf8::encode_utf8("mint"@)]
}

/// Where the review of `title` by `initializer` lives under the program
/// `program_id`, where the seeds derive an address.
pub open spec fn spec_review_address(program_id: Pubkey, title: Seq<char>, initializer: Pubkey)
    -> Option<Pubkey> {
    match spec_find_program_address(spec_review_seeds(title, initializer), program_id) {
        Some((address, _)) => Some(address),
        None => None,
    }
}

/// Where the mint of the program `program_id` lives, and its bump seed.
pub open spec fn spec_mint_address(program_id: Pubkey) -> Option<(Pubkey, u8)> {
    spec_find_program_address(spec_mint_seeds(), program_id)
}

/// Builds the seeds of a review's address.
pub fn review_seeds(title: &str, initializer: &Pubkey) -> (seeds: Vec<Vec<u8>>)
    ensures
        seeds.deep_view() == spec_review_seeds(title@, *initializer),
{
    let mut seeds: Vec<Vec<u8>> = Vec::new();
    seeds.push(title.as_bytes_vec());
    seeds.push(initializer.to_seed());
    assert(seeds@[0].deep_view() =~= seeds@[0]@);
    assert(seeds@[1].deep_view() =~= seeds@[1]@);
    assert(seeds.deep_view() =~= spec_review_seeds(title@, *initializer));
    seeds
}

/// Builds the seeds of the mint's address.
pub fn mint_seeds() -> (seeds: Vec<Vec<u8>>)
    ensures
        seeds.deep_view() == spec_mint_seeds(),
{
    let mut seeds: Vec<Vec<u8>> = Vec::new();
    seeds.push("mint".as_bytes_vec());
    assert(seeds@[0].deep_view() =~= seeds@[0]@);
    assert(seeds.deep_view() =~= spec_mint_seeds());
    seeds
}

/// Derives the address of the review of `title` by `initializer`.
pub fn review_address(program_id: &Pubkey, title: &str, initializer: &Pubkey) -> (address: Option<
    Pubkey,
>)
    ensures
        address == spec_review_address(*program_id, title@, *initializer),
        byte_len(title@) > MAX_SEED_LEN ==> address is None,
{
    let seeds = review_seeds(title, initializer);
    proof {
        if byte_len(title@) > MAX_SEED_LEN {
            assert(seeds.deep_view()[0].len() > MAX_SEED_LEN);
        }
    }
    match find_program_address(&seeds, program_id) {
        Some((address, _)) => Some(address),
        None => None,
    }
}

/// Derives the address of the mint, with its bump seed.
pub fn mint_address(program_id: &Pubkey) -> (address: Option<(Pubkey, u8)>)
    ensures
        address == spec_mint_address(*program_id),
{
    let seeds = mint_seeds();
    find_program_address(&seeds, program_id)
}

/// What the tests of a new review say: the first bound that fails, in the
/// order rating, title, description.
pub open spec fn validate_new(title: Seq<char>, description: Seq<char>, rating: u8) -> Result<
    (),
    MovieReviewError,
> {
    if !rating_in_range(rating) {
        Err(MovieReviewError::InvalidRating)
    } else if !title_fits(title) {
        Err(MovieReviewError::TitleTooLong)
    } else if !description_fits(description) {
        Err(MovieReviewError::DescriptionTooLong)
    } else {
        Ok(())
    }
}

/// What the tests of an update say: the first bound that fails, in the
/// order rating, description.
pub open spec fn validate_update(description: Seq<char>, rating: u8) -> Result<
    (),
    MovieReviewError,
> {
    if !rating_in_range(rating) {
        Err(MovieReviewError::InvalidRating)
    } else if !description_fits(description) {
        Err(MovieReviewError::DescriptionTooLong)
    } else {
        Ok(())
    }
}

/// The reward that a new review earns: minted to the initializer's token
/// account, with the mint as its own authority.
pub open spec fn reward(mint: Mint, token_account: TokenAccount) -> MintTo {
    MintTo {
        mint: mint.address,
        to: token_account,
        authority: mint.address,
        amount: REWARD_AMOUNT,
        bump: mint.bump,
    }
}

/// Records a new review and asks for the author's reward.
///
/// The rating, the title and the description are tested in this order, and
/// the first that is out of bounds gives the error; the accounts are then
/// left as they were. Otherwise the record takes the initializer as its
/// author and the three arguments as its content, and the result is the
/// request for the reward.
pub fn add_movie_review(
    ctx: &mut AddMovieReview,
    title: String,
    description: String,
    rating: u8,
) -> (minted: Result<MintTo, MovieReviewError>)
    ensures
        minted is Ok <==> validate_new(title@, description@, rating) is Ok,
        minted matches Err(e) ==> {
            &&& validate_new(title@, description@, rating) == Err::<(), MovieReviewError>(e)
            &&& *final(ctx) == *old(ctx)
        },
        minted matches Ok(request) ==> {
            &&& request == reward(old(ctx).mint, old(ctx).token_account)
            &&& final(ctx).movie_review@ == (MovieAccountStateView {
                reviewer: old(ctx).initializer,
                rating,
                title: title@,
                description: description@,
            })
            &&& final(ctx).movie_review@.is_valid()
            &&& final(ctx).initializer == old(ctx).initializer
            &&& final(ctx).mint == old(ctx).mint
            &&& final(ctx).token_account == old(ctx).token_account
        },
{
    if let Err(e) = check_rating(rating) {
        return Err(e);
    }
    if let Err(e) = check_title(title.as_str()) {
        return Err(e);
    }
    if let Err(e) = check_description(description.as_str()) {
        return Err(e);
    }
    ctx.movie_review.reviewer = ctx.initializer;
    ctx.movie_review.title = title;
    ctx.movie_review.description = description;
    ctx.movie_review.rating = rating;
    Ok(
        MintTo {
            mint: ctx.mint.address,
            to: ctx.token_account,
            authority: ctx.mint.address,
            amount: REWARD_AMOUNT,
            bump: ctx.mint.bump,
        },
    )
}

/// Replaces the description and the rating of a review.
///
/// The rating and the description are tested in this order, and the first
/// that is out of bounds gives the error; the accounts are then left as
/// they were. Otherwise the record takes the new description and rating.
/// Its title and its author stay: the title given here only serves to
/// find the record.
pub fn update_movie_review(
    ctx: &mut UpdateMovieReview,
    _title: String,
    description: String,
    rating: u8,
) -> (updated: Result<(), MovieReviewError>)
    ensures
        updated == validate_update(description@, rating),
        updated is Err ==> *final(ctx) == *old(ctx),
        updated is Ok ==> {
            &&& final(ctx).movie_review@ == (MovieAccountStateView {
                reviewer: old(ctx).movie_review.reviewer,
                rating,
                title: old(ctx).movie_review.title@,
                description: description@,
            })
            &&& final(ctx).initializer == old(ctx).initializer
        },
{
    if let Err(e) = check_rating(rating) {
        return Err(e);
    }
    if let Err(e) = check_description(description.as_str()) {
        return Err(e);
    }
    ctx.movie_review.description = description;
    ctx.movie_review.rating = rating;
    Ok(())
}

/// Accepts the deletion of a review.
///
/// Nothing is tested and nothing is changed: the record is closed, and its
/// storage paid back to the initializer, once the instruction has
/// succeeded. The title only serves to find the record.
pub fn delete_movie_review(_ctx: &DeleteMovieReview, _title: String) -> (deleted: Result<
    (),
    MovieReviewError,
>)
    ensures
        deleted is Ok,
{
    Ok(())
}

/// Accepts the new mint of the reward token.
///
/// Nothing is tested and nothing is changed: the mint was set up, with its
/// decimals and its authority, when the accounts were prepared.
pub fn initialize_token_mint(_ctx: &InitializeMint) -> (initialized: Result<(), MovieReviewError>)
    ensures
        initialized is Ok,
{
    Ok(())
}

} // verus!
