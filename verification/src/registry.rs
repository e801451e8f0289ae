//! The registry: every review at its address, and the mint of the reward
//! token.
//!
//! The instructions test their arguments and fill the record. The registry
//! does what stands around them: it finds the accounts of an instruction at
//! their derived addresses, creates no record where one lives and changes
//! none where none does, keeps what a successful instruction leaves, and
//! closes the record that was deleted.

use vstd::prelude::*;
use vstd::string::*;
use crate::error::RegistryError;
use crate::instructions::{
    add_movie_review, delete_movie_review, initialize_token_mint, mint_address, review_address,
    reward, spec_mint_address, spec_review_address, update_movie_review, validate_new,
    validate_update, AddMovieReview, DeleteMovieReview, InitializeMint, Mint, MintTo, TokenAccount,
    UpdateMovieReview, MINT_DECIMALS,
};
use crate::pubkey::{Pubkey, MAX_SEED_LEN};
use crate::state::{
    byte_len, lemma_byte_len_bounds, spec_space, MovieAccountState, MovieAccountStateView,
};
use crate::store::{AccountStore, ReviewAccount, ReviewAccountView};
use crate::laws::{
    lemma_create_keeps_addresses_derived, lemma_delete_keeps_addresses_derived,
    lemma_update_keeps_addresses_derived,
};

verus! {

/// What the closing of a record gives back: the bytes that had been
/// reserved for it, whose cost returns to `recipient`.
#[derive(Clone, Copy, Debug, PartialEq, Eq)]
pub struct Refund {
    pub recipient: Pubkey,
    pub space: usize,
}

/// The registry as mathematical values: the program it belongs to, the mint
/// once there is one, and the reviews by their addresses.
pub struct RegistryView {
    pub program_id: Pubkey,
    pub mint: Option<Mint>,
    pub reviews: Map<Pubkey, ReviewAccountView>,
}

impl RegistryView {
    /// The mint as [`RegistryView::initialize_at`] sets it up.
    pub open spec fn new_mint(address: Pubkey, bump: u8) -> Mint {
        Mint { address, bump, decimals: MINT_DECIMALS, mint_authority: address }
    }

    /// What initializing the mint answers: nothing, unless there is a mint
    /// already.
    pub open spec fn initialize_outcome(self) -> Result<(), RegistryError> {
        if self.mint is Some {
            Err(RegistryError::AccountAlreadyInUse)
        } else {
            Ok(())
        }
    }

    /// The registry after initializing the mint at `address`: with the new
    /// mint, unless there was one already.
    pub open spec fn initialize_at(self, address: Pubkey, bump: u8) -> RegistryView {
        if self.initialize_outcome() is Ok {
            RegistryView { mint: Some(Self::new_mint(address, bump)), ..self }
        } else {
            self
        }
    }

    /// The record that a new review gets: its content, and as many bytes
    /// reserved as the content takes.
    pub open spec fn new_review(
        initializer: Pubkey,
        title: Seq<char>,
        description: Seq<char>,
        rating: u8,
    ) -> ReviewAccountView {
        ReviewAccountView {
            space: spec_space(title, description) as usize,
            data: MovieAccountStateView { reviewer: initializer, rating, title, description },
        }
    }

    /// What creating a review at `address` answers: the reward, unless
    /// there is no mint yet, the address is taken, or an argument is out of
    /// bounds, tested in this order.
    pub open spec fn create_outcome(
        self,
        address: Pubkey,
        initializer: Pubkey,
        title: Seq<char>,
        description: Seq<char>,
        rating: u8,
    ) -> Result<MintTo, RegistryError> {
        match self.mint {
            None => Err(RegistryError::AccountNotInitialized),
            Some(mint) => if self.reviews.contains_key(address) {
                Err(RegistryError::AccountAlreadyInUse)
            } else {
                match validate_new(title, description, rating) {
                    Err(e) => Err(RegistryError::Review(e)),
                    Ok(_) => Ok(
                        reward(mint, TokenAccount { mint: mint.address, owner: initializer }),
                    ),
                }
            },
        }
    }

    /// The registry after creating a review at `address`: with the new
    /// record there, unless the creation was turned down.
    pub open spec fn create_at(
        self,
        address: Pubkey,
        initializer: Pubkey,
        title: Seq<char>,
        description: Seq<char>,
        rating: u8,
    ) -> RegistryView {
        if self.create_outcome(address, initializer, title, description, rating) is Ok {
            RegistryView {
                reviews: self.reviews.insert(
                    address,
                    Self::new_review(initializer, title, description, rating),
                ),
                ..self
            }
        } else {
            self
        }
    }

    /// What updating the review at `address` answers: nothing, unless no
    /// review is there, the initializer is not its author, or an argument
    /// is out of bounds, tested in this order.
    pub open spec fn update_outcome(
        self,
        address: Pubkey,
        initializer: Pubkey,
        description: Seq<char>,
        rating: u8,
    ) -> Result<(), RegistryError> {
        if !self.reviews.contains_key(address) {
            Err(RegistryError::AccountNotInitialized)
        } else if self.reviews[address].data.reviewer != initializer {
            Err(RegistryError::SignerMismatch)
        } else {
            match validate_update(description, rating) {
                Err(e) => Err(RegistryError::Review(e)),
                Ok(_) => Ok(()),
            }
        }
    }

    /// The registry after updating the review at `address`: with the new
    /// description and rating there, unless the update was turned down.
    pub open spec fn update_at(
        self,
        address: Pubkey,
        initializer: Pubkey,
        description: Seq<char>,
        rating: u8,
    ) -> RegistryView {
        if self.update_outcome(address, initializer, description, rating) is Ok {
            let before = self.reviews[address];
            RegistryView {
                reviews: self.reviews.insert(
                    address,
                    ReviewAccountView {
                        space: before.space,
                        data: MovieAccountStateView { rating, description, ..before.data },
                    },
                ),
                ..self
            }
        } else {
            self
        }
    }

    /// What deleting the review at `address` answers: the refund to its
    /// author, unless no review is there or the initializer is not its
    /// author, tested in this order.
    pub open spec fn delete_outcome(self, address: Pubkey, initializer: Pubkey) -> Result<
        Refund,
        RegistryError,
    > {
        if !self.reviews.contains_key(address) {
            Err(RegistryError::AccountNotInitialized)
        } else if self.reviews[address].data.reviewer != initializer {
            Err(RegistryError::SignerMismatch)
        } else {
            Ok(
                Refund {
                    recipient: self.reviews[address].data.reviewer,
                    space: self.reviews[address].space,
                },
            )
        }
    }

    /// The registry after deleting the review at `address`: without it,
    /// unless the deletion was turned down.
    pub open spec fn delete_at(self, address: Pubkey, initializer: Pubkey) -> RegistryView {
        if self.delete_outcome(address, initializer) is Ok {
            RegistryView { reviews: self.reviews.remove(address), ..self }
        } else {
            self
        }
    }

    /// Whether every review is within its bounds.
    pub open spec fn reviews_valid(self) -> bool {
        forall|address: Pubkey| #[trigger]
            self.reviews.contains_key(address) ==> self.reviews[address].data.is_valid()
    }

    /// Whether the registry is in order: finitely many reviews, each within
    /// its bounds, and a mint, once there is one, that has the decimals of
    /// the reward token and is its own authority.
    pub open spec fn inv(self) -> bool {
        &&& self.reviews.dom().finite()
        &&& self.reviews_valid()
        &&& self.mint matches Some(mint) ==> mint.is_reward_mint()
    }

    /// Whether every review lives at the address derived from its title
    /// and its author.
    pub open spec fn addresses_derived(self) -> bool {
        forall|address: Pubkey| #[trigger]
            self.reviews.contains_key(address) ==> spec_review_address(
                self.program_id,
                self.reviews[address].data.title,
                self.reviews[address].data.reviewer,
            ) == Some(address)
    }
}

/// The reviews of one program and the mint of its reward token.
pub struct Registry {
    program_id: Pubkey,
    mint: Option<Mint>,
    reviews: AccountStore,
}

impl View for Registry {
    type V = RegistryView;

    closed spec fn view(&self) -> RegistryView {
        RegistryView { program_id: self.program_id, mint: self.mint, reviews: self.reviews@ }
    }
}

impl Registry {
    /// Whether the store of the reviews is in order.
    pub closed spec fn store_wf(&self) -> bool {
        self.reviews.wf()
    }

    /// Whether the registry is in order, inside and as seen from outside.
    pub open spec fn wf(&self) -> bool {
        &&& self.store_wf()
        &&& self@.inv()
    }

    /// The empty registry of a program.
    pub fn new(program_id: Pubkey) -> (registry: Registry)
        ensures
            registry.wf(),
            registry@ == (RegistryView { program_id, mint: None, reviews: Map::empty() }),
            registry@.addresses_derived(),
    {
        Registry { program_id, mint: None, reviews: AccountStore::new() }
    }

    /// The program that the registry belongs to.
    pub fn program_id(&self) -> (program_id: Pubkey)
        ensures
            program_id == self@.program_id,
    {
        self.program_id
    }

    /// The mint, once it has been initialized.
    pub fn mint(&self) -> (mint: Option<Mint>)
        ensures
            mint == self@.mint,
    {
        self.mint
    }

    /// The number of reviews.
    pub fn len(&self) -> (len: usize)
        requires
            self.wf(),
        ensures
            len == self@.reviews.len(),
    {
        self.reviews.len()
    }

    /// The review that lives at `address`, if one does.
    pub fn review_at(&self, address: &Pubkey) -> (review: Option<&MovieAccountState>)
        requires
            self.wf(),
        ensures
            review is Some <==> self@.reviews.contains_key(*address),
            review matches Some(data) ==> data@ == self@.reviews[*address].data,
    {
        match self.reviews.get(address) {
            Some(account) => Some(&account.data),
            None => None,
        }
    }

    /// The review of `title` by the given author, if there is one. Nothing is
    /// found where the title and the author derive no address.
    pub fn review(&self, title: &str, reviewer: &Pubkey) -> (review: Option<&MovieAccountState>)
        requires
            self.wf(),
        ensures
            match spec_review_address(self@.program_id, title@, *reviewer) {
                Some(address) => {
                    &&& review is Some <==> self@.reviews.contains_key(address)
                    &&& review matches Some(data) ==> data@ == self@.reviews[address].data
                },
                None => review is None,
            },
    {
        match review_address(&self.program_id, title, reviewer) {
            Some(address) => self.review_at(&address),
            None => None,
        }
    }

    /// Initializes the mint at `address`, which `bump` completes the seeds
    /// of. There is one mint: a second one is turned down, wherever it was
    /// to live. The new mint has the decimals of the reward token and is
    /// its own authority; `user` only pays for it.
    pub fn initialize_mint_authority_at(
        &mut self,
        address: Pubkey,
        bump: u8,
        user: Pubkey,
    ) -> (initialized: Result<(), RegistryError>)
        requires
            old(self).wf(),
        ensures
            final(self).wf(),
            initialized == old(self)@.initialize_outcome(),
            final(self)@ == old(self)@.initialize_at(address, bump),
            old(self)@.addresses_derived() ==> final(self)@.addresses_derived(),
    {
        if self.mint.is_some() {
            return Err(RegistryError::AccountAlreadyInUse);
        }
        let accounts = InitializeMint {
            mint: Mint { address, bump, decimals: MINT_DECIMALS, mint_authority: address },
            user,
        };
        match initialize_token_mint(&accounts) {
            Ok(_) => {
                self.mint = Some(accounts.mint);
                Ok(())
            },
            Err(e) => Err(RegistryError::Review(e)),
        }
    }

    /// Initializes the mint at the address that the fixed tag derives.
    /// Where the tag derives no address, nothing is initialized.
    pub fn initialize_mint_authority(&mut self, user: Pubkey) -> (initialized: Result<
        (),
        RegistryError,
    >)
        requires
            old(self).wf(),
        ensures
            final(self).wf(),
            match spec_mint_address(old(self)@.program_id) {
                Some((address, bump)) => {
                    &&& initialized == old(self)@.initialize_outcome()
                    &&& final(self)@ == old(self)@.initialize_at(address, bump)
                },
                None => {
                    &&& initialized == Err::<(), RegistryError>(RegistryError::InvalidSeeds)
                    &&& final(self)@ == old(self)@
                },
            },
            old(self)@.addresses_derived() ==> final(self)@.addresses_derived(),
    {
        match mint_address(&self.program_id) {
            Some((address, bump)) => self.initialize_mint_authority_at(address, bump, user),
            None => Err(RegistryError::InvalidSeeds),
        }
    }

    /// Creates the review of `title` by `initializer` at `address`.
    ///
    /// There must be a mint, and no review at the address yet; then the
    /// rating, the title and the description must be within their bounds.
    /// The new record reserves exactly the bytes that it takes, and the
    /// answer is the request for the author's reward. A failure leaves
    /// the registry as it was.
    pub fn create_review_at(
        &mut self,
        address: Pubkey,
        initializer: Pubkey,
        title: String,
        description: String,
        rating: u8,
    ) -> (created: Result<MintTo, RegistryError>)
        requires
            old(self).wf(),
        ensures
            final(self).wf(),
            created == old(self)@.create_outcome(
                address,
                initializer,
                title@,
                description@,
                rating,
            ),
            final(self)@ == old(self)@.create_at(
                address,
                initializer,
                title@,
                description@,
                rating,
            ),
    {
        let mint = match self.mint {
            Some(mint) => mint,
            None => {
                return Err(RegistryError::AccountNotInitialized);
            },
        };
        if self.reviews.get(&address).is_some() {
            return Err(RegistryError::AccountAlreadyInUse);
        }
        let mut accounts = AddMovieReview {
            movie_review: MovieAccountState {
                reviewer: Pubkey::new_from_array([0u8; 32]),
                rating: 0,
                title: String::new(),
                description: String::new(),
            },
            initializer,
            mint,
            token_account: TokenAccount { mint: mint.address, owner: initializer },
        };
        match add_movie_review(&mut accounts, title, description, rating) {
            Ok(request) => {
                proof {
                    lemma_byte_len_bounds(title@);
                    lemma_byte_len_bounds(description@);
                }
                let space = MovieAccountState::space(
                    accounts.movie_review.title.as_str(),
                    accounts.movie_review.description.as_str(),
                );
                self.reviews.insert(ReviewAccount { address, space, data: accounts.movie_review });
                Ok(request)
            },
            Err(e) => Err(RegistryError::Review(e)),
        }
    }

    /// Creates the review of `title` by `initializer` at the address that
    /// the two derive. Where they derive none, as with a title that takes
    /// more than 32 bytes, nothing is created.
    pub fn create_review(
        &mut self,
        initializer: Pubkey,
        title: String,
        description: String,
        rating: u8,
    ) -> (created: Result<MintTo, RegistryError>)
        requires
            old(self).wf(),
        ensures
            final(self).wf(),
            match spec_review_address(old(self)@.program_id, title@, initializer) {
                Some(address) => {
                    &&& created == old(self)@.create_outcome(
                        address,
                        initializer,
                        title@,
                        description@,
                        rating,
                    )
                    &&& final(self)@ == old(self)@.create_at(
                        address,
                        initializer,
                        title@,
                        description@,
                        rating,
                    )
                },
                None => {
                    &&& created == Err::<MintTo, RegistryError>(RegistryError::InvalidSeeds)
                    &&& final(self)@ == old(self)@
                },
            },
            byte_len(title@) > MAX_SEED_LEN ==> created == Err::<MintTo, RegistryError>(
                RegistryError::InvalidSeeds,
            ),
            old(self)@.addresses_derived() ==> final(self)@.addresses_derived(),
    {
        match review_address(&self.program_id, title.as_str(), &initializer) {
            Some(address) => {
                proof {
                    if self@.addresses_derived() {
                        lemma_create_keeps_addresses_derived(
                            self@,
                            address,
                            initializer,
                            title@,
                            description@,
                            rating,
                        );
                    }
                }
                self.create_review_at(address, initializer, title, description, rating)
            },
            None => Err(RegistryError::InvalidSeeds),
        }
    }

    /// Updates the review at `address`.
    ///
    /// There must be a review at the address, and the initializer must be
    /// its author; then the rating and the description must be within
    /// their bounds. The record takes the new description and rating and
    /// keeps the rest. The title has no part in it. A failure leaves the
    /// registry as it was.
    pub fn update_review_at(
        &mut self,
        address: Pubkey,
        initializer: Pubkey,
        title: String,
        description: String,
        rating: u8,
    ) -> (updated: Result<(), RegistryError>)
        requires
            old(self).wf(),
        ensures
            final(self).wf(),
            updated == old(self)@.update_outcome(address, initializer, description@, rating),
            final(self)@ == old(self)@.update_at(address, initializer, description@, rating),
            old(self)@.addresses_derived() ==> final(self)@.addresses_derived(),
    {
        proof {
            if self@.addresses_derived() {
                lemma_update_keeps_addresses_derived(
                    self@,
                    address,
                    initializer,
                    description@,
                    rating,
                );
            }
        }
        let (space, movie_review) = match self.reviews.get(&address) {
            Some(account) => (account.space, account.data.clone()),
            None => {
                return Err(RegistryError::AccountNotInitialized);
            },
        };
        if !movie_review.reviewer.equals(&initializer) {
            return Err(RegistryError::SignerMismatch);
        }
        let mut accounts = UpdateMovieReview { movie_review, initializer };
        match update_movie_review(&mut accounts, title, description, rating) {
            Ok(_) => {
                self.reviews.insert(ReviewAccount { address, space, data: accounts.movie_review });
                Ok(())
            },
            Err(e) => Err(RegistryError::Review(e)),
        }
    }

    /// Updates the review of `title` by `initializer`, found at the address
    /// that the two derive. Where they derive none, nothing is updated.
    pub fn update_review(
        &mut self,
        initializer: Pubkey,
        title: String,
        description: String,
        rating: u8,
    ) -> (updated: Result<(), RegistryError>)
        requires
            old(self).wf(),
        ensures
            final(self).wf(),
            match spec_review_address(old(self)@.program_id, title@, initializer) {
                Some(address) => {
                    &&& updated == old(self)@.update_outcome(
                        address,
                        initializer,
                        description@,
                        rating,
                    )
                    &&& final(self)@ == old(self)@.update_at(
                        address,
                        initializer,
                        description@,
                        rating,
                    )
                },
                None => {
                    &&& updated == Err::<(), RegistryError>(RegistryError::InvalidSeeds)
                    &&& final(self)@ == old(self)@
                },
            },
            old(self)@.addresses_derived() ==> final(self)@.addresses_derived(),
    {
        match review_address(&self.program_id, title.as_str(), &initializer) {
            Some(address) => {
                self.update_review_at(address, initializer, title, description, rating)
            },
            None => Err(RegistryError::InvalidSeeds),
        }
    }

    /// Deletes the review at `address`.
    ///
    /// There must be a review at the address, and the initializer must be
    /// its author. It is removed, and the answer names the bytes that had
    /// been reserved for it and its author as the one to whom their cost
    /// returns. The title has no part in it. A failure leaves the registry
    /// as it was.
    pub fn delete_review_at(
        &mut self,
        address: Pubkey,
        initializer: Pubkey,
        title: String,
    ) -> (deleted: Result<Refund, RegistryError>)
        requires
            old(self).wf(),
        ensures
            final(self).wf(),
            deleted == old(self)@.delete_outcome(address, initializer),
            final(self)@ == old(self)@.delete_at(address, initializer),
            old(self)@.addresses_derived() ==> final(self)@.addresses_derived(),
    {
        proof {
            if self@.addresses_derived() {
                lemma_delete_keeps_addresses_derived(self@, address, initializer);
            }
        }
        let (space, movie_review) = match self.reviews.get(&address) {
            Some(account) => (account.space, account.data.clone()),
            None => {
                return Err(RegistryError::AccountNotInitialized);
            },
        };
        if !movie_review.reviewer.equals(&initializer) {
            return Err(RegistryError::SignerMismatch);
        }
        let accounts = DeleteMovieReview { movie_review, initializer };
        match delete_movie_review(&accounts, title) {
            Ok(_) => {
                self.reviews.remove(&address);
                Ok(Refund { recipient: accounts.movie_review.reviewer, space })
            },
            Err(e) => Err(RegistryError::Review(e)),
        }
    }

    /// Deletes the review of `title` by `initializer`, found at the address
    /// that the two derive. Where they derive none, nothing is deleted.
    pub fn delete_review(&mut self, initializer: Pubkey, title: String) -> (deleted: Result<
        Refund,
        RegistryError,
    >)
        requires
            old(self).wf(),
        ensures
            final(self).wf(),
            match spec_review_address(old(self)@.program_id, title@, initializer) {
                Some(address) => {
                    &&& deleted == old(self)@.delete_outcome(address, initializer)
                    &&& final(self)@ == old(self)@.delete_at(address, initializer)
                },
                None => {
                    &&& deleted == Err::<Refund, RegistryError>(RegistryError::InvalidSeeds)
                    &&& final(self)@ == old(self)@
                },
            },
            old(self)@.addresses_derived() ==> final(self)@.addresses_derived(),
    {
        match review_address(&self.program_id, title.as_str(), &initializer) {
            Some(address) => self.delete_review_at(address, initializer, title),
            None => Err(RegistryError::InvalidSeeds),
        }
    }
}

} // verus!
