//! A movie review registry.
//!
//! An author records a short review of a film (a title, a description and
//! a rating), may later replace the description and the rating, and may
//! delete the review again. Every new review earns its author a fixed
//! token reward. Each review lives at an address derived from its title and
//! its author, so one author holds at most one review of one title.
//!
//! - [`state`] holds the review record and its bounds.
//! - [`instructions`] holds the four instructions, each on the accounts
//!   that it works on: they test their arguments, fill the record and say
//!   what reward is to be minted.
//! - [`pubkey`] holds the addresses and their derivation from seeds, which
//!   is the runtime's own.
//! - [`store`] keeps the records, each at its address.
//! - [`registry`] runs the instructions on the accounts at their derived
//!   addresses and keeps what they leave.
//! - [`laws`] states what holds of all of this whatever the arguments.

pub mod error;
pub mod instructions;
pub mod laws;
pub mod pubkey;
pub mod registry;
pub mod state;
pub mod store;

pub use error::{MovieReviewError, RegistryError};
pub use instructions::{
    add_movie_review, delete_movie_review, initialize_token_mint, update_movie_review,
    AddMovieReview, DeleteMovieReview, Initialize, InitializeMint, Mint, MintTo, TokenAccount,
    UpdateMovieReview,
};
pub use pubkey::Pubkey;
pub use registry::{Refund, Registry};
pub use state::MovieAccountState;
