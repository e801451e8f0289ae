//! The ways in which an instruction can fail.

use vstd::prelude::*;

verus! {

/// Why an instruction rejected its arguments.
#[derive(Clone, Copy, Debug, PartialEq, Eq, Structural)]
pub enum MovieReviewError {
    /// The rating is below 1 or above 5.
    InvalidRating,
    /// The title is longer than 20 characters.
    TitleTooLong,
    /// The description is longer than 50 characters.
    DescriptionTooLong,
}

impl MovieReviewError {
    /// The message that belongs to each error.
    pub open spec fn spec_message(self) -> Seq<char> {
        match self {
            MovieReviewError::InvalidRating => "Rating must be between 1 and 5"@,
            MovieReviewError::TitleTooLong => "Movie Title too long"@,
            MovieReviewError::DescriptionTooLong => "Movie Description too long"@,
        }
    }

    /// The message shown to the caller.
    pub fn message(&self) -> (text: String)
        ensures
            text@ == self.spec_message(),
    {
        match self {
            MovieReviewError::InvalidRating => "Rating must be between 1 and 5".to_owned(),
            MovieReviewError::TitleTooLong => "Movie Title too long".to_owned(),
            MovieReviewError::DescriptionTooLong => "Movie Description too long".to_owned(),
        }
    }
}

/// Why the registry turned an operation down. Nothing is changed by an
/// operation that fails.
#[derive(Clone, Copy, Debug, PartialEq, Eq, Structural)]
pub enum RegistryError {
    /// The instruction rejected its arguments.
    Review(MovieReviewError),
    /// An account already lives at the address where one was to be created.
    AccountAlreadyInUse,
    /// No account lives at the address where one was expected.
    AccountNotInitialized,
    /// The one who signs is not the author of the record.
    SignerMismatch,
    /// The seeds derive no address.
    InvalidSeeds,
}

} // verus!
