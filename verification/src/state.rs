//! The review record and its bounds.

use vstd::prelude::*;
use vstd::string::*;
use crate::error::MovieReviewError;
use crate::pubkey::Pubkey;

verus! {

/// Bytes of the tag that precedes every stored record.
pub const ANCHOR_DISCRIMINATOR: usize = 8;

/// Bytes of a stored address.
pub const PUBKEY_SIZE: usize = 32;

/// Bytes of a stored rating.
pub const U8_SIZE: usize = 1;

/// Bytes of the length that precedes every stored text.
pub const STRING_LENGTH_PREFIX: usize = 4;

/// Largest number of characters in a description.
pub const MAX_DESCRIPTION_LENGTH: usize = 50;

/// Largest number of characters in a title.
pub const MAX_TITLE_LENGTH: usize = 20;

/// Largest number of bytes that one character takes in UTF-8.
pub const MAX_CHAR_BYTES: usize = 4;

/// Largest rating.
pub const MAX_RATING: u8 = 5;

/// Smallest rating.
pub const MIN_RATING: u8 = 1;

/// Bytes that a record with an empty title and an empty description takes.
pub const INIT_SPACE: usize = ANCHOR_DISCRIMINATOR + PUBKEY_SIZE + U8_SIZE + STRING_LENGTH_PREFIX
    + STRING_LENGTH_PREFIX;

/// The length of a text, counted in the bytes of its UTF-8 encoding.
pub open spec fn byte_len(text: Seq<char>) -> nat {
    vstd::utf8::encode_utf8(text).len()
}

/// Whether a rating lies between the smallest and the largest, both
/// included.
pub open spec fn rating_in_range(rating: u8) -> bool {
    MIN_RATING <= rating <= MAX_RATING
}

/// Whether a title is short enough: at most 20 characters.
pub open spec fn title_fits(title: Seq<char>) -> bool {
    title.len() <= MAX_TITLE_LENGTH
}

/// Whether a description is short enough: at most 50 characters.
pub open spec fn description_fits(description: Seq<char>) -> bool {
    description.len() <= MAX_DESCRIPTION_LENGTH
}

/// A text takes at least one byte and at most four for each of its
/// characters.
pub proof fn lemma_byte_len_bounds(text: Seq<char>)
    ensures
        text.len() <= byte_len(text) <= MAX_CHAR_BYTES * text.len(),
    decreases text.len(),
{
    if text.len() > 0 {
        lemma_byte_len_bounds(text.drop_first());
    }
}

/// Bytes that a record with the given title and description takes: the
/// tag, the author, the rating, and each text behind its length.
pub open spec fn spec_space(title: Seq<char>, description: Seq<char>) -> nat {
    INIT_SPACE as nat + byte_len(title) + byte_len(description)
}

/// The number of bytes in the UTF-8 encoding of `text`.
pub fn text_len(text: &str) -> (len: usize)
    ensures
        len == byte_len(text@),
{
    text.as_bytes().len()
}

/// The number of characters of `text`.
pub fn char_count(text: &str) -> (count: usize)
    ensures
        count == text@.len(),
{
    text.unicode_len()
}

/// Tests the rating.
pub fn check_rating(rating: u8) -> (checked: Result<(), MovieReviewError>)
    ensures
        checked is Ok <==> rating_in_range(rating),
        checked is Err ==> checked == Err::<(), MovieReviewError>(MovieReviewError::InvalidRating),
{
    if rating >= MIN_RATING && rating <= MAX_RATING {
        Ok(())
    } else {
        Err(MovieReviewError::InvalidRating)
    }
}

/// Tests the length of the title.
pub fn check_title(title: &str) -> (checked: Result<(), MovieReviewError>)
    ensures
        checked is Ok <==> title_fits(title@),
        checked is Err ==> checked == Err::<(), MovieReviewError>(MovieReviewError::TitleTooLong),
{
    if char_count(title) <= MAX_TITLE_LENGTH {
        Ok(())
    } else {
        Err(MovieReviewError::TitleTooLong)
    }
}

/// Tests the length of the description.
pub fn check_description(description: &str) -> (checked: Result<(), MovieReviewError>)
    ensures
        checked is Ok <==> description_fits(description@),
        checked is Err ==> checked == Err::<(), MovieReviewError>(
            MovieReviewError::DescriptionTooLong,
        ),
{
    if char_count(description) <= MAX_DESCRIPTION_LENGTH {
        Ok(())
    } else {
        Err(MovieReviewError::DescriptionTooLong)
    }
}

/// What a review record holds, as mathematical values.
pub struct MovieAccountStateView {
    pub reviewer: Pubkey,
    pub rating: u8,
    pub title: Seq<char>,
    pub description: Seq<char>,
}

impl MovieAccountStateView {
    /// Whether the rating and both lengths are within their bounds.
    pub open spec fn is_valid(self) -> bool {
        &&& rating_in_range(self.rating)
        &&& title_fits(self.title)
        &&& description_fits(self.description)
    }
}

/// A review of a film by one author.
#[derive(Debug)]
pub struct MovieAccountState {
    /// Who wrote the review. Never changes.
    pub reviewer: Pubkey,
    /// From 1 to 5.
    pub rating: u8,
    /// At most 20 characters. Never changes.
    pub title: String,
    /// At most 50 characters.
    pub description: String,
}

impl View for MovieAccountState {
    type V = MovieAccountStateView;

    open spec fn view(&self) -> MovieAccountStateView {
        MovieAccountStateView {
            reviewer: self.reviewer,
            rating: self.rating,
            title: self.title@,
            description: self.description@,
        }
    }
}

impl MovieAccountState {
    /// Bytes to reserve for a record with the given title and description.
    pub fn space(title: &str, description: &str) -> (bytes: usize)
        requires
            spec_space(title@, description@) <= usize::MAX,
        ensures
            bytes == spec_space(title@, description@),
    {
        INIT_SPACE + text_len(title) + text_len(description)
    }
}

impl Clone for MovieAccountState {
    /// A copy of the record, field by field.
    fn clone(&self) -> (copy: MovieAccountState)
        ensures
            copy@ == self@,
    {
        MovieAccountState {
            reviewer: self.reviewer,
            rating: self.rating,
            title: self.title.clone(),
            description: self.description.clone(),
        }
    }
}

} // verus!
