//! How much storage each kind of record is given when it is created.
//!
//! A record is stored behind an 8-byte marker of its kind. A text takes a
//! 4-byte length and its bytes, a list a 4-byte length and its entries, an
//! address 32 bytes. The storage of a record is sized for its lists at
//! their bounds and its texts at their longest.

use crate::address::MAX_SEED_LEN;
use crate::records::{MAX_COMMUNITIES_PER_USER, MAX_SURVEYS_PER_COMMUNITY, MAX_SURVEY_ANSWERS};
use vstd::prelude::*;

verus! {

/// The storage of the configuration: the marker and its three bounds.
pub const CONFIG_SPACE: usize = 8 + 1 + 2 + 1;

/// The storage of a vote's record: the marker and the voter.
pub const VOTE_SPACE: usize = 8 + 32;

/// The storage of a user record: the marker, the authority and as many
/// references as a user can hold, each with a name as long as a seed can
/// be.
pub const USER_SPACE: usize = 8 + 32 + 4 + MAX_COMMUNITIES_PER_USER * (4 + MAX_SEED_LEN + 32);

/// The storage of a survey: the marker, a title of up to 30 bytes, a
/// community name of up to 50, a question of up to 200, as many answers as
/// a survey can offer, each of up to 50 bytes and with its counter, and
/// the closing time.
pub const SURVEY_SPACE: usize = 8 + (4 + 30) + (4 + 50) + (4 + 200) + 4 + MAX_SURVEY_ANSWERS * (4
    + 50 + 4) + 8;

/// The storage of a community apart from its name: the marker, the length
/// of the name, the authority and as many titles as a community can list,
/// each of up to 30 bytes.
pub const COMMUNITY_BASE_SPACE: usize = 8 + 4 + 32 + 4 + MAX_SURVEYS_PER_COMMUNITY * (4 + 30);

/// The storage of a community whose name has `name_len` bytes, or `None`
/// where that is more than a `usize` holds.
pub fn community_space(name_len: usize) -> (space: Option<usize>)
    ensures
        name_len + COMMUNITY_BASE_SPACE <= usize::MAX ==> space == Some(
            (name_len + COMMUNITY_BASE_SPACE) as usize,
        ),
        name_len + COMMUNITY_BASE_SPACE > usize::MAX ==> space is None,
{
    name_len.checked_add(COMMUNITY_BASE_SPACE)
}

} // verus!
