//! Failure reasons and their classes.

use vstd::prelude::*;
use vstd::string::*;

verus! {

/// Why an operation was refused. A refused operation changes nothing.
#[derive(Clone, Copy, Debug, PartialEq, Eq, Structural)]
pub enum ErrorCode {
    /// The user already holds a reference to the community.
    AlreadyMember,
    /// The user's list of communities is full.
    TooManyCommunities,
    /// A survey offers more answers than a survey may hold.
    TooManyAnswers,
    /// The survey's closing time is not after the current time.
    LimitDateInPast,
    /// The user holds no reference to the community.
    NotMemberOfCommunity,
    /// The survey names another community than the one presented.
    SurveyNotInCommunity,
    /// The survey's closing time has been reached.
    VotingClosed,
    /// The survey has no answer at the chosen index.
    InvalidAnswerIndex,
    /// The title is longer than the configuration allows.
    SurveyTitleTooLong,
    /// The question text is longer than the configuration allows.
    SurveyQuestionTooLong,
    /// An answer text is longer than the configuration allows.
    SurveyAnswerTooLong,
    /// The caller is not the community's authority.
    NotCommunityAuthority,
    /// The community does not list the survey's title.
    SurveyNotFoundInCommunity,
    /// The address to create a record at is occupied, or the list to
    /// extend already holds the entry.
    AlreadyExists,
    /// No record of the expected kind is stored at the address.
    NotFound,
    /// The caller is not the authority of the user record presented.
    Unauthorized,
    /// A presented address is not the one derived from its seeds.
    AddressMismatch,
    /// The community's list of surveys is full.
    TooManySurveys,
    /// The answer's vote counter cannot count further.
    VoteCountOverflow,
}

/// The classes of failure.
#[derive(Clone, Copy, Debug, PartialEq, Eq, Structural)]
pub enum ErrorKind {
    /// A uniqueness violation at creation.
    AlreadyExists,
    /// A referenced entity is missing.
    NotFound,
    /// The caller lacks the authority the operation asks for.
    Unauthorized,
    /// A list is at its bound.
    CapacityExceeded,
    /// An index or a counter is outside its range.
    OutOfRange,
    /// A rule of the survey board forbids the operation.
    PolicyViolation,
    /// A presented address fails the derivation check.
    IntegrityFailure,
}

impl ErrorCode {
    /// The class a failure reason belongs to.
    pub open spec fn class(self) -> ErrorKind {
        match self {
            ErrorCode::AlreadyExists => ErrorKind::AlreadyExists,
            ErrorCode::NotFound | ErrorCode::SurveyNotFoundInCommunity => ErrorKind::NotFound,
            ErrorCode::Unauthorized | ErrorCode::NotCommunityAuthority => ErrorKind::Unauthorized,
            ErrorCode::TooManyCommunities | ErrorCode::TooManySurveys => {
                ErrorKind::CapacityExceeded
            },
            ErrorCode::InvalidAnswerIndex | ErrorCode::VoteCountOverflow => ErrorKind::OutOfRange,
            ErrorCode::AddressMismatch => ErrorKind::IntegrityFailure,
            ErrorCode::AlreadyMember
            | ErrorCode::TooManyAnswers
            | ErrorCode::LimitDateInPast
            | ErrorCode::NotMemberOfCommunity
            | ErrorCode::SurveyNotInCommunity
            | ErrorCode::VotingClosed
            | ErrorCode::SurveyTitleTooLong
            | ErrorCode::SurveyQuestionTooLong
            | ErrorCode::SurveyAnswerTooLong => ErrorKind::PolicyViolation,
        }
    }

    /// The text that explains a failure reason.
    pub open spec fn text(self) -> Seq<char> {
        match self {
            ErrorCode::AlreadyMember => "User is already a member of this community."@,
            ErrorCode::TooManyCommunities => {
                "User has reached the maximum number of communities."@
            },
            ErrorCode::TooManyAnswers => "Too many answers provided (max 4)."@,
            ErrorCode::LimitDateInPast => "Limit date must be in the future."@,
            ErrorCode::NotMemberOfCommunity => "User is not a member of the community."@,
            ErrorCode::SurveyNotInCommunity => "Survey is not linked to the community."@,
            ErrorCode::VotingClosed => "Voting is closed for this survey."@,
            ErrorCode::InvalidAnswerIndex => "Invalid answer index."@,
            ErrorCode::SurveyTitleTooLong => "Survey title is too long."@,
            ErrorCode::SurveyQuestionTooLong => "Survey question is too long."@,
            ErrorCode::SurveyAnswerTooLong => "Survey answer is too long."@,
            ErrorCode::NotCommunityAuthority => "Authority is not the community authority."@,
            ErrorCode::SurveyNotFoundInCommunity => "Survey not found in community."@,
            ErrorCode::AlreadyExists => "A record already exists at this address."@,
            ErrorCode::NotFound => "No such record at this address."@,
            ErrorCode::Unauthorized => "Caller is not the authority of this record."@,
            ErrorCode::AddressMismatch => "Address does not match its seeds."@,
            ErrorCode::TooManySurveys => {
                "Community has reached the maximum number of surveys."@
            },
            ErrorCode::VoteCountOverflow => "Vote counter is at its maximum."@,
        }
    }

    /// Classifies the failure reason.
    pub fn kind(self) -> (k: ErrorKind)
        ensures
            k == self.class(),
    {
        match self {
            ErrorCode::AlreadyExists => ErrorKind::AlreadyExists,
            ErrorCode::NotFound | ErrorCode::SurveyNotFoundInCommunity => ErrorKind::NotFound,
            ErrorCode::Unauthorized | ErrorCode::NotCommunityAuthority => ErrorKind::Unauthorized,
            ErrorCode::TooManyCommunities | ErrorCode::TooManySurveys => {
                ErrorKind::CapacityExceeded
            },
            ErrorCode::InvalidAnswerIndex | ErrorCode::VoteCountOverflow => ErrorKind::OutOfRange,
            ErrorCode::AddressMismatch => ErrorKind::IntegrityFailure,
            ErrorCode::AlreadyMember
            | ErrorCode::TooManyAnswers
            | ErrorCode::LimitDateInPast
            | ErrorCode::NotMemberOfCommunity
            | ErrorCode::SurveyNotInCommunity
            | ErrorCode::VotingClosed
            | ErrorCode::SurveyTitleTooLong
            | ErrorCode::SurveyQuestionTooLong
            | ErrorCode::SurveyAnswerTooLong => ErrorKind::PolicyViolation,
        }
    }

    /// Explains the failure reason in words.
    pub fn message(self) -> (s: String)
        ensures
            s@ == self.text(),
    {
        match self {
            ErrorCode::AlreadyMember => String::from_str(
                "User is already a member of this community.",
            ),
            ErrorCode::TooManyCommunities => String::from_str(
                "User has reached the maximum number of communities.",
            ),
            ErrorCode::TooManyAnswers => String::from_str("Too many answers provided (max 4)."),
            ErrorCode::LimitDateInPast => String::from_str("Limit date must be in the future."),
            ErrorCode::NotMemberOfCommunity => String::from_str(
                "User is not a member of the community.",
            ),
            ErrorCode::SurveyNotInCommunity => String::from_str(
                "Survey is not linked to the community.",
            ),
            ErrorCode::VotingClosed => String::from_str("Voting is closed for this survey."),
            ErrorCode::InvalidAnswerIndex => String::from_str("Invalid answer index."),
            ErrorCode::SurveyTitleTooLong => String::from_str("Survey title is too long."),
            ErrorCode::SurveyQuestionTooLong => String::from_str("Survey question is too long."),
            ErrorCode::SurveyAnswerTooLong => String::from_str("Survey answer is too long."),
            ErrorCode::NotCommunityAuthority => String::from_str(
                "Authority is not the community authority.",
            ),
            ErrorCode::SurveyNotFoundInCommunity => String::from_str(
                "Survey not found in community.",
            ),
            ErrorCode::AlreadyExists => String::from_str(
                "A record already exists at this address.",
            ),
            ErrorCode::NotFound => String::from_str("No such record at this address."),
            ErrorCode::Unauthorized => String::from_str(
                "Caller is not the authority of this record.",
            ),
            ErrorCode::AddressMismatch => String::from_str("Address does not match its seeds."),
            ErrorCode::TooManySurveys => String::from_str(
                "Community has reached the maximum number of surveys.",
            ),
            ErrorCode::VoteCountOverflow => String::from_str("Vote counter is at its maximum."),
        }
    }
}

} // verus!
