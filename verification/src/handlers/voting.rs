//! Voting on surveys.

use crate::address::{derived_vote, vote_address, Address};
use crate::error::ErrorCode;
use crate::handlers::gate::{addressed, check_address, read_community, read_survey, read_user};
use crate::records::{holds_ref, is_member, Record, RecordView, VoteRecord};
use crate::state::{
    community_at, deposits_kept, records_kept, survey_at, touches_only, user_at, votes_kept,
    with_vote, Entry, State,
};
use crate::store::Store;
use vstd::prelude::*;

verus! {

/// The addresses and the caller of `vote`.
#[derive(Clone, Copy, Debug, PartialEq, Eq)]
pub struct Vote {
    /// The caller's user record.
    pub user_account: Address,
    /// The survey voted on.
    pub survey_account: Address,
    /// The community of the survey.
    pub community_account: Address,
    /// The caller, who votes.
    pub authority: Address,
    /// Where the record of this vote is to be created.
    pub vote_record: Address,
}

/// Whether the addresses of a `Vote` are the derived ones.
pub open spec fn vote_addresses(ctx: Vote) -> bool {
    derived_vote(ctx.survey_account, ctx.authority) == Some(ctx.vote_record)
}

/// What `apply_vote` answers in state `s` at time `now`.
pub open spec fn apply_vote_outcome(s: State, ctx: Vote, answer_index: u8, now: i64) -> Result<
    (),
    ErrorCode,
> {
    let user = user_at(s, ctx.user_account);
    let survey = survey_at(s, ctx.survey_account);
    let community = community_at(s, ctx.community_account);
    if user is None {
        Err(ErrorCode::NotFound)
    } else if user.unwrap().authority != ctx.authority {
        Err(ErrorCode::Unauthorized)
    } else if survey is None {
        Err(ErrorCode::NotFound)
    } else if community is None {
        Err(ErrorCode::NotFound)
    } else if s.dom().contains(ctx.vote_record) {
        Err(ErrorCode::AlreadyExists)
    } else if !is_member(user.unwrap().communities, ctx.community_account) {
        Err(ErrorCode::NotMemberOfCommunity)
    } else if survey.unwrap().community_name != community.unwrap().name {
        Err(ErrorCode::SurveyNotInCommunity)
    } else if now >= survey.unwrap().limitdate {
        Err(ErrorCode::VotingClosed)
    } else if answer_index >= survey.unwrap().answers.len() {
        Err(ErrorCode::InvalidAnswerIndex)
    } else if survey.unwrap().answers[answer_index as int].votes == u32::MAX {
        Err(ErrorCode::VoteCountOverflow)
    } else {
        Ok(())
    }
}

/// The state that `apply_vote` leaves.
pub open spec fn apply_vote_state(
    s: State,
    ctx: Vote,
    answer_index: u8,
    now: i64,
    deposit: u64,
) -> State {
    if apply_vote_outcome(s, ctx, answer_index, now) is Ok {
        with_vote(
            s.insert(
                ctx.vote_record,
                Entry { record: RecordView::Vote(VoteRecord { voter: ctx.authority }), deposit },
            ),
            ctx.survey_account,
            answer_index as int,
        )
    } else {
        s
    }
}

/// What `vote` answers in state `s` at time `now`.
pub open spec fn vote_outcome(s: State, ctx: Vote, answer_index: u8, now: i64) -> Result<
    (),
    ErrorCode,
> {
    if !vote_addresses(ctx) {
        Err(ErrorCode::AddressMismatch)
    } else {
        apply_vote_outcome(s, ctx, answer_index, now)
    }
}

/// The state that `vote` leaves.
pub open spec fn vote_state(
    s: State,
    ctx: Vote,
    answer_index: u8,
    now: i64,
    deposit: u64,
) -> State {
    if vote_addresses(ctx) {
        apply_vote_state(s, ctx, answer_index, now, deposit)
    } else {
        s
    }
}

/// Casts a vote at the addresses given, whatever seeds they come from.
///
/// The first failing test decides the error:
/// - `NotFound`: no user record at its address;
/// - `Unauthorized`: the caller is not the authority of the user record;
/// - `NotFound`: no survey or no community record at its address;
/// - `AlreadyExists`: the address of the vote's record is occupied;
/// - `NotMemberOfCommunity`: the user holds no reference to the community;
/// - `SurveyNotInCommunity`: the survey names another community;
/// - `VotingClosed`: `now` is not before the survey's closing time;
/// - `InvalidAnswerIndex`: the survey has no answer at `answer_index`;
/// - `VoteCountOverflow`: the answer's counter is at `u32::MAX`.
///
/// Otherwise the record of the vote is created, and then the answer's
/// counter goes up by one.
pub fn apply_vote(store: &mut Store, ctx: &Vote, answer_index: u8, now: i64, deposit: u64) -> (r:
    Result<(), ErrorCode>)
    requires
        old(store).wf(),
    ensures
        final(store).wf(),
        r == apply_vote_outcome(old(store)@, *ctx, answer_index, now),
        final(store)@ == apply_vote_state(old(store)@, *ctx, answer_index, now, deposit),
        r is Err ==> final(store)@ == old(store)@,
        touches_only(old(store)@, final(store)@, set![ctx.vote_record, ctx.survey_account]),
        records_kept(old(store)@, final(store)@),
        deposits_kept(old(store)@, final(store)@),
        votes_kept(old(store)@, final(store)@),
{
    let user = match read_user(store, &ctx.user_account) {
        Some(u) => u,
        None => { return Err(ErrorCode::NotFound); },
    };
    if user.authority != ctx.authority {
        return Err(ErrorCode::Unauthorized);
    }
    let survey = match read_survey(store, &ctx.survey_account) {
        Some(v) => v,
        None => { return Err(ErrorCode::NotFound); },
    };
    let community = match read_community(store, &ctx.community_account) {
        Some(c) => c,
        None => { return Err(ErrorCode::NotFound); },
    };
    if store.contains(&ctx.vote_record) {
        return Err(ErrorCode::AlreadyExists);
    }
    if !holds_ref(&user.communities, &ctx.community_account) {
        return Err(ErrorCode::NotMemberOfCommunity);
    }
    if survey.community_name != community.name {
        return Err(ErrorCode::SurveyNotInCommunity);
    }
    if now >= survey.limitdate {
        return Err(ErrorCode::VotingClosed);
    }
    let index = answer_index as usize;
    if index >= survey.answers.len() {
        return Err(ErrorCode::InvalidAnswerIndex);
    }
    if survey.answers[index].votes == u32::MAX {
        return Err(ErrorCode::VoteCountOverflow);
    }
    store.create(ctx.vote_record, Record::Vote(VoteRecord { voter: ctx.authority }), deposit)?;
    store.count_vote(&ctx.survey_account, index)?;
    Ok(())
}

/// Casts the caller's vote for one answer of a survey. Fails with
/// `AddressMismatch` unless the address of the vote's record is the one
/// derived from the survey's address and the caller; after that it does
/// what `apply_vote` does. Since that record is created with the vote, a
/// voter's second vote on a survey is always refused.
pub fn vote(store: &mut Store, ctx: &Vote, answer_index: u8, now: i64, deposit: u64) -> (r: Result<
    (),
    ErrorCode,
>)
    requires
        old(store).wf(),
    ensures
        final(store).wf(),
        r == vote_outcome(old(store)@, *ctx, answer_index, now),
        final(store)@ == vote_state(old(store)@, *ctx, answer_index, now, deposit),
        r is Err ==> final(store)@ == old(store)@,
        touches_only(old(store)@, final(store)@, set![ctx.vote_record, ctx.survey_account]),
        records_kept(old(store)@, final(store)@),
        deposits_kept(old(store)@, final(store)@),
        votes_kept(old(store)@, final(store)@),
        addressed(old(store)@) ==> addressed(final(store)@),
{
    check_address(vote_address(&ctx.survey_account, &ctx.authority), &ctx.vote_record)?;
    apply_vote(store, ctx, answer_index, now, deposit)
}

} // verus!
