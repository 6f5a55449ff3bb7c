//! What holds of the operations taken together.

use crate::address::{derived_community, derived_survey, Address};
use crate::error::ErrorCode;
use crate::handlers::communities::{
    create_community_addresses, create_community_outcome, create_community_state,
    join_community_addresses, join_community_outcome, join_community_state, CreateCommunity,
    JoinCommunity,
};
use crate::handlers::gate::addressed;
use crate::handlers::surveys::{
    create_survey_outcome, create_survey_state, fresh_answers, CreateSurvey,
};
use crate::handlers::voting::{vote_outcome, vote_state, Vote};
use crate::records::{is_member, CommunityView, RecordView, SurveyView, MAX_COMMUNITIES_PER_USER};
use crate::state::{
    close_outcome, community_at, create_outcome, survey_at, user_at, valid_state, vote_at, voted,
    Entry, State,
};
use crate::store::{Refund, Store};
use vstd::prelude::*;

verus! {

/// Creation is exclusive. Once a record has been created at an address,
/// every further creation there fails with `AlreadyExists`, whatever the
/// record, until the address is closed; closing it gives back the deposit
/// paid at creation, no more and no less, and frees the address.
pub proof fn law_create_is_exclusive(
    s: State,
    a: Address,
    first: RecordView,
    second: RecordView,
    deposit: u64,
    recipient: Address,
)
    requires
        create_outcome(s, a, first) is Ok,
    ensures
        ({
            let s1 = s.insert(a, Entry { record: first, deposit });
            &&& create_outcome(s1, a, second) == Err::<(), ErrorCode>(ErrorCode::AlreadyExists)
            &&& close_outcome(s1, a, recipient) == Ok::<Refund, ErrorCode>(
                Refund { recipient, amount: deposit },
            )
            &&& s1.remove(a) == s
            &&& create_outcome(s1.remove(a), a, first) is Ok
        }),
{
}

/// Creations at different addresses do not interact: each succeeds or
/// fails as it would alone, and both orders leave the same state.
pub proof fn law_disjoint_creates_commute(
    s: State,
    a: Address,
    b: Address,
    at_a: Entry,
    at_b: Entry,
)
    requires
        a != b,
    ensures
        create_outcome(s.insert(b, at_b), a, at_a.record) == create_outcome(s, a, at_a.record),
        create_outcome(s.insert(a, at_a), b, at_b.record) == create_outcome(s, b, at_b.record),
        s.insert(a, at_a).insert(b, at_b) == s.insert(b, at_b).insert(a, at_a),
{
}

/// A community name is taken once. After `create_community` has succeeded
/// for a name, the community created is stored at the address derived from
/// the name, and every further `create_community` for that name is refused
/// and changes nothing. Where the second caller presents the derived
/// addresses and their own user record, the reason is `AlreadyExists`.
pub proof fn law_community_name_taken_once(
    s: State,
    first: CreateCommunity,
    second: CreateCommunity,
    name: Seq<char>,
    first_deposit: u64,
    second_deposit: u64,
)
    requires
        create_community_outcome(s, first, name) is Ok,
    ensures
        ({
            let s1 = create_community_state(s, first, name, first_deposit);
            &&& derived_community(name) == Some(first.community_account)
            &&& community_at(s1, first.community_account) == Some(
                CommunityView { name, authority: first.authority, surveys: Seq::empty() },
            )
            &&& create_community_outcome(s1, second, name) is Err
            &&& create_community_state(s1, second, name, second_deposit) == s1
            &&& (create_community_addresses(second, name) && user_at(
                s1,
                second.user_account,
            ) is Some && user_at(s1, second.user_account).unwrap().authority
                == second.authority) ==> create_community_outcome(s1, second, name) == Err::<
                (),
                ErrorCode,
            >(ErrorCode::AlreadyExists)
        }),
{
}

/// With every record at its derived address, no two communities share a
/// name.
pub proof fn law_community_names_unique(s: State, a: Address, b: Address)
    requires
        addressed(s),
        community_at(s, a) is Some,
        community_at(s, b) is Some,
        community_at(s, a).unwrap().name == community_at(s, b).unwrap().name,
    ensures
        a == b,
{
}

/// With every record at its derived address, no two user records have the
/// same authority.
pub proof fn law_one_user_per_authority(s: State, a: Address, b: Address)
    requires
        addressed(s),
        user_at(s, a) is Some,
        user_at(s, b) is Some,
        user_at(s, a).unwrap().authority == user_at(s, b).unwrap().authority,
    ensures
        a == b,
{
}

/// With every record at its derived address, no two surveys share a
/// community and a title.
pub proof fn law_survey_titles_unique(s: State, a: Address, b: Address)
    requires
        addressed(s),
        survey_at(s, a) is Some,
        survey_at(s, b) is Some,
        survey_at(s, a).unwrap().community_name == survey_at(s, b).unwrap().community_name,
        survey_at(s, a).unwrap().title == survey_at(s, b).unwrap().title,
    ensures
        a == b,
{
}

/// No user of a store belongs to more than ten communities, and none to
/// one community twice.
pub proof fn law_communities_bounded(store: Store, user: Address)
    requires
        store.wf(),
        user_at(store@, user) is Some,
    ensures
        user_at(store@, user).unwrap().communities.len() <= MAX_COMMUNITIES_PER_USER,
        crate::records::distinct_refs(user_at(store@, user).unwrap().communities),
{
}

/// `join_community` and `create_community` keep every record within its
/// bounds, whether they succeed or not.
pub proof fn law_membership_stays_bounded(
    s: State,
    join: JoinCommunity,
    create: CreateCommunity,
    name: Seq<char>,
    deposit: u64,
)
    requires
        valid_state(s),
    ensures
        valid_state(join_community_state(s, join)),
        valid_state(create_community_state(s, create, name, deposit)),
{
}

/// A user who belongs to ten communities cannot join another: where
/// everything else is in order and the user is not yet a member,
/// `join_community` fails with `TooManyCommunities` and changes nothing.
pub proof fn law_join_refused_at_capacity(s: State, ctx: JoinCommunity)
    requires
        join_community_addresses(ctx),
        user_at(s, ctx.user_account) is Some,
        user_at(s, ctx.user_account).unwrap().authority == ctx.authority,
        community_at(s, ctx.community_account) is Some,
        community_at(s, ctx.community_account).unwrap().name.len() > 0,
        !is_member(user_at(s, ctx.user_account).unwrap().communities, ctx.community_account),
        user_at(s, ctx.user_account).unwrap().communities.len() >= MAX_COMMUNITIES_PER_USER,
    ensures
        join_community_outcome(s, ctx) == Err::<(), ErrorCode>(ErrorCode::TooManyCommunities),
        join_community_state(s, ctx) == s,
{
}

/// One vote per survey and voter. After a successful `vote`, the record of
/// the vote is stored and the chosen answer has one vote more; every
/// further `vote` of the same voter on the same survey is refused and
/// changes nothing, so the counters stay as the first vote left them.
pub proof fn law_one_vote_per_voter(
    s: State,
    first: Vote,
    second: Vote,
    first_index: u8,
    second_index: u8,
    first_now: i64,
    second_now: i64,
    first_deposit: u64,
    second_deposit: u64,
)
    requires
        vote_outcome(s, first, first_index, first_now) is Ok,
        second.survey_account == first.survey_account,
        second.authority == first.authority,
    ensures
        ({
            let s1 = vote_state(s, first, first_index, first_now, first_deposit);
            &&& vote_at(s1, first.vote_record) is Some
            &&& vote_at(s1, first.vote_record).unwrap().voter == first.authority
            &&& survey_at(s1, first.survey_account).unwrap().answers == voted(
                survey_at(s, first.survey_account).unwrap().answers,
                first_index as int,
            )
            &&& vote_outcome(s1, second, second_index, second_now) is Err
            &&& vote_state(s1, second, second_index, second_now, second_deposit) == s1
        }),
{
}

/// A recorded vote is final: while the record of a vote is stored, `vote`
/// for its address is refused and changes nothing. The operations of the
/// board never take such a record away.
pub proof fn law_recorded_vote_is_final(
    s: State,
    ctx: Vote,
    answer_index: u8,
    now: i64,
    deposit: u64,
)
    requires
        s.dom().contains(ctx.vote_record),
    ensures
        vote_outcome(s, ctx, answer_index, now) is Err,
        vote_state(s, ctx, answer_index, now, deposit) == s,
{
}

/// A survey is stored at the address derived from its community's name
/// and its title: after a successful `create_survey`, the survey read back
/// from the address presented carries the title given, and deriving an
/// address from its community name and title gives that address again.
pub proof fn law_survey_address_round_trip(
    s: State,
    ctx: CreateSurvey,
    title: Seq<char>,
    questions: Seq<char>,
    answers: Seq<Seq<char>>,
    limitdate: i64,
    now: i64,
    deposit: u64,
)
    requires
        create_survey_outcome(s, ctx, title, questions, answers, limitdate, now) is Ok,
    ensures
        ({
            let s1 = create_survey_state(
                s,
                ctx,
                title,
                questions,
                answers,
                limitdate,
                now,
                deposit,
            );
            &&& survey_at(s1, ctx.survey_account) == Some(
                SurveyView {
                    title,
                    community_name: community_at(s, ctx.community_account).unwrap().name,
                    questions,
                    answers: fresh_answers(answers),
                    limitdate,
                },
            )
            &&& derived_survey(
                survey_at(s1, ctx.survey_account).unwrap().community_name,
                survey_at(s1, ctx.survey_account).unwrap().title,
            ) == Some(ctx.survey_account)
            &&& limitdate > now
        }),
{
}

/// Voting closes at the survey's closing time. Where a vote is accepted at
/// some time, it is accepted at every time before the closing time, the
/// last second before it included, and refused with `VotingClosed` from
/// the closing time on.
pub proof fn law_voting_closes_at_limit(
    s: State,
    ctx: Vote,
    answer_index: u8,
    accepted_at: i64,
    now: i64,
)
    requires
        vote_outcome(s, ctx, answer_index, accepted_at) is Ok,
    ensures
        ({
            let limit = survey_at(s, ctx.survey_account).unwrap().limitdate;
            &&& accepted_at < limit
            &&& now < limit ==> vote_outcome(s, ctx, answer_index, now) is Ok
            &&& now >= limit ==> vote_outcome(s, ctx, answer_index, now) == Err::<(), ErrorCode>(
                ErrorCode::VotingClosed,
            )
            &&& vote_outcome(s, ctx, answer_index, limit) == Err::<(), ErrorCode>(
                ErrorCode::VotingClosed,
            )
            &&& vote_outcome(s, ctx, answer_index, (limit - 1) as i64) is Ok
        }),
{
}

} // verus!
