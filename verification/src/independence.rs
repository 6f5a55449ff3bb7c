//! Operations on different records do not interact.
//!
//! What an operation answers and writes depends on the records at the
//! addresses it names and on nothing else, and it writes nowhere else. So
//! two operations that name no address in common can run in either order:
//! each answers as it would alone, and both orders leave the same state.

use crate::address::Address;
use crate::handlers::communities::{
    create_community_outcome, create_community_state, join_community_outcome, join_community_state,
    CreateCommunity, JoinCommunity,
};
use crate::handlers::setup::{initialize_outcome, initialize_state, Initialize};
use crate::handlers::surveys::{
    create_survey_outcome, create_survey_state, delete_survey_outcome, delete_survey_state,
    CreateSurvey, DeleteSurvey,
};
use crate::handlers::users::{register_user_outcome, register_user_state, RegisterUser};
use crate::handlers::voting::{vote_outcome, vote_state, Vote};
use crate::state::{same_at, touches_only, State};
use vstd::prelude::*;

verus! {

/// Whether two states agree at every address in `named`.
pub open spec fn agree_on(s: State, t: State, named: Set<Address>) -> bool {
    forall|a: Address| named.contains(a) ==> #[trigger] same_at(s, t, a)
}

/// Whether a change of state is local to the addresses in `named`: it
/// writes nowhere else, and what it writes there depends only on what
/// stands there.
pub open spec fn local_to(change: spec_fn(State) -> State, named: Set<Address>) -> bool {
    &&& forall|s: State| #[trigger] touches_only(s, change(s), named)
    &&& forall|s: State, t: State| #[trigger]
        agree_on(s, t, named) ==> agree_on(change(s), change(t), named)
}

/// Whether an answer depends only on what stands at the addresses in
/// `named`.
pub open spec fn decided_by<R>(answer: spec_fn(State) -> R, named: Set<Address>) -> bool {
    forall|s: State, t: State| #[trigger] agree_on(s, t, named) ==> answer(s) == answer(t)
}

/// Two operations that name no address in common do not interact: both
/// orders leave the same state, and each answers after the other as it
/// answers alone.
pub proof fn law_disjoint_operations_commute<R1, R2>(
    first: spec_fn(State) -> State,
    second: spec_fn(State) -> State,
    first_answer: spec_fn(State) -> R1,
    second_answer: spec_fn(State) -> R2,
    first_named: Set<Address>,
    second_named: Set<Address>,
    s: State,
)
    requires
        local_to(first, first_named),
        local_to(second, second_named),
        decided_by(first_answer, first_named),
        decided_by(second_answer, second_named),
        first_named.disjoint(second_named),
    ensures
        first(second(s)) == second(first(s)),
        first_answer(second(s)) == first_answer(s),
        second_answer(first(s)) == second_answer(s),
{
    let first_then_second = second(first(s));
    let second_then_first = first(second(s));
    assert(touches_only(s, first(s), first_named));
    assert(touches_only(s, second(s), second_named));
    assert(touches_only(first(s), first_then_second, second_named));
    assert(touches_only(second(s), second_then_first, first_named));
    assert(agree_on(s, second(s), first_named));
    assert(agree_on(s, first(s), second_named));
    assert forall|a: Address| #[trigger]
        first_then_second.dom().contains(a) == second_then_first.dom().contains(a) && (
        first_then_second.dom().contains(a) ==> first_then_second[a]
            == second_then_first[a]) by {
        if first_named.contains(a) {
            assert(same_at(first(s), first_then_second, a));
            assert(same_at(first(s), second_then_first, a));
        } else if second_named.contains(a) {
            assert(same_at(second(s), second_then_first, a));
            assert(same_at(second(s), first_then_second, a));
        } else {
            assert(same_at(s, first(s), a));
            assert(same_at(first(s), first_then_second, a));
            assert(same_at(s, second(s), a));
            assert(same_at(second(s), second_then_first, a));
        }
    }
    assert(first_then_second =~= second_then_first);
}

/// The addresses that an `Initialize` names.
pub open spec fn initialize_named(ctx: Initialize) -> Set<Address> {
    set![ctx.community_account, ctx.program_config]
}

/// `initialize` is local to the addresses it names, and what stands there
/// decides its answer.
pub proof fn law_initialize_is_local(ctx: Initialize, community_deposit: u64, config_deposit: u64)
    ensures
        local_to(
            |s: State| initialize_state(s, ctx, community_deposit, config_deposit),
            initialize_named(ctx),
        ),
        decided_by(|s: State| initialize_outcome(s, ctx), initialize_named(ctx)),
{
    let named = initialize_named(ctx);
    let change = |s: State| initialize_state(s, ctx, community_deposit, config_deposit);
    let answer = |s: State| initialize_outcome(s, ctx);
    assert forall|s: State, t: State| #[trigger] agree_on(s, t, named) implies answer(s) == answer(
        t,
    ) && agree_on(change(s), change(t), named) by {
        assert(same_at(s, t, ctx.community_account));
        assert(same_at(s, t, ctx.program_config));
    }
}

/// The addresses that a `RegisterUser` names.
pub open spec fn register_user_named(ctx: RegisterUser) -> Set<Address> {
    set![ctx.user_account, ctx.all_community]
}

/// `register_user` is local to the addresses it names, and what stands there
/// decides its answer.
pub proof fn law_register_user_is_local(ctx: RegisterUser, deposit: u64)
    ensures
        local_to(|s: State| register_user_state(s, ctx, deposit), register_user_named(ctx)),
        decided_by(|s: State| register_user_outcome(s, ctx), register_user_named(ctx)),
{
    let named = register_user_named(ctx);
    let change = |s: State| register_user_state(s, ctx, deposit);
    let answer = |s: State| register_user_outcome(s, ctx);
    assert forall|s: State, t: State| #[trigger] agree_on(s, t, named) implies answer(s) == answer(
        t,
    ) && agree_on(change(s), change(t), named) by {
        assert(same_at(s, t, ctx.user_account));
        assert(same_at(s, t, ctx.all_community));
    }
}

/// The addresses that a `CreateCommunity` names.
pub open spec fn create_community_named(ctx: CreateCommunity) -> Set<Address> {
    set![ctx.community_account, ctx.user_account]
}

/// `create_community` is local to the addresses it names, and what stands there
/// decides its answer.
pub proof fn law_create_community_is_local(ctx: CreateCommunity, name: Seq<char>, deposit: u64)
    ensures
        local_to(
            |s: State| create_community_state(s, ctx, name, deposit),
            create_community_named(ctx),
        ),
        decided_by(|s: State| create_community_outcome(s, ctx, name), create_community_named(ctx)),
{
    let named = create_community_named(ctx);
    let change = |s: State| create_community_state(s, ctx, name, deposit);
    let answer = |s: State| create_community_outcome(s, ctx, name);
    assert forall|s: State, t: State| #[trigger] agree_on(s, t, named) implies answer(s) == answer(
        t,
    ) && agree_on(change(s), change(t), named) by {
        assert(same_at(s, t, ctx.community_account));
        assert(same_at(s, t, ctx.user_account));
    }
}

/// The addresses that a `JoinCommunity` names.
pub open spec fn join_community_named(ctx: JoinCommunity) -> Set<Address> {
    set![ctx.user_account, ctx.community_account]
}

/// `join_community` is local to the addresses it names, and what stands there
/// decides its answer.
pub proof fn law_join_community_is_local(ctx: JoinCommunity)
    ensures
        local_to(|s: State| join_community_state(s, ctx), join_community_named(ctx)),
        decided_by(|s: State| join_community_outcome(s, ctx), join_community_named(ctx)),
{
    let named = join_community_named(ctx);
    let change = |s: State| join_community_state(s, ctx);
    let answer = |s: State| join_community_outcome(s, ctx);
    assert forall|s: State, t: State| #[trigger] agree_on(s, t, named) implies answer(s) == answer(
        t,
    ) && agree_on(change(s), change(t), named) by {
        assert(same_at(s, t, ctx.user_account));
        assert(same_at(s, t, ctx.community_account));
    }
}

/// The addresses that a `CreateSurvey` names.
pub open spec fn create_survey_named(ctx: CreateSurvey) -> Set<Address> {
    set![ctx.community_account, ctx.survey_account, ctx.user_account, ctx.program_config]
}

/// `create_survey` is local to the addresses it names, and what stands there
/// decides its answer.
pub proof fn law_create_survey_is_local(
    ctx: CreateSurvey,
    title: Seq<char>,
    questions: Seq<char>,
    answers: Seq<Seq<char>>,
    limitdate: i64,
    now: i64,
    deposit: u64,
)
    ensures
        local_to(
            |s: State|
                create_survey_state(s, ctx, title, questions, answers, limitdate, now, deposit),
            create_survey_named(ctx),
        ),
        decided_by(
            |s: State| create_survey_outcome(s, ctx, title, questions, answers, limitdate, now),
            create_survey_named(ctx),
        ),
{
    let named = create_survey_named(ctx);
    let change =
        |s: State| create_survey_state(s, ctx, title, questions, answers, limitdate, now, deposit);
    let answer =
        |s: State| create_survey_outcome(s, ctx, title, questions, answers, limitdate, now);
    assert forall|s: State, t: State| #[trigger] agree_on(s, t, named) implies answer(s) == answer(
        t,
    ) && agree_on(change(s), change(t), named) by {
        assert(same_at(s, t, ctx.community_account));
        assert(same_at(s, t, ctx.survey_account));
        assert(same_at(s, t, ctx.user_account));
        assert(same_at(s, t, ctx.program_config));
    }
}

/// The addresses that a `Vote` names.
pub open spec fn vote_named(ctx: Vote) -> Set<Address> {
    set![ctx.user_account, ctx.survey_account, ctx.community_account, ctx.vote_record]
}

/// `vote` is local to the addresses it names, and what stands there
/// decides its answer.
pub proof fn law_vote_is_local(ctx: Vote, answer_index: u8, now: i64, deposit: u64)
    ensures
        local_to(|s: State| vote_state(s, ctx, answer_index, now, deposit), vote_named(ctx)),
        decided_by(|s: State| vote_outcome(s, ctx, answer_index, now), vote_named(ctx)),
{
    let named = vote_named(ctx);
    let change = |s: State| vote_state(s, ctx, answer_index, now, deposit);
    let answer = |s: State| vote_outcome(s, ctx, answer_index, now);
    assert forall|s: State, t: State| #[trigger] agree_on(s, t, named) implies answer(s) == answer(
        t,
    ) && agree_on(change(s), change(t), named) by {
        assert(same_at(s, t, ctx.user_account));
        assert(same_at(s, t, ctx.survey_account));
        assert(same_at(s, t, ctx.community_account));
        assert(same_at(s, t, ctx.vote_record));
    }
}

/// The addresses that a `DeleteSurvey` names.
pub open spec fn delete_survey_named(ctx: DeleteSurvey) -> Set<Address> {
    set![ctx.community_account, ctx.survey_account]
}

/// `delete_survey` is local to the addresses it names, and what stands there
/// decides its answer.
pub proof fn law_delete_survey_is_local(ctx: DeleteSurvey)
    ensures
        local_to(|s: State| delete_survey_state(s, ctx), delete_survey_named(ctx)),
        decided_by(|s: State| delete_survey_outcome(s, ctx), delete_survey_named(ctx)),
{
    let named = delete_survey_named(ctx);
    let change = |s: State| delete_survey_state(s, ctx);
    let answer = |s: State| delete_survey_outcome(s, ctx);
    assert forall|s: State, t: State| #[trigger] agree_on(s, t, named) implies answer(s) == answer(
        t,
    ) && agree_on(change(s), change(t), named) by {
        assert(same_at(s, t, ctx.community_account));
        assert(same_at(s, t, ctx.survey_account));
    }
}

} // verus!
