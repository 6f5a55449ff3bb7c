//! Opening and deleting surveys.

use crate::address::{
    community_address, config_address, derived_community, derived_config, derived_survey,
    derived_user, survey_address, user_address, Address, MAX_SEED_LEN,
};
use crate::error::ErrorCode;
use crate::handlers::gate::{
    addressed, check_address, read_community, read_config, read_survey, read_user,
};
use crate::records::{
    answer_views, byte_len, find_title, holds_ref, is_member, text_len, texts, Answer, AnswerView,
    Record, RecordView, SurveyAccount, SurveyView, MAX_SURVEYS_PER_COMMUNITY, MAX_SURVEY_ANSWERS,
};
use crate::state::{
    community_at, config_at, deposits_kept, records_kept, survey_at, touches_only, user_at,
    votes_kept, with_survey, without_survey, Entry, State,
};
use crate::store::{Refund, Store};
use vstd::prelude::*;

verus! {

/// The addresses and the caller of `create_survey`.
#[derive(Clone, Copy, Debug, PartialEq, Eq)]
pub struct CreateSurvey {
    /// The community that the survey is opened in.
    pub community_account: Address,
    /// Where the survey is to be created.
    pub survey_account: Address,
    /// The caller.
    pub authority: Address,
    /// The caller's user record.
    pub user_account: Address,
    /// The configuration.
    pub program_config: Address,
}

/// Whether one of the texts is longer than `max` bytes.
pub open spec fn any_longer(list: Seq<Seq<char>>, max: int) -> bool {
    exists|i: int| 0 <= i < list.len() && byte_len(#[trigger] list[i]) > max
}

/// The answers of a new survey: the texts given, each without votes.
pub open spec fn fresh_answers(list: Seq<Seq<char>>) -> Seq<AnswerView> {
    list.map_values(|text: Seq<char>| AnswerView { text, votes: 0 })
}

/// Whether the addresses of a `CreateSurvey` are the derived ones, for a
/// community of the given name and a survey of the given title.
pub open spec fn create_survey_addresses(
    ctx: CreateSurvey,
    community_name: Seq<char>,
    title: Seq<char>,
) -> bool {
    &&& derived_community(community_name) == Some(ctx.community_account)
    &&& derived_survey(community_name, title) == Some(ctx.survey_account)
    &&& derived_user(ctx.authority) == Some(ctx.user_account)
    &&& derived_config() == Some(ctx.program_config)
}

/// What `apply_create_survey` answers in state `s` at time `now`.
pub open spec fn apply_create_survey_outcome(
    s: State,
    ctx: CreateSurvey,
    title: Seq<char>,
    questions: Seq<char>,
    answers: Seq<Seq<char>>,
    limitdate: i64,
    now: i64,
) -> Result<(), ErrorCode> {
    let community = community_at(s, ctx.community_account);
    let user = user_at(s, ctx.user_account);
    let config = config_at(s, ctx.program_config);
    if community is None {
        Err(ErrorCode::NotFound)
    } else if user is None {
        Err(ErrorCode::NotFound)
    } else if user.unwrap().authority != ctx.authority {
        Err(ErrorCode::Unauthorized)
    } else if config is None {
        Err(ErrorCode::NotFound)
    } else if s.dom().contains(ctx.survey_account) {
        Err(ErrorCode::AlreadyExists)
    } else if !is_member(user.unwrap().communities, ctx.community_account) {
        Err(ErrorCode::NotMemberOfCommunity)
    } else if byte_len(title) > config.unwrap().max_survey_title_length {
        Err(ErrorCode::SurveyTitleTooLong)
    } else if byte_len(questions) > config.unwrap().max_survey_question_length {
        Err(ErrorCode::SurveyQuestionTooLong)
    } else if any_longer(answers, config.unwrap().max_survey_answer_length as int) {
        Err(ErrorCode::SurveyAnswerTooLong)
    } else if answers.len() > MAX_SURVEY_ANSWERS {
        Err(ErrorCode::TooManyAnswers)
    } else if limitdate <= now {
        Err(ErrorCode::LimitDateInPast)
    } else if community.unwrap().surveys.contains(title) {
        Err(ErrorCode::AlreadyExists)
    } else if community.unwrap().surveys.len() >= MAX_SURVEYS_PER_COMMUNITY {
        Err(ErrorCode::TooManySurveys)
    } else {
        Ok(())
    }
}

/// The state that `apply_create_survey` leaves.
pub open spec fn apply_create_survey_state(
    s: State,
    ctx: CreateSurvey,
    title: Seq<char>,
    questions: Seq<char>,
    answers: Seq<Seq<char>>,
    limitdate: i64,
    now: i64,
    deposit: u64,
) -> State {
    if apply_create_survey_outcome(s, ctx, title, questions, answers, limitdate, now) is Ok {
        with_survey(
            s.insert(
                ctx.survey_account,
                Entry {
                    record: RecordView::Survey(
                        SurveyView {
                            title,
                            community_name: community_at(s, ctx.community_account).unwrap().name,
                            questions,
                            answers: fresh_answers(answers),
                            limitdate,
                        },
                    ),
                    deposit,
                },
            ),
            ctx.community_account,
            title,
        )
    } else {
        s
    }
}

/// What `create_survey` answers in state `s` at time `now`.
pub open spec fn create_survey_outcome(
    s: State,
    ctx: CreateSurvey,
    title: Seq<char>,
    questions: Seq<char>,
    answers: Seq<Seq<char>>,
    limitdate: i64,
    now: i64,
) -> Result<(), ErrorCode> {
    match community_at(s, ctx.community_account) {
        None => Err(ErrorCode::NotFound),
        Some(c) => {
            if !create_survey_addresses(ctx, c.name, title) {
                Err(ErrorCode::AddressMismatch)
            } else {
                apply_create_survey_outcome(s, ctx, title, questions, answers, limitdate, now)
            }
        },
    }
}

/// The state that `create_survey` leaves.
pub open spec fn create_survey_state(
    s: State,
    ctx: CreateSurvey,
    title: Seq<char>,
    questions: Seq<char>,
    answers: Seq<Seq<char>>,
    limitdate: i64,
    now: i64,
    deposit: u64,
) -> State {
    if create_survey_outcome(s, ctx, title, questions, answers, limitdate, now) is Ok {
        apply_create_survey_state(s, ctx, title, questions, answers, limitdate, now, deposit)
    } else {
        s
    }
}

/// Tells whether one of the texts is longer than `max` bytes.
fn longer_than(list: &Vec<String>, max: usize) -> (found: bool)
    ensures
        found == any_longer(texts(list@), max as int),
{
    let mut i: usize = 0;
    while i < list.len()
        invariant
            i <= list.len(),
            forall|j: int| 0 <= j < i ==> byte_len(#[trigger] texts(list@)[j]) <= max,
        decreases list.len() - i,
    {
        if text_len(list[i].as_str()) > max {
            assert(byte_len(texts(list@)[i as int]) > max);
            return true;
        }
        i += 1;
    }
    false
}

/// Makes the answers of a new survey from their texts.
fn make_answers(list: &Vec<String>) -> (answers: Vec<Answer>)
    ensures
        answer_views(answers@) == fresh_answers(texts(list@)),
{
    let mut answers: Vec<Answer> = Vec::new();
    let mut i: usize = 0;
    while i < list.len()
        invariant
            i <= list.len(),
            answers.len() == i,
            forall|j: int|
                0 <= j < i ==> (#[trigger] answers[j])@ == (AnswerView {
                    text: list[j]@,
                    votes: 0,
                }),
        decreases list.len() - i,
    {
        answers.push(Answer { text: list[i].clone(), votes: 0 });
        i += 1;
    }
    answers
}

/// Opens a survey at the addresses given, whatever seeds they come from.
///
/// The records are looked up in the order community, user, configuration.
/// The first failing test decides the error:
/// - `NotFound`: no community, user or configuration record at its address;
/// - `Unauthorized`: the caller is not the authority of the user record;
/// - `AlreadyExists`: the survey's address is occupied, or the community
///   lists the title already;
/// - `NotMemberOfCommunity`: the user holds no reference to the community;
/// - `SurveyTitleTooLong`, `SurveyQuestionTooLong`, `SurveyAnswerTooLong`:
///   a text is longer than the configuration allows;
/// - `TooManyAnswers`: more than four answers;
/// - `LimitDateInPast`: `limitdate` is not after `now`;
/// - `TooManySurveys`: the community lists five surveys.
///
/// Otherwise the survey is created with no votes on its answers and its
/// title is appended to the community's surveys.
pub fn apply_create_survey(
    store: &mut Store,
    ctx: &CreateSurvey,
    title: String,
    questions: String,
    answers: Vec<String>,
    limitdate: i64,
    now: i64,
    deposit: u64,
) -> (r: Result<(), ErrorCode>)
    requires
        old(store).wf(),
    ensures
        final(store).wf(),
        r == apply_create_survey_outcome(
            old(store)@,
            *ctx,
            title@,
            questions@,
            texts(answers@),
            limitdate,
            now,
        ),
        final(store)@ == apply_create_survey_state(
            old(store)@,
            *ctx,
            title@,
            questions@,
            texts(answers@),
            limitdate,
            now,
            deposit,
        ),
        r is Err ==> final(store)@ == old(store)@,
        touches_only(old(store)@, final(store)@, set![ctx.survey_account, ctx.community_account]),
        records_kept(old(store)@, final(store)@),
        deposits_kept(old(store)@, final(store)@),
        votes_kept(old(store)@, final(store)@),
{
    let community = match read_community(store, &ctx.community_account) {
        Some(c) => c,
        None => { return Err(ErrorCode::NotFound); },
    };
    let user = match read_user(store, &ctx.user_account) {
        Some(u) => u,
        None => { return Err(ErrorCode::NotFound); },
    };
    if user.authority != ctx.authority {
        return Err(ErrorCode::Unauthorized);
    }
    let config = match read_config(store, &ctx.program_config) {
        Some(c) => c,
        None => { return Err(ErrorCode::NotFound); },
    };
    if store.contains(&ctx.survey_account) {
        return Err(ErrorCode::AlreadyExists);
    }
    if !holds_ref(&user.communities, &ctx.community_account) {
        return Err(ErrorCode::NotMemberOfCommunity);
    }
    if text_len(title.as_str()) > config.max_survey_title_length as usize {
        return Err(ErrorCode::SurveyTitleTooLong);
    }
    if text_len(questions.as_str()) > config.max_survey_question_length as usize {
        return Err(ErrorCode::SurveyQuestionTooLong);
    }
    if longer_than(&answers, config.max_survey_answer_length as usize) {
        return Err(ErrorCode::SurveyAnswerTooLong);
    }
    if answers.len() > MAX_SURVEY_ANSWERS {
        return Err(ErrorCode::TooManyAnswers);
    }
    if limitdate <= now {
        return Err(ErrorCode::LimitDateInPast);
    }
    if find_title(&community.surveys, &title).is_some() {
        return Err(ErrorCode::AlreadyExists);
    }
    if community.surveys.len() >= MAX_SURVEYS_PER_COMMUNITY {
        return Err(ErrorCode::TooManySurveys);
    }
    let survey = SurveyAccount {
        title: title.clone(),
        community_name: community.name.clone(),
        questions,
        answers: make_answers(&answers),
        limitdate,
    };
    store.create(ctx.survey_account, Record::Survey(survey), deposit)?;
    store.append_survey(&ctx.community_account, title)?;
    Ok(())
}

/// Opens a survey in a community that the caller belongs to.
///
/// Fails with `NotFound` where no community is stored at the address
/// given, and with `AddressMismatch` unless the community's address is the
/// one derived from its name, the survey's the one derived from that name
/// and the title, the user's the one derived from the caller and the
/// configuration's the derived one; a title longer than 32 bytes has no
/// address. After that it does what `apply_create_survey` does.
pub fn create_survey(
    store: &mut Store,
    ctx: &CreateSurvey,
    title: String,
    questions: String,
    answers: Vec<String>,
    limitdate: i64,
    now: i64,
    deposit: u64,
) -> (r: Result<(), ErrorCode>)
    requires
        old(store).wf(),
    ensures
        final(store).wf(),
        r == create_survey_outcome(
            old(store)@,
            *ctx,
            title@,
            questions@,
            texts(answers@),
            limitdate,
            now,
        ),
        final(store)@ == create_survey_state(
            old(store)@,
            *ctx,
            title@,
            questions@,
            texts(answers@),
            limitdate,
            now,
            deposit,
        ),
        r is Err ==> final(store)@ == old(store)@,
        touches_only(old(store)@, final(store)@, set![ctx.survey_account, ctx.community_account]),
        records_kept(old(store)@, final(store)@),
        deposits_kept(old(store)@, final(store)@),
        votes_kept(old(store)@, final(store)@),
        community_at(old(store)@, ctx.community_account) is Some && byte_len(title@)
            > MAX_SEED_LEN ==> r == Err::<(), ErrorCode>(ErrorCode::AddressMismatch),
        addressed(old(store)@) ==> addressed(final(store)@),
{
    let community = match read_community(store, &ctx.community_account) {
        Some(c) => c,
        None => { return Err(ErrorCode::NotFound); },
    };
    check_address(community_address(community.name.as_str()), &ctx.community_account)?;
    check_address(
        survey_address(community.name.as_str(), title.as_str()),
        &ctx.survey_account,
    )?;
    check_address(user_address(&ctx.authority), &ctx.user_account)?;
    check_address(config_address(), &ctx.program_config)?;
    apply_create_survey(store, ctx, title, questions, answers, limitdate, now, deposit)
}

/// The addresses and the caller of `delete_survey`.
#[derive(Clone, Copy, Debug, PartialEq, Eq)]
pub struct DeleteSurvey {
    /// The community that lists the survey.
    pub community_account: Address,
    /// The survey to delete.
    pub survey_account: Address,
    /// The caller, who receives the survey's deposit.
    pub authority: Address,
}

/// What `delete_survey` answers in state `s`.
pub open spec fn delete_survey_outcome(s: State, ctx: DeleteSurvey) -> Result<Refund, ErrorCode> {
    let community = community_at(s, ctx.community_account);
    let survey = survey_at(s, ctx.survey_account);
    if community is None {
        Err(ErrorCode::NotFound)
    } else if community.unwrap().authority != ctx.authority {
        Err(ErrorCode::NotCommunityAuthority)
    } else if survey is None {
        Err(ErrorCode::NotFound)
    } else if survey.unwrap().community_name != community.unwrap().name {
        Err(ErrorCode::SurveyNotInCommunity)
    } else if !community.unwrap().surveys.contains(survey.unwrap().title) {
        Err(ErrorCode::SurveyNotFoundInCommunity)
    } else {
        Ok(Refund { recipient: ctx.authority, amount: s[ctx.survey_account].deposit })
    }
}

/// The state that `delete_survey` leaves.
pub open spec fn delete_survey_state(s: State, ctx: DeleteSurvey) -> State {
    if delete_survey_outcome(s, ctx) is Ok {
        without_survey(
            s,
            ctx.community_account,
            survey_at(s, ctx.survey_account).unwrap().title,
        ).remove(ctx.survey_account)
    } else {
        s
    }
}

/// Deletes a survey on behalf of the authority of its community.
///
/// The first failing test decides the error:
/// - `NotFound`: no community record at its address;
/// - `NotCommunityAuthority`: the caller is not the community's authority;
/// - `NotFound`: no survey record at its address;
/// - `SurveyNotInCommunity`: the survey names another community;
/// - `SurveyNotFoundInCommunity`: the community does not list the title.
///
/// Otherwise the first occurrence of the title is taken out of the
/// community's surveys, the survey's address becomes unoccupied, and the
/// deposit noted when the survey was created is refunded to the caller.
pub fn delete_survey(store: &mut Store, ctx: &DeleteSurvey) -> (r: Result<Refund, ErrorCode>)
    requires
        old(store).wf(),
    ensures
        final(store).wf(),
        r == delete_survey_outcome(old(store)@, *ctx),
        final(store)@ == delete_survey_state(old(store)@, *ctx),
        r is Err ==> final(store)@ == old(store)@,
        touches_only(old(store)@, final(store)@, set![ctx.survey_account, ctx.community_account]),
        deposits_kept(old(store)@, final(store)@),
        r is Ok ==> final(store)@.dom() == old(store)@.dom().remove(ctx.survey_account),
        votes_kept(old(store)@, final(store)@),
        addressed(old(store)@) ==> addressed(final(store)@),
{
    let community = match read_community(store, &ctx.community_account) {
        Some(c) => c,
        None => { return Err(ErrorCode::NotFound); },
    };
    if community.authority != ctx.authority {
        return Err(ErrorCode::NotCommunityAuthority);
    }
    let survey = match read_survey(store, &ctx.survey_account) {
        Some(v) => v,
        None => { return Err(ErrorCode::NotFound); },
    };
    if survey.community_name != community.name {
        return Err(ErrorCode::SurveyNotInCommunity);
    }
    let title = survey.title.clone();
    store.remove_survey(&ctx.community_account, &title)?;
    let refund = store.close(&ctx.survey_account, ctx.authority)?;
    Ok(refund)
}

} // verus!
