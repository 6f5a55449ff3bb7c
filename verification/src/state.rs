//! The store as a mathematical object: a map from occupied addresses to
//! entries, and what each elementary operation answers and leaves behind.

use crate::address::Address;
use crate::error::ErrorCode;
use crate::records::{
    first_index_of, is_member, AnswerView, CommunityRefView, CommunityView, ProgramConfig,
    RecordView, SurveyView, UserView, VoteRecord, MAX_COMMUNITIES_PER_USER,
    MAX_SURVEYS_PER_COMMUNITY,
};
use crate::store::Refund;
use vstd::prelude::*;

verus! {

/// What the store holds at one address: a record and the deposit that was
/// paid when the record was created.
pub struct Entry {
    pub record: RecordView,
    pub deposit: u64,
}

/// The store as a map from occupied addresses to their entries.
pub type State = Map<Address, Entry>;

/// Whether every record of the state meets the invariant of its kind.
pub open spec fn valid_state(s: State) -> bool {
    forall|a: Address| s.dom().contains(a) ==> (#[trigger] s[a]).record.valid()
}

/// Whether two states agree at an address: both have it unoccupied, or
/// both hold the same entry there.
pub open spec fn same_at(s: State, t: State, a: Address) -> bool {
    &&& s.dom().contains(a) == t.dom().contains(a)
    &&& s.dom().contains(a) ==> s[a] == t[a]
}

/// Whether `t` differs from `s` at most at the addresses in `touched`.
pub open spec fn touches_only(s: State, t: State, touched: Set<Address>) -> bool {
    forall|a: Address| !touched.contains(a) ==> #[trigger] same_at(s, t, a)
}

/// Whether every address that is occupied in `s` is occupied in `t`.
pub open spec fn records_kept(s: State, t: State) -> bool {
    forall|a: Address| s.dom().contains(a) ==> #[trigger] t.dom().contains(a)
}

/// Whether every record that is stored in both states has the same deposit
/// in both.
pub open spec fn deposits_kept(s: State, t: State) -> bool {
    forall|a: Address|
        s.dom().contains(a) && t.dom().contains(a) ==> (#[trigger] t[a]).deposit == s[a].deposit
}

/// Whether every record of a vote that is stored in `s` is stored
/// unchanged in `t`.
pub open spec fn votes_kept(s: State, t: State) -> bool {
    forall|a: Address| #[trigger] vote_at(s, a) is Some ==> vote_at(t, a) == vote_at(s, a)
}

/// What `Store::create` answers in state `s`.
pub open spec fn create_outcome(s: State, a: Address, record: RecordView) -> Result<
    (),
    ErrorCode,
> {
    if s.dom().contains(a) {
        Err(ErrorCode::AlreadyExists)
    } else if let Some(e) = record.defect() {
        Err(e)
    } else {
        Ok(())
    }
}

/// The user record at an address, where there is one.
pub open spec fn user_at(s: State, a: Address) -> Option<UserView> {
    if s.dom().contains(a) {
        match s[a].record {
            RecordView::User(u) => Some(u),
            _ => None,
        }
    } else {
        None
    }
}

/// The community record at an address, where there is one.
pub open spec fn community_at(s: State, a: Address) -> Option<CommunityView> {
    if s.dom().contains(a) {
        match s[a].record {
            RecordView::Community(c) => Some(c),
            _ => None,
        }
    } else {
        None
    }
}

/// The survey record at an address, where there is one.
pub open spec fn survey_at(s: State, a: Address) -> Option<SurveyView> {
    if s.dom().contains(a) {
        match s[a].record {
            RecordView::Survey(v) => Some(v),
            _ => None,
        }
    } else {
        None
    }
}

/// The configuration record at an address, where there is one.
pub open spec fn config_at(s: State, a: Address) -> Option<ProgramConfig> {
    if s.dom().contains(a) {
        match s[a].record {
            RecordView::Config(c) => Some(c),
            _ => None,
        }
    } else {
        None
    }
}

/// The vote record at an address, where there is one.
pub open spec fn vote_at(s: State, a: Address) -> Option<VoteRecord> {
    if s.dom().contains(a) {
        match s[a].record {
            RecordView::Vote(v) => Some(v),
            _ => None,
        }
    } else {
        None
    }
}

/// What `Store::append_community` answers in state `s`.
pub open spec fn append_community_outcome(s: State, user: Address, r: CommunityRefView) -> Result<
    (),
    ErrorCode,
> {
    match user_at(s, user) {
        None => Err(ErrorCode::NotFound),
        Some(u) => {
            if is_member(u.communities, r.pda_address) {
                Err(ErrorCode::AlreadyMember)
            } else if u.communities.len() >= MAX_COMMUNITIES_PER_USER {
                Err(ErrorCode::TooManyCommunities)
            } else {
                Ok(())
            }
        },
    }
}

/// The state with `r` appended to the communities of the user at `user`.
pub open spec fn with_community(s: State, user: Address, r: CommunityRefView) -> State {
    let u = user_at(s, user).unwrap();
    s.insert(
        user,
        Entry {
            record: RecordView::User(
                UserView { authority: u.authority, communities: u.communities.push(r) },
            ),
            deposit: s[user].deposit,
        },
    )
}

/// What `Store::append_survey` answers in state `s`.
pub open spec fn append_survey_outcome(s: State, community: Address, title: Seq<char>) -> Result<
    (),
    ErrorCode,
> {
    match community_at(s, community) {
        None => Err(ErrorCode::NotFound),
        Some(c) => {
            if c.surveys.contains(title) {
                Err(ErrorCode::AlreadyExists)
            } else if c.surveys.len() >= MAX_SURVEYS_PER_COMMUNITY {
                Err(ErrorCode::TooManySurveys)
            } else {
                Ok(())
            }
        },
    }
}

/// The state with `title` appended to the surveys of the community at
/// `community`.
pub open spec fn with_survey(s: State, community: Address, title: Seq<char>) -> State {
    let c = community_at(s, community).unwrap();
    s.insert(
        community,
        Entry {
            record: RecordView::Community(
                CommunityView {
                    name: c.name,
                    authority: c.authority,
                    surveys: c.surveys.push(title),
                },
            ),
            deposit: s[community].deposit,
        },
    )
}

/// What `Store::remove_survey` answers in state `s`.
pub open spec fn remove_survey_outcome(s: State, community: Address, title: Seq<char>) -> Result<
    (),
    ErrorCode,
> {
    match community_at(s, community) {
        None => Err(ErrorCode::NotFound),
        Some(c) => {
            if !c.surveys.contains(title) {
                Err(ErrorCode::SurveyNotFoundInCommunity)
            } else {
                Ok(())
            }
        },
    }
}

/// The state with the first occurrence of `title` taken out of the surveys
/// of the community at `community`.
pub open spec fn without_survey(s: State, community: Address, title: Seq<char>) -> State {
    let c = community_at(s, community).unwrap();
    s.insert(
        community,
        Entry {
            record: RecordView::Community(
                CommunityView {
                    name: c.name,
                    authority: c.authority,
                    surveys: c.surveys.remove(first_index_of(c.surveys, title)),
                },
            ),
            deposit: s[community].deposit,
        },
    )
}

/// What `Store::count_vote` answers in state `s`.
pub open spec fn count_vote_outcome(s: State, survey: Address, index: int) -> Result<
    (),
    ErrorCode,
> {
    match survey_at(s, survey) {
        None => Err(ErrorCode::NotFound),
        Some(v) => {
            if !(0 <= index < v.answers.len()) {
                Err(ErrorCode::InvalidAnswerIndex)
            } else if v.answers[index].votes == u32::MAX {
                Err(ErrorCode::VoteCountOverflow)
            } else {
                Ok(())
            }
        },
    }
}

/// The answers with one more vote on the answer at `index`.
pub open spec fn voted(answers: Seq<AnswerView>, index: int) -> Seq<AnswerView> {
    answers.update(
        index,
        AnswerView { text: answers[index].text, votes: (answers[index].votes + 1) as u32 },
    )
}

/// The state with one more vote on the answer at `index` of the survey at
/// `survey`.
pub open spec fn with_vote(s: State, survey: Address, index: int) -> State {
    let v = survey_at(s, survey).unwrap();
    s.insert(
        survey,
        Entry {
            record: RecordView::Survey(
                SurveyView {
                    title: v.title,
                    community_name: v.community_name,
                    questions: v.questions,
                    answers: voted(v.answers, index),
                    limitdate: v.limitdate,
                },
            ),
            deposit: s[survey].deposit,
        },
    )
}

/// What `Store::close` answers in state `s`.
pub open spec fn close_outcome(s: State, a: Address, recipient: Address) -> Result<
    Refund,
    ErrorCode,
> {
    if s.dom().contains(a) {
        Ok(Refund { recipient, amount: s[a].deposit })
    } else {
        Err(ErrorCode::NotFound)
    }
}

} // verus!
