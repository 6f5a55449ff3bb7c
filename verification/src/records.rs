//! The records of the survey board and their mathematical views.

use crate::address::Address;
use crate::error::ErrorCode;
use vstd::prelude::*;

verus! {

/// How many communities one user can belong to.
pub const MAX_COMMUNITIES_PER_USER: usize = 10;

/// How many surveys one community can list.
pub const MAX_SURVEYS_PER_COMMUNITY: usize = 5;

/// How many answers one survey can offer.
pub const MAX_SURVEY_ANSWERS: usize = 4;

/// The longest survey title, in bytes, that the configuration written at
/// initialization allows.
pub const MAX_SURVEY_TITLE_LENGTH: u8 = 30;

/// The longest question text, in bytes, that the configuration written at
/// initialization allows.
pub const MAX_SURVEY_QUESTION_LENGTH: u16 = 200;

/// The longest answer text, in bytes, that the configuration written at
/// initialization allows.
pub const MAX_SURVEY_ANSWER_LENGTH: u8 = 50;

/// The length of a text in bytes, as `String::len` counts it.
pub open spec fn byte_len(text: Seq<char>) -> nat {
    vstd::utf8::encode_utf8(text).len()
}

/// Measures a text in bytes.
pub fn text_len(text: &str) -> (n: usize)
    ensures
        n == byte_len(text@),
{
    text.as_bytes().len()
}

/// The length bounds that new surveys are held to.
#[derive(Clone, Copy, Debug, PartialEq, Eq, Structural)]
pub struct ProgramConfig {
    pub max_survey_title_length: u8,
    pub max_survey_question_length: u16,
    pub max_survey_answer_length: u8,
}

/// The fact that a voter has voted on a survey. It is stored at the
/// address derived from the survey and the voter.
#[derive(Clone, Copy, Debug, PartialEq, Eq)]
pub struct VoteRecord {
    pub voter: Address,
}

/// A user's reference to a community.
#[derive(Clone, Debug, PartialEq, Eq)]
pub struct CommunityRef {
    pub name: String,
    pub pda_address: Address,
}

/// A registered user: who controls the record and which communities the
/// user belongs to.
#[derive(Clone, Debug, PartialEq, Eq)]
pub struct UserAccount {
    pub authority: Address,
    pub communities: Vec<CommunityRef>,
}

/// A community: its name, who founded it and the titles of its surveys.
#[derive(Clone, Debug, PartialEq, Eq)]
pub struct CommunityAccount {
    pub name: String,
    pub authority: Address,
    pub surveys: Vec<String>,
}

/// One answer of a survey with the votes it has received.
#[derive(Clone, Debug, PartialEq, Eq)]
pub struct Answer {
    pub text: String,
    pub votes: u32,
}

/// A survey of a community. Votes are accepted while the current time is
/// before `limitdate`, a Unix timestamp.
#[derive(Clone, Debug, PartialEq, Eq)]
pub struct SurveyAccount {
    pub title: String,
    pub community_name: String,
    pub questions: String,
    pub answers: Vec<Answer>,
    pub limitdate: i64,
}

/// Any record that the store can hold.
#[derive(Clone, Debug, PartialEq, Eq)]
pub enum Record {
    Config(ProgramConfig),
    Community(CommunityAccount),
    User(UserAccount),
    Survey(SurveyAccount),
    Vote(VoteRecord),
}

/// The view of a `CommunityRef`.
pub struct CommunityRefView {
    pub name: Seq<char>,
    pub pda_address: Address,
}

/// The view of a `UserAccount`.
pub struct UserView {
    pub authority: Address,
    pub communities: Seq<CommunityRefView>,
}

/// The view of a `CommunityAccount`.
pub struct CommunityView {
    pub name: Seq<char>,
    pub authority: Address,
    pub surveys: Seq<Seq<char>>,
}

/// The view of an `Answer`.
pub struct AnswerView {
    pub text: Seq<char>,
    pub votes: u32,
}

/// The view of a `SurveyAccount`.
pub struct SurveyView {
    pub title: Seq<char>,
    pub community_name: Seq<char>,
    pub questions: Seq<char>,
    pub answers: Seq<AnswerView>,
    pub limitdate: i64,
}

/// The view of a `Record`.
pub enum RecordView {
    Config(ProgramConfig),
    Community(CommunityView),
    User(UserView),
    Survey(SurveyView),
    Vote(VoteRecord),
}

/// The texts of a list of strings.
pub open spec fn texts(list: Seq<String>) -> Seq<Seq<char>> {
    list.map_values(|s: String| s@)
}

/// The views of a list of community references.
pub open spec fn ref_views(list: Seq<CommunityRef>) -> Seq<CommunityRefView> {
    list.map_values(|r: CommunityRef| r@)
}

/// The views of a list of answers.
pub open spec fn answer_views(list: Seq<Answer>) -> Seq<AnswerView> {
    list.map_values(|a: Answer| a@)
}

impl View for CommunityRef {
    type V = CommunityRefView;

    open spec fn view(&self) -> CommunityRefView {
        CommunityRefView { name: self.name@, pda_address: self.pda_address }
    }
}

impl View for UserAccount {
    type V = UserView;

    open spec fn view(&self) -> UserView {
        UserView { authority: self.authority, communities: ref_views(self.communities@) }
    }
}

impl View for CommunityAccount {
    type V = CommunityView;

    open spec fn view(&self) -> CommunityView {
        CommunityView {
            name: self.name@,
            authority: self.authority,
            surveys: texts(self.surveys@),
        }
    }
}

impl View for Answer {
    type V = AnswerView;

    open spec fn view(&self) -> AnswerView {
        AnswerView { text: self.text@, votes: self.votes }
    }
}

impl View for SurveyAccount {
    type V = SurveyView;

    open spec fn view(&self) -> SurveyView {
        SurveyView {
            title: self.title@,
            community_name: self.community_name@,
            questions: self.questions@,
            answers: answer_views(self.answers@),
            limitdate: self.limitdate,
        }
    }
}

impl View for Record {
    type V = RecordView;

    open spec fn view(&self) -> RecordView {
        match self {
            Record::Config(c) => RecordView::Config(*c),
            Record::Community(c) => RecordView::Community(c@),
            Record::User(u) => RecordView::User(u@),
            Record::Survey(s) => RecordView::Survey(s@),
            Record::Vote(v) => RecordView::Vote(*v),
        }
    }
}

/// Whether one of the references points at `community`.
pub open spec fn is_member(refs: Seq<CommunityRefView>, community: Address) -> bool {
    exists|i: int| 0 <= i < refs.len() && (#[trigger] refs[i]).pda_address == community
}

/// Whether no two references point at the same community.
pub open spec fn distinct_refs(refs: Seq<CommunityRefView>) -> bool {
    forall|i: int, j: int|
        0 <= i < j < refs.len() ==> (#[trigger] refs[i]).pda_address != (
        #[trigger] refs[j]).pda_address
}

/// Whether `title` first occurs in `titles` at index `i`.
pub open spec fn first_at(titles: Seq<Seq<char>>, title: Seq<char>, i: int) -> bool {
    &&& 0 <= i < titles.len()
    &&& titles[i] == title
    &&& forall|j: int| 0 <= j < i ==> titles[j] != title
}

/// The index at which `title` first occurs in `titles`, where it occurs.
pub open spec fn first_index_of(titles: Seq<Seq<char>>, title: Seq<char>) -> int {
    choose|i: int| first_at(titles, title, i)
}

impl RecordView {
    /// What keeps a record out of the store, if anything does: a list
    /// longer than its bound, or an entry that occurs twice.
    pub open spec fn defect(self) -> Option<ErrorCode> {
        match self {
            RecordView::User(u) => {
                if u.communities.len() > MAX_COMMUNITIES_PER_USER {
                    Some(ErrorCode::TooManyCommunities)
                } else if !distinct_refs(u.communities) {
                    Some(ErrorCode::AlreadyMember)
                } else {
                    None
                }
            },
            RecordView::Community(c) => {
                if c.surveys.len() > MAX_SURVEYS_PER_COMMUNITY {
                    Some(ErrorCode::TooManySurveys)
                } else if !c.surveys.no_duplicates() {
                    Some(ErrorCode::AlreadyExists)
                } else {
                    None
                }
            },
            RecordView::Survey(s) => {
                if s.answers.len() > MAX_SURVEY_ANSWERS {
                    Some(ErrorCode::TooManyAnswers)
                } else {
                    None
                }
            },
            RecordView::Config(_) => None,
            RecordView::Vote(_) => None,
        }
    }

    /// The invariant of a stored record: every list is within its bound
    /// and holds no entry twice.
    pub open spec fn valid(self) -> bool {
        self.defect() is None
    }
}

/// Tells whether one of the references points at `community`.
pub fn holds_ref(refs: &Vec<CommunityRef>, community: &Address) -> (found: bool)
    ensures
        found == is_member(ref_views(refs@), *community),
{
    let mut i: usize = 0;
    while i < refs.len()
        invariant
            i <= refs.len(),
            forall|j: int| 0 <= j < i ==> (#[trigger] refs[j]).pda_address != *community,
        decreases refs.len() - i,
    {
        if refs[i].pda_address == *community {
            assert(ref_views(refs@)[i as int].pda_address == *community);
            return true;
        }
        i += 1;
    }
    false
}

/// Finds the first occurrence of `title` in `titles`.
pub fn find_title(titles: &Vec<String>, title: &String) -> (found: Option<usize>)
    ensures
        found is Some ==> first_at(texts(titles@), title@, found.unwrap() as int),
        found is None ==> !texts(titles@).contains(title@),
{
    let mut i: usize = 0;
    while i < titles.len()
        invariant
            i <= titles.len(),
            forall|j: int| 0 <= j < i ==> (#[trigger] titles[j])@ != title@,
        decreases titles.len() - i,
    {
        if titles[i] == *title {
            return Some(i);
        }
        i += 1;
    }
    None
}

/// Tells whether no two references point at the same community.
pub fn refs_distinct(refs: &Vec<CommunityRef>) -> (distinct: bool)
    ensures
        distinct == distinct_refs(ref_views(refs@)),
{
    let mut i: usize = 0;
    while i < refs.len()
        invariant
            i <= refs.len(),
            forall|a: int, b: int|
                0 <= a < b < i ==> (#[trigger] refs[a]).pda_address != (
                #[trigger] refs[b]).pda_address,
        decreases refs.len() - i,
    {
        let mut j: usize = 0;
        while j < i
            invariant
                j <= i < refs.len(),
                forall|a: int|
                    0 <= a < j ==> (#[trigger] refs[a]).pda_address != refs[i as int].pda_address,
            decreases i - j,
        {
            if refs[j].pda_address == refs[i].pda_address {
                assert(ref_views(refs@)[j as int].pda_address == ref_views(
                    refs@,
                )[i as int].pda_address);
                return false;
            }
            j += 1;
        }
        i += 1;
    }
    true
}

/// Tells whether no title occurs twice.
pub fn titles_distinct(titles: &Vec<String>) -> (distinct: bool)
    ensures
        distinct == texts(titles@).no_duplicates(),
{
    let mut i: usize = 0;
    while i < titles.len()
        invariant
            i <= titles.len(),
            forall|a: int, b: int|
                0 <= a < b < i ==> (#[trigger] titles[a])@ != (#[trigger] titles[b])@,
        decreases titles.len() - i,
    {
        let mut j: usize = 0;
        while j < i
            invariant
                j <= i < titles.len(),
                forall|a: int| 0 <= a < j ==> (#[trigger] titles[a])@ != titles[i as int]@,
            decreases i - j,
        {
            if titles[j] == titles[i] {
                assert(texts(titles@)[j as int] == texts(titles@)[i as int]);
                return false;
            }
            j += 1;
        }
        i += 1;
    }
    true
}

impl Record {
    /// Finds what keeps the record out of the store, if anything does.
    pub fn defect(&self) -> (found: Option<ErrorCode>)
        ensures
            found == self@.defect(),
    {
        match self {
            Record::User(u) => {
                if u.communities.len() > MAX_COMMUNITIES_PER_USER {
                    Some(ErrorCode::TooManyCommunities)
                } else if !refs_distinct(&u.communities) {
                    Some(ErrorCode::AlreadyMember)
                } else {
                    None
                }
            },
            Record::Community(c) => {
                if c.surveys.len() > MAX_SURVEYS_PER_COMMUNITY {
                    Some(ErrorCode::TooManySurveys)
                } else if !titles_distinct(&c.surveys) {
                    Some(ErrorCode::AlreadyExists)
                } else {
                    None
                }
            },
            Record::Survey(s) => {
                if s.answers.len() > MAX_SURVEY_ANSWERS {
                    Some(ErrorCode::TooManyAnswers)
                } else {
                    None
                }
            },
            Record::Config(_) => None,
            Record::Vote(_) => None,
        }
    }
}

} // verus!
