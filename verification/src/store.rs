//! The record store: records kept by address, created exclusively.
//!
//! Creating a record at an occupied address fails, and nothing else keeps
//! two records of one identity apart. A stored record is changed in place
//! by one of four updates: a community is appended to a user, a title is
//! appended to or taken out of a community, a vote is counted on a survey.
//! Every list stays within its bound and free of repetition.

use crate::address::Address;
use crate::error::ErrorCode;
use crate::records::{
    answer_views, find_title, holds_ref, ref_views, texts, CommunityRef, Record,
    MAX_COMMUNITIES_PER_USER, MAX_SURVEYS_PER_COMMUNITY,
};
use crate::state::{
    append_community_outcome, append_survey_outcome, close_outcome, community_at,
    count_vote_outcome, create_outcome, remove_survey_outcome, survey_at, user_at, valid_state,
    voted, with_community, with_survey, with_vote, without_survey, Entry, State,
};
use vstd::prelude::*;

verus! {

/// A deposit on its way back: who receives it and how much it is.
#[derive(Clone, Copy, Debug, PartialEq, Eq)]
pub struct Refund {
    pub recipient: Address,
    pub amount: u64,
}

/// One occupied address with what is stored there.
struct Slot {
    address: Address,
    record: Record,
    deposit: u64,
}

impl Slot {
    /// What the slot holds, as the state shows it.
    spec fn entry(self) -> Entry {
        Entry { record: self.record@, deposit: self.deposit }
    }
}

/// The record store. It keeps one slot for each occupied address and
/// finds an address by going through the slots.
pub struct Store {
    slots: Vec<Slot>,
}

impl View for Store {
    type V = State;

    closed spec fn view(&self) -> State {
        Map::new(
            |a: Address| self.occupied(a),
            |a: Address| self.slots[self.slot_of(a)].entry(),
        )
    }
}

impl Store {
    /// Whether a slot holds the address.
    spec fn occupied(&self, a: Address) -> bool {
        exists|i: int| 0 <= i < self.slots.len() && (#[trigger] self.slots[i]).address == a
    }

    /// The index of the slot that holds the address.
    spec fn slot_of(&self, a: Address) -> int {
        choose|i: int| 0 <= i < self.slots.len() && (#[trigger] self.slots[i]).address == a
    }

    /// No address occupies two slots.
    pub closed spec fn unique(&self) -> bool {
        forall|i: int, j: int|
            0 <= i < j < self.slots.len() ==> (#[trigger] self.slots[i]).address != (
            #[trigger] self.slots[j]).address
    }

    /// The invariant of the store: every address is stored once, and every
    /// record meets the invariant of its kind.
    pub open spec fn wf(&self) -> bool {
        self.unique() && valid_state(self@)
    }

    /// An address held by a slot is occupied, by what that slot holds.
    proof fn lemma_slot(&self, i: int)
        requires
            self.unique(),
            0 <= i < self.slots.len(),
        ensures
            self@.dom().contains(self.slots[i].address),
            self@[self.slots[i].address] == self.slots[i].entry(),
    {
    }

    /// A slot appended for an unoccupied address inserts its entry.
    proof fn lemma_pushed(before: Store, after: Store)
        requires
            before.unique(),
            after.slots@.len() > 0,
            after.slots@.drop_last() == before.slots@,
            !before@.dom().contains(after.slots@.last().address),
        ensures
            after.unique(),
            after@ == before@.insert(after.slots@.last().address, after.slots@.last().entry()),
    {
        let n = before.slots@.len() as int;
        assert forall|i: int| 0 <= i < n implies (#[trigger] after.slots[i]) == before.slots[i] by {
        }
    }

    /// A slot replaced by one for the same address replaces its entry.
    proof fn lemma_updated(before: Store, after: Store, i: int)
        requires
            before.unique(),
            0 <= i < before.slots@.len(),
            after.slots@.len() == before.slots@.len(),
            forall|j: int|
                0 <= j < before.slots@.len() && j != i ==> (#[trigger] after.slots@[j])
                    == before.slots@[j],
            after.slots@[i].address == before.slots@[i].address,
        ensures
            after.unique(),
            after@ == before@.insert(before.slots@[i].address, after.slots@[i].entry()),
    {
        let expected = before@.insert(before.slots[i].address, after.slots[i].entry());
        assert forall|b: Address| #[trigger] after@.dom().contains(b) <==> expected.dom().contains(
            b,
        ) by {
            if before.occupied(b) {
                after.lemma_slot(before.slot_of(b));
            }
        }
    }

    /// A slot taken out frees its address.
    proof fn lemma_removed(before: Store, after: Store, i: int)
        requires
            before.unique(),
            0 <= i < before.slots@.len(),
            after.slots@ == before.slots@.remove(i),
        ensures
            after.unique(),
            after@ == before@.remove(before.slots@[i].address),
    {
        let a = before.slots[i].address;
        let expected = before@.remove(a);
        assert forall|b: Address| #[trigger] after@.dom().contains(b) <==> expected.dom().contains(
            b,
        ) by {
            if before.occupied(b) && b != a {
                let j = before.slot_of(b);
                after.lemma_slot(if j < i { j } else { j - 1 });
            }
        }
    }

    /// An empty store.
    pub fn new() -> (s: Store)
        ensures
            s.wf(),
            s@ == Map::<Address, Entry>::empty(),
    {
        Store { slots: Vec::new() }
    }

    /// Finds the slot that holds the address.
    fn position(&self, a: &Address) -> (found: Option<usize>)
        requires
            self.unique(),
        ensures
            found is Some ==> found.unwrap() < self.slots.len(),
            found is Some ==> self.slots[found.unwrap() as int].address == *a,
            found is Some ==> self@.dom().contains(*a),
            found is Some ==> self@[*a] == self.slots[found.unwrap() as int].entry(),
            found is None ==> !self@.dom().contains(*a),
    {
        let mut i: usize = 0;
        while i < self.slots.len()
            invariant
                self.unique(),
                i <= self.slots.len(),
                forall|j: int| 0 <= j < i ==> (#[trigger] self.slots[j]).address != *a,
            decreases self.slots.len() - i,
        {
            if self.slots[i].address == *a {
                return Some(i);
            }
            i += 1;
        }
        None
    }

    /// Tells whether the address is occupied.
    pub fn contains(&self, a: &Address) -> (r: bool)
        requires
            self.wf(),
        ensures
            r == self@.dom().contains(*a),
    {
        self.position(a).is_some()
    }

    /// Tells the deposit that was paid for the record at an address. Fails
    /// with `NotFound` exactly where the address is not occupied.
    pub fn deposit(&self, a: &Address) -> (r: Result<u64, ErrorCode>)
        requires
            self.wf(),
        ensures
            r is Ok <==> self@.dom().contains(*a),
            r is Ok ==> r.unwrap() == self@[*a].deposit,
            r is Err ==> r.unwrap_err() == ErrorCode::NotFound,
    {
        match self.position(a) {
            Some(i) => Ok(self.slots[i].deposit),
            None => Err(ErrorCode::NotFound),
        }
    }

    /// Reads the record at an address. Fails with `NotFound` exactly where
    /// the address is not occupied.
    pub fn read(&self, a: &Address) -> (r: Result<&Record, ErrorCode>)
        requires
            self.wf(),
        ensures
            r is Ok <==> self@.dom().contains(*a),
            r is Ok ==> r.unwrap()@ == self@[*a].record,
            r is Err ==> r.unwrap_err() == ErrorCode::NotFound,
    {
        match self.position(a) {
            Some(i) => Ok(&self.slots[i].record),
            None => Err(ErrorCode::NotFound),
        }
    }

    /// Creates a record at an unoccupied address and notes its deposit.
    /// Fails with `AlreadyExists` where the address is occupied, and with
    /// the record's defect where it has one.
    pub fn create(&mut self, a: Address, record: Record, deposit: u64) -> (r: Result<
        (),
        ErrorCode,
    >)
        requires
            old(self).wf(),
        ensures
            final(self).wf(),
            r == create_outcome(old(self)@, a, record@),
            r is Ok ==> final(self)@ == old(self)@.insert(
                a,
                (Entry { record: record@, deposit }),
            ),
            r is Err ==> final(self)@ == old(self)@,
    {
        if self.position(&a).is_some() {
            return Err(ErrorCode::AlreadyExists);
        }
        if let Some(e) = record.defect() {
            return Err(e);
        }
        let ghost before = *self;
        self.slots.push(Slot { address: a, record, deposit });
        proof {
            assert(self.slots@.drop_last() =~= before.slots@);
            Self::lemma_pushed(before, *self);
        }
        Ok(())
    }

    /// Appends a reference to the communities of the user stored at `user`.
    pub fn append_community(&mut self, user: &Address, r: CommunityRef) -> (res: Result<
        (),
        ErrorCode,
    >)
        requires
            old(self).wf(),
        ensures
            final(self).wf(),
            res == append_community_outcome(old(self)@, *user, r@),
            res is Ok ==> final(self)@ == with_community(old(self)@, *user, r@),
            res is Err ==> final(self)@ == old(self)@,
    {
        let i = match self.position(user) {
            Some(i) => i,
            None => { return Err(ErrorCode::NotFound); },
        };
        match &self.slots[i].record {
            Record::User(u) => {
                if holds_ref(&u.communities, &r.pda_address) {
                    return Err(ErrorCode::AlreadyMember);
                }
                if u.communities.len() >= MAX_COMMUNITIES_PER_USER {
                    return Err(ErrorCode::TooManyCommunities);
                }
            },
            _ => { return Err(ErrorCode::NotFound); },
        }
        let ghost before = *self;
        let ghost refs = user_at(before@, *user).unwrap().communities;
        match &mut self.slots[i].record {
            Record::User(u) => {
                u.communities.push(r);
            },
            _ => {},
        }
        proof {
            assert(ref_views(self.slots[i as int].record->User_0.communities@) =~= refs.push(r@));
            Self::lemma_updated(before, *self, i as int);
        }
        Ok(())
    }

    /// Appends a title to the surveys of the community stored at
    /// `community`.
    pub fn append_survey(&mut self, community: &Address, title: String) -> (res: Result<
        (),
        ErrorCode,
    >)
        requires
            old(self).wf(),
        ensures
            final(self).wf(),
            res == append_survey_outcome(old(self)@, *community, title@),
            res is Ok ==> final(self)@ == with_survey(old(self)@, *community, title@),
            res is Err ==> final(self)@ == old(self)@,
    {
        let i = match self.position(community) {
            Some(i) => i,
            None => { return Err(ErrorCode::NotFound); },
        };
        match &self.slots[i].record {
            Record::Community(c) => {
                if find_title(&c.surveys, &title).is_some() {
                    return Err(ErrorCode::AlreadyExists);
                }
                if c.surveys.len() >= MAX_SURVEYS_PER_COMMUNITY {
                    return Err(ErrorCode::TooManySurveys);
                }
            },
            _ => { return Err(ErrorCode::NotFound); },
        }
        let ghost before = *self;
        let ghost titles = community_at(before@, *community).unwrap().surveys;
        match &mut self.slots[i].record {
            Record::Community(c) => {
                c.surveys.push(title);
            },
            _ => {},
        }
        proof {
            assert(texts(self.slots[i as int].record->Community_0.surveys@) =~= titles.push(
                title@,
            ));
            Self::lemma_updated(before, *self, i as int);
        }
        Ok(())
    }

    /// Takes the first occurrence of a title out of the surveys of the
    /// community stored at `community`.
    pub fn remove_survey(&mut self, community: &Address, title: &String) -> (res: Result<
        (),
        ErrorCode,
    >)
        requires
            old(self).wf(),
        ensures
            final(self).wf(),
            res == remove_survey_outcome(old(self)@, *community, title@),
            res is Ok ==> final(self)@ == without_survey(old(self)@, *community, title@),
            res is Err ==> final(self)@ == old(self)@,
    {
        let i = match self.position(community) {
            Some(i) => i,
            None => { return Err(ErrorCode::NotFound); },
        };
        let k = match &self.slots[i].record {
            Record::Community(c) => {
                match find_title(&c.surveys, title) {
                    Some(k) => k,
                    None => { return Err(ErrorCode::SurveyNotFoundInCommunity); },
                }
            },
            _ => { return Err(ErrorCode::NotFound); },
        };
        let ghost before = *self;
        let ghost titles = community_at(before@, *community).unwrap().surveys;
        match &mut self.slots[i].record {
            Record::Community(c) => {
                c.surveys.remove(k);
            },
            _ => {},
        }
        proof {
            assert(texts(self.slots[i as int].record->Community_0.surveys@) =~= titles.remove(
                k as int,
            ));
            Self::lemma_updated(before, *self, i as int);
        }
        Ok(())
    }

    /// Adds one vote to the answer at `index` of the survey stored at
    /// `survey`.
    pub fn count_vote(&mut self, survey: &Address, index: usize) -> (res: Result<(), ErrorCode>)
        requires
            old(self).wf(),
        ensures
            final(self).wf(),
            res == count_vote_outcome(old(self)@, *survey, index as int),
            res is Ok ==> final(self)@ == with_vote(old(self)@, *survey, index as int),
            res is Err ==> final(self)@ == old(self)@,
    {
        let i = match self.position(survey) {
            Some(i) => i,
            None => { return Err(ErrorCode::NotFound); },
        };
        match &self.slots[i].record {
            Record::Survey(v) => {
                if index >= v.answers.len() {
                    return Err(ErrorCode::InvalidAnswerIndex);
                }
                if v.answers[index].votes == u32::MAX {
                    return Err(ErrorCode::VoteCountOverflow);
                }
            },
            _ => { return Err(ErrorCode::NotFound); },
        }
        let ghost before = *self;
        let ghost answers = survey_at(before@, *survey).unwrap().answers;
        match &mut self.slots[i].record {
            Record::Survey(v) => {
                v.answers[index].votes += 1;
            },
            _ => {},
        }
        proof {
            assert(answer_views(self.slots[i as int].record->Survey_0.answers@) =~= voted(
                answers,
                index as int,
            ));
            Self::lemma_updated(before, *self, i as int);
        }
        Ok(())
    }

    /// Closes the record at an address: the address becomes unoccupied and
    /// the deposit noted at creation goes to `recipient`.
    pub fn close(&mut self, a: &Address, recipient: Address) -> (res: Result<Refund, ErrorCode>)
        requires
            old(self).wf(),
        ensures
            final(self).wf(),
            res == close_outcome(old(self)@, *a, recipient),
            res is Ok ==> final(self)@ == old(self)@.remove(*a),
            res is Err ==> final(self)@ == old(self)@,
    {
        let i = match self.position(a) {
            Some(i) => i,
            None => { return Err(ErrorCode::NotFound); },
        };
        let ghost before = *self;
        let slot = self.slots.remove(i);
        proof {
            Self::lemma_removed(before, *self, i as int);
        }
        Ok(Refund { recipient, amount: slot.deposit })
    }
}

} // verus!
