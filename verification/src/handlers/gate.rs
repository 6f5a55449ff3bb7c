//! What every operation goes through before it acts: the test of the
//! addresses it was given, and the lookup of the records it reads.

use crate::address::{
    derived_community, derived_config, derived_survey, derived_user, derived_vote, Address,
};
use crate::error::ErrorCode;
use crate::records::{
    CommunityAccount, ProgramConfig, Record, RecordView, SurveyAccount, UserAccount,
};
use crate::state::{community_at, config_at, survey_at, user_at, State};
use crate::store::Store;
use vstd::prelude::*;

verus! {

/// The name of the community that every user belongs to from registration.
pub open spec fn all_name() -> Seq<char> {
    "all"@
}

/// Whether `a` is the address derived from what identifies the record: a
/// community's name, a user's authority, a survey's community and title,
/// a vote's voter together with some survey.
pub open spec fn at_home(a: Address, record: RecordView) -> bool {
    match record {
        RecordView::Config(_) => derived_config() == Some(a),
        RecordView::Community(c) => derived_community(c.name) == Some(a),
        RecordView::User(u) => derived_user(u.authority) == Some(a),
        RecordView::Survey(v) => derived_survey(v.community_name, v.title) == Some(a),
        RecordView::Vote(v) => exists|survey: Address| #[trigger]
            derived_vote(survey, v.voter) == Some(a),
    }
}

/// Whether every record of the state is stored at the address derived from
/// what identifies it. The operations of this module keep it so; with it,
/// no two communities share a name, no two users an authority and no two
/// surveys a community and title.
pub open spec fn addressed(s: State) -> bool {
    forall|a: Address| s.dom().contains(a) ==> at_home(a, (#[trigger] s[a]).record)
}

/// What `check_address` answers.
pub open spec fn check_address_outcome(expected: Option<Address>, presented: Address) -> Result<
    (),
    ErrorCode,
> {
    if expected == Some(presented) {
        Ok(())
    } else {
        Err(ErrorCode::AddressMismatch)
    }
}

/// Holds the address that a caller presents against the one that was
/// derived from the seeds. Fails with `AddressMismatch` where no address
/// was derived or another one.
pub fn check_address(expected: Option<Address>, presented: &Address) -> (r: Result<(), ErrorCode>)
    ensures
        r == check_address_outcome(expected, *presented),
{
    match expected {
        Some(a) => {
            if a == *presented {
                Ok(())
            } else {
                Err(ErrorCode::AddressMismatch)
            }
        },
        None => Err(ErrorCode::AddressMismatch),
    }
}

/// Looks up the user record at an address.
pub(crate) fn read_user<'a>(store: &'a Store, a: &Address) -> (r: Option<&'a UserAccount>)
    requires
        store.wf(),
    ensures
        r is Some ==> user_at(store@, *a) == Some(r.unwrap()@),
        r is None ==> user_at(store@, *a) is None,
{
    match store.read(a) {
        Ok(Record::User(u)) => Some(u),
        _ => None,
    }
}

/// Looks up the community record at an address.
pub(crate) fn read_community<'a>(store: &'a Store, a: &Address) -> (r: Option<&'a CommunityAccount>)
    requires
        store.wf(),
    ensures
        r is Some ==> community_at(store@, *a) == Some(r.unwrap()@),
        r is None ==> community_at(store@, *a) is None,
{
    match store.read(a) {
        Ok(Record::Community(c)) => Some(c),
        _ => None,
    }
}

/// Looks up the survey record at an address.
pub(crate) fn read_survey<'a>(store: &'a Store, a: &Address) -> (r: Option<&'a SurveyAccount>)
    requires
        store.wf(),
    ensures
        r is Some ==> survey_at(store@, *a) == Some(r.unwrap()@),
        r is None ==> survey_at(store@, *a) is None,
{
    match store.read(a) {
        Ok(Record::Survey(v)) => Some(v),
        _ => None,
    }
}

/// Looks up the configuration record at an address.
pub(crate) fn read_config(store: &Store, a: &Address) -> (r: Option<ProgramConfig>)
    requires
        store.wf(),
    ensures
        r == config_at(store@, *a),
{
    match store.read(a) {
        Ok(Record::Config(c)) => Some(*c),
        _ => None,
    }
}

} // verus!
