//! Registering users.

use crate::address::{community_address, derived_community, derived_user, user_address, Address};
use crate::error::ErrorCode;
use crate::handlers::gate::{addressed, all_name, check_address, read_community};
use crate::records::{CommunityRef, CommunityRefView, Record, RecordView, UserAccount, UserView};
use crate::state::{
    community_at, deposits_kept, records_kept, touches_only, votes_kept, Entry, State,
};
use crate::store::Store;
use vstd::prelude::*;
use vstd::string::StringExecFns;

verus! {

/// The addresses and the caller of `register_user`.
#[derive(Clone, Copy, Debug, PartialEq, Eq)]
pub struct RegisterUser {
    /// Where the caller's user record is to be created.
    pub user_account: Address,
    /// The caller.
    pub authority: Address,
    /// The community `all`.
    pub all_community: Address,
}

/// The user record as `register_user` creates it.
pub open spec fn initial_user(ctx: RegisterUser) -> UserView {
    UserView {
        authority: ctx.authority,
        communities: seq![CommunityRefView { name: all_name(), pda_address: ctx.all_community }],
    }
}

/// Whether the addresses of a `RegisterUser` are the derived ones.
pub open spec fn register_user_addresses(ctx: RegisterUser) -> bool {
    &&& derived_user(ctx.authority) == Some(ctx.user_account)
    &&& derived_community(all_name()) == Some(ctx.all_community)
}

/// What `apply_register_user` answers in state `s`.
pub open spec fn apply_register_user_outcome(s: State, ctx: RegisterUser) -> Result<(), ErrorCode> {
    if community_at(s, ctx.all_community) is None {
        Err(ErrorCode::NotFound)
    } else if s.dom().contains(ctx.user_account) {
        Err(ErrorCode::AlreadyExists)
    } else {
        Ok(())
    }
}

/// The state that `apply_register_user` leaves.
pub open spec fn apply_register_user_state(s: State, ctx: RegisterUser, deposit: u64) -> State {
    if apply_register_user_outcome(s, ctx) is Ok {
        s.insert(ctx.user_account, Entry { record: RecordView::User(initial_user(ctx)), deposit })
    } else {
        s
    }
}

/// What `register_user` answers in state `s`.
pub open spec fn register_user_outcome(s: State, ctx: RegisterUser) -> Result<(), ErrorCode> {
    if !register_user_addresses(ctx) {
        Err(ErrorCode::AddressMismatch)
    } else {
        apply_register_user_outcome(s, ctx)
    }
}

/// The state that `register_user` leaves.
pub open spec fn register_user_state(s: State, ctx: RegisterUser, deposit: u64) -> State {
    if register_user_addresses(ctx) {
        apply_register_user_state(s, ctx, deposit)
    } else {
        s
    }
}

/// Creates a user record at the addresses given, whatever seeds they come
/// from. Fails with `NotFound` where no community is stored at
/// `all_community`, else with `AlreadyExists` where the user's address is
/// occupied. Otherwise the record is created with the caller as its
/// authority and one reference, named `all`, to that community.
pub fn apply_register_user(store: &mut Store, ctx: &RegisterUser, deposit: u64) -> (r: Result<
    (),
    ErrorCode,
>)
    requires
        old(store).wf(),
    ensures
        final(store).wf(),
        r == apply_register_user_outcome(old(store)@, *ctx),
        final(store)@ == apply_register_user_state(old(store)@, *ctx, deposit),
        r is Err ==> final(store)@ == old(store)@,
        touches_only(old(store)@, final(store)@, set![ctx.user_account]),
        records_kept(old(store)@, final(store)@),
        deposits_kept(old(store)@, final(store)@),
        votes_kept(old(store)@, final(store)@),
{
    if read_community(store, &ctx.all_community).is_none() {
        return Err(ErrorCode::NotFound);
    }
    if store.contains(&ctx.user_account) {
        return Err(ErrorCode::AlreadyExists);
    }
    let mut communities: Vec<CommunityRef> = Vec::new();
    communities.push(
        CommunityRef { name: String::from_str("all"), pda_address: ctx.all_community },
    );
    let user = UserAccount { authority: ctx.authority, communities };
    assert(user@.communities =~= initial_user(*ctx).communities);
    store.create(ctx.user_account, Record::User(user), deposit)?;
    Ok(())
}

/// Registers the caller as a user and member of the community `all`.
/// Fails with `AddressMismatch` unless the user's address is the one
/// derived from the caller and `all_community` the one derived for the
/// name `all`; after that it does what `apply_register_user` does.
pub fn register_user(store: &mut Store, ctx: &RegisterUser, deposit: u64) -> (r: Result<
    (),
    ErrorCode,
>)
    requires
        old(store).wf(),
    ensures
        final(store).wf(),
        r == register_user_outcome(old(store)@, *ctx),
        final(store)@ == register_user_state(old(store)@, *ctx, deposit),
        r is Err ==> final(store)@ == old(store)@,
        touches_only(old(store)@, final(store)@, set![ctx.user_account]),
        records_kept(old(store)@, final(store)@),
        deposits_kept(old(store)@, final(store)@),
        votes_kept(old(store)@, final(store)@),
        addressed(old(store)@) ==> addressed(final(store)@),
{
    check_address(user_address(&ctx.authority), &ctx.user_account)?;
    check_address(community_address("all"), &ctx.all_community)?;
    apply_register_user(store, ctx, deposit)
}

} // verus!
