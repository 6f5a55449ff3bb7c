//! Founding and joining communities.

use crate::address::{
    community_address, derived_community, derived_user, user_address, Address, MAX_SEED_LEN,
};
use crate::error::ErrorCode;
use crate::handlers::gate::{addressed, check_address, read_community, read_user};
use crate::records::{
    byte_len, holds_ref, is_member, CommunityAccount, CommunityRef, CommunityRefView, CommunityView,
    Record, RecordView, MAX_COMMUNITIES_PER_USER,
};
use crate::state::{
    community_at, deposits_kept, records_kept, touches_only, user_at, votes_kept, with_community,
    Entry, State,
};
use crate::store::Store;
use vstd::prelude::*;

verus! {

/// The addresses and the caller of `create_community`.
#[derive(Clone, Copy, Debug, PartialEq, Eq)]
pub struct CreateCommunity {
    /// Where the community is to be created.
    pub community_account: Address,
    /// The caller, who becomes the community's authority.
    pub authority: Address,
    /// The caller's user record.
    pub user_account: Address,
}

/// Whether the addresses of a `CreateCommunity` are the derived ones, for a
/// community of the given name.
pub open spec fn create_community_addresses(ctx: CreateCommunity, name: Seq<char>) -> bool {
    &&& derived_community(name) == Some(ctx.community_account)
    &&& derived_user(ctx.authority) == Some(ctx.user_account)
}

/// What `apply_create_community` answers in state `s`.
pub open spec fn apply_create_community_outcome(s: State, ctx: CreateCommunity) -> Result<
    (),
    ErrorCode,
> {
    let user = user_at(s, ctx.user_account);
    if user is None {
        Err(ErrorCode::NotFound)
    } else if user.unwrap().authority != ctx.authority {
        Err(ErrorCode::Unauthorized)
    } else if s.dom().contains(ctx.community_account) {
        Err(ErrorCode::AlreadyExists)
    } else if user.unwrap().communities.len() >= MAX_COMMUNITIES_PER_USER {
        Err(ErrorCode::TooManyCommunities)
    } else if is_member(user.unwrap().communities, ctx.community_account) {
        Err(ErrorCode::AlreadyMember)
    } else {
        Ok(())
    }
}

/// The state that `apply_create_community` leaves.
pub open spec fn apply_create_community_state(
    s: State,
    ctx: CreateCommunity,
    name: Seq<char>,
    deposit: u64,
) -> State {
    if apply_create_community_outcome(s, ctx) is Ok {
        with_community(
            s.insert(
                ctx.community_account,
                Entry {
                    record: RecordView::Community(
                        CommunityView { name, authority: ctx.authority, surveys: Seq::empty() },
                    ),
                    deposit,
                },
            ),
            ctx.user_account,
            CommunityRefView { name, pda_address: ctx.community_account },
        )
    } else {
        s
    }
}

/// What `create_community` answers in state `s`.
pub open spec fn create_community_outcome(
    s: State,
    ctx: CreateCommunity,
    name: Seq<char>,
) -> Result<(), ErrorCode> {
    if !create_community_addresses(ctx, name) {
        Err(ErrorCode::AddressMismatch)
    } else {
        apply_create_community_outcome(s, ctx)
    }
}

/// The state that `create_community` leaves.
pub open spec fn create_community_state(
    s: State,
    ctx: CreateCommunity,
    name: Seq<char>,
    deposit: u64,
) -> State {
    if create_community_addresses(ctx, name) {
        apply_create_community_state(s, ctx, name, deposit)
    } else {
        s
    }
}

/// Founds a community at the addresses given, whatever seeds they come
/// from.
///
/// The first failing test decides the error:
/// - `NotFound`: no user record at its address;
/// - `Unauthorized`: the caller is not the authority of the user record;
/// - `AlreadyExists`: the community's address is occupied;
/// - `TooManyCommunities`: the user belongs to ten communities;
/// - `AlreadyMember`: the user holds a reference to the address already.
///
/// Otherwise the community is created without surveys, with the caller as
/// its authority, and a reference to it is appended to the user's
/// communities.
pub fn apply_create_community(
    store: &mut Store,
    ctx: &CreateCommunity,
    name: String,
    deposit: u64,
) -> (r: Result<(), ErrorCode>)
    requires
        old(store).wf(),
    ensures
        final(store).wf(),
        r == apply_create_community_outcome(old(store)@, *ctx),
        final(store)@ == apply_create_community_state(old(store)@, *ctx, name@, deposit),
        r is Err ==> final(store)@ == old(store)@,
        touches_only(old(store)@, final(store)@, set![ctx.community_account, ctx.user_account]),
        records_kept(old(store)@, final(store)@),
        deposits_kept(old(store)@, final(store)@),
        votes_kept(old(store)@, final(store)@),
{
    let user = match read_user(store, &ctx.user_account) {
        Some(u) => u,
        None => { return Err(ErrorCode::NotFound); },
    };
    if user.authority != ctx.authority {
        return Err(ErrorCode::Unauthorized);
    }
    if store.contains(&ctx.community_account) {
        return Err(ErrorCode::AlreadyExists);
    }
    if user.communities.len() >= MAX_COMMUNITIES_PER_USER {
        return Err(ErrorCode::TooManyCommunities);
    }
    if holds_ref(&user.communities, &ctx.community_account) {
        return Err(ErrorCode::AlreadyMember);
    }
    let entry = CommunityRef { name: name.clone(), pda_address: ctx.community_account };
    let community = CommunityAccount { name, authority: ctx.authority, surveys: Vec::new() };
    assert(community@.surveys =~= Seq::empty());
    store.create(ctx.community_account, Record::Community(community), deposit)?;
    store.append_community(&ctx.user_account, entry)?;
    Ok(())
}

/// Founds a community under a name that is not taken and makes the caller
/// a member of it. Fails with `AddressMismatch` unless the community's
/// address is the one derived from the name and the user's the one derived
/// from the caller; a name longer than 32 bytes has no address. After that
/// it does what `apply_create_community` does.
pub fn create_community(
    store: &mut Store,
    ctx: &CreateCommunity,
    name: String,
    deposit: u64,
) -> (r: Result<(), ErrorCode>)
    requires
        old(store).wf(),
    ensures
        final(store).wf(),
        r == create_community_outcome(old(store)@, *ctx, name@),
        final(store)@ == create_community_state(old(store)@, *ctx, name@, deposit),
        r is Err ==> final(store)@ == old(store)@,
        touches_only(old(store)@, final(store)@, set![ctx.community_account, ctx.user_account]),
        records_kept(old(store)@, final(store)@),
        deposits_kept(old(store)@, final(store)@),
        votes_kept(old(store)@, final(store)@),
        byte_len(name@) > MAX_SEED_LEN ==> r == Err::<(), ErrorCode>(ErrorCode::AddressMismatch),
        addressed(old(store)@) ==> addressed(final(store)@),
{
    check_address(community_address(name.as_str()), &ctx.community_account)?;
    check_address(user_address(&ctx.authority), &ctx.user_account)?;
    apply_create_community(store, ctx, name, deposit)
}

/// The addresses and the caller of `join_community`.
#[derive(Clone, Copy, Debug, PartialEq, Eq)]
pub struct JoinCommunity {
    /// The caller's user record.
    pub user_account: Address,
    /// The community to join.
    pub community_account: Address,
    /// The caller.
    pub authority: Address,
}

/// Whether the addresses of a `JoinCommunity` are the derived ones.
pub open spec fn join_community_addresses(ctx: JoinCommunity) -> bool {
    derived_user(ctx.authority) == Some(ctx.user_account)
}

/// What `apply_join_community` answers in state `s`.
pub open spec fn apply_join_community_outcome(s: State, ctx: JoinCommunity) -> Result<
    (),
    ErrorCode,
> {
    let user = user_at(s, ctx.user_account);
    let community = community_at(s, ctx.community_account);
    if user is None {
        Err(ErrorCode::NotFound)
    } else if user.unwrap().authority != ctx.authority {
        Err(ErrorCode::Unauthorized)
    } else if community is None {
        Err(ErrorCode::NotFound)
    } else if community.unwrap().name.len() == 0 {
        Err(ErrorCode::NotFound)
    } else if is_member(user.unwrap().communities, ctx.community_account) {
        Err(ErrorCode::AlreadyMember)
    } else if user.unwrap().communities.len() >= MAX_COMMUNITIES_PER_USER {
        Err(ErrorCode::TooManyCommunities)
    } else {
        Ok(())
    }
}

/// The state that `apply_join_community` leaves.
pub open spec fn apply_join_community_state(s: State, ctx: JoinCommunity) -> State {
    if apply_join_community_outcome(s, ctx) is Ok {
        with_community(
            s,
            ctx.user_account,
            CommunityRefView {
                name: community_at(s, ctx.community_account).unwrap().name,
                pda_address: ctx.community_account,
            },
        )
    } else {
        s
    }
}

/// What `join_community` answers in state `s`.
pub open spec fn join_community_outcome(s: State, ctx: JoinCommunity) -> Result<(), ErrorCode> {
    if !join_community_addresses(ctx) {
        Err(ErrorCode::AddressMismatch)
    } else {
        apply_join_community_outcome(s, ctx)
    }
}

/// The state that `join_community` leaves.
pub open spec fn join_community_state(s: State, ctx: JoinCommunity) -> State {
    if join_community_addresses(ctx) {
        apply_join_community_state(s, ctx)
    } else {
        s
    }
}

/// Adds a community to those of the user at the address given, whatever
/// seeds that address comes from.
///
/// The first failing test decides the error:
/// - `NotFound`: no user record at its address;
/// - `Unauthorized`: the caller is not the authority of the user record;
/// - `NotFound`: no community record at its address, or one without a name;
/// - `AlreadyMember`: the user holds a reference to the community already;
/// - `TooManyCommunities`: the user belongs to ten communities.
///
/// Otherwise a reference with the community's name and address is appended
/// to the user's communities.
pub fn apply_join_community(store: &mut Store, ctx: &JoinCommunity) -> (r: Result<(), ErrorCode>)
    requires
        old(store).wf(),
    ensures
        final(store).wf(),
        r == apply_join_community_outcome(old(store)@, *ctx),
        final(store)@ == apply_join_community_state(old(store)@, *ctx),
        r is Err ==> final(store)@ == old(store)@,
        touches_only(old(store)@, final(store)@, set![ctx.user_account]),
        records_kept(old(store)@, final(store)@),
        deposits_kept(old(store)@, final(store)@),
        votes_kept(old(store)@, final(store)@),
{
    let user = match read_user(store, &ctx.user_account) {
        Some(u) => u,
        None => { return Err(ErrorCode::NotFound); },
    };
    if user.authority != ctx.authority {
        return Err(ErrorCode::Unauthorized);
    }
    let community = match read_community(store, &ctx.community_account) {
        Some(c) => c,
        None => { return Err(ErrorCode::NotFound); },
    };
    if community.name.as_str().is_empty() {
        return Err(ErrorCode::NotFound);
    }
    let entry = CommunityRef { name: community.name.clone(), pda_address: ctx.community_account };
    store.append_community(&ctx.user_account, entry)
}

/// Makes the caller a member of a community. Fails with `AddressMismatch`
/// unless the user's address is the one derived from the caller; after
/// that it does what `apply_join_community` does.
pub fn join_community(store: &mut Store, ctx: &JoinCommunity) -> (r: Result<(), ErrorCode>)
    requires
        old(store).wf(),
    ensures
        final(store).wf(),
        r == join_community_outcome(old(store)@, *ctx),
        final(store)@ == join_community_state(old(store)@, *ctx),
        r is Err ==> final(store)@ == old(store)@,
        touches_only(old(store)@, final(store)@, set![ctx.user_account]),
        records_kept(old(store)@, final(store)@),
        deposits_kept(old(store)@, final(store)@),
        votes_kept(old(store)@, final(store)@),
        addressed(old(store)@) ==> addressed(final(store)@),
{
    check_address(user_address(&ctx.authority), &ctx.user_account)?;
    apply_join_community(store, ctx)
}

} // verus!
