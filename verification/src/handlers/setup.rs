//! Setting the board up.

use crate::address::{community_address, config_address, derived_community, derived_config, Address};
use crate::error::ErrorCode;
use crate::handlers::gate::{addressed, all_name, check_address};
use crate::records::{
    CommunityAccount, CommunityView, ProgramConfig, Record, RecordView, MAX_SURVEY_ANSWER_LENGTH,
    MAX_SURVEY_QUESTION_LENGTH, MAX_SURVEY_TITLE_LENGTH,
};
use crate::state::{deposits_kept, records_kept, touches_only, votes_kept, Entry, State};
use crate::store::Store;
use vstd::prelude::*;
use vstd::string::StringExecFns;

verus! {

/// The addresses and the caller of `initialize`.
#[derive(Clone, Copy, Debug, PartialEq, Eq)]
pub struct Initialize {
    /// Where the community `all` is to be created.
    pub community_account: Address,
    /// Where the configuration is to be created.
    pub program_config: Address,
    /// The caller, who becomes the authority of `all`.
    pub authority: Address,
}

/// The community `all` as `initialize` creates it.
pub open spec fn initial_community(authority: Address) -> CommunityView {
    CommunityView { name: all_name(), authority, surveys: Seq::empty() }
}

/// The configuration as `initialize` creates it.
pub open spec fn initial_config() -> ProgramConfig {
    ProgramConfig {
        max_survey_title_length: MAX_SURVEY_TITLE_LENGTH,
        max_survey_question_length: MAX_SURVEY_QUESTION_LENGTH,
        max_survey_answer_length: MAX_SURVEY_ANSWER_LENGTH,
    }
}

/// Whether the addresses of an `Initialize` are the derived ones.
pub open spec fn initialize_addresses(ctx: Initialize) -> bool {
    &&& derived_community(all_name()) == Some(ctx.community_account)
    &&& derived_config() == Some(ctx.program_config)
}

/// What `apply_initialize` answers in state `s`.
pub open spec fn apply_initialize_outcome(s: State, ctx: Initialize) -> Result<(), ErrorCode> {
    if s.dom().contains(ctx.community_account) || s.dom().contains(ctx.program_config)
        || ctx.community_account == ctx.program_config {
        Err(ErrorCode::AlreadyExists)
    } else {
        Ok(())
    }
}

/// The state that `apply_initialize` leaves.
pub open spec fn apply_initialize_state(
    s: State,
    ctx: Initialize,
    community_deposit: u64,
    config_deposit: u64,
) -> State {
    if apply_initialize_outcome(s, ctx) is Ok {
        s.insert(
            ctx.community_account,
            Entry {
                record: RecordView::Community(initial_community(ctx.authority)),
                deposit: community_deposit,
            },
        ).insert(
            ctx.program_config,
            Entry { record: RecordView::Config(initial_config()), deposit: config_deposit },
        )
    } else {
        s
    }
}

/// What `initialize` answers in state `s`.
pub open spec fn initialize_outcome(s: State, ctx: Initialize) -> Result<(), ErrorCode> {
    if !initialize_addresses(ctx) {
        Err(ErrorCode::AddressMismatch)
    } else {
        apply_initialize_outcome(s, ctx)
    }
}

/// The state that `initialize` leaves.
pub open spec fn initialize_state(
    s: State,
    ctx: Initialize,
    community_deposit: u64,
    config_deposit: u64,
) -> State {
    if initialize_addresses(ctx) {
        apply_initialize_state(s, ctx, community_deposit, config_deposit)
    } else {
        s
    }
}

/// Creates the community `all` and the configuration at the addresses
/// given, whatever seeds they come from. Fails with `AlreadyExists` where
/// one of the two addresses is occupied or both are the same.
pub fn apply_initialize(
    store: &mut Store,
    ctx: &Initialize,
    community_deposit: u64,
    config_deposit: u64,
) -> (r: Result<(), ErrorCode>)
    requires
        old(store).wf(),
    ensures
        final(store).wf(),
        r == apply_initialize_outcome(old(store)@, *ctx),
        final(store)@ == apply_initialize_state(
            old(store)@,
            *ctx,
            community_deposit,
            config_deposit,
        ),
        r is Err ==> final(store)@ == old(store)@,
        touches_only(old(store)@, final(store)@, set![ctx.community_account, ctx.program_config]),
        records_kept(old(store)@, final(store)@),
        deposits_kept(old(store)@, final(store)@),
        votes_kept(old(store)@, final(store)@),
{
    if store.contains(&ctx.community_account) || store.contains(&ctx.program_config)
        || ctx.community_account == ctx.program_config {
        return Err(ErrorCode::AlreadyExists);
    }
    let community = CommunityAccount {
        name: String::from_str("all"),
        authority: ctx.authority,
        surveys: Vec::new(),
    };
    let config = ProgramConfig {
        max_survey_title_length: MAX_SURVEY_TITLE_LENGTH,
        max_survey_question_length: MAX_SURVEY_QUESTION_LENGTH,
        max_survey_answer_length: MAX_SURVEY_ANSWER_LENGTH,
    };
    assert(community@.surveys =~= Seq::empty());
    store.create(ctx.community_account, Record::Community(community), community_deposit)?;
    store.create(ctx.program_config, Record::Config(config), config_deposit)?;
    Ok(())
}

/// Sets the board up: creates the community `all`, with the caller as its
/// authority, and the configuration. Fails with `AddressMismatch` unless
/// both addresses are the derived ones, and with `AlreadyExists` where the
/// board is set up already.
pub fn initialize(
    store: &mut Store,
    ctx: &Initialize,
    community_deposit: u64,
    config_deposit: u64,
) -> (r: Result<(), ErrorCode>)
    requires
        old(store).wf(),
    ensures
        final(store).wf(),
        r == initialize_outcome(old(store)@, *ctx),
        final(store)@ == initialize_state(old(store)@, *ctx, community_deposit, config_deposit),
        r is Err ==> final(store)@ == old(store)@,
        touches_only(old(store)@, final(store)@, set![ctx.community_account, ctx.program_config]),
        records_kept(old(store)@, final(store)@),
        deposits_kept(old(store)@, final(store)@),
        votes_kept(old(store)@, final(store)@),
        addressed(old(store)@) ==> addressed(final(store)@),
{
    check_address(community_address("all"), &ctx.community_account)?;
    check_address(config_address(), &ctx.program_config)?;
    apply_initialize(store, ctx, community_deposit, config_deposit)
}

} // verus!
