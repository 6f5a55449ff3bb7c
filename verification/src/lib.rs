//! A survey board kept in a small keyed record store.
//!
//! Users register, found and join communities, open surveys inside a
//! community and vote on them. Every record lives at an address derived
//! from stable seeds; creating a record at an address that is already
//! occupied fails, and that exclusive creation is the only uniqueness
//! mechanism: one community per name, one survey per community and title,
//! one vote per survey and voter.
//!
//! - `address`: addresses and their derivation;
//! - `records`: the records and their views;
//! - `state`: the store as a map, and what its operations do to it;
//! - `store`: the record store with its elementary operations;
//! - `space`: the storage that each kind of record is given;
//! - `handlers`: the operations of the board, each with its exact outcome;
//! - `laws`: what holds of the operations taken together;
//! - `independence`: operations on different records do not interact;
//! - `error`: the failure reasons.

pub mod address;
pub mod error;
pub mod handlers;
pub mod independence;
pub mod laws;
pub mod records;
pub mod space;
pub mod state;
pub mod store;

pub use address::{
    community_address, config_address, survey_address, user_address, vote_address, Address,
    PROGRAM_ID,
};
pub use error::{ErrorCode, ErrorKind};
pub use handlers::{
    create_community, create_survey, delete_survey, initialize, join_community, register_user, vote,
    CreateCommunity, CreateSurvey, DeleteSurvey, Initialize, JoinCommunity, RegisterUser, Vote,
};
pub use records::{
    Answer, CommunityAccount, CommunityRef, ProgramConfig, Record, SurveyAccount, UserAccount,
    VoteRecord,
};
pub use store::{Refund, Store};
