//! The operations of the survey board.
//!
//! Each operation names the addresses of the records it touches and the
//! caller on whose behalf it runs. It passes the same stations in the same
//! order, and the first that it fails decides the error:
//!
//! 1. every derived address that it names is the one its seeds give
//!    (`AddressMismatch`); where the seeds are read from a record, that
//!    record is looked up first;
//! 2. the records it reads are stored, each of its kind (`NotFound`), and
//!    the caller is the authority of the record through which it acts
//!    (`Unauthorized`, `NotCommunityAuthority`);
//! 3. the address of each record it creates is unoccupied
//!    (`AlreadyExists`);
//! 4. the rules of the operation hold.
//!
//! Only then is anything written: a refused operation leaves the store as
//! it was. An operation writes only at addresses it names, takes no record
//! away but the survey that `delete_survey` deletes, and leaves every
//! deposit and every recorded vote as it found them.
//!
//! For every operation there are two functions. The one that carries the
//! operation's name derives the addresses and refuses any other; the one
//! whose name begins with `apply_` does the rest at whatever addresses it
//! is given. What each answers and leaves behind is a function of the state
//! before, written out as `.._outcome` and `.._state`.

pub mod communities;
pub mod gate;
pub mod setup;
pub mod surveys;
pub mod users;
pub mod voting;

pub use communities::{
    apply_create_community, apply_join_community, create_community, join_community, CreateCommunity,
    JoinCommunity,
};
pub use gate::check_address;
pub use setup::{apply_initialize, initialize, Initialize};
pub use surveys::{apply_create_survey, create_survey, delete_survey, CreateSurvey, DeleteSurvey};
pub use users::{apply_register_user, register_user, RegisterUser};
pub use voting::{apply_vote, vote, Vote};
