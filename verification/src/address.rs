//! Addresses and their derivation from seeds.
//!
//! Every record lives at the address derived from a tag that names its kind
//! and from the fields that identify it. Equal seeds always give the same
//! address, so an address serves both to find a record and to keep a second
//! record with the same identity from being created.

use vstd::prelude::*;
use vstd::string::StringSliceAdditionalSpecFns;
use vstd::utf8::encode_utf8;

verus! {

/// A 32-byte identifier. It names a caller (an identity) or the storage
/// location of a record.
#[derive(Clone, Copy, Debug)]
pub struct Address {
    pub bytes: [u8; 32],
}

impl PartialEq for Address {
    fn eq(&self, other: &Address) -> (r: bool) {
        let mut i: usize = 0;
        while i < 32
            invariant
                i <= 32,
                forall|j: int| 0 <= j < i ==> self.bytes[j] == other.bytes[j],
            decreases 32 - i,
        {
            if self.bytes[i] != other.bytes[i] {
                return false;
            }
            i += 1;
        }
        assert(self.bytes =~= other.bytes);
        true
    }
}

impl Eq for Address {}

impl vstd::std_specs::cmp::PartialEqSpecImpl for Address {
    open spec fn obeys_eq_spec() -> bool {
        true
    }

    open spec fn eq_spec(&self, other: &Address) -> bool {
        *self == *other
    }
}

/// The identifier of this program. Every address is derived under it.
pub const PROGRAM_ID: [u8; 32] = [
    244u8, 79u8, 218u8, 34u8, 133u8, 25u8, 25u8, 24u8, 139u8, 23u8, 196u8, 113u8, 157u8, 141u8,
    65u8, 88u8, 97u8, 36u8, 241u8, 58u8, 174u8, 129u8, 59u8, 122u8, 144u8, 252u8, 107u8, 58u8,
    151u8, 200u8, 147u8, 234u8,
];

/// The most seeds that an address can be derived from.
pub const MAX_SEEDS: usize = 15;

/// The longest seed, in bytes, that an address can be derived from.
pub const MAX_SEED_LEN: usize = 32;

/// What `Pubkey::try_find_program_address` returns for a list of seeds and
/// a program id, without the bump seed: the derived address, or `None`
/// where none can be derived.
pub uninterp spec fn program_address(seeds: Seq<Seq<u8>>, program_id: [u8; 32]) -> Option<
    [u8; 32],
>;

/// The seeds as the sequences of bytes they hold.
pub open spec fn seed_bytes(seeds: Seq<&[u8]>) -> Seq<Seq<u8>> {
    seeds.map_values(|s: &[u8]| s@)
}

/// Seeds that no address can be derived from: too many of them, or one
/// that is too long.
pub open spec fn unusable(seeds: Seq<Seq<u8>>) -> bool {
    seeds.len() > MAX_SEEDS || exists|i: int|
        0 <= i < seeds.len() && (#[trigger] seeds[i]).len() > MAX_SEED_LEN
}

/// The address derived from `seeds` under this program's identifier.
pub open spec fn derived(seeds: Seq<Seq<u8>>) -> Option<Address> {
    match program_address(seeds, PROGRAM_ID) {
        Some(bytes) => Some(Address { bytes }),
        None => None,
    }
}

/// Calls `anchor_lang::prelude::Pubkey::try_find_program_address` and drops
/// the bump seed. The result depends on the seeds and the program id
/// alone. The call gives `None` where more than 15 seeds are given or one
/// of them is longer than 32 bytes: it tries each bump seed as a further
/// seed and gives up on the first attempt that is refused for its size.
#[verifier::external_body]
fn find_program_address(seeds: &Vec<&[u8]>, program_id: &[u8; 32]) -> (r: Option<Address>)
    ensures
        r is Some ==> program_address(seed_bytes(seeds@), *program_id) == Some(r.unwrap().bytes),
        r is None ==> program_address(seed_bytes(seeds@), *program_id) is None,
        unusable(seed_bytes(seeds@)) ==> r is None,
{
    let id = anchor_lang::prelude::Pubkey::new_from_array(*program_id);
    match anchor_lang::prelude::Pubkey::try_find_program_address(seeds.as_slice(), &id) {
        Some((key, _)) => Some(Address { bytes: key.to_bytes() }),
        None => None,
    }
}

/// The tag of community addresses: the bytes of `community`.
pub const COMMUNITY_TAG: [u8; 9] = [99u8, 111u8, 109u8, 109u8, 117u8, 110u8, 105u8, 116u8, 121u8];

/// The tag of the configuration's address: the bytes of `program_config`.
pub const CONFIG_TAG: [u8; 14] = [
    112u8, 114u8, 111u8, 103u8, 114u8, 97u8, 109u8, 95u8, 99u8, 111u8, 110u8, 102u8, 105u8,
    103u8,
];

/// The tag of user addresses: the bytes of `user`.
pub const USER_TAG: [u8; 4] = [117u8, 115u8, 101u8, 114u8];

/// The tag of survey addresses: the bytes of `survey`.
pub const SURVEY_TAG: [u8; 6] = [115u8, 117u8, 114u8, 118u8, 101u8, 121u8];

/// The tag of vote addresses: the bytes of `vote`.
pub const VOTE_TAG: [u8; 4] = [118u8, 111u8, 116u8, 101u8];

/// The address of the community named `name`.
pub open spec fn derived_community(name: Seq<char>) -> Option<Address> {
    derived(seq![COMMUNITY_TAG@, encode_utf8(name)])
}

/// The address of the configuration.
pub open spec fn derived_config() -> Option<Address> {
    derived(seq![CONFIG_TAG@])
}

/// The address of the user record of `authority`.
pub open spec fn derived_user(authority: Address) -> Option<Address> {
    derived(seq![USER_TAG@, authority.bytes@])
}

/// The address of the survey titled `title` in the community named
/// `community_name`.
pub open spec fn derived_survey(community_name: Seq<char>, title: Seq<char>) -> Option<Address> {
    derived(seq![SURVEY_TAG@, encode_utf8(community_name), encode_utf8(title)])
}

/// The address of the record of `voter`'s vote on the survey at `survey`.
pub open spec fn derived_vote(survey: Address, voter: Address) -> Option<Address> {
    derived(seq![VOTE_TAG@, survey.bytes@, voter.bytes@])
}

/// Derives the address of `seeds` under this program's identifier.
fn derive(seeds: &Vec<&[u8]>) -> (r: Option<Address>)
    ensures
        r == derived(seed_bytes(seeds@)),
        unusable(seed_bytes(seeds@)) ==> r is None,
{
    find_program_address(seeds, &PROGRAM_ID)
}

/// Derives the address of the community named `name`. There is none for a
/// name longer than 32 bytes.
pub fn community_address(name: &str) -> (r: Option<Address>)
    ensures
        r == derived_community(name@),
        encode_utf8(name@).len() > MAX_SEED_LEN ==> r is None,
{
    let mut seeds: Vec<&[u8]> = Vec::new();
    seeds.push(COMMUNITY_TAG.as_slice());
    seeds.push(name.as_bytes());
    assert(seed_bytes(seeds@) =~= seq![COMMUNITY_TAG@, encode_utf8(name@)]);
    derive(&seeds)
}

/// Derives the address of the configuration.
pub fn config_address() -> (r: Option<Address>)
    ensures
        r == derived_config(),
{
    let mut seeds: Vec<&[u8]> = Vec::new();
    seeds.push(CONFIG_TAG.as_slice());
    assert(seed_bytes(seeds@) =~= seq![CONFIG_TAG@]);
    derive(&seeds)
}

/// Derives the address of the user record of `authority`.
pub fn user_address(authority: &Address) -> (r: Option<Address>)
    ensures
        r == derived_user(*authority),
{
    let mut seeds: Vec<&[u8]> = Vec::new();
    seeds.push(USER_TAG.as_slice());
    seeds.push(authority.bytes.as_slice());
    assert(seed_bytes(seeds@) =~= seq![USER_TAG@, authority.bytes@]);
    derive(&seeds)
}

/// Derives the address of the survey titled `title` in the community named
/// `community_name`. There is none where the name or the title is longer
/// than 32 bytes.
pub fn survey_address(community_name: &str, title: &str) -> (r: Option<Address>)
    ensures
        r == derived_survey(community_name@, title@),
        encode_utf8(community_name@).len() > MAX_SEED_LEN ==> r is None,
        encode_utf8(title@).len() > MAX_SEED_LEN ==> r is None,
{
    let mut seeds: Vec<&[u8]> = Vec::new();
    seeds.push(SURVEY_TAG.as_slice());
    seeds.push(community_name.as_bytes());
    seeds.push(title.as_bytes());
    assert(seed_bytes(seeds@) =~= seq![
        SURVEY_TAG@,
        encode_utf8(community_name@),
        encode_utf8(title@),
    ]);
    derive(&seeds)
}

/// Derives the address of the record of `voter`'s vote on the survey at
/// `survey`.
pub fn vote_address(survey: &Address, voter: &Address) -> (r: Option<Address>)
    ensures
        r == derived_vote(*survey, *voter),
{
    let mut seeds: Vec<&[u8]> = Vec::new();
    seeds.push(VOTE_TAG.as_slice());
    seeds.push(survey.bytes.as_slice());
    seeds.push(voter.bytes.as_slice());
    assert(seed_bytes(seeds@) =~= seq![VOTE_TAG@, survey.bytes@, voter.bytes@]);
    derive(&seeds)
}

} // verus!
