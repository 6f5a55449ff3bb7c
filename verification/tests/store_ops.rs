use solana_d_app::records::{find_title, holds_ref, refs_distinct, text_len, titles_distinct};
use solana_d_app::space::{
    community_space, COMMUNITY_BASE_SPACE, CONFIG_SPACE, SURVEY_SPACE, USER_SPACE, VOTE_SPACE,
};
use solana_d_app::{
    Address, Answer, CommunityAccount, CommunityRef, ErrorCode, ProgramConfig, Record, Refund,
    Store, SurveyAccount, UserAccount, VoteRecord,
};

fn at(b: u8) -> Address {
    let mut bytes = [0u8; 32];
    bytes[5] = b;
    Address { bytes }
}

fn member_of(names: &[(&str, u8)]) -> Vec<CommunityRef> {
    names
        .iter()
        .map(|(name, b)| CommunityRef { name: name.to_string(), pda_address: at(*b) })
        .collect()
}

fn user_with(n: u8) -> UserAccount {
    let communities =
        (0..n).map(|i| CommunityRef { name: format!("c{}", i), pda_address: at(100 + i) }).collect();
    UserAccount { authority: at(1), communities }
}

fn community_with(titles: &[&str]) -> CommunityAccount {
    CommunityAccount {
        name: "dev".to_string(),
        authority: at(1),
        surveys: titles.iter().map(|t| t.to_string()).collect(),
    }
}

fn survey_with(votes: &[u32]) -> SurveyAccount {
    SurveyAccount {
        title: "S".to_string(),
        community_name: "dev".to_string(),
        questions: "Q?".to_string(),
        answers: votes
            .iter()
            .enumerate()
            .map(|(i, v)| Answer { text: format!("a{}", i), votes: *v })
            .collect(),
        limitdate: 1000,
    }
}

#[test]
fn a_new_store_is_empty() {
    let store = Store::new();
    assert!(!store.contains(&at(1)));
    assert_eq!(store.read(&at(1)), Err(ErrorCode::NotFound));
}

#[test]
fn create_then_read_gives_the_record_back() {
    let mut store = Store::new();
    let record = Record::Vote(VoteRecord { voter: at(9) });
    assert_eq!(store.create(at(1), record.clone(), 50), Ok(()));
    assert!(store.contains(&at(1)));
    assert!(!store.contains(&at(2)));
    assert_eq!(store.read(&at(1)), Ok(&record));
    assert_eq!(store.read(&at(2)), Err(ErrorCode::NotFound));
}

#[test]
fn the_deposit_is_noted_at_creation() {
    let mut store = Store::new();
    store.create(at(1), Record::User(user_with(1)), 1234).unwrap();
    store.create(at(2), Record::Community(community_with(&[])), u64::MAX).unwrap();
    assert_eq!(store.deposit(&at(1)), Ok(1234));
    assert_eq!(store.deposit(&at(2)), Ok(u64::MAX));
    assert_eq!(store.deposit(&at(3)), Err(ErrorCode::NotFound));
    let entry = CommunityRef { name: "dev".to_string(), pda_address: at(2) };
    store.append_community(&at(1), entry).unwrap();
    store.append_survey(&at(2), "S".to_string()).unwrap();
    assert_eq!(store.deposit(&at(1)), Ok(1234));
    assert_eq!(store.deposit(&at(2)), Ok(u64::MAX));
    assert_eq!(store.close(&at(2), at(9)), Ok(Refund { recipient: at(9), amount: u64::MAX }));
    assert_eq!(store.deposit(&at(2)), Err(ErrorCode::NotFound));
}

#[test]
fn create_is_exclusive() {
    let mut store = Store::new();
    let first = Record::Vote(VoteRecord { voter: at(9) });
    let second = Record::Vote(VoteRecord { voter: at(8) });
    assert_eq!(store.create(at(1), first.clone(), 50), Ok(()));
    assert_eq!(store.create(at(1), second, 60), Err(ErrorCode::AlreadyExists));
    assert_eq!(store.read(&at(1)), Ok(&first));
    assert_eq!(store.close(&at(1), at(7)), Ok(Refund { recipient: at(7), amount: 50 }));
}

#[test]
fn create_refuses_a_record_beyond_its_bounds() {
    let mut store = Store::new();
    assert_eq!(
        store.create(at(1), Record::User(user_with(11)), 1),
        Err(ErrorCode::TooManyCommunities)
    );
    assert_eq!(store.create(at(1), Record::User(user_with(10)), 1), Ok(()));
    let twice = UserAccount { authority: at(1), communities: member_of(&[("a", 3), ("b", 3)]) };
    assert_eq!(store.create(at(2), Record::User(twice), 1), Err(ErrorCode::AlreadyMember));
    assert_eq!(
        store.create(at(2), Record::Community(community_with(&["1", "2", "3", "4", "5", "6"])), 1),
        Err(ErrorCode::TooManySurveys)
    );
    assert_eq!(
        store.create(at(2), Record::Community(community_with(&["1", "2", "1"])), 1),
        Err(ErrorCode::AlreadyExists)
    );
    assert_eq!(
        store.create(at(2), Record::Community(community_with(&["1", "2", "3", "4", "5"])), 1),
        Ok(())
    );
    assert_eq!(
        store.create(at(3), Record::Survey(survey_with(&[0, 0, 0, 0, 0])), 1),
        Err(ErrorCode::TooManyAnswers)
    );
    assert_eq!(store.create(at(3), Record::Survey(survey_with(&[0, 0, 0, 0])), 1), Ok(()));
    assert!(!store.contains(&at(4)));
    let config = ProgramConfig {
        max_survey_title_length: 1,
        max_survey_question_length: 2,
        max_survey_answer_length: 3,
    };
    assert_eq!(store.create(at(4), Record::Config(config), 1), Ok(()));
    assert_eq!(store.read(&at(4)), Ok(&Record::Config(config)));
}

#[test]
fn close_frees_the_address_and_refunds_the_deposit() {
    let mut store = Store::new();
    store.create(at(1), Record::Vote(VoteRecord { voter: at(9) }), 50).unwrap();
    store.create(at(2), Record::Vote(VoteRecord { voter: at(8) }), 70).unwrap();
    store.create(at(3), Record::Vote(VoteRecord { voter: at(7) }), 90).unwrap();
    assert_eq!(store.close(&at(2), at(4)), Ok(Refund { recipient: at(4), amount: 70 }));
    assert!(!store.contains(&at(2)));
    assert_eq!(store.close(&at(2), at(4)), Err(ErrorCode::NotFound));
    assert_eq!(store.read(&at(1)), Ok(&Record::Vote(VoteRecord { voter: at(9) })));
    assert_eq!(store.read(&at(3)), Ok(&Record::Vote(VoteRecord { voter: at(7) })));
    assert_eq!(store.create(at(2), Record::Vote(VoteRecord { voter: at(6) }), 5), Ok(()));
    assert_eq!(store.close(&at(2), at(1)), Ok(Refund { recipient: at(1), amount: 5 }));
    assert_eq!(store.close(&at(1), at(1)), Ok(Refund { recipient: at(1), amount: 50 }));
    assert_eq!(store.close(&at(3), at(1)), Ok(Refund { recipient: at(1), amount: 90 }));
}

#[test]
fn append_community_extends_the_user() {
    let mut store = Store::new();
    store.create(at(1), Record::User(user_with(1)), 5).unwrap();
    store.create(at(2), Record::Community(community_with(&[])), 5).unwrap();
    let entry = CommunityRef { name: "dev".to_string(), pda_address: at(2) };
    assert_eq!(store.append_community(&at(1), entry.clone()), Ok(()));
    let mut expected = user_with(1);
    expected.communities.push(entry.clone());
    assert_eq!(store.read(&at(1)), Ok(&Record::User(expected.clone())));
    assert_eq!(store.append_community(&at(1), entry.clone()), Err(ErrorCode::AlreadyMember));
    assert_eq!(store.append_community(&at(2), entry.clone()), Err(ErrorCode::NotFound));
    assert_eq!(store.append_community(&at(3), entry), Err(ErrorCode::NotFound));
    assert_eq!(store.read(&at(1)), Ok(&Record::User(expected)));
    assert_eq!(store.close(&at(1), at(9)), Ok(Refund { recipient: at(9), amount: 5 }));
}

#[test]
fn append_community_stops_at_ten() {
    let mut store = Store::new();
    store.create(at(1), Record::User(user_with(9)), 5).unwrap();
    let tenth = CommunityRef { name: "x".to_string(), pda_address: at(50) };
    let eleventh = CommunityRef { name: "y".to_string(), pda_address: at(51) };
    assert_eq!(store.append_community(&at(1), tenth.clone()), Ok(()));
    assert_eq!(store.append_community(&at(1), eleventh), Err(ErrorCode::TooManyCommunities));
    assert_eq!(store.append_community(&at(1), tenth), Err(ErrorCode::AlreadyMember));
    match store.read(&at(1)) {
        Ok(Record::User(u)) => assert_eq!(u.communities.len(), 10),
        other => panic!("unexpected {:?}", other),
    }
}

#[test]
fn append_survey_extends_the_community() {
    let mut store = Store::new();
    store.create(at(2), Record::Community(community_with(&["A"])), 5).unwrap();
    store.create(at(1), Record::User(user_with(1)), 5).unwrap();
    assert_eq!(store.append_survey(&at(2), "B".to_string()), Ok(()));
    assert_eq!(store.read(&at(2)), Ok(&Record::Community(community_with(&["A", "B"]))));
    assert_eq!(store.append_survey(&at(2), "A".to_string()), Err(ErrorCode::AlreadyExists));
    assert_eq!(store.append_survey(&at(1), "C".to_string()), Err(ErrorCode::NotFound));
    assert_eq!(store.append_survey(&at(3), "C".to_string()), Err(ErrorCode::NotFound));
    assert_eq!(store.append_survey(&at(2), "C".to_string()), Ok(()));
    assert_eq!(store.append_survey(&at(2), "D".to_string()), Ok(()));
    assert_eq!(store.append_survey(&at(2), "E".to_string()), Ok(()));
    assert_eq!(store.append_survey(&at(2), "F".to_string()), Err(ErrorCode::TooManySurveys));
    assert_eq!(
        store.read(&at(2)),
        Ok(&Record::Community(community_with(&["A", "B", "C", "D", "E"])))
    );
}

#[test]
fn remove_survey_takes_the_title_out() {
    let mut store = Store::new();
    store.create(at(2), Record::Community(community_with(&["A", "B", "C"])), 5).unwrap();
    store.create(at(1), Record::User(user_with(1)), 5).unwrap();
    assert_eq!(store.remove_survey(&at(2), &"B".to_string()), Ok(()));
    assert_eq!(store.read(&at(2)), Ok(&Record::Community(community_with(&["A", "C"]))));
    assert_eq!(
        store.remove_survey(&at(2), &"B".to_string()),
        Err(ErrorCode::SurveyNotFoundInCommunity)
    );
    assert_eq!(store.remove_survey(&at(1), &"A".to_string()), Err(ErrorCode::NotFound));
    assert_eq!(store.remove_survey(&at(3), &"A".to_string()), Err(ErrorCode::NotFound));
    assert_eq!(store.remove_survey(&at(2), &"A".to_string()), Ok(()));
    assert_eq!(store.remove_survey(&at(2), &"C".to_string()), Ok(()));
    assert_eq!(store.read(&at(2)), Ok(&Record::Community(community_with(&[]))));
}

#[test]
fn count_vote_adds_one() {
    let mut store = Store::new();
    store.create(at(3), Record::Survey(survey_with(&[0, 7, u32::MAX - 1, u32::MAX])), 5).unwrap();
    store.create(at(1), Record::User(user_with(1)), 5).unwrap();
    assert_eq!(store.count_vote(&at(3), 1), Ok(()));
    assert_eq!(store.read(&at(3)), Ok(&Record::Survey(survey_with(&[0, 8, u32::MAX - 1, u32::MAX]))));
    assert_eq!(store.count_vote(&at(3), 2), Ok(()));
    assert_eq!(store.count_vote(&at(3), 2), Err(ErrorCode::VoteCountOverflow));
    assert_eq!(store.count_vote(&at(3), 3), Err(ErrorCode::VoteCountOverflow));
    assert_eq!(store.count_vote(&at(3), 4), Err(ErrorCode::InvalidAnswerIndex));
    assert_eq!(store.count_vote(&at(1), 0), Err(ErrorCode::NotFound));
    assert_eq!(store.count_vote(&at(2), 0), Err(ErrorCode::NotFound));
    assert_eq!(store.count_vote(&at(3), 0), Ok(()));
    assert_eq!(store.read(&at(3)), Ok(&Record::Survey(survey_with(&[1, 8, u32::MAX, u32::MAX]))));
}

#[test]
fn a_record_is_found_wherever_it_stands() {
    let mut store = Store::new();
    for i in 0..20u8 {
        store.create(at(i), Record::Vote(VoteRecord { voter: at(200 - i) }), i as u64).unwrap();
    }
    store.close(&at(0), at(0)).unwrap();
    store.close(&at(10), at(0)).unwrap();
    store.close(&at(19), at(0)).unwrap();
    for i in 0..20u8 {
        let gone = i == 0 || i == 10 || i == 19;
        assert_eq!(store.contains(&at(i)), !gone);
        if !gone {
            assert_eq!(store.read(&at(i)), Ok(&Record::Vote(VoteRecord { voter: at(200 - i) })));
            assert_eq!(
                store.close(&at(i), at(1)),
                Ok(Refund { recipient: at(1), amount: i as u64 })
            );
        }
    }
}

#[test]
fn record_defects() {
    assert_eq!(Record::User(user_with(10)).defect(), None);
    assert_eq!(Record::User(user_with(11)).defect(), Some(ErrorCode::TooManyCommunities));
    assert_eq!(Record::Survey(survey_with(&[1, 2, 3, 4])).defect(), None);
    assert_eq!(Record::Survey(survey_with(&[1, 2, 3, 4, 5])).defect(), Some(ErrorCode::TooManyAnswers));
    assert_eq!(Record::Community(community_with(&["a", "b"])).defect(), None);
    assert_eq!(
        Record::Community(community_with(&["a", "b", "a"])).defect(),
        Some(ErrorCode::AlreadyExists)
    );
    assert_eq!(Record::Vote(VoteRecord { voter: at(1) }).defect(), None);
}

#[test]
fn list_helpers() {
    let refs = member_of(&[("a", 1), ("b", 2), ("c", 3)]);
    assert!(holds_ref(&refs, &at(2)));
    assert!(!holds_ref(&refs, &at(4)));
    assert!(!holds_ref(&Vec::new(), &at(1)));
    assert!(refs_distinct(&refs));
    assert!(!refs_distinct(&member_of(&[("a", 1), ("b", 2), ("c", 1)])));
    assert!(!refs_distinct(&member_of(&[("a", 1), ("b", 2), ("c", 2)])));
    assert!(refs_distinct(&member_of(&[("a", 1), ("a", 2)])));
    let titles: Vec<String> = vec!["x".to_string(), "y".to_string(), "x".to_string()];
    assert_eq!(find_title(&titles, &"x".to_string()), Some(0));
    assert_eq!(find_title(&titles, &"y".to_string()), Some(1));
    assert_eq!(find_title(&titles, &"z".to_string()), None);
    assert!(!titles_distinct(&titles));
    assert!(titles_distinct(&titles[..2].to_vec()));
    assert!(titles_distinct(&Vec::new()));
    assert_eq!(text_len(""), 0);
    assert_eq!(text_len("abc"), 3);
    assert_eq!(text_len("é"), 2);
    assert_eq!(text_len("日本"), 6);
}

#[test]
fn storage_sizes() {
    assert_eq!(CONFIG_SPACE, 12);
    assert_eq!(VOTE_SPACE, 40);
    assert_eq!(USER_SPACE, 724);
    assert_eq!(SURVEY_SPACE, 544);
    assert_eq!(COMMUNITY_BASE_SPACE, 218);
    assert_eq!(community_space(0), Some(218));
    assert_eq!(community_space(3), Some(221));
    assert_eq!(community_space(32), Some(250));
    assert_eq!(community_space(usize::MAX - 218), Some(usize::MAX));
    assert_eq!(community_space(usize::MAX - 217), None);
    assert_eq!(community_space(usize::MAX), None);
}
