use sol::account::Pubkey;
use sol::collection::Collection;
use sol::errors::Errors;
use sol::proposal::{
    create_proposal_handler, execute_proposal_handler, give_vote_handler, Proposal, VoterNft,
};
use sol::validate::{MemberCheck, MetadataCollection, MetadataInfo, TokenAccountInfo};

fn voting_collection() -> Collection {
    let mut c = Collection::new(Pubkey(10), Pubkey(11));
    c.is_voting = true;
    c.count = 16;
    c.vote_duration = 60;
    c.quorum = 5;
    c
}

fn proposal_member() -> MemberCheck {
    MemberCheck {
        token_amount: 1,
        collection: Some(MetadataCollection { verified: true, key: Pubkey(10) }),
    }
}

fn new_proposal(c: &Collection) -> Proposal {
    create_proposal_handler(
        c,
        Pubkey(52),
        &proposal_member(),
        Pubkey(31),
        String::from("Adopt the new emblem?"),
        vec![String::from("Yes"), String::from("No")],
        1000,
    )
    .unwrap()
}

fn voter(ordinal: u64) -> VoterNft {
    VoterNft {
        token: TokenAccountInfo {
            initialized: true,
            owner: Pubkey(31),
            amount: 1,
            mint: Pubkey(200 + ordinal),
        },
        metadata: MetadataInfo {
            initialized: true,
            mint: Pubkey(200 + ordinal),
            collection: Some(MetadataCollection { verified: true, key: Pubkey(10) }),
            ordinal,
        },
    }
}

#[test]
fn create_proposal_initial_state() {
    let c = voting_collection();
    let p = new_proposal(&c);
    assert_eq!(p.collection, Pubkey(52));
    assert_eq!(p.creator, Pubkey(31));
    assert_eq!(p.time, 1000);
    assert!(p.is_active);
    assert!(!p.is_passed);
    assert_eq!(p.votes, vec![0, 0]);
    // 16 members need 2 bitmap bytes, all clear.
    assert_eq!(p.voters, vec![0, 0]);
    assert_eq!(p.options.len(), 2);
}

#[test]
fn create_proposal_requires_active_module() {
    let mut c = voting_collection();
    c.is_voting = false;
    let r = create_proposal_handler(
        &c,
        Pubkey(52),
        &proposal_member(),
        Pubkey(31),
        String::from("Anything"),
        vec![String::from("Yes"), String::from("No")],
        1000,
    );
    assert_eq!(r, Err(Errors::ModuleNotActive));
}

#[test]
fn create_proposal_validates_option_count() {
    let c = voting_collection();
    let one = vec![String::from("Yes")];
    let six = vec![
        String::from("A"),
        String::from("B"),
        String::from("C"),
        String::from("D"),
        String::from("E"),
        String::from("F"),
    ];
    let title = String::from("Pick one");
    let r1 = create_proposal_handler(&c, Pubkey(52), &proposal_member(), Pubkey(31), title, one, 1000);
    assert_eq!(r1, Err(Errors::IncorrectOptionCount));
    let r6 = create_proposal_handler(
        &c,
        Pubkey(52),
        &proposal_member(),
        Pubkey(31),
        String::from("Pick one"),
        six,
        1000,
    );
    assert_eq!(r6, Err(Errors::IncorrectOptionCount));
}

#[test]
fn create_proposal_validates_text_lengths() {
    let c = voting_collection();
    let two = || vec![String::from("Yes"), String::from("No")];
    let r_long = create_proposal_handler(
        &c,
        Pubkey(52),
        &proposal_member(),
        Pubkey(31),
        "x".repeat(301),
        two(),
        1000,
    );
    assert_eq!(r_long, Err(Errors::StringLengthExceeds));
    let r_blank = create_proposal_handler(
        &c,
        Pubkey(52),
        &proposal_member(),
        Pubkey(31),
        String::new(),
        two(),
        1000,
    );
    assert_eq!(r_blank, Err(Errors::BlankStringFound));
    let r_opt_long = create_proposal_handler(
        &c,
        Pubkey(52),
        &proposal_member(),
        Pubkey(31),
        String::from("Fine title"),
        vec![String::from("Yes"), "y".repeat(26)],
        1000,
    );
    assert_eq!(r_opt_long, Err(Errors::StringLengthExceeds));
    let r_opt_blank = create_proposal_handler(
        &c,
        Pubkey(52),
        &proposal_member(),
        Pubkey(31),
        String::from("Fine title"),
        vec![String::new(), String::from("No")],
        1000,
    );
    assert_eq!(r_opt_blank, Err(Errors::BlankStringFound));
}

#[test]
fn vote_counts_once_per_presented_asset() {
    let c = voting_collection();
    let mut p = new_proposal(&c);
    give_vote_handler(&mut p, &c, Pubkey(31), 0, &vec![voter(0), voter(3), voter(8)], 1010)
        .unwrap();
    assert_eq!(p.votes, vec![3, 0]);
    give_vote_handler(&mut p, &c, Pubkey(31), 1, &vec![voter(15)], 1020).unwrap();
    assert_eq!(p.votes, vec![3, 1]);
}

#[test]
fn vote_with_same_asset_twice_fails_second_time() {
    let c = voting_collection();
    let mut p = new_proposal(&c);
    give_vote_handler(&mut p, &c, Pubkey(31), 0, &vec![voter(5)], 1010).unwrap();
    assert_eq!(p.votes, vec![1, 0]);
    let before_votes = p.votes.clone();
    let before_voters = p.voters.clone();
    let r = give_vote_handler(&mut p, &c, Pubkey(31), 1, &vec![voter(5)], 1015);
    assert_eq!(r, Err(Errors::AlreadyVoted));
    assert_eq!(p.votes, before_votes);
    assert_eq!(p.voters, before_voters);
}

#[test]
fn vote_with_duplicate_asset_in_one_call_changes_nothing() {
    let c = voting_collection();
    let mut p = new_proposal(&c);
    let r = give_vote_handler(&mut p, &c, Pubkey(31), 0, &vec![voter(7), voter(7)], 1010);
    assert_eq!(r, Err(Errors::AlreadyVoted));
    // Atomic: not even the first asset's vote sticks.
    assert_eq!(p.votes, vec![0, 0]);
    assert_eq!(p.voters, vec![0, 0]);
}

#[test]
fn vote_sum_never_exceeds_member_count() {
    let c = voting_collection();
    let mut p = new_proposal(&c);
    for m in 0..16u64 {
        give_vote_handler(&mut p, &c, Pubkey(31), (m % 2) as u8, &vec![voter(m)], 1010).unwrap();
    }
    let total: u64 = p.votes.iter().sum();
    assert_eq!(total, 16);
    for m in 0..16u64 {
        let r = give_vote_handler(&mut p, &c, Pubkey(31), 0, &vec![voter(m)], 1020);
        assert_eq!(r, Err(Errors::AlreadyVoted));
    }
    let total_after: u64 = p.votes.iter().sum();
    assert_eq!(total_after, 16);
}

#[test]
fn vote_window_and_inputs_are_gated() {
    let c = voting_collection();
    let mut p = new_proposal(&c);
    // The window closes strictly after time + duration = 1060.
    assert!(give_vote_handler(&mut p, &c, Pubkey(31), 0, &vec![voter(0)], 1060).is_ok());
    let r_late = give_vote_handler(&mut p, &c, Pubkey(31), 0, &vec![voter(1)], 1061);
    assert_eq!(r_late, Err(Errors::VotingIsClosed));
    let r_choice = give_vote_handler(&mut p, &c, Pubkey(31), 2, &vec![voter(1)], 1050);
    assert_eq!(r_choice, Err(Errors::OptionNotExists));
    let r_none = give_vote_handler(&mut p, &c, Pubkey(31), 0, &vec![], 1050);
    assert_eq!(r_none, Err(Errors::AccountNotProvided));
}

#[test]
fn vote_vets_each_presented_asset() {
    let c = voting_collection();
    let mut p = new_proposal(&c);
    let mut uninit = voter(2);
    uninit.token.initialized = false;
    assert_eq!(
        give_vote_handler(&mut p, &c, Pubkey(31), 0, &vec![uninit], 1010),
        Err(Errors::AccountNotInitialized)
    );
    let mut two_units = voter(2);
    two_units.token.amount = 2;
    assert_eq!(
        give_vote_handler(&mut p, &c, Pubkey(31), 0, &vec![two_units], 1010),
        Err(Errors::TokenNotOne)
    );
    let mut wrong_meta = voter(2);
    wrong_meta.metadata.mint = Pubkey(999);
    assert_eq!(
        give_vote_handler(&mut p, &c, Pubkey(31), 0, &vec![wrong_meta], 1010),
        Err(Errors::WrongMetadata)
    );
    let mut unset = voter(2);
    unset.metadata.collection = None;
    assert_eq!(
        give_vote_handler(&mut p, &c, Pubkey(31), 0, &vec![unset], 1010),
        Err(Errors::CollectionNotSet)
    );
    let mut unverified = voter(2);
    unverified.metadata.collection = Some(MetadataCollection { verified: false, key: Pubkey(10) });
    assert_eq!(
        give_vote_handler(&mut p, &c, Pubkey(31), 0, &vec![unverified], 1010),
        Err(Errors::CollectionNotVerified)
    );
    let mut foreign = voter(2);
    foreign.metadata.collection = Some(MetadataCollection { verified: true, key: Pubkey(77) });
    assert_eq!(
        give_vote_handler(&mut p, &c, Pubkey(31), 0, &vec![foreign], 1010),
        Err(Errors::CollectionNotSame)
    );
    assert_eq!(p.votes, vec![0, 0]);
}

#[test]
fn quorum_reached_passes_proposal() {
    let c = voting_collection();
    let mut p = new_proposal(&c);
    // Final tallies [3, 2]: the sum 5 reaches the quorum of 5.
    give_vote_handler(&mut p, &c, Pubkey(31), 0, &vec![voter(0), voter(1), voter(2)], 1010)
        .unwrap();
    give_vote_handler(&mut p, &c, Pubkey(31), 1, &vec![voter(3), voter(4)], 1010).unwrap();
    execute_proposal_handler(&mut p, &c, 1061).unwrap();
    assert!(p.is_passed);
    assert!(!p.is_active);
}

#[test]
fn quorum_missed_fails_proposal() {
    let c = voting_collection();
    let mut p = new_proposal(&c);
    // Final tallies [2, 2]: the sum 4 misses the quorum of 5.
    give_vote_handler(&mut p, &c, Pubkey(31), 0, &vec![voter(0), voter(1)], 1010).unwrap();
    give_vote_handler(&mut p, &c, Pubkey(31), 1, &vec![voter(3), voter(4)], 1010).unwrap();
    execute_proposal_handler(&mut p, &c, 1061).unwrap();
    assert!(!p.is_passed);
    assert!(!p.is_active);
}

#[test]
fn execute_waits_for_window_and_runs_once() {
    let c = voting_collection();
    let mut p = new_proposal(&c);
    // The window is still open at exactly time + duration.
    assert_eq!(execute_proposal_handler(&mut p, &c, 1060), Err(Errors::VotingIsActive));
    assert!(p.is_active);
    execute_proposal_handler(&mut p, &c, 1061).unwrap();
    assert!(!p.is_active);
    let passed = p.is_passed;
    let r = execute_proposal_handler(&mut p, &c, 1062);
    assert_eq!(r, Err(Errors::ProposalAlreadyExecuted));
    assert_eq!(p.is_passed, passed);
}

#[test]
fn proposal_size_formula() {
    // 95 fixed bytes, plus the title, 25 bytes per option label,
    // 8 bytes per vote counter, and the bitmap.
    assert_eq!(Proposal::len(2, 10, 3), 206);
    assert_eq!(Proposal::len(0, 1, 2), 162);
}

#[test]
fn record_voter_sets_one_bit_once() {
    let c = voting_collection();
    let mut p = new_proposal(&c);
    p.record_voter(1, 2).unwrap();
    // Bits fill each byte from the most significant end.
    assert_eq!(p.voters, vec![0, 0b0010_0000]);
    assert_eq!(p.record_voter(1, 2), Err(Errors::AlreadyVoted));
    assert_eq!(p.voters, vec![0, 0b0010_0000]);
    p.record_voter(1, 3).unwrap();
    assert_eq!(p.voters, vec![0, 0b0011_0000]);
}

#[test]
fn increase_vote_bumps_chosen_option() {
    let c = voting_collection();
    let mut p = new_proposal(&c);
    p.increase_vote(1);
    p.increase_vote(1);
    p.increase_vote(0);
    assert_eq!(p.votes, vec![1, 2]);
}
