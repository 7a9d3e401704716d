//! The voting engine: proposal lifecycle with a compact per-asset
//! duplicate-vote bitmap.
//!
//! Each proposal keeps one vote counter per option and one bit per collection
//! member ordinal.  The bitmap is the sole duplicate guard: a member
//! ordinal's bit flips 0 to 1 at most once across the proposal's lifetime,
//! and the tally invariant ties the counters to the set bits, so the vote sum
//! can never exceed the member count.

use vstd::prelude::*;

use vstd::set_lib::{lemma_int_range, lemma_len_subset, set_int_range};

use crate::account::Pubkey;
use crate::collection::Collection;
use crate::errors::Errors;
use crate::validate::{
    check_membership, membership_error, metadata_error, token_account_error,
    validate_metadata_account, validate_token_account, MemberCheck, MetadataInfo, TokenAccountInfo,
};

verus! {

/// The record of one governance proposal.
#[derive(Debug, PartialEq, Eq)]
pub struct Proposal {
    /// The collection record this proposal belongs to.
    pub collection: Pubkey,
    /// The proposal text (1 to 300 characters).
    pub proposal: String,
    /// The option labels (2 to 5 options, 1 to 25 characters each).
    pub options: Vec<String>,
    /// One vote counter per option.
    pub votes: Vec<u64>,
    /// The voter bitmap: one bit per collection member ordinal.
    pub voters: Vec<u8>,
    /// True until the proposal is executed, then false forever.
    pub is_active: bool,
    /// Decided once, at execution, from the quorum rule.
    pub is_passed: bool,
    /// When the proposal was created; the voting window starts here.
    pub time: i64,
    /// Who created the proposal.
    pub creator: Pubkey,
}

// ----------------------------------------------------------------------
// Vote tally arithmetic.
// ----------------------------------------------------------------------
/// Total number of votes across all options.
pub open spec fn sum_votes(votes: Seq<u64>) -> int
    decreases votes.len(),
{
    if votes.len() == 0 {
        0
    } else {
        sum_votes(votes.drop_last()) + votes.last()
    }
}

/// A tally of unsigned counters is never negative.
pub proof fn lemma_sum_votes_nonneg(votes: Seq<u64>)
    ensures
        0 <= sum_votes(votes),
    decreases votes.len(),
{
    if votes.len() > 0 {
        lemma_sum_votes_nonneg(votes.drop_last());
    }
}

/// Each counter is at most the whole tally.
pub proof fn lemma_sum_votes_element(votes: Seq<u64>, i: int)
    requires
        0 <= i < votes.len(),
    ensures
        votes[i] <= sum_votes(votes),
    decreases votes.len(),
{
    if i == votes.len() - 1 {
        lemma_sum_votes_nonneg(votes.drop_last());
    } else {
        lemma_sum_votes_element(votes.drop_last(), i);
    }
}

/// Replacing one counter shifts the tally by exactly the difference.
pub proof fn lemma_sum_votes_update(votes: Seq<u64>, i: int, x: u64)
    requires
        0 <= i < votes.len(),
    ensures
        sum_votes(votes.update(i, x)) == sum_votes(votes) - votes[i] + x,
    decreases votes.len(),
{
    let u = votes.update(i, x);
    if i == votes.len() - 1 {
        assert(u.drop_last() =~= votes.drop_last());
    } else {
        assert(u.drop_last() =~= votes.drop_last().update(i, x));
        lemma_sum_votes_update(votes.drop_last(), i, x);
    }
}

/// Summing one more counter extends the prefix tally by that counter.
pub proof fn lemma_sum_votes_take_step(votes: Seq<u64>, i: int)
    requires
        0 <= i < votes.len(),
    ensures
        sum_votes(votes.take(i + 1)) == sum_votes(votes.take(i)) + votes[i],
{
    assert(votes.take(i + 1).drop_last() =~= votes.take(i));
}

/// A prefix tally never exceeds the whole tally.
pub proof fn lemma_sum_votes_take_bound(votes: Seq<u64>, i: int)
    requires
        0 <= i <= votes.len(),
    ensures
        sum_votes(votes.take(i)) <= sum_votes(votes),
    decreases votes.len() - i,
{
    if i == votes.len() {
        assert(votes.take(i) =~= votes);
    } else {
        lemma_sum_votes_take_step(votes, i);
        lemma_sum_votes_take_bound(votes, i + 1);
    }
}

// ----------------------------------------------------------------------
// The voter bitmap.
// ----------------------------------------------------------------------
/// The mask selecting member ordinal `m`'s bit within its byte.  Bits are
/// used most-significant first: ordinal 0 is the top bit of byte 0.
pub open spec fn ordinal_mask(m: int) -> u8 {
    0x80u8 >> ((m % 8) as u8)
}

/// Whether member ordinal `m` has voted.
pub open spec fn bit_set(voters: Seq<u8>, m: int) -> bool
    recommends
        0 <= m < voters.len() * 8,
{
    voters[m / 8] & ordinal_mask(m) != 0u8
}

/// The set of member ordinals that have voted.
pub open spec fn voted_set(voters: Seq<u8>) -> Set<int> {
    Set::new(|m: int| 0 <= m < voters.len() * 8 && bit_set(voters, m))
}

proof fn lemma_mask_or(b: u8, p: u8, q: u8)
    by (bit_vector)
    requires
        p < 8,
        q < 8,
    ensures
        (b | (0x80u8 >> p)) & (0x80u8 >> p) != 0u8,
        p != q ==> (((b | (0x80u8 >> p)) & (0x80u8 >> q) != 0u8) == (b & (0x80u8 >> q) != 0u8)),
{
}

proof fn lemma_mask_zero(p: u8)
    by (bit_vector)
    requires
        p < 8,
    ensures
        0u8 & (0x80u8 >> p) == 0u8,
{
}

/// A fully zero bitmap has no votes recorded.
pub proof fn lemma_voted_set_empty(voters: Seq<u8>)
    requires
        forall|i: int| 0 <= i < voters.len() ==> voters[i] == 0u8,
    ensures
        voted_set(voters) =~= Set::<int>::empty(),
        voted_set(voters).len() == 0,
        voted_set(voters).finite(),
{
    assert forall|m: int| !voted_set(voters).contains(m) by {
        if 0 <= m < voters.len() * 8 {
            lemma_mask_zero((m % 8) as u8);
        }
    }
    assert(voted_set(voters) =~= Set::<int>::empty());
}

/// Setting the bit of member ordinal `m` records exactly `m`'s vote: `m`'s
/// bit becomes set, every other ordinal keeps its bit, and the voted set
/// grows by exactly `m`.
pub proof fn lemma_bitmap_set(voters: Seq<u8>, m: int)
    requires
        0 <= m < voters.len() * 8,
    ensures
        ({
            let v2 = voters.update(m / 8, voters[m / 8] | ordinal_mask(m));
            &&& bit_set(v2, m)
            &&& forall|k: int|
                0 <= k < voters.len() * 8 && k != m ==> #[trigger] bit_set(v2, k) == bit_set(
                    voters,
                    k,
                )
            &&& voted_set(v2) == voted_set(voters).insert(m)
        }),
{
    let index = m / 8;
    let pos = (m % 8) as u8;
    let v2 = voters.update(index, voters[index] | ordinal_mask(m));
    assert(0 <= index < voters.len());
    lemma_mask_or(voters[index], pos, pos);
    assert(bit_set(v2, m));
    assert forall|k: int|
        0 <= k < voters.len() * 8 && k != m implies #[trigger] bit_set(v2, k) == bit_set(
        voters,
        k,
    ) by {
        if k / 8 == index {
            assert(k % 8 != m % 8);
            lemma_mask_or(voters[index], pos, (k % 8) as u8);
        }
    }
    assert(voted_set(v2) =~= voted_set(voters).insert(m));
}

/// Well-formedness of a proposal tally for a collection of `member_count`
/// assets: the bitmap is sized to one bit per member ordinal, only member
/// ordinals are recorded, and the vote counters total exactly the number of
/// recorded voters.
pub open spec fn wf_tally(votes: Seq<u64>, voters: Seq<u8>, member_count: int) -> bool {
    &&& voters.len() == (member_count + 7) / 8
    &&& voted_set(voters).finite()
    &&& sum_votes(votes) == voted_set(voters).len()
    &&& forall|m: int|
        0 <= m < voters.len() * 8 && #[trigger] bit_set(voters, m) ==> m < member_count
}

/// The vote sum never exceeds the member count: every counted vote is a
/// distinct recorded member ordinal, and there are only `member_count` of
/// those.
pub proof fn lemma_votes_bounded(votes: Seq<u64>, voters: Seq<u8>, member_count: int)
    requires
        wf_tally(votes, voters, member_count),
        0 <= member_count,
    ensures
        sum_votes(votes) <= member_count,
{
    assert(voted_set(voters).subset_of(set_int_range(0, member_count)));
    lemma_int_range(0, member_count);
    lemma_len_subset(voted_set(voters), set_int_range(0, member_count));
}

/// Recording a fresh vote for member ordinal `m` on option `choice` keeps
/// the tally well-formed, and could not have been possible with a full
/// tally: beforehand the vote sum was strictly below the member count.
pub proof fn lemma_vote_preserves_wf(
    votes: Seq<u64>,
    voters: Seq<u8>,
    member_count: int,
    choice: int,
    m: int,
)
    requires
        wf_tally(votes, voters, member_count),
        0 <= choice < votes.len(),
        0 <= m < member_count,
        m < voters.len() * 8,
        !bit_set(voters, m),
        member_count <= u64::MAX,
    ensures
        sum_votes(votes) < member_count,
        votes[choice] < u64::MAX,
        wf_tally(
            votes.update(choice, (votes[choice] + 1) as u64),
            voters.update(m / 8, voters[m / 8] | ordinal_mask(m)),
            member_count,
        ),
{
    let voted = voted_set(voters);
    let v2 = voters.update(m / 8, voters[m / 8] | ordinal_mask(m));
    lemma_bitmap_set(voters, m);
    assert(voted.insert(m).subset_of(set_int_range(0, member_count)));
    lemma_int_range(0, member_count);
    lemma_len_subset(voted.insert(m), set_int_range(0, member_count));
    assert(!voted.contains(m));
    assert(voted.insert(m).len() == voted.len() + 1);
    lemma_sum_votes_element(votes, choice);
    lemma_sum_votes_update(votes, choice, (votes[choice] + 1) as u64);
    assert forall|k: int|
        0 <= k < v2.len() * 8 && #[trigger] bit_set(v2, k) implies k < member_count by {
        if k != m {
            assert(bit_set(voters, k));
        }
    }
}

// ----------------------------------------------------------------------
// The proposal record.
// ----------------------------------------------------------------------
impl Proposal {
    /// Byte size of a proposal record, a function of the bitmap size (in
    /// bytes), the title length, and the option count.
    pub fn len(nft_count: u64, title_size: usize, option_count: usize) -> (size: usize)
        requires
            8 + 32 + title_size + 4 + 25 * option_count + 4 + 8 * option_count + 4 + 1 + nft_count
                + 2 + 8 + 32 <= usize::MAX,
        ensures
            size == 8 + 32 + title_size + 4 + 25 * option_count + 4 + 8 * option_count + 4 + 1
                + nft_count + 2 + 8 + 32,
    {
        8 + 32 + title_size + 4 + (25 * option_count) + 4 + (8 * option_count) + 4 + 1 + (nft_count
            as usize) + 2 + 8 + 32
    }

    /// Assembles a fresh proposal record created at `time`.  It starts
    /// active (not yet executed) and not passed; voting is accepted from
    /// creation until the collection's voting window elapses.
    pub fn new(
        collection: Pubkey,
        proposal: String,
        votes: Vec<u64>,
        voters: Vec<u8>,
        options: Vec<String>,
        creator: Pubkey,
        time: i64,
    ) -> (p: Proposal)
        ensures
            p.collection == collection,
            p.proposal == proposal,
            p.votes == votes,
            p.voters == voters,
            p.options == options,
            p.creator == creator,
            p.time == time,
            p.is_active == true,
            p.is_passed == false,
    {
        Proposal {
            collection,
            proposal,
            votes,
            voters,
            options,
            is_active: true,
            is_passed: false,
            time,
            creator,
        }
    }

    /// Counts one more vote for `choice`.
    pub fn increase_vote(&mut self, choice: u8)
        requires
            (choice as int) < old(self).votes@.len(),
            old(self).votes@[choice as int] < u64::MAX,
        ensures
            final(self).votes@ == old(self).votes@.update(
                choice as int,
                (old(self).votes@[choice as int] + 1) as u64,
            ),
            final(self).collection == old(self).collection,
            final(self).proposal == old(self).proposal,
            final(self).options == old(self).options,
            final(self).voters == old(self).voters,
            final(self).is_active == old(self).is_active,
            final(self).is_passed == old(self).is_passed,
            final(self).time == old(self).time,
            final(self).creator == old(self).creator,
    {
        let c = choice as usize;
        let current: u64 = self.votes[c];
        self.votes.set(c, current + 1);
    }

    /// Records member ordinal `8 * nft_index + nft_pos` in the voter bitmap,
    /// or rejects the vote if that ordinal's bit is already set.  The bit is
    /// the sole duplicate guard; on rejection nothing changes.
    pub fn record_voter(&mut self, nft_index: usize, nft_pos: usize) -> (r: Result<(), Errors>)
        requires
            nft_index < old(self).voters@.len(),
            nft_pos < 8,
        ensures
            ({
                let m = 8 * nft_index + nft_pos;
                if bit_set(old(self).voters@, m as int) {
                    r == Err::<(), Errors>(Errors::AlreadyVoted) && *final(self) == *old(self)
                } else {
                    r == Ok::<(), Errors>(()) && final(self).voters@ == old(self).voters@.update(
                        nft_index as int,
                        old(self).voters@[nft_index as int] | ordinal_mask(m as int),
                    )
                }
            }),
            final(self).collection == old(self).collection,
            final(self).proposal == old(self).proposal,
            final(self).options == old(self).options,
            final(self).votes == old(self).votes,
            final(self).is_active == old(self).is_active,
            final(self).is_passed == old(self).is_passed,
            final(self).time == old(self).time,
            final(self).creator == old(self).creator,
    {
        let ghost m = 8 * nft_index + nft_pos;
        proof {
            assert(m as int / 8 == nft_index as int && m as int % 8 == nft_pos as int);
        }
        let mask: u8 = 0x80u8 >> (nft_pos as u8);
        let current: u8 = self.voters[nft_index];
        if current & mask != 0u8 {
            return Err(Errors::AlreadyVoted);
        }
        self.voters.set(nft_index, current | mask);
        Ok(())
    }
}

// ----------------------------------------------------------------------
// Creating a proposal.
// ----------------------------------------------------------------------
/// An all-zero tally sums to zero.
pub proof fn lemma_sum_votes_zero(votes: Seq<u64>)
    requires
        forall|i: int| 0 <= i < votes.len() ==> votes[i] == 0u64,
    ensures
        sum_votes(votes) == 0,
    decreases votes.len(),
{
    if votes.len() > 0 {
        lemma_sum_votes_zero(votes.drop_last());
    }
}

/// First failure, if any, when vetting the option labels in order: each must
/// be 1 to 25 characters long.
pub open spec fn options_error(options: Seq<String>) -> Option<Errors>
    decreases options.len(),
{
    if options.len() == 0 {
        None
    } else if options.first()@.len() > 25 {
        Some(Errors::StringLengthExceeds)
    } else if options.first()@.len() < 1 {
        Some(Errors::BlankStringFound)
    } else {
        options_error(options.drop_first())
    }
}

/// First failure, if any, when creating a proposal: membership gate, module
/// gate, option count 2 to 5, title 1 to 300 characters, each option label
/// 1 to 25 characters.
pub open spec fn create_proposal_error(
    collection: Collection,
    member: MemberCheck,
    title: Seq<char>,
    options: Seq<String>,
) -> Option<Errors> {
    match membership_error(member, collection.verified_collection_key) {
        Some(e) => Some(e),
        None => if !collection.is_voting {
            Some(Errors::ModuleNotActive)
        } else if options.len() <= 1 {
            Some(Errors::IncorrectOptionCount)
        } else if options.len() >= 6 {
            Some(Errors::IncorrectOptionCount)
        } else if title.len() > 300 {
            Some(Errors::StringLengthExceeds)
        } else if title.len() < 1 {
            Some(Errors::BlankStringFound)
        } else {
            options_error(options)
        },
    }
}

/// Creates a proposal on a collection with voting enabled: the creator must
/// hold a verified member asset; the text and option labels are
/// length-checked; the vote counters start at zero and the voter bitmap is
/// sized to one bit per member ordinal, all clear.
pub fn create_proposal_handler(
    collection: &Collection,
    collection_key: Pubkey,
    member: &MemberCheck,
    creator: Pubkey,
    proposal: String,
    options: Vec<String>,
    now: i64,
) -> (r: Result<Proposal, Errors>)
    requires
        member.collection is Some,
        collection.count + 7 <= u64::MAX,
        (collection.count + 7) / 8 <= usize::MAX,
    ensures
        match create_proposal_error(*collection, *member, proposal@, options@) {
            Some(e) => r == Err::<Proposal, Errors>(e),
            None => r is Ok && ({
                let p = r.unwrap();
                &&& p.collection == collection_key
                &&& p.proposal == proposal
                &&& p.options == options
                &&& p.creator == creator
                &&& p.time == now
                &&& p.is_active == true
                &&& p.is_passed == false
                &&& p.votes@.len() == options@.len()
                &&& forall|i: int| 0 <= i < p.votes@.len() ==> p.votes@[i] == 0u64
                &&& p.voters@.len() == (collection.count + 7) / 8
                &&& forall|i: int| 0 <= i < p.voters@.len() ==> p.voters@[i] == 0u8
                &&& wf_tally(p.votes@, p.voters@, collection.count as int)
            }),
        },
{
    match check_membership(member, collection.verified_collection_key) {
        Some(e) => { return Err(e) },
        None => {},
    }
    if !collection.is_voting {
        return Err(Errors::ModuleNotActive);
    }
    let option_count: usize = options.len();
    if option_count <= 1 {
        return Err(Errors::IncorrectOptionCount);
    }
    if option_count >= 6 {
        return Err(Errors::IncorrectOptionCount);
    }
    let title_len: usize = proposal.as_str().unicode_len();
    if title_len > 300 {
        return Err(Errors::StringLengthExceeds);
    }
    if title_len < 1 {
        return Err(Errors::BlankStringFound);
    }
    let mut i: usize = 0;
    proof {
        assert(options@.skip(0) =~= options@);
    }
    while i < option_count
        invariant
            0 <= i <= option_count,
            option_count == options@.len(),
            options_error(options@) == options_error(options@.skip(i as int)),
            create_proposal_error(*collection, *member, proposal@, options@) == options_error(
                options@,
            ),
        decreases option_count - i,
    {
        proof {
            assert(options@.skip(i as int).first() == options@[i as int]);
        }
        let l: usize = options[i].as_str().unicode_len();
        if l > 25 {
            return Err(Errors::StringLengthExceeds);
        }
        if l < 1 {
            return Err(Errors::BlankStringFound);
        }
        proof {
            assert(options@.skip(i as int).drop_first() =~= options@.skip(i as int + 1));
        }
        i = i + 1;
    }
    proof {
        assert(options@.skip(options@.len() as int) =~= Seq::<String>::empty());
    }
    let mut votes: Vec<u64> = Vec::new();
    let mut j: usize = 0;
    while j < option_count
        invariant
            votes@.len() == j <= option_count,
            forall|k: int| 0 <= k < votes@.len() ==> votes@[k] == 0u64,
        decreases option_count - j,
    {
        votes.push(0u64);
        j = j + 1;
    }
    let bitmap_len: usize = ((collection.count + 7) / 8) as usize;
    let mut voters: Vec<u8> = Vec::new();
    let mut k: usize = 0;
    while k < bitmap_len
        invariant
            voters@.len() == k <= bitmap_len,
            forall|n: int| 0 <= n < voters@.len() ==> voters@[n] == 0u8,
        decreases bitmap_len - k,
    {
        voters.push(0u8);
        k = k + 1;
    }
    proof {
        lemma_sum_votes_zero(votes@);
        lemma_voted_set_empty(voters@);
        assert forall|m: int|
            0 <= m < voters@.len() * 8 && #[trigger] bit_set(voters@, m) implies m < collection.count
            as int by {
            assert(voted_set(voters@).contains(m));
        }
    }
    Ok(Proposal::new(collection_key, proposal, votes, voters, options, creator, now))
}

// ----------------------------------------------------------------------
// Casting votes.
// ----------------------------------------------------------------------
/// One asset presented for voting: the voter's token account for it and its
/// oracle-resolved metadata.
#[derive(Clone, Copy, Debug, PartialEq, Eq, Structural)]
pub struct VoterNft {
    /// The voter's token account holding the asset.
    pub token: TokenAccountInfo,
    /// The asset's metadata, including its member ordinal.
    pub metadata: MetadataInfo,
}

/// First failure, if any, when one asset casts a vote against the bitmap
/// state `voters`: the token account and metadata gates, then the duplicate
/// guard on the asset's member ordinal.
pub open spec fn vote_asset_error(asset: VoterNft, verified_key: Pubkey, voters: Seq<u8>) -> Option<
    Errors,
> {
    match token_account_error(asset.token) {
        Some(e) => Some(e),
        None => match metadata_error(asset.token.mint, asset.metadata, verified_key) {
            Some(e) => Some(e),
            None => if bit_set(voters, asset.metadata.ordinal as int) {
                Some(Errors::AlreadyVoted)
            } else {
                None
            },
        },
    }
}

/// Folds a list of presented assets over the tally, front to back: each
/// accepted asset contributes one vote to `choice` and sets its ordinal's
/// bit; the first rejected asset fails the whole cast.
pub open spec fn apply_votes(
    votes: Seq<u64>,
    voters: Seq<u8>,
    assets: Seq<VoterNft>,
    verified_key: Pubkey,
    choice: int,
) -> Result<(Seq<u64>, Seq<u8>), Errors>
    decreases assets.len(),
{
    if assets.len() == 0 {
        Ok((votes, voters))
    } else {
        let a = assets.first();
        match vote_asset_error(a, verified_key, voters) {
            Some(e) => Err(e),
            None => {
                let m = a.metadata.ordinal as int;
                apply_votes(
                    votes.update(choice, (votes[choice] + 1) as u64),
                    voters.update(m / 8, voters[m / 8] | ordinal_mask(m)),
                    assets.drop_first(),
                    verified_key,
                    choice,
                )
            },
        }
    }
}

/// A member ordinal votes at most once: once an asset's vote is recorded,
/// any further attempt with the same ordinal — by the same asset or another
/// mapping to the same ordinal, in the same cast or a later one — is
/// rejected as a duplicate, whatever its other credentials.
pub proof fn lemma_vote_once(
    voters: Seq<u8>,
    a1: VoterNft,
    a2: VoterNft,
    verified_key: Pubkey,
)
    requires
        a1.metadata.ordinal < voters.len() * 8,
        a2.metadata.ordinal == a1.metadata.ordinal,
        vote_asset_error(a1, verified_key, voters) is None,
        token_account_error(a2.token) is None,
        metadata_error(a2.token.mint, a2.metadata, verified_key) is None,
    ensures
        ({
            let m = a1.metadata.ordinal as int;
            let voters2 = voters.update(m / 8, voters[m / 8] | ordinal_mask(m));
            vote_asset_error(a2, verified_key, voters2) == Some(Errors::AlreadyVoted)
        }),
{
    lemma_bitmap_set(voters, a1.metadata.ordinal as int);
}

/// A cast preserves the tally invariant: folding any list of accepted
/// assets whose ordinals are member ordinals over a well-formed tally
/// leaves it well-formed — so, with the vote-sum bound, the vote total can
/// never pass the member count, however many casts are made.
pub proof fn lemma_apply_votes_preserves_wf(
    votes: Seq<u64>,
    voters: Seq<u8>,
    assets: Seq<VoterNft>,
    verified_key: Pubkey,
    choice: int,
    member_count: int,
)
    requires
        wf_tally(votes, voters, member_count),
        0 <= choice < votes.len(),
        0 <= member_count <= u64::MAX,
        forall|i: int|
            0 <= i < assets.len() ==> ((#[trigger] assets[i]).metadata.ordinal as int)
                < member_count,
    ensures
        match apply_votes(votes, voters, assets, verified_key, choice) {
            Ok(tally) => wf_tally(tally.0, tally.1, member_count)
                && sum_votes(tally.0) <= member_count,
            Err(_) => true,
        },
    decreases assets.len(),
{
    if assets.len() == 0 {
        lemma_votes_bounded(votes, voters, member_count);
    } else {
        let a = assets.first();
        match vote_asset_error(a, verified_key, voters) {
            Some(_) => {},
            None => {
                let m = a.metadata.ordinal as int;
                assert(8 * ((member_count + 7) / 8) >= member_count);
                assert(m < voters.len() * 8);
                lemma_vote_preserves_wf(votes, voters, member_count, choice, m);
                lemma_apply_votes_preserves_wf(
                    votes.update(choice, (votes[choice] + 1) as u64),
                    voters.update(m / 8, voters[m / 8] | ordinal_mask(m)),
                    assets.drop_first(),
                    verified_key,
                    choice,
                    member_count,
                );
            },
        }
    }
}

fn copy_counters(v: &Vec<u64>) -> (r: Vec<u64>)
    ensures
        r@ == v@,
{
    let mut r: Vec<u64> = Vec::new();
    let mut i: usize = 0;
    while i < v.len()
        invariant
            i <= v@.len(),
            r@ =~= v@.take(i as int),
        decreases v@.len() - i,
    {
        r.push(v[i]);
        i = i + 1;
    }
    proof {
        assert(v@.take(v@.len() as int) =~= v@);
    }
    r
}

fn copy_bitmap(v: &Vec<u8>) -> (r: Vec<u8>)
    ensures
        r@ == v@,
{
    let mut r: Vec<u8> = Vec::new();
    let mut i: usize = 0;
    while i < v.len()
        invariant
            i <= v@.len(),
            r@ =~= v@.take(i as int),
        decreases v@.len() - i,
    {
        r.push(v[i]);
        i = i + 1;
    }
    proof {
        assert(v@.take(v@.len() as int) =~= v@);
    }
    r
}

/// Casts one vote per presented asset onto `choice`, atomically: the whole
/// cast applies only if every presented asset is accepted — the window is
/// open, the option exists, at least one asset is presented, and each asset
/// passes the account, metadata and duplicate gates against the bitmap as
/// updated by the assets before it.  On any failure the proposal is left
/// untouched.
pub fn give_vote_handler(
    proposal: &mut Proposal,
    collection: &Collection,
    signer: Pubkey,
    choice: u8,
    voter_accounts: &Vec<VoterNft>,
    now: i64,
) -> (r: Result<(), Errors>)
    requires
        i64::MIN <= old(proposal).time + collection.vote_duration <= i64::MAX,
        old(proposal).votes@.len() == old(proposal).options@.len(),
        forall|i: int|
            0 <= i < voter_accounts@.len() ==> ((#[trigger] voter_accounts@[i]).token.initialized
                ==> voter_accounts@[i].token.owner == signer),
        forall|i: int|
            0 <= i < voter_accounts@.len() ==> (#[trigger] voter_accounts@[i]).metadata.ordinal < 8
                * old(proposal).voters@.len(),
        sum_votes(old(proposal).votes@) + voter_accounts@.len() <= u64::MAX,
    ensures
        ({
            let key = collection.verified_collection_key;
            if now > old(proposal).time + collection.vote_duration {
                r == Err::<(), Errors>(Errors::VotingIsClosed) && *final(proposal) == *old(proposal)
            } else if choice as int >= old(proposal).options@.len() {
                r == Err::<(), Errors>(Errors::OptionNotExists) && *final(proposal) == *old(
                    proposal,
                )
            } else if voter_accounts@.len() == 0 {
                r == Err::<(), Errors>(Errors::AccountNotProvided) && *final(proposal) == *old(
                    proposal,
                )
            } else {
                match apply_votes(
                    old(proposal).votes@,
                    old(proposal).voters@,
                    voter_accounts@,
                    key,
                    choice as int,
                ) {
                    Err(e) => r == Err::<(), Errors>(e) && *final(proposal) == *old(proposal),
                    Ok(tally) => ({
                        let p0 = *old(proposal);
                        let p1 = *final(proposal);
                        r == Ok::<(), Errors>(()) && p1.votes@ == tally.0 && p1.voters@ == tally.1
                            && p1.collection == p0.collection && p1.proposal == p0.proposal
                            && p1.options == p0.options && p1.is_active == p0.is_active
                            && p1.is_passed == p0.is_passed && p1.time == p0.time && p1.creator
                            == p0.creator
                    }),
                }
            }
        }),
{
    let deadline: i64 = proposal.time + collection.vote_duration;
    if deadline < now {
        return Err(Errors::VotingIsClosed);
    }
    if choice as usize >= proposal.options.len() {
        return Err(Errors::OptionNotExists);
    }
    if voter_accounts.len() < 1 {
        return Err(Errors::AccountNotProvided);
    }
    let ghost votes0 = proposal.votes@;
    let ghost voters0 = proposal.voters@;
    let ghost key = collection.verified_collection_key;
    let mut new_votes: Vec<u64> = copy_counters(&proposal.votes);
    let mut new_voters: Vec<u8> = copy_bitmap(&proposal.voters);
    let mut i: usize = 0;
    proof {
        assert(voter_accounts@.skip(0) =~= voter_accounts@);
    }
    while i < voter_accounts.len()
        invariant
            0 <= i <= voter_accounts@.len(),
            *proposal == *old(proposal),
            votes0 == old(proposal).votes@,
            voters0 == old(proposal).voters@,
            now <= old(proposal).time + collection.vote_duration,
            (choice as int) < old(proposal).options@.len(),
            voter_accounts@.len() >= 1,
            new_votes@.len() == votes0.len(),
            new_voters@.len() == voters0.len(),
            (choice as int) < votes0.len(),
            key == collection.verified_collection_key,
            apply_votes(votes0, voters0, voter_accounts@, key, choice as int) == apply_votes(
                new_votes@,
                new_voters@,
                voter_accounts@.skip(i as int),
                key,
                choice as int,
            ),
            sum_votes(new_votes@) == sum_votes(votes0) + i,
            sum_votes(votes0) + voter_accounts@.len() <= u64::MAX,
            forall|j: int|
                0 <= j < voter_accounts@.len() ==> ((#[trigger] voter_accounts@[j]).token.initialized
                    ==> voter_accounts@[j].token.owner == signer),
            forall|j: int|
                0 <= j < voter_accounts@.len() ==> (#[trigger] voter_accounts@[j]).metadata.ordinal
                    < 8 * voters0.len(),
        decreases voter_accounts@.len() - i,
    {
        let asset: VoterNft = voter_accounts[i];
        proof {
            assert(voter_accounts@.skip(i as int).first() == voter_accounts@[i as int]);
        }
        let mint: Pubkey = match validate_token_account(&asset.token, &signer) {
            Ok(m) => m,
            Err(e) => { return Err(e) },
        };
        let ordinal: u64 = match validate_metadata_account(
            &mint,
            &asset.metadata,
            &collection.verified_collection_key,
        ) {
            Ok(o) => o,
            Err(e) => { return Err(e) },
        };
        proof {
            assert(ordinal as int / 8 < voters0.len());
        }
        let index: usize = (ordinal / 8) as usize;
        let pos: u8 = (ordinal % 8) as u8;
        let byte: u8 = new_voters[index];
        let mask: u8 = 0x80u8 >> pos;
        if byte & mask != 0u8 {
            return Err(Errors::AlreadyVoted);
        }
        proof {
            lemma_sum_votes_element(new_votes@, choice as int);
            lemma_sum_votes_update(
                new_votes@,
                choice as int,
                (new_votes@[choice as int] + 1) as u64,
            );
            assert(voter_accounts@.skip(i as int).drop_first() =~= voter_accounts@.skip(
                i as int + 1,
            ));
        }
        let c: usize = choice as usize;
        let cur: u64 = new_votes[c];
        new_votes.set(c, cur + 1);
        new_voters.set(index, byte | mask);
        i = i + 1;
    }
    proof {
        assert(voter_accounts@.skip(voter_accounts@.len() as int) =~= Seq::<VoterNft>::empty());
    }
    proposal.votes = new_votes;
    proposal.voters = new_voters;
    Ok(())
}

// ----------------------------------------------------------------------
// Executing a proposal.
// ----------------------------------------------------------------------
/// Executes a proposal once its voting window has elapsed: decides `passed`
/// from the quorum rule — passed exactly when the vote total reaches the
/// collection's quorum — and retires the proposal.  The decision is taken at
/// most once: a retired proposal can never be executed again.
pub fn execute_proposal_handler(proposal: &mut Proposal, collection: &Collection, now: i64) -> (r:
    Result<(), Errors>)
    requires
        i64::MIN <= old(proposal).time + collection.vote_duration <= i64::MAX,
        sum_votes(old(proposal).votes@) <= u64::MAX,
    ensures
        if !old(proposal).is_active {
            r == Err::<(), Errors>(Errors::ProposalAlreadyExecuted) && *final(proposal) == *old(
                proposal,
            )
        } else if now <= old(proposal).time + collection.vote_duration {
            r == Err::<(), Errors>(Errors::VotingIsActive) && *final(proposal) == *old(proposal)
        } else {
            ({
                let p0 = *old(proposal);
                let p1 = *final(proposal);
                r == Ok::<(), Errors>(()) && p1.is_active == false && (p1.is_passed == (
                p0.is_passed || sum_votes(p0.votes@) >= collection.quorum)) && p1.collection
                    == p0.collection && p1.proposal == p0.proposal && p1.options == p0.options
                    && p1.votes == p0.votes && p1.voters == p0.voters && p1.time == p0.time
                    && p1.creator == p0.creator
            })
        },
{
    if !proposal.is_active {
        return Err(Errors::ProposalAlreadyExecuted);
    }
    let deadline: i64 = proposal.time + collection.vote_duration;
    if now <= deadline {
        return Err(Errors::VotingIsActive);
    }
    let mut total: u64 = 0;
    let mut i: usize = 0;
    let vote_count: usize = proposal.votes.len();
    while i < vote_count
        invariant
            0 <= i <= vote_count,
            vote_count == proposal.votes@.len(),
            total as int == sum_votes(proposal.votes@.take(i as int)),
            sum_votes(proposal.votes@) <= u64::MAX,
            *proposal == *old(proposal),
        decreases vote_count - i,
    {
        proof {
            lemma_sum_votes_take_step(proposal.votes@, i as int);
            lemma_sum_votes_take_bound(proposal.votes@, i as int + 1);
        }
        total = total + proposal.votes[i];
        i = i + 1;
    }
    proof {
        assert(proposal.votes@.take(proposal.votes@.len() as int) =~= proposal.votes@);
    }
    if total >= collection.quorum {
        proposal.is_passed = true;
    }
    proposal.is_active = false;
    Ok(())
}

} // verus!
