use vstd::prelude::*;
use crate::error::VoteError;
use crate::instructions::{
    cast_vote_result, create_vote_card_result, unvote_result, CreateTxView, VoteTxView,
};
use crate::state::{MAX_DESCRIPTION_LEN, MAX_TITLE_LEN};
use crate::state::{lemma_with_voter_wf, lemma_without_after_with, lemma_without_voter_wf};

verus! {

/// Once a vote by an identity has gone through, a second vote by the same
/// identity on the same card is refused as a repeated vote.
pub proof fn lemma_second_vote_refused(s: VoteTxView)
    requires
        cast_vote_result(s) is Ok,
    ensures
        cast_vote_result(cast_vote_result(s)->Ok_0) == Err::<VoteTxView, VoteError>(
            VoteError::AlreadyVoted,
        ),
{
    let next = cast_vote_result(s)->Ok_0;
    assert(next.card.voters[s.card.voters.len() as int] == s.voter.key);
}

/// Casting a vote and then taking it back, under the same configuration,
/// leaves the card, its escrow balance and the voter's balance as they were.
pub proof fn lemma_cast_then_unvote_round_trip(s: VoteTxView)
    requires
        s.card.wf(),
        cast_vote_result(s) is Ok,
    ensures
        unvote_result(cast_vote_result(s)->Ok_0) == Ok::<VoteTxView, VoteError>(s),
{
    let next = cast_vote_result(s)->Ok_0;
    assert(next.card.voters[s.card.voters.len() as int] == s.voter.key);
    lemma_without_after_with(s.card, s.voter.key);
    let back = unvote_result(next)->Ok_0;
    assert(back.card == s.card);
}

/// Every vote and every retraction that goes through keeps a well-formed card
/// well formed: its vote count equals the number of its voters, and no voter
/// appears twice.
pub proof fn lemma_vote_steps_keep_card_wf(s: VoteTxView)
    requires
        s.card.wf(),
    ensures
        cast_vote_result(s) matches Ok(n) ==> n.card.wf() && n.card.vote_count
            == n.card.voters.len(),
        unvote_result(s) matches Ok(n) ==> n.card.wf() && n.card.vote_count
            == n.card.voters.len(),
{
    if cast_vote_result(s) is Ok {
        lemma_with_voter_wf(s.card, s.voter.key);
    }
    lemma_without_voter_wf(s.card, s.voter.key);
}

/// A card that creation yields has a title of at most 50 characters and a
/// description of at most 280, and is well formed; a longer title or
/// description is refused.
pub proof fn lemma_created_card_within_bounds(
    s: CreateTxView,
    title: Seq<char>,
    description: Seq<char>,
    now: i64,
)
    ensures
        create_vote_card_result(s, title, description, now) matches Ok(n) ==> (n.card matches Some(
            c,
        ) && c.title == title && c.description == description && c.title.len() <= MAX_TITLE_LEN
            && c.description.len() <= MAX_DESCRIPTION_LEN && c.wf()),
        title.len() > MAX_TITLE_LEN || description.len() > MAX_DESCRIPTION_LEN
            ==> create_vote_card_result(s, title, description, now) is Err,
{
    let c = crate::state::VoteCardView::fresh(title, description, s.author.key, now);
    assert(c.voters.len() == 0);
}

} // verus!
