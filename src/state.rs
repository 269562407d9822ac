use vstd::prelude::*;
use vstd::string::StrSliceExecFns;
use crate::error::VoteError;
use crate::pubkey::Pubkey;

verus! {

/// Longest title a card may carry, in characters.
pub const MAX_TITLE_LEN: usize = 50;

/// Longest description a card may carry, in characters.
pub const MAX_DESCRIPTION_LEN: usize = 280;

/// Most voters a card's record has room for.
pub const MAX_VOTERS: usize = 50;

/// Fee charged for creating a card, until the admin changes it.
pub const DEFAULT_CREATE_VOTE_FEE: u64 = 10_000_000;

/// Fee charged for a vote, until the admin changes it.
pub const DEFAULT_CAST_VOTE_FEE: u64 = 1_000_000;

/// Share of the creation fee, in percent, that goes to the fee receiver by default.
pub const DEFAULT_ADMIN_FEE_PERCENT: u8 = 10;

/// The program-wide configuration record.
#[derive(Clone, Copy, Debug)]
pub struct ProgramAdmin {
    pub admin: Pubkey,
    pub is_initialized: bool,
    pub create_vote_fee: u64,
    pub cast_vote_fee: u64,
    pub fee_receiver: Pubkey,
    pub admin_fee_percent: u8,
}

impl ProgramAdmin {
    pub open spec fn wf(&self) -> bool {
        self.admin_fee_percent <= 100
    }

    pub fn is_initialized(&self) -> (r: bool)
        ensures
            r == self.is_initialized,
    {
        self.is_initialized
    }
}

impl PartialEq for ProgramAdmin {
    fn eq(&self, o: &ProgramAdmin) -> (r: bool)
        ensures
            r == (*self == *o),
    {
        self.admin == o.admin && self.is_initialized == o.is_initialized && self.create_vote_fee
            == o.create_vote_fee && self.cast_vote_fee == o.cast_vote_fee && self.fee_receiver
            == o.fee_receiver && self.admin_fee_percent == o.admin_fee_percent
    }
}

impl vstd::std_specs::cmp::PartialEqSpecImpl for ProgramAdmin {
    open spec fn obeys_eq_spec() -> bool {
        true
    }

    open spec fn eq_spec(&self, o: &ProgramAdmin) -> bool {
        *self == *o
    }
}

impl Eq for ProgramAdmin {
}

/// What a vote card holds, as mathematical values.
pub struct VoteCardView {
    pub title: Seq<char>,
    pub description: Seq<char>,
    pub author: Pubkey,
    pub create_time: i64,
    pub vote_count: u64,
    pub voters: Seq<Pubkey>,
}

/// `s` with the entry `v` taken out, or `s` itself where `v` is absent.
pub open spec fn without_voter(s: Seq<Pubkey>, v: Pubkey) -> Seq<Pubkey> {
    if s.contains(v) {
        s.remove(s.index_of(v))
    } else {
        s
    }
}

/// A proposal record: its metadata and the identities that voted for it.
#[derive(Clone, Debug)]
pub struct VoteCard {
    pub title: String,
    pub description: String,
    pub author: Pubkey,
    pub create_time: i64,
    pub vote_count: u64,
    pub voters: Vec<Pubkey>,
}

impl View for VoteCard {
    type V = VoteCardView;

    open spec fn view(&self) -> VoteCardView {
        VoteCardView {
            title: self.title@,
            description: self.description@,
            author: self.author,
            create_time: self.create_time,
            vote_count: self.vote_count,
            voters: self.voters@,
        }
    }
}

impl VoteCardView {
    /// A card as created: no votes yet.
    pub open spec fn fresh(title: Seq<char>, description: Seq<char>, author: Pubkey, create_time: i64) -> VoteCardView {
        VoteCardView { title, description, author, create_time, vote_count: 0, voters: Seq::empty() }
    }

    /// The card's bounds hold, its count matches its voters, and nobody voted twice.
    pub open spec fn wf(self) -> bool {
        &&& self.title.len() <= MAX_TITLE_LEN
        &&& self.description.len() <= MAX_DESCRIPTION_LEN
        &&& self.voters.len() <= MAX_VOTERS
        &&& self.vote_count == self.voters.len()
        &&& self.voters.no_duplicates()
    }

    /// The card after `v` has voted.
    pub open spec fn with_voter(self, v: Pubkey) -> VoteCardView {
        VoteCardView {
            vote_count: (self.vote_count + 1) as u64,
            voters: self.voters.push(v),
            ..self
        }
    }

    /// The card after `v` has taken its vote back; unchanged where `v` had not voted.
    pub open spec fn without_voter(self, v: Pubkey) -> VoteCardView {
        if self.voters.contains(v) {
            VoteCardView {
                vote_count: (self.vote_count - 1) as u64,
                voters: without_voter(self.voters, v),
                ..self
            }
        } else {
            self
        }
    }
}

/// Adding a voter who has not voted, below capacity, keeps a card well formed.
pub proof fn lemma_with_voter_wf(c: VoteCardView, v: Pubkey)
    requires
        c.wf(),
        !c.voters.contains(v),
        c.voters.len() < MAX_VOTERS,
    ensures
        c.with_voter(v).wf(),
{
    let s = c.voters.push(v);
    assert forall|a: int, b: int| 0 <= a < s.len() && 0 <= b < s.len() && a != b implies s[a]
        != s[b] by {
        if a == s.len() - 1 {
            assert(c.voters[b] == s[b]);
        } else if b == s.len() - 1 {
            assert(c.voters[a] == s[a]);
        }
    }
}

/// Removing a voter keeps a card well formed.
pub proof fn lemma_without_voter_wf(c: VoteCardView, v: Pubkey)
    requires
        c.wf(),
    ensures
        c.without_voter(v).wf(),
{
    if c.voters.contains(v) {
        let o = c.voters;
        let index = o.index_of(v);
        let s = without_voter(o, v);
        assert forall|a: int, b: int| 0 <= a < s.len() && 0 <= b < s.len() && a != b implies s[a]
            != s[b] by {
            let oa = if a < index { a } else { a + 1 };
            let ob = if b < index { b } else { b + 1 };
            assert(s[a] == o[oa]);
            assert(s[b] == o[ob]);
        }
    }
}

/// A voter who has not voted, once added, is the one entry removed again.
pub proof fn lemma_without_after_with(c: VoteCardView, v: Pubkey)
    requires
        !c.voters.contains(v),
    ensures
        without_voter(c.voters.push(v), v) == c.voters,
{
    let s = c.voters.push(v);
    assert(s[c.voters.len() as int] == v);
    assert(s.contains(v));
    let k = s.index_of(v);
    if k < c.voters.len() {
        assert(c.voters[k] == v);
    }
    assert(k == c.voters.len());
    assert(s.remove(k) =~= c.voters);
}

impl VoteCard {
    /// A fresh card with no votes. Fails where the title or description is too long.
    pub fn new(title: String, description: String, author: Pubkey, create_time: i64) -> (r:
        Result<VoteCard, VoteError>)
        ensures
            title@.len() > MAX_TITLE_LEN ==> r == Err::<VoteCard, VoteError>(
                VoteError::TitleTooLong,
            ),
            title@.len() <= MAX_TITLE_LEN && description@.len() > MAX_DESCRIPTION_LEN ==> r
                == Err::<VoteCard, VoteError>(VoteError::DescriptionTooLong),
            title@.len() <= MAX_TITLE_LEN && description@.len() <= MAX_DESCRIPTION_LEN ==> (r
                matches Ok(c) && c@ == VoteCardView::fresh(
                title@,
                description@,
                author,
                create_time,
            )),
            r matches Ok(c) ==> c@.wf(),
    {
        if title.as_str().unicode_len() > MAX_TITLE_LEN {
            return Err(VoteError::TitleTooLong);
        }
        if description.as_str().unicode_len() > MAX_DESCRIPTION_LEN {
            return Err(VoteError::DescriptionTooLong);
        }
        let card = VoteCard { title, description, author, create_time, vote_count: 0, voters: Vec::new() };
        proof {
            assert(card.voters@ =~= Seq::<Pubkey>::empty());
        }
        Ok(card)
    }

    /// Whether the record is well formed; a record read back from storage is
    /// checked with this before it is voted on.
    pub fn is_well_formed(&self) -> (r: bool)
        ensures
            r == self@.wf(),
    {
        if self.title.as_str().unicode_len() > MAX_TITLE_LEN {
            return false;
        }
        if self.description.as_str().unicode_len() > MAX_DESCRIPTION_LEN {
            return false;
        }
        let n = self.voters.len();
        if n > MAX_VOTERS || self.vote_count != n as u64 {
            return false;
        }
        let mut i: usize = 0;
        while i < n
            invariant
                n == self.voters@.len(),
                0 <= i <= n,
                forall|a: int, b: int|
                    0 <= a < i && 0 <= b < i && a != b ==> self.voters@[a] != self.voters@[b],
            decreases n - i,
        {
            let mut j: usize = 0;
            while j < i
                invariant
                    n == self.voters@.len(),
                    0 <= j <= i < n,
                    forall|b: int| 0 <= b < j ==> self.voters@[b] != self.voters@[i as int],
                decreases i - j,
            {
                if self.voters[j] == self.voters[i] {
                    return false;
                }
                j = j + 1;
            }
            i = i + 1;
        }
        true
    }

    /// Position of `voter` in the voter list, if present.
    fn find_voter(&self, voter: Pubkey) -> (r: Option<usize>)
        ensures
            r matches Some(i) ==> i < self.voters@.len() && self.voters@[i as int] == voter,
            r is None ==> !self.voters@.contains(voter),
    {
        let mut i: usize = 0;
        while i < self.voters.len()
            invariant
                0 <= i <= self.voters@.len(),
                forall|j: int| 0 <= j < i ==> self.voters@[j] != voter,
            decreases self.voters@.len() - i,
        {
            if self.voters[i] == voter {
                return Some(i);
            }
            i = i + 1;
        }
        None
    }

    /// Whether `voter` holds a vote on this card.
    pub fn has_voted(&self, voter: Pubkey) -> (r: bool)
        ensures
            r == self.voters@.contains(voter),
    {
        self.find_voter(voter).is_some()
    }

    /// Records a vote by `voter`. Fails where `voter` already voted or the list is full.
    pub fn add_voter(&mut self, voter: Pubkey) -> (r: Result<(), VoteError>)
        requires
            old(self)@.wf(),
        ensures
            final(self)@.wf(),
            old(self)@.voters.contains(voter) ==> r == Err::<(), VoteError>(
                VoteError::AlreadyVoted,
            ),
            !old(self)@.voters.contains(voter) && old(self)@.voters.len() >= MAX_VOTERS ==> r
                == Err::<(), VoteError>(VoteError::CapacityExceeded),
            !old(self)@.voters.contains(voter) && old(self)@.voters.len() < MAX_VOTERS ==> r
                is Ok,
            r is Ok ==> final(self)@ == old(self)@.with_voter(voter),
            r is Err ==> final(self)@ == old(self)@,
    {
        if self.has_voted(voter) {
            return Err(VoteError::AlreadyVoted);
        }
        if self.voters.len() >= MAX_VOTERS {
            return Err(VoteError::CapacityExceeded);
        }
        self.voters.push(voter);
        self.vote_count = self.vote_count + 1;
        proof {
            lemma_with_voter_wf(old(self)@, voter);
            assert(self@.voters =~= old(self)@.with_voter(voter).voters);
        }
        Ok(())
    }

    /// Takes back the vote of `voter`, if any: the entry leaves the list and
    /// the count drops by one.
    pub fn remove_voter(&mut self, voter: Pubkey)
        requires
            old(self)@.wf(),
        ensures
            final(self)@.wf(),
            final(self)@ == old(self)@.without_voter(voter),
    {
        match self.find_voter(voter) {
            Some(index) => {
                proof {
                    let s = self.voters@;
                    assert(s.contains(voter));
                    let k = s.index_of(voter);
                    assert(s[k] == voter);
                    assert(k == index as int);
                }
                self.voters.remove(index);
                self.vote_count = self.vote_count - 1;
                proof {
                    lemma_without_voter_wf(old(self)@, voter);
                    assert(self@.voters =~= old(self)@.without_voter(voter).voters);
                }
            },
            None => {},
        }
    }
}

} // verus!
