use vstd::prelude::*;
use crate::error::VoteError;
use crate::fee::{admin_share, split_defined, split_fee};
use crate::pubkey::Pubkey;
use crate::state::{
    ProgramAdmin, VoteCard, VoteCardView, DEFAULT_ADMIN_FEE_PERCENT, DEFAULT_CAST_VOTE_FEE,
    DEFAULT_CREATE_VOTE_FEE, MAX_DESCRIPTION_LEN, MAX_TITLE_LEN, MAX_VOTERS,
};

verus! {

/// An account as the ledger sees it: its address and its balance.
#[derive(Clone, Copy, Debug)]
pub struct Wallet {
    pub key: Pubkey,
    pub lamports: u64,
}

/// Moves `amount` from `from` to `to`, or fails leaving both untouched.
fn transfer(from: &mut Wallet, to: &mut Wallet, amount: u64) -> (r: Result<(), VoteError>)
    ensures
        old(from).lamports < amount ==> r == Err::<(), VoteError>(VoteError::InsufficientFunds),
        old(from).lamports >= amount && old(to).lamports + amount > u64::MAX ==> r == Err::<(), VoteError>(
            VoteError::ArithmeticOverflow,
        ),
        r is Ok <==> old(from).lamports >= amount && old(to).lamports + amount <= u64::MAX,
        r is Ok ==> final(from).lamports == old(from).lamports - amount && final(to).lamports
            == old(to).lamports + amount,
        r is Err ==> *final(from) == *old(from) && *final(to) == *old(to),
        final(from).key == old(from).key,
        final(to).key == old(to).key,
{
    if from.lamports < amount {
        return Err(VoteError::InsufficientFunds);
    }
    let credited = match to.lamports.checked_add(amount) {
        Some(v) => v,
        None => return Err(VoteError::ArithmeticOverflow),
    };
    from.lamports = from.lamports - amount;
    to.lamports = credited;
    Ok(())
}

/// The accounts of a vote, as mathematical values.
pub struct VoteTxView {
    pub card: VoteCardView,
    pub escrow: Wallet,
    pub voter: Wallet,
    pub config: ProgramAdmin,
}

/// Accounts of a vote: the card, its escrow account, the signing voter and
/// the program configuration.
#[derive(Clone, Debug)]
pub struct CastVote {
    pub vote_card: VoteCard,
    pub vote_card_account: Wallet,
    pub voter: Wallet,
    pub program_admin: ProgramAdmin,
}

/// Accounts of a retracted vote; the same as those of a vote.
#[derive(Clone, Debug)]
pub struct Unvote {
    pub vote_card: VoteCard,
    pub vote_card_account: Wallet,
    pub voter: Wallet,
    pub program_admin: ProgramAdmin,
}

impl View for CastVote {
    type V = VoteTxView;

    open spec fn view(&self) -> VoteTxView {
        VoteTxView {
            card: self.vote_card@,
            escrow: self.vote_card_account,
            voter: self.voter,
            config: self.program_admin,
        }
    }
}

impl View for Unvote {
    type V = VoteTxView;

    open spec fn view(&self) -> VoteTxView {
        VoteTxView {
            card: self.vote_card@,
            escrow: self.vote_card_account,
            voter: self.voter,
            config: self.program_admin,
        }
    }
}

/// The accounts after a vote by `s.voter`, or the reason it is refused.
pub open spec fn cast_vote_result(s: VoteTxView) -> Result<VoteTxView, VoteError> {
    let fee = s.config.cast_vote_fee;
    if !s.config.is_initialized {
        Err(VoteError::ProgramNotInitialized)
    } else if s.card.voters.contains(s.voter.key) {
        Err(VoteError::AlreadyVoted)
    } else if s.card.voters.len() >= MAX_VOTERS {
        Err(VoteError::CapacityExceeded)
    } else if s.voter.lamports < fee {
        Err(VoteError::InsufficientFunds)
    } else if s.escrow.lamports + fee > u64::MAX {
        Err(VoteError::ArithmeticOverflow)
    } else {
        Ok(
            VoteTxView {
                card: s.card.with_voter(s.voter.key),
                escrow: Wallet { lamports: (s.escrow.lamports + fee) as u64, ..s.escrow },
                voter: Wallet { lamports: (s.voter.lamports - fee) as u64, ..s.voter },
                config: s.config,
            },
        )
    }
}

/// The refund owed for a retracted vote: the vote fee as configured now.
pub open spec fn refund_of(config: ProgramAdmin) -> u64 {
    config.cast_vote_fee
}

/// The refund owed for a retracted vote under `config`.
pub fn refund_amount(config: &ProgramAdmin) -> (r: u64)
    ensures
        r == refund_of(*config),
{
    config.cast_vote_fee
}

/// The accounts after `s.voter` takes back its vote, or the reason it is refused.
pub open spec fn unvote_result(s: VoteTxView) -> Result<VoteTxView, VoteError> {
    let refund = refund_of(s.config);
    if !s.config.is_initialized {
        Err(VoteError::ProgramNotInitialized)
    } else if !s.card.voters.contains(s.voter.key) {
        Err(VoteError::HasNotVoted)
    } else if s.escrow.lamports < refund {
        Err(VoteError::InsufficientFunds)
    } else if s.voter.lamports + refund > u64::MAX {
        Err(VoteError::ArithmeticOverflow)
    } else {
        Ok(
            VoteTxView {
                card: s.card.without_voter(s.voter.key),
                escrow: Wallet { lamports: (s.escrow.lamports - refund) as u64, ..s.escrow },
                voter: Wallet { lamports: (s.voter.lamports + refund) as u64, ..s.voter },
                config: s.config,
            },
        )
    }
}

/// Casts the signer's vote: the vote fee moves from the voter to the card's
/// escrow, and the voter joins the card's voters. All or nothing.
pub fn cast_vote(ctx: &mut CastVote) -> (r: Result<(), VoteError>)
    requires
        old(ctx).vote_card@.wf(),
    ensures
        final(ctx).vote_card@.wf(),
        match cast_vote_result(old(ctx)@) {
            Ok(next) => r is Ok && final(ctx)@ == next,
            Err(e) => r == Err::<(), VoteError>(e) && final(ctx)@ == old(ctx)@,
        },
{
    if !ctx.program_admin.is_initialized() {
        return Err(VoteError::ProgramNotInitialized);
    }
    let voter = ctx.voter.key;
    if ctx.vote_card.has_voted(voter) {
        return Err(VoteError::AlreadyVoted);
    }
    if ctx.vote_card.voters.len() >= MAX_VOTERS {
        return Err(VoteError::CapacityExceeded);
    }
    let fee = ctx.program_admin.cast_vote_fee;
    let mut voter_account = ctx.voter;
    let mut escrow = ctx.vote_card_account;
    match transfer(&mut voter_account, &mut escrow, fee) {
        Ok(()) => {},
        Err(e) => return Err(e),
    }
    match ctx.vote_card.add_voter(voter) {
        Ok(()) => {},
        Err(e) => return Err(e),
    }
    ctx.voter = voter_account;
    ctx.vote_card_account = escrow;
    Ok(())
}

/// Takes back the signer's vote: the current vote fee returns from the card's
/// escrow to the voter, and the voter leaves the card's voters. All or nothing.
pub fn unvote(ctx: &mut Unvote) -> (r: Result<(), VoteError>)
    requires
        old(ctx).vote_card@.wf(),
    ensures
        final(ctx).vote_card@.wf(),
        match unvote_result(old(ctx)@) {
            Ok(next) => r is Ok && final(ctx)@ == next,
            Err(e) => r == Err::<(), VoteError>(e) && final(ctx)@ == old(ctx)@,
        },
{
    if !ctx.program_admin.is_initialized() {
        return Err(VoteError::ProgramNotInitialized);
    }
    let voter = ctx.voter.key;
    if !ctx.vote_card.has_voted(voter) {
        return Err(VoteError::HasNotVoted);
    }
    let refund = refund_amount(&ctx.program_admin);
    let mut escrow = ctx.vote_card_account;
    let mut voter_account = ctx.voter;
    match transfer(&mut escrow, &mut voter_account, refund) {
        Ok(()) => {},
        Err(e) => return Err(e),
    }
    ctx.vote_card.remove_voter(voter);
    ctx.voter = voter_account;
    ctx.vote_card_account = escrow;
    Ok(())
}

/// Accounts of the one-time setup: the configuration record and its signer.
#[derive(Clone, Copy, Debug)]
pub struct Initialize {
    pub program_admin: ProgramAdmin,
    pub admin: Pubkey,
}

/// The configuration as set up by `admin`: default fees, `admin` receiving
/// the fee share.
pub open spec fn initial_config(admin: Pubkey) -> ProgramAdmin {
    ProgramAdmin {
        admin,
        is_initialized: true,
        create_vote_fee: DEFAULT_CREATE_VOTE_FEE,
        cast_vote_fee: DEFAULT_CAST_VOTE_FEE,
        fee_receiver: admin,
        admin_fee_percent: DEFAULT_ADMIN_FEE_PERCENT,
    }
}

/// Sets up the configuration with default fees and the signer as admin and
/// fee receiver. Fails where it was set up before.
pub fn initialize(ctx: &mut Initialize) -> (r: Result<(), VoteError>)
    ensures
        old(ctx).program_admin.is_initialized ==> r == Err::<(), VoteError>(
            VoteError::AlreadyInitialized,
        ) && *final(ctx) == *old(ctx),
        !old(ctx).program_admin.is_initialized ==> r is Ok && final(ctx).program_admin
            == initial_config(old(ctx).admin) && final(ctx).admin == old(ctx).admin,
        r is Ok ==> final(ctx).program_admin.wf(),
{
    if ctx.program_admin.is_initialized() {
        return Err(VoteError::AlreadyInitialized);
    }
    ctx.program_admin = ProgramAdmin {
        admin: ctx.admin,
        is_initialized: true,
        create_vote_fee: DEFAULT_CREATE_VOTE_FEE,
        cast_vote_fee: DEFAULT_CAST_VOTE_FEE,
        fee_receiver: ctx.admin,
        admin_fee_percent: DEFAULT_ADMIN_FEE_PERCENT,
    };
    Ok(())
}

/// Accounts of a card's creation: the card's slot and escrow account, the
/// signing author, the configuration and the account that receives the fee share.
#[derive(Clone, Debug)]
pub struct CreateVoteCard {
    pub vote_card: Option<VoteCard>,
    pub vote_card_account: Wallet,
    pub author: Wallet,
    pub program_admin: ProgramAdmin,
    pub fee_receiver: Wallet,
}

/// The accounts of a card's creation, as mathematical values.
pub struct CreateTxView {
    pub card: Option<VoteCardView>,
    pub escrow: Wallet,
    pub author: Wallet,
    pub config: ProgramAdmin,
    pub fee_receiver: Wallet,
}

impl View for CreateVoteCard {
    type V = CreateTxView;

    open spec fn view(&self) -> CreateTxView {
        CreateTxView {
            card: match self.vote_card {
                Some(c) => Some(c@),
                None => None,
            },
            escrow: self.vote_card_account,
            author: self.author,
            config: self.program_admin,
            fee_receiver: self.fee_receiver,
        }
    }
}

/// The accounts after the author creates a card, or the reason it is refused.
/// The creation fee leaves the author; its admin share goes to the fee
/// receiver and the rest to the card's escrow. Where the author is the fee
/// receiver, the admin share comes straight back.
pub open spec fn create_vote_card_result(
    s: CreateTxView,
    title: Seq<char>,
    description: Seq<char>,
    now: i64,
) -> Result<CreateTxView, VoteError> {
    let fee = s.config.create_vote_fee;
    let share = admin_share(fee as nat, s.config.admin_fee_percent as nat);
    let rest = fee - share;
    let card = Some(VoteCardView::fresh(title, description, s.author.key, now));
    if !s.config.is_initialized {
        Err(VoteError::ProgramNotInitialized)
    } else if s.card is Some {
        Err(VoteError::CardAlreadyExists)
    } else if title.len() > MAX_TITLE_LEN {
        Err(VoteError::TitleTooLong)
    } else if description.len() > MAX_DESCRIPTION_LEN {
        Err(VoteError::DescriptionTooLong)
    } else if s.fee_receiver.key != s.config.fee_receiver {
        Err(VoteError::FeeReceiverMismatch)
    } else if !split_defined(fee as nat, s.config.admin_fee_percent as nat) {
        Err(VoteError::ArithmeticOverflow)
    } else if s.author.lamports < fee {
        Err(VoteError::InsufficientFunds)
    } else if s.author.key == s.fee_receiver.key {
        if s.escrow.lamports + rest > u64::MAX {
            Err(VoteError::ArithmeticOverflow)
        } else {
            Ok(
                CreateTxView {
                    card,
                    escrow: Wallet { lamports: (s.escrow.lamports + rest) as u64, ..s.escrow },
                    author: Wallet { lamports: (s.author.lamports - rest) as u64, ..s.author },
                    config: s.config,
                    fee_receiver: Wallet {
                        lamports: (s.author.lamports - rest) as u64,
                        ..s.fee_receiver
                    },
                },
            )
        }
    } else if s.fee_receiver.lamports + share > u64::MAX {
        Err(VoteError::ArithmeticOverflow)
    } else if s.escrow.lamports + rest > u64::MAX {
        Err(VoteError::ArithmeticOverflow)
    } else {
        Ok(
            CreateTxView {
                card,
                escrow: Wallet { lamports: (s.escrow.lamports + rest) as u64, ..s.escrow },
                author: Wallet { lamports: (s.author.lamports - fee) as u64, ..s.author },
                config: s.config,
                fee_receiver: Wallet {
                    lamports: (s.fee_receiver.lamports + share) as u64,
                    ..s.fee_receiver
                },
            },
        )
    }
}

/// Creates a card with no votes, stamped with `now`, and collects the
/// creation fee. All or nothing.
pub fn create_vote_card(ctx: &mut CreateVoteCard, title: String, description: String, now: i64)
    -> (r: Result<(), VoteError>)
    ensures
        match create_vote_card_result(old(ctx)@, title@, description@, now) {
            Ok(next) => r is Ok && final(ctx)@ == next,
            Err(e) => r == Err::<(), VoteError>(e) && final(ctx)@ == old(ctx)@,
        },
        r is Ok ==> (final(ctx).vote_card matches Some(c) && c@.wf()),
{
    if !ctx.program_admin.is_initialized() {
        return Err(VoteError::ProgramNotInitialized);
    }
    if ctx.vote_card.is_some() {
        return Err(VoteError::CardAlreadyExists);
    }
    let card = match VoteCard::new(title, description, ctx.author.key, now) {
        Ok(c) => c,
        Err(e) => return Err(e),
    };
    if !(ctx.fee_receiver.key == ctx.program_admin.fee_receiver) {
        return Err(VoteError::FeeReceiverMismatch);
    }
    let fee = ctx.program_admin.create_vote_fee;
    let (share, rest) = match split_fee(fee, ctx.program_admin.admin_fee_percent) {
        Ok(parts) => parts,
        Err(e) => return Err(e),
    };
    if ctx.author.lamports < fee {
        return Err(VoteError::InsufficientFunds);
    }
    let mut author = ctx.author;
    let mut escrow = ctx.vote_card_account;
    if ctx.author.key == ctx.fee_receiver.key {
        match transfer(&mut author, &mut escrow, rest) {
            Ok(()) => {},
            Err(e) => return Err(e),
        }
        ctx.fee_receiver.lamports = author.lamports;
    } else {
        let mut receiver = ctx.fee_receiver;
        match transfer(&mut author, &mut receiver, share) {
            Ok(()) => {},
            Err(e) => return Err(e),
        }
        match transfer(&mut author, &mut escrow, rest) {
            Ok(()) => {},
            Err(e) => return Err(e),
        }
        ctx.fee_receiver = receiver;
    }
    ctx.author = author;
    ctx.vote_card_account = escrow;
    ctx.vote_card = Some(card);
    Ok(())
}

/// Accounts of a change of admin: the configuration, the signing admin and
/// the identity that takes over.
#[derive(Clone, Copy, Debug)]
pub struct TransferAdmin {
    pub program_admin: ProgramAdmin,
    pub current_admin: Pubkey,
    pub new_admin: Pubkey,
}

/// Hands admin rights to `new_admin`. Only the current admin may do so; no
/// fee setting changes.
pub fn transfer_admin(ctx: &mut TransferAdmin) -> (r: Result<(), VoteError>)
    ensures
        !old(ctx).program_admin.is_initialized ==> r == Err::<(), VoteError>(
            VoteError::ProgramNotInitialized,
        ),
        old(ctx).program_admin.is_initialized && old(ctx).current_admin
            != old(ctx).program_admin.admin ==> r == Err::<(), VoteError>(
            VoteError::UnauthorizedAdmin,
        ),
        r is Ok <==> old(ctx).program_admin.is_initialized && old(ctx).current_admin
            == old(ctx).program_admin.admin,
        r is Ok ==> *final(ctx) == (TransferAdmin {
            program_admin: ProgramAdmin { admin: old(ctx).new_admin, ..old(ctx).program_admin },
            ..*old(ctx)
        }),
        r is Err ==> *final(ctx) == *old(ctx),
{
    if !ctx.program_admin.is_initialized() {
        return Err(VoteError::ProgramNotInitialized);
    }
    if !(ctx.current_admin == ctx.program_admin.admin) {
        return Err(VoteError::UnauthorizedAdmin);
    }
    ctx.program_admin.admin = ctx.new_admin;
    Ok(())
}

/// A partial update of the fee settings: each present field replaces the
/// current value; an absent one leaves it alone.
#[derive(Clone, Copy, Debug)]
pub struct FeeConfig {
    pub create_vote_fee: Option<u64>,
    pub cast_vote_fee: Option<u64>,
    pub fee_receiver: Option<Pubkey>,
    pub admin_fee_percent: Option<u8>,
}

impl FeeConfig {
    /// A percent, where given, is at most 100.
    pub open spec fn valid(self) -> bool {
        self.admin_fee_percent matches Some(p) ==> p <= 100
    }

    /// `config` with the present fields of `self` written over it.
    pub open spec fn applied_to(self, config: ProgramAdmin) -> ProgramAdmin {
        ProgramAdmin {
            create_vote_fee: match self.create_vote_fee {
                Some(v) => v,
                None => config.create_vote_fee,
            },
            cast_vote_fee: match self.cast_vote_fee {
                Some(v) => v,
                None => config.cast_vote_fee,
            },
            fee_receiver: match self.fee_receiver {
                Some(v) => v,
                None => config.fee_receiver,
            },
            admin_fee_percent: match self.admin_fee_percent {
                Some(v) => v,
                None => config.admin_fee_percent,
            },
            ..config
        }
    }
}

/// Accounts of a configuration update: the configuration and the signing admin.
#[derive(Clone, Copy, Debug)]
pub struct UpdateProgramConfig {
    pub program_admin: ProgramAdmin,
    pub admin: Pubkey,
}

/// Applies the present fields of `config`. Only the current admin may do so,
/// and a percent above 100 is refused; a refused update changes nothing.
pub fn update_program_config(ctx: &mut UpdateProgramConfig, config: FeeConfig) -> (r: Result<
    (),
    VoteError,
>)
    ensures
        !old(ctx).program_admin.is_initialized ==> r == Err::<(), VoteError>(
            VoteError::ProgramNotInitialized,
        ),
        old(ctx).program_admin.is_initialized && old(ctx).admin != old(ctx).program_admin.admin
            ==> r == Err::<(), VoteError>(VoteError::UnauthorizedAdmin),
        old(ctx).program_admin.is_initialized && old(ctx).admin == old(ctx).program_admin.admin
            && !config.valid() ==> r == Err::<(), VoteError>(VoteError::InvalidFeePercent),
        r is Ok <==> old(ctx).program_admin.is_initialized && old(ctx).admin
            == old(ctx).program_admin.admin && config.valid(),
        r is Ok ==> final(ctx).program_admin == config.applied_to(old(ctx).program_admin)
            && final(ctx).admin == old(ctx).admin,
        r is Err ==> *final(ctx) == *old(ctx),
        old(ctx).program_admin.wf() ==> final(ctx).program_admin.wf(),
{
    if !ctx.program_admin.is_initialized() {
        return Err(VoteError::ProgramNotInitialized);
    }
    if !(ctx.admin == ctx.program_admin.admin) {
        return Err(VoteError::UnauthorizedAdmin);
    }
    if let Some(percent) = config.admin_fee_percent {
        if percent > crate::fee::MAX_FEE_PERCENT {
            return Err(VoteError::InvalidFeePercent);
        }
    }
    if let Some(fee) = config.create_vote_fee {
        ctx.program_admin.create_vote_fee = fee;
    }
    if let Some(fee) = config.cast_vote_fee {
        ctx.program_admin.cast_vote_fee = fee;
    }
    if let Some(receiver) = config.fee_receiver {
        ctx.program_admin.fee_receiver = receiver;
    }
    if let Some(percent) = config.admin_fee_percent {
        ctx.program_admin.admin_fee_percent = percent;
    }
    Ok(())
}

/// The accounts of a card's closing, as mathematical values.
pub struct CloseTxView {
    pub card: Option<VoteCardView>,
    pub escrow: Wallet,
    pub author: Wallet,
}

/// Closing a card: the record goes, and its whole escrow balance goes to the
/// card's author. Refused where there is no card, the author account is not
/// the card's author, or the author's balance would overflow.
pub open spec fn close_result(s: CloseTxView) -> Result<CloseTxView, VoteError> {
    match s.card {
        None => Err(VoteError::CardNotFound),
        Some(c) => if s.author.key != c.author {
            Err(VoteError::AuthorMismatch)
        } else if s.author.lamports + s.escrow.lamports > u64::MAX {
            Err(VoteError::ArithmeticOverflow)
        } else {
            Ok(
                CloseTxView {
                    card: None,
                    escrow: Wallet { lamports: 0, ..s.escrow },
                    author: Wallet {
                        lamports: (s.author.lamports + s.escrow.lamports) as u64,
                        ..s.author
                    },
                },
            )
        },
    }
}

/// The view of an optional card record.
pub open spec fn card_view(c: Option<VoteCard>) -> Option<VoteCardView> {
    match c {
        Some(c) => Some(c@),
        None => None,
    }
}

fn close_card(vote_card: &mut Option<VoteCard>, escrow: &mut Wallet, author: &mut Wallet) -> (r:
    Result<(), VoteError>)
    ensures
        match close_result(
            CloseTxView { card: card_view(*old(vote_card)), escrow: *old(escrow), author: *old(author) },
        ) {
            Ok(next) => r is Ok && card_view(*final(vote_card)) == next.card && *final(escrow)
                == next.escrow && *final(author) == next.author,
            Err(e) => r == Err::<(), VoteError>(e) && card_view(*final(vote_card)) == card_view(
                *old(vote_card),
            ) && *final(escrow) == *old(escrow) && *final(author) == *old(author),
        },
{
    let card_author = match vote_card {
        Some(c) => c.author,
        None => return Err(VoteError::CardNotFound),
    };
    if !(author.key == card_author) {
        return Err(VoteError::AuthorMismatch);
    }
    let mut from = *escrow;
    let mut to = *author;
    match transfer(&mut from, &mut to, escrow.lamports) {
        Ok(()) => {},
        Err(e) => return Err(e),
    }
    *escrow = from;
    *author = to;
    *vote_card = None;
    Ok(())
}

/// Accounts of an admin's removal of a card: the card and its escrow
/// account, the card's author, the signing admin and the configuration.
#[derive(Clone, Debug)]
pub struct AdminRemoveCard {
    pub vote_card: Option<VoteCard>,
    pub vote_card_account: Wallet,
    pub author: Wallet,
    pub admin: Pubkey,
    pub program_admin: ProgramAdmin,
}

impl AdminRemoveCard {
    pub open spec fn close_view(&self) -> CloseTxView {
        CloseTxView { card: card_view(self.vote_card), escrow: self.vote_card_account, author: self.author }
    }
}

/// Removes a card on the admin's order; its escrow balance goes to the
/// card's author, not to the admin. All or nothing.
pub fn admin_remove_card(ctx: &mut AdminRemoveCard) -> (r: Result<(), VoteError>)
    ensures
        final(ctx).admin == old(ctx).admin,
        final(ctx).program_admin == old(ctx).program_admin,
        !old(ctx).program_admin.is_initialized ==> r == Err::<(), VoteError>(
            VoteError::ProgramNotInitialized,
        ) && final(ctx).close_view() == old(ctx).close_view(),
        old(ctx).program_admin.is_initialized && old(ctx).admin != old(ctx).program_admin.admin
            ==> r == Err::<(), VoteError>(VoteError::UnauthorizedAdmin) && final(ctx).close_view()
            == old(ctx).close_view(),
        old(ctx).program_admin.is_initialized && old(ctx).admin == old(ctx).program_admin.admin
            ==> match close_result(old(ctx).close_view()) {
            Ok(next) => r is Ok && final(ctx).close_view() == next,
            Err(e) => r == Err::<(), VoteError>(e) && final(ctx).close_view()
                == old(ctx).close_view(),
        },
{
    if !ctx.program_admin.is_initialized() {
        return Err(VoteError::ProgramNotInitialized);
    }
    if !(ctx.admin == ctx.program_admin.admin) {
        return Err(VoteError::UnauthorizedAdmin);
    }
    close_card(&mut ctx.vote_card, &mut ctx.vote_card_account, &mut ctx.author)
}

/// Accounts of an author's removal of a card: the card, its escrow account
/// and the signing author.
#[derive(Clone, Debug)]
pub struct RemoveCard {
    pub vote_card: Option<VoteCard>,
    pub vote_card_account: Wallet,
    pub author: Wallet,
}

impl RemoveCard {
    pub open spec fn close_view(&self) -> CloseTxView {
        CloseTxView { card: card_view(self.vote_card), escrow: self.vote_card_account, author: self.author }
    }
}

/// Removes a card on its author's order; the escrow balance goes back to the
/// author. Only the author may do so. All or nothing.
pub fn remove_card(ctx: &mut RemoveCard) -> (r: Result<(), VoteError>)
    ensures
        old(ctx).vote_card is None ==> r == Err::<(), VoteError>(VoteError::CardNotFound),
        old(ctx).vote_card matches Some(c) && c.author != old(ctx).author.key ==> r == Err::<
            (),
            VoteError,
        >(VoteError::UnauthorizedOperation),
        old(ctx).vote_card matches Some(c) && c.author == old(ctx).author.key ==> match close_result(old(ctx).close_view()) {
            Ok(next) => r is Ok && final(ctx).close_view() == next,
            Err(e) => r == Err::<(), VoteError>(e),
        },
        r is Err ==> final(ctx).close_view() == old(ctx).close_view(),
{
    match &ctx.vote_card {
        Some(c) => {
            if !(c.author == ctx.author.key) {
                return Err(VoteError::UnauthorizedOperation);
            }
        },
        None => return Err(VoteError::CardNotFound),
    }
    close_card(&mut ctx.vote_card, &mut ctx.vote_card_account, &mut ctx.author)
}

} // verus!
