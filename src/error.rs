use vstd::prelude::*;

verus! {

/// Every way an instruction of the voting program can be rejected.
#[derive(Clone, Copy, Debug, PartialEq, Eq, Structural)]
pub enum VoteError {
    TitleTooLong,
    DescriptionTooLong,
    AlreadyVoted,
    HasNotVoted,
    UnauthorizedOperation,
    InsufficientBalance,
    RefundFailed,
    UnauthorizedAdmin,
    AdminTransferFailed,
    ProgramNotInitialized,
    InvalidFeePercent,
    /// The admin configuration already exists.
    AlreadyInitialized,
    /// A vote card already exists at the derived address.
    CardAlreadyExists,
    /// A debited account holds less than the amount moved.
    InsufficientFunds,
    /// A credited balance or an intermediate product leaves its integer range.
    ArithmeticOverflow,
    /// The card's voter list is full.
    CapacityExceeded,
    /// The account handed in as fee receiver is not the configured one.
    FeeReceiverMismatch,
    /// No vote card is stored at the given address.
    CardNotFound,
    /// The account handed in as author is not the card's author.
    AuthorMismatch,
}

} // verus!
