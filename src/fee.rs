use vstd::prelude::*;
use crate::error::VoteError;

verus! {

/// The largest share of a fee, in percent, that may go to the fee receiver.
pub const MAX_FEE_PERCENT: u8 = 100;

/// The receiver's share of `gross` at `percent`: rounded down.
pub open spec fn admin_share(gross: nat, percent: nat) -> nat {
    gross * percent / 100
}

/// The split of `gross` at `percent` is defined when the receiver's share does
/// not exceed the gross amount.
pub open spec fn split_defined(gross: nat, percent: nat) -> bool {
    admin_share(gross, percent) <= gross
}

/// At a percent of at most 100 the receiver's share never exceeds the gross fee.
pub proof fn lemma_share_bounded(gross: nat, percent: nat)
    requires
        percent <= 100,
    ensures
        admin_share(gross, percent) <= gross,
{
    assert(gross * percent <= gross * 100) by (nonlinear_arith)
        requires percent <= 100;
}

/// Splits a gross fee into the receiver's share and the residual that stays
/// in escrow. The product is formed in 128 bits, where it cannot overflow.
pub fn split_fee(gross: u64, percent: u8) -> (r: Result<(u64, u64), VoteError>)
    ensures
        split_defined(gross as nat, percent as nat) ==> r == Ok::<(u64, u64), VoteError>(
            (
                admin_share(gross as nat, percent as nat) as u64,
                (gross - admin_share(gross as nat, percent as nat)) as u64,
            ),
        ),
        !split_defined(gross as nat, percent as nat) ==> r == Err::<(u64, u64), VoteError>(
            VoteError::ArithmeticOverflow,
        ),
        percent <= MAX_FEE_PERCENT ==> r.is_ok(),
{
    proof {
        if percent <= MAX_FEE_PERCENT {
            lemma_share_bounded(gross as nat, percent as nat);
        }
        assert((gross as nat) * (percent as nat) <= 0xffff_ffff_ffff_ffffnat * 255) by (nonlinear_arith)
            requires gross <= 0xffff_ffff_ffff_ffffnat, percent <= 255;
    }
    let product = match (gross as u128).checked_mul(percent as u128) {
        Some(p) => p,
        None => return Err(VoteError::ArithmeticOverflow),
    };
    let share = product / 100;
    if share > gross as u128 {
        return Err(VoteError::ArithmeticOverflow);
    }
    let share = share as u64;
    Ok((share, gross - share))
}

} // verus!
