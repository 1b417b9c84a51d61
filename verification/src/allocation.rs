use vstd::prelude::*;

use crate::conversion::{capped_token_minor_units, to_token_minor_units};
use crate::errors::ErrorCode;
use crate::state::{spec_derived_address, AllocateYield, State, PROPORTION_SCALE};
use crate::state::derived_address;
use vstd::arithmetic::div_mod::{
    lemma_div_is_ordered, lemma_div_multiples_vanish, lemma_div_pos_is_pos,
};
use vstd::arithmetic::mul::{
    lemma_mul_is_commutative, lemma_mul_inequality, lemma_mul_nonnegative, lemma_mul_upper_bound,
};

verus! {

/// The engine's view of the host ledger for one invocation: the balances of
/// the accounts it reads and mutates, and the storage reserve the record must
/// retain. The host commits all mutations of one invocation atomically, so one
/// value of this struct before and one after stand for one such commit.
#[derive(Clone, Copy, Debug, PartialEq, Eq, Structural)]
pub struct LedgerView {
    pub state_balance: u64,
    pub reserved_minimum: u64,
    pub treasury_balance: u64,
    pub holding_balance: u64,
    pub holding_token_balance: u64,
}

/// What one successful allocation did, as reported to the caller.
#[derive(Clone, Copy, Debug, PartialEq, Eq, Structural)]
pub struct AllocationOutcome {
    pub available_amount: u64,
    pub amount_for_purchase: u64,
    pub amount_for_treasury: u64,
    pub tokens_burned: u64,
}

/// The purchase share of an available amount: `floor(available * proportion /
/// PROPORTION_SCALE)`, the fraction of the balance directed toward token
/// purchase.
pub open spec fn purchase_share(available: int, proportion: int) -> int {
    (available * proportion) / (PROPORTION_SCALE as int)
}

/// The treasury share: the exact complement of the purchase share, so no
/// native-currency unit is lost or created between the two.
pub open spec fn treasury_share(available: int, proportion: int) -> int {
    available - purchase_share(available, proportion)
}

/// Law: splitting an available amount loses and creates nothing. The purchase
/// share of a proportion in [0, 1] stays within the available amount, and the
/// two shares sum back to it exactly.
pub proof fn lemma_split_conserves_available(available: int, proportion: int)
    requires
        0 <= available,
        0 <= proportion <= PROPORTION_SCALE,
    ensures
        0 <= purchase_share(available, proportion) <= available,
        0 <= treasury_share(available, proportion) <= available,
        purchase_share(available, proportion) + treasury_share(available, proportion)
            == available,
{
    let s = PROPORTION_SCALE as int;
    lemma_mul_nonnegative(available, proportion);
    lemma_div_pos_is_pos(available * proportion, s);
    lemma_mul_inequality(proportion, s, available);
    lemma_mul_is_commutative(available, proportion);
    lemma_mul_is_commutative(available, s);
    lemma_div_is_ordered(available * proportion, available * s, s);
    lemma_div_multiples_vanish(available, s);
}

/// Executable purchase split. The result never exceeds the available amount.
pub fn split_purchase_amount(available: u64, proportion: u64) -> (r: u64)
    requires
        proportion <= PROPORTION_SCALE,
    ensures
        r == purchase_share(available as int, proportion as int),
        r <= available,
{
    proof {
        lemma_split_conserves_available(available as int, proportion as int);
        lemma_mul_upper_bound(
            available as int,
            u64::MAX as int,
            proportion as int,
            u64::MAX as int,
        );
    }
    let wide: u128 = (available as u128) * (proportion as u128);
    let q: u128 = wide / (PROPORTION_SCALE as u128);
    q as u64
}

/// The amount step 3 of an allocation works with: the record's balance beyond
/// its storage reserve.
pub open spec fn spec_available(ledger: LedgerView) -> int {
    ledger.state_balance - ledger.reserved_minimum
}

/// The purchase share of one allocation, over the record and ledger as found.
pub open spec fn spec_amount_for_purchase(record: State, ledger: LedgerView) -> int {
    purchase_share(spec_available(ledger), record.purchase_proportion as int)
}

/// The treasury share of one allocation.
pub open spec fn spec_amount_for_treasury(record: State, ledger: LedgerView) -> int {
    treasury_share(spec_available(ledger), record.purchase_proportion as int)
}

/// The token minor units one allocation buys and destroys.
pub open spec fn spec_tokens_to_burn(record: State, ctx: AllocateYield, ledger: LedgerView) -> int {
    capped_token_minor_units(
        spec_amount_for_purchase(record, ledger),
        record.price as int,
        ctx.mint.decimals as int,
    )
}

/// The first reason an allocation fails, in the order the engine checks, or
/// `None` when it succeeds. Every failure aborts before any mutation.
pub open spec fn allocation_error(record: State, ctx: AllocateYield, ledger: LedgerView) -> Option<
    ErrorCode,
> {
    if ctx.state_address != spec_derived_address(record.market) {
        Some(ErrorCode::AddressDerivationMismatch)
    } else if record.treasury != ctx.treasury {
        Some(ErrorCode::InvalidTreasury)
    } else if record.mint != ctx.mint.address {
        Some(ErrorCode::InvalidMint)
    } else if ledger.state_balance < ledger.reserved_minimum {
        Some(ErrorCode::BalanceBelowReserve)
    } else if spec_available(ledger) < record.purchase_threshold {
        Some(ErrorCode::PurchaseThresholdExceeded)
    } else if ledger.holding_token_balance < spec_tokens_to_burn(record, ctx, ledger) {
        Some(ErrorCode::InsufficientTokenBalance)
    } else {
        None
    }
}

/// How a successful allocation leaves the record, the ledger and the reported
/// outcome, relative to how it found them: the split amounts are exact, the
/// tokens are destroyed from the holding token account, each share lands on
/// its destination, the record's balance keeps exactly its reserve, and the
/// spend accumulator grows by the purchase share.
pub open spec fn allocation_applied(
    old_record: State,
    old_ledger: LedgerView,
    record: State,
    ledger: LedgerView,
    outcome: AllocationOutcome,
    ctx: AllocateYield,
) -> bool {
    let pa = spec_amount_for_purchase(old_record, old_ledger);
    let ta = spec_amount_for_treasury(old_record, old_ledger);
    let tk = spec_tokens_to_burn(old_record, ctx, old_ledger);
    &&& outcome.available_amount == spec_available(old_ledger)
    &&& outcome.amount_for_purchase == pa
    &&& outcome.amount_for_treasury == ta
    &&& outcome.tokens_burned == tk
    &&& record.total_spent == old_record.total_spent + pa
    &&& record == (State { total_spent: record.total_spent, ..old_record })
    &&& ledger.state_balance == old_ledger.state_balance - ta - pa
    &&& ledger.treasury_balance == old_ledger.treasury_balance + ta
    &&& ledger.holding_balance == old_ledger.holding_balance + pa
    &&& ledger.holding_token_balance == old_ledger.holding_token_balance - tk
    &&& ledger.reserved_minimum == old_ledger.reserved_minimum
}

/// Law: however threshold and proportion are configured, a successful
/// allocation pays out exactly the balance beyond the storage reserve. The
/// record's balance afterwards is the reserve itself, to the unit: the
/// reserved minimum is never spendable.
pub proof fn lemma_reserve_never_spent(
    old_record: State,
    old_ledger: LedgerView,
    record: State,
    ledger: LedgerView,
    outcome: AllocationOutcome,
    ctx: AllocateYield,
)
    requires
        old_record.purchase_proportion <= PROPORTION_SCALE,
        old_ledger.reserved_minimum <= old_ledger.state_balance,
        allocation_applied(old_record, old_ledger, record, ledger, outcome, ctx),
    ensures
        ledger.state_balance == old_ledger.reserved_minimum,
{
    lemma_split_conserves_available(
        spec_available(old_ledger),
        old_record.purchase_proportion as int,
    );
}

/// The allocation engine. Validates the supplied collaborator accounts against
/// the record, checks the threshold against the balance beyond the reserve,
/// splits the available amount, destroys the bought tokens from the holding
/// token account, pays each share out, and grows the spend accumulator —
/// or fails before any mutation, leaving record and ledger untouched.
///
/// The price must be positive (a non-positive price is rejected upstream of
/// the conversion) and the sums in `requires` state the machine limits the
/// host ledger itself maintains: no account balance, and no spend total, can
/// outgrow the native currency's 64-bit supply.
pub fn allocate_yield(record: &mut State, ctx: &AllocateYield, ledger: &mut LedgerView) -> (r:
    Result<AllocationOutcome, ErrorCode>)
    requires
        old(record).wf(),
        1 <= old(record).price,
        ctx.mint.decimals <= 18,
        old(ledger).state_balance + old(ledger).treasury_balance <= u64::MAX,
        old(ledger).state_balance + old(ledger).holding_balance <= u64::MAX,
        old(record).total_spent + old(ledger).state_balance <= u64::MAX,
    ensures
        final(record).wf(),
        match allocation_error(*old(record), *ctx, *old(ledger)) {
            Some(e) => {
                &&& r == Err::<AllocationOutcome, ErrorCode>(e)
                &&& *final(record) == *old(record)
                &&& *final(ledger) == *old(ledger)
            },
            None => {
                &&& r matches Ok(outcome) && allocation_applied(
                    *old(record),
                    *old(ledger),
                    *final(record),
                    *final(ledger),
                    outcome,
                    *ctx,
                )
            },
        },
{
    let derived = derived_address(record.market);
    if ctx.state_address != derived {
        return Err(ErrorCode::AddressDerivationMismatch);
    }
    if record.treasury != ctx.treasury {
        return Err(ErrorCode::InvalidTreasury);
    }
    if record.mint != ctx.mint.address {
        return Err(ErrorCode::InvalidMint);
    }
    if ledger.state_balance < ledger.reserved_minimum {
        return Err(ErrorCode::BalanceBelowReserve);
    }
    let available_amount: u64 = ledger.state_balance - ledger.reserved_minimum;
    if available_amount < record.purchase_threshold {
        return Err(ErrorCode::PurchaseThresholdExceeded);
    }
    let amount_for_purchase: u64 = split_purchase_amount(
        available_amount,
        record.purchase_proportion,
    );
    let amount_for_treasury: u64 = available_amount - amount_for_purchase;
    let tokens_to_burn: u64 = to_token_minor_units(
        amount_for_purchase,
        record.price,
        ctx.mint.decimals,
    );
    if ledger.holding_token_balance < tokens_to_burn {
        return Err(ErrorCode::InsufficientTokenBalance);
    }
    // Past this point nothing can fail: all mutations of this invocation land
    // together, as the host's atomic commit would have it.
    ledger.holding_token_balance = ledger.holding_token_balance - tokens_to_burn;
    ledger.state_balance = ledger.state_balance - amount_for_treasury;
    ledger.treasury_balance = ledger.treasury_balance + amount_for_treasury;
    ledger.state_balance = ledger.state_balance - amount_for_purchase;
    ledger.holding_balance = ledger.holding_balance + amount_for_purchase;
    record.total_spent = record.total_spent + amount_for_purchase;
    Ok(
        AllocationOutcome {
            available_amount,
            amount_for_purchase,
            amount_for_treasury,
            tokens_burned: tokens_to_burn,
        },
    )
}

} // verus!
