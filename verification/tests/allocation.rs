use treasury_controller::allocation::{allocate_yield, split_purchase_amount, LedgerView};
use treasury_controller::errors::ErrorCode;
use treasury_controller::state::{
    derived_address, derived_bump, Address, AllocateYield, MintDescriptor, State,
};

fn addr(value: u64) -> Address {
    Address { value }
}

fn sample_record(market: Address) -> State {
    State {
        market,
        update_authority: addr(1),
        treasury: addr(2),
        mint: addr(3),
        purchase_threshold: 1_000_000_000,
        purchase_proportion: 200_000_000, // 0.2
        price: 50_000_000,                // 0.05 native per whole token
        total_spent: 0,
        holding_account: addr(4),
        holding_token_account: addr(5),
        index: 0,
        bump: derived_bump(market),
    }
}

fn sample_ctx(market: Address) -> AllocateYield {
    AllocateYield {
        payer: addr(9),
        state_address: derived_address(market),
        mint: MintDescriptor { address: addr(3), decimals: 6 },
        treasury: addr(2),
        holding_account: addr(4),
        holding_token_account: addr(5),
    }
}

fn ledger_with_available(available: u64) -> LedgerView {
    LedgerView {
        state_balance: available + 890_880,
        reserved_minimum: 890_880,
        treasury_balance: 50,
        holding_balance: 60,
        holding_token_balance: 10_000_000,
    }
}

#[test]
fn scenario_exact_split_and_burn() {
    let market = addr(7);
    let mut record = sample_record(market);
    let ctx = sample_ctx(market);
    let mut ledger = ledger_with_available(2_000_000_000);

    let outcome = allocate_yield(&mut record, &ctx, &mut ledger).unwrap();

    assert_eq!(outcome.available_amount, 2_000_000_000);
    assert_eq!(outcome.amount_for_purchase, 400_000_000);
    assert_eq!(outcome.amount_for_treasury, 1_600_000_000);
    assert_eq!(outcome.tokens_burned, 8_000_000);
}

#[test]
fn successful_allocation_moves_every_balance() {
    let market = addr(7);
    let mut record = sample_record(market);
    let ctx = sample_ctx(market);
    let mut ledger = ledger_with_available(2_000_000_000);

    allocate_yield(&mut record, &ctx, &mut ledger).unwrap();

    // The record keeps exactly its reserve; each share lands on its target.
    assert_eq!(ledger.state_balance, 890_880);
    assert_eq!(ledger.reserved_minimum, 890_880);
    assert_eq!(ledger.treasury_balance, 50 + 1_600_000_000);
    assert_eq!(ledger.holding_balance, 60 + 400_000_000);
    assert_eq!(ledger.holding_token_balance, 10_000_000 - 8_000_000);
    assert_eq!(record.total_spent, 400_000_000);
}

#[test]
fn shares_sum_to_available_exactly() {
    // Odd amounts whose split truncates: the complement must absorb the rest.
    for (available, proportion) in [
        (1_999_999_999u64, 333_333_333u64),
        (3u64, 500_000_000u64),
        (1u64, 999_999_999u64),
        (987_654_321u64, 123_456_789u64),
    ] {
        let purchase = split_purchase_amount(available, proportion);
        assert!(purchase <= available);
        let treasury = available - purchase;
        assert_eq!(purchase + treasury, available);
    }
}

#[test]
fn proportion_edges_send_everything_one_way() {
    assert_eq!(split_purchase_amount(2_000_000_000, 0), 0);
    assert_eq!(split_purchase_amount(2_000_000_000, 1_000_000_000), 2_000_000_000);
}

#[test]
fn total_spent_accumulates_over_allocations() {
    let market = addr(7);
    let mut record = sample_record(market);
    let ctx = sample_ctx(market);

    let mut ledger = ledger_with_available(2_000_000_000);
    allocate_yield(&mut record, &ctx, &mut ledger).unwrap();
    assert_eq!(record.total_spent, 400_000_000);

    let mut ledger = ledger_with_available(1_000_000_000);
    allocate_yield(&mut record, &ctx, &mut ledger).unwrap();
    assert_eq!(record.total_spent, 400_000_000 + 200_000_000);
}

#[test]
fn threshold_boundary_is_inclusive() {
    let market = addr(7);
    let mut record = sample_record(market);
    let ctx = sample_ctx(market);
    let mut ledger = ledger_with_available(1_000_000_000);

    let outcome = allocate_yield(&mut record, &ctx, &mut ledger).unwrap();
    assert_eq!(outcome.available_amount, 1_000_000_000);
    assert_eq!(outcome.amount_for_purchase, 200_000_000);
    assert_eq!(outcome.amount_for_treasury, 800_000_000);
}

#[test]
fn below_threshold_fails_without_mutation() {
    let market = addr(7);
    let mut record = sample_record(market);
    let ctx = sample_ctx(market);
    let mut ledger = ledger_with_available(999_999_999);
    let record_before = record;
    let ledger_before = ledger;

    let r = allocate_yield(&mut record, &ctx, &mut ledger);

    assert_eq!(r, Err(ErrorCode::PurchaseThresholdExceeded));
    assert_eq!(record, record_before);
    assert_eq!(ledger, ledger_before);
}

#[test]
fn mismatched_treasury_fails_without_mutation() {
    let market = addr(7);
    let mut record = sample_record(market);
    let mut ctx = sample_ctx(market);
    ctx.treasury = addr(42);
    let mut ledger = ledger_with_available(2_000_000_000);
    let record_before = record;
    let ledger_before = ledger;

    let r = allocate_yield(&mut record, &ctx, &mut ledger);

    assert_eq!(r, Err(ErrorCode::InvalidTreasury));
    assert_eq!(record, record_before);
    assert_eq!(ledger, ledger_before);
}

#[test]
fn mismatched_mint_fails_without_mutation() {
    let market = addr(7);
    let mut record = sample_record(market);
    let mut ctx = sample_ctx(market);
    ctx.mint = MintDescriptor { address: addr(43), decimals: 6 };
    let mut ledger = ledger_with_available(2_000_000_000);
    let record_before = record;
    let ledger_before = ledger;

    let r = allocate_yield(&mut record, &ctx, &mut ledger);

    assert_eq!(r, Err(ErrorCode::InvalidMint));
    assert_eq!(record, record_before);
    assert_eq!(ledger, ledger_before);
}

#[test]
fn mismatched_record_address_fails_closed() {
    let market = addr(7);
    let mut record = sample_record(market);
    let mut ctx = sample_ctx(market);
    ctx.state_address = addr(ctx.state_address.value ^ 1);
    let mut ledger = ledger_with_available(2_000_000_000);

    let r = allocate_yield(&mut record, &ctx, &mut ledger);
    assert_eq!(r, Err(ErrorCode::AddressDerivationMismatch));
}

#[test]
fn balance_below_reserve_is_an_integrity_failure() {
    let market = addr(7);
    let mut record = sample_record(market);
    let ctx = sample_ctx(market);
    let mut ledger = LedgerView {
        state_balance: 890_879,
        reserved_minimum: 890_880,
        treasury_balance: 0,
        holding_balance: 0,
        holding_token_balance: 0,
    };
    let ledger_before = ledger;

    let r = allocate_yield(&mut record, &ctx, &mut ledger);

    assert_eq!(r, Err(ErrorCode::BalanceBelowReserve));
    assert_eq!(ledger, ledger_before);
}

#[test]
fn unpayable_burn_fails_without_mutation() {
    let market = addr(7);
    let mut record = sample_record(market);
    let ctx = sample_ctx(market);
    let mut ledger = ledger_with_available(2_000_000_000);
    ledger.holding_token_balance = 7_999_999; // one minor unit short of the burn
    let record_before = record;
    let ledger_before = ledger;

    let r = allocate_yield(&mut record, &ctx, &mut ledger);

    assert_eq!(r, Err(ErrorCode::InsufficientTokenBalance));
    assert_eq!(record, record_before);
    assert_eq!(ledger, ledger_before);
}

#[test]
fn validation_order_reports_treasury_before_mint() {
    let market = addr(7);
    let mut record = sample_record(market);
    let mut ctx = sample_ctx(market);
    ctx.treasury = addr(42);
    ctx.mint = MintDescriptor { address: addr(43), decimals: 6 };
    let mut ledger = ledger_with_available(0);

    let r = allocate_yield(&mut record, &ctx, &mut ledger);
    assert_eq!(r, Err(ErrorCode::InvalidTreasury));
}
