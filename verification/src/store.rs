use vstd::prelude::*;

use crate::allocation::{
    allocate_yield, allocation_applied, allocation_error, AllocationOutcome, LedgerView,
};
use crate::errors::ErrorCode;
use crate::state::{
    derived_address, derived_bump, spec_derived_address, Address, AllocateYield,
    GenericStateInput, RegisterState, State, UpdatePrice, UpdateState, PROPORTION_SCALE,
};
use vstd::assert_seqs_equal;

verus! {

/// One configuration record per market, addressed deterministically from the
/// market identifier. Owns no business logic: it gates read and write access
/// on address-derivation correctness and, for mutation, on authority matching.
pub struct RecordStore {
    pub records: Vec<State>,
}

impl RecordStore {
    /// Every record is well formed and no two records share a market, so a
    /// market determines at most one record.
    pub open spec fn wf(self) -> bool {
        &&& forall|i: int|
            0 <= i < self.records@.len() ==> (#[trigger] self.records@[i]).wf()
        &&& forall|i: int, j: int|
            0 <= i < self.records@.len() && 0 <= j < self.records@.len() && i != j
                ==> #[trigger] self.records@[i].market != #[trigger] self.records@[j].market
    }

    /// Whether a record for `market` is present.
    pub open spec fn spec_contains_market(self, market: Address) -> bool {
        exists|i: int| 0 <= i < self.records@.len() && self.records@[i].market == market
    }

    /// The position of the record for `market`, where one is present.
    pub open spec fn spec_index_of(self, market: Address) -> int {
        choose|i: int| 0 <= i < self.records@.len() && self.records@[i].market == market
    }

    /// The record for `market`, where one is present.
    pub open spec fn spec_record_for(self, market: Address) -> State {
        self.records@[self.spec_index_of(market)]
    }

    /// An empty store.
    pub fn new() -> (r: RecordStore)
        ensures
            r.wf(),
            r.records@.len() == 0,
    {
        RecordStore { records: Vec::new() }
    }
}

/// Finds the record holding `market`, if any.
fn find_by_market(records: &Vec<State>, market: Address) -> (r: Option<usize>)
    ensures
        match r {
            Some(i) => i < records@.len() && records@[i as int].market == market,
            None => forall|j: int| 0 <= j < records@.len() ==> records@[j].market != market,
        },
{
    let mut i: usize = 0;
    while i < records.len()
        invariant
            i <= records@.len(),
            forall|j: int| 0 <= j < i ==> records@[j].market != market,
        decreases records@.len() - i,
    {
        if records[i].market == market {
            return Some(i);
        }
        i = i + 1;
    }
    None
}

/// Overwrites the record at `i`.
fn set_record(records: &mut Vec<State>, i: usize, record: State)
    requires
        i < old(records)@.len(),
    ensures
        final(records)@ == old(records)@.update(i as int, record),
{
    records.remove(i);
    records.insert(i, record);
    proof {
        assert_seqs_equal!(records@ == old(records)@.update(i as int, record));
    }
}

/// Creates the configuration record for `input.market` with the supplied
/// fields. No authority gates registration (the first writer wins; deployment
/// must guard it), but the supplied record address must derive from the market
/// identifier, and at most one record per market can ever exist. The spend
/// accumulator starts at zero and the derivation witness is stored.
pub fn register_state(
    store: &mut RecordStore,
    ctx: &RegisterState,
    input: &GenericStateInput,
) -> (r: Result<(), ErrorCode>)
    requires
        old(store).wf(),
        input.purchase_proportion <= PROPORTION_SCALE,
    ensures
        final(store).wf(),
        ctx.state_address != spec_derived_address(input.market) ==> {
            &&& r == Err::<(), ErrorCode>(ErrorCode::AddressDerivationMismatch)
            &&& *final(store) == *old(store)
        },
        ctx.state_address == spec_derived_address(input.market) && old(store).spec_contains_market(
            input.market,
        ) ==> {
            &&& r == Err::<(), ErrorCode>(ErrorCode::AlreadyExists)
            &&& *final(store) == *old(store)
        },
        ctx.state_address == spec_derived_address(input.market) && !old(
            store,
        ).spec_contains_market(input.market) ==> {
            &&& r == Ok::<(), ErrorCode>(())
            &&& final(store).records@ == old(store).records@.push(State::from_input(*input))
        },
{
    let derived = derived_address(input.market);
    if ctx.state_address != derived {
        return Err(ErrorCode::AddressDerivationMismatch);
    }
    if find_by_market(&store.records, input.market).is_some() {
        return Err(ErrorCode::AlreadyExists);
    }
    let record = State {
        market: input.market,
        update_authority: input.update_authority,
        treasury: input.treasury,
        mint: input.mint,
        purchase_threshold: input.purchase_threshold,
        purchase_proportion: input.purchase_proportion,
        price: input.price,
        total_spent: 0,
        holding_account: input.holding_account,
        holding_token_account: input.holding_token_account,
        index: input.index,
        bump: derived_bump(input.market),
    };
    store.records.push(record);
    Ok(())
}

/// Overwrites the mutable fields of the record for `input.market`, gated by
/// derivation correctness and by the record's update authority. `market`,
/// `mint`, the spend accumulator and the derivation witness never change.
pub fn update_state(
    store: &mut RecordStore,
    ctx: &UpdateState,
    input: &GenericStateInput,
) -> (r: Result<(), ErrorCode>)
    requires
        old(store).wf(),
        input.purchase_proportion <= PROPORTION_SCALE,
    ensures
        final(store).wf(),
        ctx.state_address != spec_derived_address(input.market) ==> {
            &&& r == Err::<(), ErrorCode>(ErrorCode::AddressDerivationMismatch)
            &&& *final(store) == *old(store)
        },
        ctx.state_address == spec_derived_address(input.market) && !old(
            store,
        ).spec_contains_market(input.market) ==> {
            &&& r == Err::<(), ErrorCode>(ErrorCode::RecordNotFound)
            &&& *final(store) == *old(store)
        },
        ctx.state_address == spec_derived_address(input.market) && old(store).spec_contains_market(
            input.market,
        ) && ctx.payer != old(store).spec_record_for(input.market).update_authority ==> {
            &&& r == Err::<(), ErrorCode>(ErrorCode::Unauthorized)
            &&& *final(store) == *old(store)
        },
        ctx.state_address == spec_derived_address(input.market) && old(store).spec_contains_market(
            input.market,
        ) && ctx.payer == old(store).spec_record_for(input.market).update_authority ==> {
            &&& r == Ok::<(), ErrorCode>(())
            &&& final(store).records@ == old(store).records@.update(
                old(store).spec_index_of(input.market),
                old(store).spec_record_for(input.market).with_update(*input),
            )
        },
{
    let derived = derived_address(input.market);
    if ctx.state_address != derived {
        return Err(ErrorCode::AddressDerivationMismatch);
    }
    let found = find_by_market(&store.records, input.market);
    match found {
        None => Err(ErrorCode::RecordNotFound),
        Some(i) => {
            proof {
                lemma_found_index_is_unique(*store, input.market, i as int);
            }
            let record = store.records[i];
            if ctx.payer != record.update_authority {
                return Err(ErrorCode::Unauthorized);
            }
            let updated = State {
                update_authority: input.update_authority,
                treasury: input.treasury,
                purchase_threshold: input.purchase_threshold,
                purchase_proportion: input.purchase_proportion,
                price: input.price,
                holding_account: input.holding_account,
                holding_token_account: input.holding_token_account,
                ..record
            };
            set_record(&mut store.records, i, updated);
            Ok(())
        },
    }
}

/// Overwrites `price` alone, gated like a field update: the narrower mutation
/// capability the authority holds for price refreshes.
pub fn update_price(
    store: &mut RecordStore,
    ctx: &UpdatePrice,
    market: Address,
    price: u64,
) -> (r: Result<(), ErrorCode>)
    requires
        old(store).wf(),
    ensures
        final(store).wf(),
        ctx.state_address != spec_derived_address(market) ==> {
            &&& r == Err::<(), ErrorCode>(ErrorCode::AddressDerivationMismatch)
            &&& *final(store) == *old(store)
        },
        ctx.state_address == spec_derived_address(market) && !old(store).spec_contains_market(
            market,
        ) ==> {
            &&& r == Err::<(), ErrorCode>(ErrorCode::RecordNotFound)
            &&& *final(store) == *old(store)
        },
        ctx.state_address == spec_derived_address(market) && old(store).spec_contains_market(
            market,
        ) && ctx.payer != old(store).spec_record_for(market).update_authority ==> {
            &&& r == Err::<(), ErrorCode>(ErrorCode::Unauthorized)
            &&& *final(store) == *old(store)
        },
        ctx.state_address == spec_derived_address(market) && old(store).spec_contains_market(
            market,
        ) && ctx.payer == old(store).spec_record_for(market).update_authority ==> {
            &&& r == Ok::<(), ErrorCode>(())
            &&& final(store).records@ == old(store).records@.update(
                old(store).spec_index_of(market),
                old(store).spec_record_for(market).with_price(price),
            )
        },
{
    let derived = derived_address(market);
    if ctx.state_address != derived {
        return Err(ErrorCode::AddressDerivationMismatch);
    }
    let found = find_by_market(&store.records, market);
    match found {
        None => Err(ErrorCode::RecordNotFound),
        Some(i) => {
            proof {
                lemma_found_index_is_unique(*store, market, i as int);
            }
            let record = store.records[i];
            if ctx.payer != record.update_authority {
                return Err(ErrorCode::Unauthorized);
            }
            let updated = State { price, ..record };
            set_record(&mut store.records, i, updated);
            Ok(())
        },
    }
}

/// Reads the record for `market`. Never fails for an existing record behind a
/// correctly derived address.
pub fn read_state(store: &RecordStore, state_address: Address, market: Address) -> (r: Result<
    State,
    ErrorCode,
>)
    requires
        store.wf(),
    ensures
        state_address != spec_derived_address(market) ==> r == Err::<State, ErrorCode>(
            ErrorCode::AddressDerivationMismatch,
        ),
        state_address == spec_derived_address(market) && !store.spec_contains_market(market)
            ==> r == Err::<State, ErrorCode>(ErrorCode::RecordNotFound),
        state_address == spec_derived_address(market) && store.spec_contains_market(market)
            ==> r == Ok::<State, ErrorCode>(store.spec_record_for(market)),
{
    let derived = derived_address(market);
    if state_address != derived {
        return Err(ErrorCode::AddressDerivationMismatch);
    }
    let found = find_by_market(&store.records, market);
    match found {
        None => Err(ErrorCode::RecordNotFound),
        Some(i) => {
            proof {
                lemma_found_index_is_unique(*store, market, i as int);
            }
            Ok(store.records[i])
        },
    }
}

/// Runs the allocation engine against the stored record for `market`,
/// persisting the engine's one mutation — the grown spend accumulator — back
/// into the store. Everything else the engine promises (validation order,
/// exact split, balance movement, no mutation on failure) carries over from
/// [`allocate_yield`].
pub fn allocate_yield_in_store(
    store: &mut RecordStore,
    market: Address,
    ctx: &AllocateYield,
    ledger: &mut LedgerView,
) -> (r: Result<AllocationOutcome, ErrorCode>)
    requires
        old(store).wf(),
        ctx.mint.decimals <= 18,
        old(ledger).state_balance + old(ledger).treasury_balance <= u64::MAX,
        old(ledger).state_balance + old(ledger).holding_balance <= u64::MAX,
        old(store).spec_contains_market(market) ==> {
            let rec = old(store).spec_record_for(market);
            &&& 1 <= rec.price
            &&& rec.total_spent + old(ledger).state_balance <= u64::MAX
        },
    ensures
        final(store).wf(),
        !old(store).spec_contains_market(market) ==> {
            &&& r == Err::<AllocationOutcome, ErrorCode>(ErrorCode::RecordNotFound)
            &&& final(store).records@ == old(store).records@
            &&& *final(ledger) == *old(ledger)
        },
        old(store).spec_contains_market(market) ==> {
            let i = old(store).spec_index_of(market);
            let rec = old(store).spec_record_for(market);
            match allocation_error(rec, *ctx, *old(ledger)) {
                Some(e) => {
                    &&& r == Err::<AllocationOutcome, ErrorCode>(e)
                    &&& final(store).records@ == old(store).records@
                    &&& *final(ledger) == *old(ledger)
                },
                None => {
                    &&& r matches Ok(outcome) && allocation_applied(
                        rec,
                        *old(ledger),
                        final(store).records@[i],
                        *final(ledger),
                        outcome,
                        *ctx,
                    )
                    &&& final(store).records@ == old(store).records@.update(
                        i,
                        final(store).records@[i],
                    )
                },
            }
        },
{
    let found = find_by_market(&store.records, market);
    match found {
        None => Err(ErrorCode::RecordNotFound),
        Some(i) => {
            proof {
                lemma_found_index_is_unique(*store, market, i as int);
            }
            let mut record = store.records[i];
            let r = allocate_yield(&mut record, ctx, ledger);
            set_record(&mut store.records, i, record);
            proof {
                if r is Err {
                    assert_seqs_equal!(store.records@ == old(store).records@);
                }
            }
            r
        },
    }
}

/// In a well-formed store an index holding `market` is the one
/// [`RecordStore::spec_index_of`] picks, since markets are unique.
proof fn lemma_found_index_is_unique(store: RecordStore, market: Address, i: int)
    requires
        store.wf(),
        0 <= i < store.records@.len(),
        store.records@[i].market == market,
    ensures
        store.spec_contains_market(market),
        store.spec_index_of(market) == i,
        store.spec_record_for(market) == store.records@[i],
{
    assert(store.spec_contains_market(market));
    let j = store.spec_index_of(market);
    assert(0 <= j < store.records@.len() && store.records@[j].market == market);
}

} // verus!
