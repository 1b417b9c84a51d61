use vstd::prelude::*;

verus! {

/// Fixed-point scale for `purchase_proportion`: a proportion is stored as a
/// numerator over this denominator, so `PROPORTION_SCALE` itself means 1.0
/// (everything to purchase) and 0 means 0.0 (everything to treasury).
///
/// Native currency has 9 decimal places, so the same scale lets `price` be
/// stored as native minor units per whole token.
pub const PROPORTION_SCALE: u64 = 1_000_000_000;

/// Constant that the address derivation mixes into a market identifier, so
/// that a record address is distinct from the market identifier itself. It
/// stands for the identity of this module in the host ledger's address space.
pub const PROGRAM_SEED: u64 = 0x5354_4154_455F_5631;

/// An address in the host ledger's address space, reduced to the one thing the
/// logic reads from it: its identity.
#[derive(Clone, Copy, Debug, PartialEq, Eq, Structural)]
pub struct Address {
    pub value: u64,
}

/// The issuance parameters of the managed token that the engine reads: which
/// mint it is, and its decimal precision.
#[derive(Clone, Copy, Debug, PartialEq, Eq, Structural)]
pub struct MintDescriptor {
    pub address: Address,
    pub decimals: u8,
}

/// The deterministic record address for a market: every party can re-derive
/// it from the market identifier alone, without a stored index.
pub open spec fn spec_derived_address(market: Address) -> Address {
    Address { value: market.value ^ PROGRAM_SEED }
}

/// The derivation witness stored alongside a record and re-checked on access.
pub open spec fn spec_derived_bump(market: Address) -> u8 {
    (market.value % 256) as u8
}

/// Executable form of [`spec_derived_address`].
pub fn derived_address(market: Address) -> (r: Address)
    ensures
        r == spec_derived_address(market),
{
    Address { value: market.value ^ PROGRAM_SEED }
}

/// Executable form of [`spec_derived_bump`].
pub fn derived_bump(market: Address) -> (r: u8)
    ensures
        r == spec_derived_bump(market),
{
    (market.value % 256) as u8
}

/// Caller-supplied fields for registering or updating a configuration record.
///
/// `purchase_proportion` is a fraction in [0, 1] scaled by
/// [`PROPORTION_SCALE`]; `price` is in native minor units per whole token.
#[derive(Clone, Copy, Debug, PartialEq, Eq, Structural)]
pub struct GenericStateInput {
    pub market: Address,
    pub update_authority: Address,
    pub treasury: Address,
    pub mint: Address,
    pub purchase_threshold: u64,
    pub purchase_proportion: u64,
    pub price: u64,
    pub holding_account: Address,
    pub holding_token_account: Address,
    pub index: u64,
}

/// One market's configuration record.
///
/// `market` and `mint` are immutable after creation; `total_spent` is mutated
/// only by the allocation engine; every other field is mutable by
/// `update_authority` alone. `bump` is the stored derivation witness.
#[derive(Clone, Copy, Debug, PartialEq, Eq, Structural)]
pub struct State {
    pub market: Address,
    pub update_authority: Address,
    pub treasury: Address,
    pub mint: Address,
    pub purchase_threshold: u64,
    pub purchase_proportion: u64,
    pub price: u64,
    pub total_spent: u64,
    pub holding_account: Address,
    pub holding_token_account: Address,
    pub index: u64,
    pub bump: u8,
}

impl State {
    /// A record is well formed when its proportion is a genuine fraction in
    /// [0, 1] and its stored witness matches its market's derivation.
    pub open spec fn wf(self) -> bool {
        &&& self.purchase_proportion <= PROPORTION_SCALE
        &&& self.bump == spec_derived_bump(self.market)
    }

    /// The record that registration creates from caller-supplied fields: the
    /// spend accumulator starts at zero and the witness is derived, never
    /// caller-supplied.
    pub open spec fn from_input(input: GenericStateInput) -> State {
        State {
            market: input.market,
            update_authority: input.update_authority,
            treasury: input.treasury,
            mint: input.mint,
            purchase_threshold: input.purchase_threshold,
            purchase_proportion: input.purchase_proportion,
            price: input.price,
            total_spent: 0,
            holding_account: input.holding_account,
            holding_token_account: input.holding_token_account,
            index: input.index,
            bump: spec_derived_bump(input.market),
        }
    }

    /// The record after a field update: every mutable field is overwritten,
    /// while `market`, `mint`, `total_spent`, `index` and `bump` are kept.
    pub open spec fn with_update(self, input: GenericStateInput) -> State {
        State {
            update_authority: input.update_authority,
            treasury: input.treasury,
            purchase_threshold: input.purchase_threshold,
            purchase_proportion: input.purchase_proportion,
            price: input.price,
            holding_account: input.holding_account,
            holding_token_account: input.holding_token_account,
            ..self
        }
    }

    /// The record after a price refresh: `price` alone changes.
    pub open spec fn with_price(self, price: u64) -> State {
        State { price, ..self }
    }
}

/// The accounts an allocation invocation receives, with the caller identity
/// already verified by the host: `payer` is the invoking identity,
/// `state_address` the record's address, and the rest are the collaborator
/// accounts the engine validates and pays into.
#[derive(Clone, Copy, Debug, PartialEq, Eq, Structural)]
pub struct AllocateYield {
    pub payer: Address,
    pub state_address: Address,
    pub mint: MintDescriptor,
    pub treasury: Address,
    pub holding_account: Address,
    pub holding_token_account: Address,
}

/// The accounts a registration receives: `payer` funds the record's storage;
/// no authority check applies (first writer wins, guarded by deployment).
#[derive(Clone, Copy, Debug, PartialEq, Eq, Structural)]
pub struct RegisterState {
    pub payer: Address,
    pub state_address: Address,
}

/// The accounts a field update receives: `payer` is the host-verified caller
/// identity that must equal the record's `update_authority`.
#[derive(Clone, Copy, Debug, PartialEq, Eq, Structural)]
pub struct UpdateState {
    pub payer: Address,
    pub state_address: Address,
}

/// The accounts a price refresh receives; same authority rule as
/// [`UpdateState`], but only `price` may change.
#[derive(Clone, Copy, Debug, PartialEq, Eq, Structural)]
pub struct UpdatePrice {
    pub payer: Address,
    pub state_address: Address,
}

} // verus!
