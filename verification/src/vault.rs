//! The vault and its distribution engine.
//!
//! The vault holds its configuration: the base asset, the router, the
//! governance address and the ordered list of held assets. Its operations
//! are pure planners: the caller queries supply and balances, hands the
//! plain values in, and gets back an exact plan of the ledger and token
//! calls to perform. A failed balance query marks its asset as skipped and
//! never aborts a batch; arithmetic overflow in the 256-bit domain aborts
//! the whole operation.

use vstd::prelude::*;

use crate::encoder::{CallShape, SwapFields, spec_encode_swap, swap_tokens_calldata};
use crate::types::{Address, Amount, lemma_amount_value_bound};
use crate::u256::{amount_checked_div, amount_checked_mul};
use crate::words::{pow2_256, zero_bytes};

verus! {

/// The pool fee tier used for every swap the vault issues.
pub const POOL_FEE: u32 = 3000;

/// The fixed-point scale for percentage math: 10^18.
pub const SCALE_FACTOR: u64 = 1000000000000000000;

/// The scale as a mathematical integer.
pub open spec fn scale() -> nat {
    SCALE_FACTOR as nat
}

/// The caller's slice of the pool, in fixed-point units:
/// `amount_out * SCALE / supply`, rounded down.
pub open spec fn percentage_of(amount_out: nat, supply: nat) -> nat
    recommends
        supply > 0,
{
    amount_out * scale() / supply
}

/// One asset's part of a withdrawal: `balance * percentage / SCALE`,
/// rounded down.
pub open spec fn share_of(balance: nat, percentage: nat) -> nat {
    balance * percentage / scale()
}

/// The faults that abort a whole operation.
#[derive(Clone, Copy, PartialEq, Eq, Structural, Debug)]
pub enum VaultError {
    /// The share supply was zero when a withdrawal asked for its
    /// percentage of it.
    DivisionByZero,
    /// A 256-bit product overflowed; nothing is allowed to wrap silently.
    ArithmeticOverflow,
}

/// An `approve(spender, amount)` call to make on a token.
#[derive(Debug)]
pub struct ApproveCall {
    pub token: Address,
    pub spender: Address,
    pub amount: Amount,
}

/// A `transfer(to, amount)` call to make on a token.
#[derive(Debug)]
pub struct TransferCall {
    pub token: Address,
    pub to: Address,
    pub amount: Amount,
}

/// A `transferFrom(from, to, amount)` call to make on a token.
#[derive(Debug)]
pub struct TransferFromCall {
    pub token: Address,
    pub from: Address,
    pub to: Address,
    pub amount: Amount,
}

/// What the engine decided for one held asset of a withdrawal.
#[derive(Debug)]
pub enum AssetOutcome {
    /// The balance query failed; the asset is skipped and the batch goes
    /// on.
    QueryFailed,
    /// The asset's share rounded down to zero; nothing to do.
    NoShare,
    /// A non-base asset: approve the router for the share, then send it
    /// the encoded swap into the base asset.
    SwapToBase { approve: ApproveCall, amount: Amount, calldata: Vec<u8> },
    /// The base asset itself: transfer the share straight to the caller.
    TransferOut { transfer: TransferCall },
}

/// Everything a withdrawal performs: one outcome per held asset, in list
/// order, then an unconditional burn of the caller's shares.
#[derive(Debug)]
pub struct WithdrawPlan {
    pub outcomes: Vec<AssetOutcome>,
    pub burn_from: Address,
    pub burn_amount: Amount,
}

/// What the engine decided for one index of a rebalance.
#[derive(Debug)]
pub enum RebalanceOutcome {
    /// The source balance query failed; the index is skipped.
    QueryFailed,
    /// The source balance was zero; nothing to do.
    NoBalance,
    /// Approve the router for the hinted amount, then send it the encoded
    /// swap.
    Swap { approve: ApproveCall, amount: Amount, calldata: Vec<u8> },
}

/// Everything a rebalance performs: one outcome per zipped index.
#[derive(Debug)]
pub struct RebalancePlan {
    pub outcomes: Vec<RebalanceOutcome>,
}

/// Everything a deposit performs: pull the base asset in, then mint the
/// same amount of shares.
#[derive(Debug)]
pub struct DepositPlan {
    pub transfer_from: TransferFromCall,
    pub mint_to: Address,
    pub mint_amount: Amount,
}

/// A well-formed optional balance: when the query succeeded the amount has
/// its 32 bytes.
pub open spec fn opt_amount_wf(bal: Option<Amount>) -> bool {
    match bal {
        Some(b) => b.wf(),
        None => true,
    }
}

/// Whether computing this asset's share of a withdrawal would overflow 256
/// bits.
pub open spec fn share_overflows(bal: Option<Amount>, percentage: nat) -> bool {
    match bal {
        Some(b) => b.value() * percentage >= pow2_256(),
        None => false,
    }
}

/// Whether any queried balance in the list would overflow its share
/// computation.
pub open spec fn any_share_overflow(balances: Seq<Option<Amount>>, percentage: nat) -> bool {
    exists|i: int| 0 <= i < balances.len() && share_overflows(#[trigger] balances[i], percentage)
}

/// The number of indices a rebalance processes: the two input arrays are
/// zipped up to the shorter length and the excess is ignored.
pub open spec fn pair_count(a: nat, b: nat) -> nat {
    if a < b {
        a
    } else {
        b
    }
}

/// The pooled vault: its configuration and the planners that drive it.
pub struct Vault {
    /// The governance address allowed to steer the vault.
    pub metric_address: Address,
    /// The base asset everything settles into.
    pub usdc_address: Address,
    /// The exchange router swaps are sent to.
    pub router_address: Address,
    /// The held assets, in processing order; duplicates are allowed and
    /// processed independently.
    pub enabled_tokens: Vec<Address>,
}

/// What a correct withdrawal decided for one held asset, given its queried
/// balance and the caller's percentage.
pub open spec fn withdraw_outcome_ok(
    v: Vault,
    caller: Address,
    vault_addr: Address,
    o: AssetOutcome,
    token: Address,
    bal: Option<Amount>,
    percentage: nat,
) -> bool {
    match bal {
        None => o is QueryFailed,
        Some(b) => if share_of(b.value(), percentage) == 0 {
            o is NoShare
        } else if token@ != v.usdc_address@ {
            o matches AssetOutcome::SwapToBase { approve, amount, calldata }
                && approve.token@ == token@ && approve.spender@ == v.router_address@
                && approve.amount.wf() && approve.amount.value() == share_of(
                b.value(),
                percentage,
            ) && amount.wf() && amount.value() == share_of(b.value(), percentage) && calldata@
                == spec_encode_swap(
                SwapFields {
                    token_in: token@,
                    token_out: v.usdc_address@,
                    fee: POOL_FEE,
                    recipient: vault_addr@,
                    deadline: None,
                    amount_in: amount@,
                    amount_out_minimum: zero_bytes(32),
                    sqrt_price_limit_x96: zero_bytes(32),
                },
                CallShape::Flat,
            )
        } else {
            o matches AssetOutcome::TransferOut { transfer } && transfer.token@ == token@
                && transfer.to@ == caller@ && transfer.amount.wf() && transfer.amount.value()
                == share_of(b.value(), percentage)
        },
    }
}

/// A withdrawal plan is right when it has one correct outcome per held
/// asset and burns the caller's full amount.
pub open spec fn withdraw_plan_matches(
    v: Vault,
    caller: Address,
    vault_addr: Address,
    amount_out: Amount,
    balances: Seq<Option<Amount>>,
    percentage: nat,
    plan: WithdrawPlan,
) -> bool {
    &&& plan.outcomes@.len() == balances.len()
    &&& forall|i: int|
        0 <= i < balances.len() ==> withdraw_outcome_ok(
            v,
            caller,
            vault_addr,
            #[trigger] plan.outcomes@[i],
            v.enabled_tokens@[i],
            balances[i],
            percentage,
        )
    &&& plan.burn_from@ == caller@
    &&& plan.burn_amount.wf()
    &&& plan.burn_amount@ == amount_out@
}

/// What a correct rebalance decided for one zipped index, given the flag's
/// direction and the queried source balance.
pub open spec fn rebalance_outcome_ok(
    v: Vault,
    vault_addr: Address,
    token: Address,
    zero_to_one: bool,
    hint: Amount,
    bal: Option<Amount>,
    o: RebalanceOutcome,
) -> bool {
    let source = if zero_to_one {
        token@
    } else {
        v.usdc_address@
    };
    let target = if zero_to_one {
        v.usdc_address@
    } else {
        token@
    };
    match bal {
        None => o is QueryFailed,
        Some(b) => if b.value() == 0 {
            o is NoBalance
        } else {
            o matches RebalanceOutcome::Swap { approve, amount, calldata } && approve.token@
                == source && approve.spender@ == v.router_address@ && approve.amount@ == hint@
                && amount@ == hint@ && calldata@ == spec_encode_swap(
                SwapFields {
                    token_in: source,
                    token_out: target,
                    fee: POOL_FEE,
                    recipient: vault_addr@,
                    deadline: None,
                    amount_in: hint@,
                    amount_out_minimum: zero_bytes(32),
                    sqrt_price_limit_x96: zero_bytes(32),
                },
                CallShape::Flat,
            )
        },
    }
}

/// The caller's percentage of the pool, in fixed-point units.
///
/// Fails with `DivisionByZero` exactly when the supply is zero, and with
/// `ArithmeticOverflow` exactly when `amount_out * SCALE` does not fit in
/// 256 bits.
pub fn compute_percentage(amount_out: &Amount, supply: &Amount) -> (r: Result<Amount, VaultError>)
    requires
        amount_out.wf(),
        supply.wf(),
    ensures
        match r {
            Ok(p) => supply.value() != 0 && amount_out.value() * scale() < pow2_256() && p.wf()
                && p.value() == percentage_of(amount_out.value(), supply.value()),
            Err(VaultError::DivisionByZero) => supply.value() == 0,
            Err(VaultError::ArithmeticOverflow) => supply.value() != 0 && amount_out.value()
                * scale() >= pow2_256(),
        },
{
    if supply.is_zero() {
        return Err(VaultError::DivisionByZero);
    }
    let scale_amount = Amount::from_u64(SCALE_FACTOR);
    let product = match amount_checked_mul(amount_out, &scale_amount) {
        Some(p) => p,
        None => {
            return Err(VaultError::ArithmeticOverflow);
        },
    };
    proof {
        lemma_amount_value_bound(&product);
    }
    match amount_checked_div(&product, supply) {
        Some(q) => Ok(q),
        None => Err(VaultError::DivisionByZero),
    }
}

/// One asset's share of a withdrawal: `balance * percentage / SCALE`,
/// rounded down.
///
/// Fails with `ArithmeticOverflow` exactly when the product does not fit
/// in 256 bits.
pub fn compute_share(balance: &Amount, percentage: &Amount) -> (r: Result<Amount, VaultError>)
    requires
        balance.wf(),
        percentage.wf(),
    ensures
        match r {
            Ok(s) => balance.value() * percentage.value() < pow2_256() && s.wf() && s.value()
                == share_of(balance.value(), percentage.value()),
            Err(VaultError::ArithmeticOverflow) => balance.value() * percentage.value()
                >= pow2_256(),
            Err(VaultError::DivisionByZero) => false,
        },
{
    let scale_amount = Amount::from_u64(SCALE_FACTOR);
    let product = match amount_checked_mul(balance, percentage) {
        Some(p) => p,
        None => {
            return Err(VaultError::ArithmeticOverflow);
        },
    };
    proof {
        lemma_amount_value_bound(&product);
    }
    match amount_checked_div(&product, &scale_amount) {
        Some(q) => Ok(q),
        None => Err(VaultError::DivisionByZero),
    }
}

impl Vault {
    /// Every configured address has its 20 bytes.
    pub open spec fn wf(&self) -> bool {
        &&& self.metric_address.wf()
        &&& self.usdc_address.wf()
        &&& self.router_address.wf()
        &&& forall|i: int|
            0 <= i < self.enabled_tokens@.len() ==> (#[trigger] self.enabled_tokens@[i]).wf()
    }

    /// A vault with zeroed configuration, waiting for `initialize`.
    pub fn new() -> (r: Vault)
        ensures
            r.wf(),
            r.metric_address@ == zero_bytes(20),
            r.usdc_address@ == zero_bytes(20),
            r.router_address@ == zero_bytes(20),
            r.enabled_tokens@.len() == 0,
    {
        Vault {
            metric_address: Address::zero(),
            usdc_address: Address::zero(),
            router_address: Address::zero(),
            enabled_tokens: Vec::new(),
        }
    }

    /// Replaces the whole configuration: governance, base asset, router
    /// and the held-asset list.
    pub fn initialize(
        &mut self,
        metric_address: Address,
        usdc_address: Address,
        router_address: Address,
        enabled_tokens: Vec<Address>,
    )
        requires
            metric_address.wf(),
            usdc_address.wf(),
            router_address.wf(),
            forall|i: int| 0 <= i < enabled_tokens@.len() ==> (#[trigger] enabled_tokens@[i]).wf(),
        ensures
            final(self).wf(),
            final(self).metric_address == metric_address,
            final(self).usdc_address == usdc_address,
            final(self).router_address == router_address,
            final(self).enabled_tokens == enabled_tokens,
    {
        self.metric_address = metric_address;
        self.usdc_address = usdc_address;
        self.router_address = router_address;
        self.enabled_tokens = enabled_tokens;
    }

    /// Plans a deposit: pull `amount_in` of the base asset from the caller
    /// into the vault, then mint the caller the same amount of shares.
    pub fn deposit(&self, caller: &Address, vault_address: &Address, amount_in: &Amount) -> (r:
        DepositPlan)
        requires
            self.wf(),
            caller.wf(),
            vault_address.wf(),
            amount_in.wf(),
        ensures
            r.transfer_from.token@ == self.usdc_address@,
            r.transfer_from.from@ == caller@,
            r.transfer_from.to@ == vault_address@,
            r.transfer_from.amount@ == amount_in@,
            r.mint_to@ == caller@,
            r.mint_amount@ == amount_in@,
    {
        DepositPlan {
            transfer_from: TransferFromCall {
                token: self.usdc_address.copied(),
                from: caller.copied(),
                to: vault_address.copied(),
                amount: amount_in.copied(),
            },
            mint_to: caller.copied(),
            mint_amount: amount_in.copied(),
        }
    }

    /// Plans a withdrawal.
    ///
    /// `balances[i]` is the result of querying held asset `i`'s balance:
    /// `None` when the query failed. The plan has one outcome per asset —
    /// a failed query or a zero share skips the asset, the base asset is
    /// transferred directly, everything else is approved and swapped into
    /// the base asset — and always ends by burning the caller's full
    /// `amount_out`, whatever the outcomes were. A zero share supply fails
    /// with `DivisionByZero`; a 256-bit overflow anywhere aborts the whole
    /// operation with `ArithmeticOverflow`.
    #[verifier::loop_isolation(false)]
    pub fn withdraw(
        &self,
        caller: &Address,
        vault_address: &Address,
        amount_out: &Amount,
        supply: &Amount,
        balances: &Vec<Option<Amount>>,
    ) -> (r: Result<WithdrawPlan, VaultError>)
        requires
            self.wf(),
            caller.wf(),
            vault_address.wf(),
            amount_out.wf(),
            supply.wf(),
            balances@.len() == self.enabled_tokens@.len(),
            forall|i: int| 0 <= i < balances@.len() ==> opt_amount_wf(#[trigger] balances@[i]),
        ensures
            match r {
                Ok(plan) => supply.value() != 0 && amount_out.value() * scale() < pow2_256()
                    && !any_share_overflow(
                    balances@,
                    percentage_of(amount_out.value(), supply.value()),
                ) && withdraw_plan_matches(
                    *self,
                    *caller,
                    *vault_address,
                    *amount_out,
                    balances@,
                    percentage_of(amount_out.value(), supply.value()),
                    plan,
                ),
                Err(VaultError::DivisionByZero) => supply.value() == 0,
                Err(VaultError::ArithmeticOverflow) => supply.value() != 0 && (amount_out.value()
                    * scale() >= pow2_256() || any_share_overflow(
                    balances@,
                    percentage_of(amount_out.value(), supply.value()),
                )),
            },
    {
        let percentage = match compute_percentage(amount_out, supply) {
            Ok(p) => p,
            Err(e) => {
                return Err(e);
            },
        };
        let ghost pct: nat = percentage_of(amount_out.value(), supply.value());
        let mut outcomes: Vec<AssetOutcome> = Vec::new();
        let mut i: usize = 0;
        while i < self.enabled_tokens.len()
            invariant
                0 <= i <= self.enabled_tokens@.len(),
                outcomes@.len() == i,
                forall|j: int|
                    0 <= j < i ==> withdraw_outcome_ok(
                        *self,
                        *caller,
                        *vault_address,
                        #[trigger] outcomes@[j],
                        self.enabled_tokens@[j],
                        balances@[j],
                        pct,
                    ),
                forall|j: int| 0 <= j < i ==> !share_overflows(#[trigger] balances@[j], pct),
            decreases self.enabled_tokens@.len() - i,
        {
            let token = &self.enabled_tokens[i];
            match &balances[i] {
                None => {
                    outcomes.push(AssetOutcome::QueryFailed);
                },
                Some(balance) => {
                    let share = match compute_share(balance, &percentage) {
                        Ok(s) => s,
                        Err(e) => {
                            proof {
                                assert(share_overflows(balances@[i as int], pct));
                            }
                            return Err(e);
                        },
                    };
                    if share.is_zero() {
                        outcomes.push(AssetOutcome::NoShare);
                    } else if !token.eq_addr(&self.usdc_address) {
                        let minimum_out = Amount::zero();
                        let calldata = swap_tokens_calldata(
                            token,
                            &self.usdc_address,
                            POOL_FEE,
                            &share,
                            &minimum_out,
                            vault_address,
                        );
                        let approve = ApproveCall {
                            token: token.copied(),
                            spender: self.router_address.copied(),
                            amount: share.copied(),
                        };
                        outcomes.push(AssetOutcome::SwapToBase { approve, amount: share, calldata });
                    } else {
                        let transfer = TransferCall {
                            token: token.copied(),
                            to: caller.copied(),
                            amount: share,
                        };
                        outcomes.push(AssetOutcome::TransferOut { transfer });
                    }
                },
            }
            i = i + 1;
        }
        Ok(
            WithdrawPlan {
                outcomes,
                burn_from: caller.copied(),
                burn_amount: amount_out.copied(),
            },
        )
    }

    /// Plans a rebalance.
    ///
    /// The token and direction arrays are zipped up to the shorter length;
    /// excess entries of either are silently ignored. For each index, a
    /// true flag swaps the token into the base asset and a false flag
    /// swaps the base asset into the token; `balances[i]` is the queried
    /// balance of the source side. A failed query or a zero source
    /// balance skips the index. The swap amount is always the caller's
    /// hint, never the queried balance.
    #[verifier::loop_isolation(false)]
    pub fn rebalance(
        &self,
        vault_address: &Address,
        tokens_to_swap: &Vec<Address>,
        zero_to_one: &Vec<bool>,
        amount_in: &Vec<Amount>,
        balances: &Vec<Option<Amount>>,
    ) -> (r: RebalancePlan)
        requires
            self.wf(),
            vault_address.wf(),
            forall|i: int| 0 <= i < tokens_to_swap@.len() ==> (#[trigger] tokens_to_swap@[i]).wf(),
            amount_in@.len() >= pair_count(tokens_to_swap@.len(), zero_to_one@.len()),
            forall|i: int| 0 <= i < amount_in@.len() ==> (#[trigger] amount_in@[i]).wf(),
            balances@.len() == pair_count(tokens_to_swap@.len(), zero_to_one@.len()),
            forall|i: int| 0 <= i < balances@.len() ==> opt_amount_wf(#[trigger] balances@[i]),
        ensures
            r.outcomes@.len() == pair_count(tokens_to_swap@.len(), zero_to_one@.len()),
            forall|i: int|
                0 <= i < r.outcomes@.len() ==> rebalance_outcome_ok(
                    *self,
                    *vault_address,
                    tokens_to_swap@[i],
                    zero_to_one@[i],
                    amount_in@[i],
                    balances@[i],
                    #[trigger] r.outcomes@[i],
                ),
    {
        let limit = if tokens_to_swap.len() < zero_to_one.len() {
            tokens_to_swap.len()
        } else {
            zero_to_one.len()
        };
        let mut outcomes: Vec<RebalanceOutcome> = Vec::new();
        let mut i: usize = 0;
        while i < limit
            invariant
                0 <= i <= limit,
                outcomes@.len() == i,
                forall|j: int|
                    0 <= j < i ==> rebalance_outcome_ok(
                        *self,
                        *vault_address,
                        tokens_to_swap@[j],
                        zero_to_one@[j],
                        amount_in@[j],
                        balances@[j],
                        #[trigger] outcomes@[j],
                    ),
            decreases limit - i,
        {
            let token = &tokens_to_swap[i];
            let flag = zero_to_one[i];
            let source = if flag {
                token
            } else {
                &self.usdc_address
            };
            let target = if flag {
                &self.usdc_address
            } else {
                token
            };
            match &balances[i] {
                None => {
                    outcomes.push(RebalanceOutcome::QueryFailed);
                },
                Some(balance) => {
                    if balance.is_zero() {
                        outcomes.push(RebalanceOutcome::NoBalance);
                    } else {
                        let hint = &amount_in[i];
                        let minimum_out = Amount::zero();
                        let calldata = swap_tokens_calldata(
                            source,
                            target,
                            POOL_FEE,
                            hint,
                            &minimum_out,
                            vault_address,
                        );
                        let approve = ApproveCall {
                            token: source.copied(),
                            spender: self.router_address.copied(),
                            amount: hint.copied(),
                        };
                        outcomes.push(
                            RebalanceOutcome::Swap { approve, amount: hint.copied(), calldata },
                        );
                    }
                },
            }
            i = i + 1;
        }
        RebalancePlan { outcomes }
    }

    /// Turns a list of balance query results into plain balances: a failed
    /// query reads as zero.
    #[verifier::loop_isolation(false)]
    pub fn vault_balances(&self, balances: &Vec<Option<Amount>>) -> (r: Vec<Amount>)
        requires
            self.wf(),
            balances@.len() == self.enabled_tokens@.len(),
            forall|i: int| 0 <= i < balances@.len() ==> opt_amount_wf(#[trigger] balances@[i]),
        ensures
            r@.len() == balances@.len(),
            forall|i: int|
                0 <= i < balances@.len() ==> match balances@[i] {
                    Some(b) => (#[trigger] r@[i])@ == b@,
                    None => r@[i].wf() && r@[i].value() == 0,
                },
    {
        let mut result: Vec<Amount> = Vec::new();
        let mut i: usize = 0;
        while i < balances.len()
            invariant
                0 <= i <= balances@.len(),
                result@.len() == i,
                forall|j: int|
                    0 <= j < i ==> match balances@[j] {
                        Some(b) => (#[trigger] result@[j])@ == b@,
                        None => result@[j].wf() && result@[j].value() == 0,
                    },
            decreases balances@.len() - i,
        {
            match &balances[i] {
                Some(b) => {
                    result.push(b.copied());
                },
                None => {
                    result.push(Amount::zero());
                },
            }
            i = i + 1;
        }
        result
    }
}

/// A well-formed amount's 32-byte word is determined by its value: a
/// contract that pins a plan's share value thereby pins the exact bytes of
/// the approve amount and the swap calldata built from it.
pub proof fn lemma_amount_word_determined(a1: Amount, a2: Amount)
    requires
        a1.wf(),
        a2.wf(),
        a1.value() == a2.value(),
    ensures
        a1@ == a2@,
{
    crate::words::lemma_be_nat_injective(a1@, a2@);
}

/// A failed balance query never aborts a withdrawal: the plan still burns
/// the caller's full amount, still has one outcome per asset, and every
/// other asset is still processed as usual.
pub proof fn lemma_withdraw_partial_failure(
    v: Vault,
    caller: Address,
    vault_addr: Address,
    amount_out: Amount,
    balances: Seq<Option<Amount>>,
    percentage: nat,
    plan: WithdrawPlan,
    k: int,
)
    requires
        withdraw_plan_matches(v, caller, vault_addr, amount_out, balances, percentage, plan),
        0 <= k < balances.len(),
        balances[k] is None,
    ensures
        plan.burn_amount@ == amount_out@,
        plan.burn_from@ == caller@,
        plan.outcomes@.len() == balances.len(),
        plan.outcomes@[k] is QueryFailed,
        forall|i: int|
            0 <= i < balances.len() && i != k ==> withdraw_outcome_ok(
                v,
                caller,
                vault_addr,
                #[trigger] plan.outcomes@[i],
                v.enabled_tokens@[i],
                balances[i],
                percentage,
            ),
{
}

} // verus!
