//! The gas ledger of one invocation, and the check of a call against its context.

use crate::context::Context;
use crate::outcome::{
    failure_of, log_views, out_of_gas, reverted, EvmResult, ExitError, ExitRevert, Log, LogView,
    PrecompileFailure,
};
use vstd::prelude::*;
use vstd::slice::slice_to_vec;
use vstd::string::StringSliceAdditionalSpecFns;

verus! {

/// The flat cost of emitting a log.
pub const G_LOG: u64 = 375;

/// The cost of each byte of a log's data.
pub const G_LOGDATA: u64 = 8;

/// The cost of each topic of a log.
pub const G_LOGTOPIC: u64 = 375;

/// The mutability that a function declares, as in Solidity.
#[derive(Copy, Clone, Debug, PartialEq, Eq, Structural)]
pub enum FunctionModifier {
    /// The function does not change state.
    View,
    /// The function changes state and refuses funds.
    NonPayable,
    /// The function changes state and accepts funds.
    Payable,
}

/// The mathematical value of a [`Gasometer`]: a budget and what was charged against it.
pub ghost struct GasLedger {
    /// The budget; `None` is no budget.
    pub limit: Option<nat>,
    /// The gas charged so far.
    pub used: nat,
}

impl GasLedger {
    /// The ledger has not charged more than its budget.
    pub open spec fn within_budget(self) -> bool {
        self.limit matches Some(limit) ==> self.used <= limit
    }

    /// Charging `cost` succeeds: the counter can hold the sum, and the budget covers it.
    pub open spec fn affords(self, cost: nat) -> bool {
        &&& self.used + cost <= u64::MAX
        &&& self.limit matches Some(limit) ==> self.used + cost <= limit
    }

    /// The ledger after an attempt to charge `cost`. The charge is applied
    /// whenever the counter can hold the sum, also where the budget does not
    /// cover it.
    pub open spec fn charge(self, cost: nat) -> GasLedger {
        if self.used + cost <= u64::MAX {
            GasLedger { limit: self.limit, used: self.used + cost }
        } else {
            self
        }
    }

    /// The ledger after attempts to charge `costs` in order, up to and
    /// including the first that fails.
    pub open spec fn charge_all(self, costs: Seq<nat>) -> GasLedger
        decreases costs.len(),
    {
        if costs.len() == 0 {
            self
        } else if self.affords(costs[0]) {
            self.charge(costs[0]).charge_all(costs.drop_first())
        } else {
            self.charge(costs[0])
        }
    }

    /// Every charge of `costs`, made in order, succeeds.
    pub open spec fn affords_all(self, costs: Seq<nat>) -> bool
        decreases costs.len(),
    {
        costs.len() == 0 || (self.affords(costs[0]) && self.charge(costs[0]).affords_all(
            costs.drop_first(),
        ))
    }

    /// The ledger after an attempt to charge for a log: nothing is charged
    /// where the cost of the topics or of the data does not fit the counter;
    /// else the flat cost, the topics and the data are charged in this order.
    pub open spec fn charge_log(self, topics: nat, data_len: nat) -> GasLedger {
        if 375 * topics > u64::MAX || 8 * data_len > u64::MAX {
            self
        } else {
            self.charge_all(seq![375nat, 375 * topics, 8 * data_len])
        }
    }

    /// The ledger after attempts to charge for `logs` in order, up to and
    /// including the first that fails.
    pub open spec fn charge_logs(self, logs: Seq<LogView>) -> GasLedger
        decreases logs.len(),
    {
        if logs.len() == 0 {
            self
        } else if self.affords(log_cost(logs[0].topics.len(), logs[0].data.len())) {
            self.charge_log(logs[0].topics.len(), logs[0].data.len()).charge_logs(
                logs.drop_first(),
            )
        } else {
            self.charge_log(logs[0].topics.len(), logs[0].data.len())
        }
    }

    /// What is left of the budget, if there is one and it is not overdrawn.
    pub open spec fn remaining(self) -> Option<nat> {
        match self.limit {
            Some(limit) if self.used <= limit => Some((limit - self.used) as nat),
            _ => None,
        }
    }
}

/// The sum of a sequence of costs.
pub open spec fn total(costs: Seq<nat>) -> nat
    decreases costs.len(),
{
    if costs.len() == 0 {
        0
    } else {
        costs[0] + total(costs.drop_first())
    }
}

/// The cost of a log with `topics` topics and `data_len` bytes of data.
pub open spec fn log_cost(topics: nat, data_len: nat) -> nat {
    375 + 375 * topics + 8 * data_len
}

/// The cost of each of `logs`, in order.
pub open spec fn log_costs(logs: Seq<LogView>) -> Seq<nat> {
    Seq::new(logs.len(), |i: int| log_cost(logs[i].topics.len(), logs[i].data.len()))
}

/// The message of a revert for a call that would change state from a static context.
pub open spec fn static_context_message() -> Seq<u8> {
    "can't call non-static function in static context".spec_bytes()
}

/// The message of a revert for funds sent to a function that refuses them.
pub open spec fn not_payable_message() -> Seq<u8> {
    "function is not payable".spec_bytes()
}

/// The message with which a call is refused, if it is: a call from a static
/// context to a function that is not a view; else funds sent to a function
/// that is not payable.
pub open spec fn modifier_refusal(is_static: bool, value: nat, modifier: FunctionModifier) -> Option<
    Seq<u8>,
> {
    if is_static && modifier != FunctionModifier::View {
        Some(static_context_message())
    } else if modifier != FunctionModifier::Payable && value > 0 {
        Some(not_payable_message())
    } else {
        None
    }
}

/// The ledger of one invocation. Record known costs as early as possible, so
/// that work is not done for a call that cannot pay for it. A revert bills
/// what was recorded up to then.
#[derive(Clone, Copy, Debug)]
pub struct Gasometer {
    target_gas: Option<u64>,
    used_gas: u64,
}

impl View for Gasometer {
    type V = GasLedger;

    closed spec fn view(&self) -> GasLedger {
        GasLedger {
            limit: match self.target_gas {
                Some(limit) => Some(limit as nat),
                None => None,
            },
            used: self.used_gas as nat,
        }
    }
}

impl Gasometer {
    /// A ledger's counter and budget fit 64 bits.
    pub proof fn lemma_view_bounds(&self)
        ensures
            self@.used <= u64::MAX,
            self@.limit matches Some(limit) ==> limit <= u64::MAX,
    {
    }

    /// Creates a ledger with the given budget and nothing charged. `None` is no budget.
    pub fn new(target_gas: Option<u64>) -> (r: Gasometer)
        ensures
            r@.used == 0,
            r@.limit == match target_gas {
                Some(limit) => Some(limit as nat),
                None => None,
            },
            r@.within_budget(),
    {
        Gasometer { target_gas, used_gas: 0 }
    }

    /// The gas charged so far.
    pub fn used_gas(&self) -> (r: u64)
        ensures
            r == self@.used,
    {
        self.used_gas
    }

    /// Charges `cost`. Fails with an out-of-gas error where the counter cannot
    /// hold the sum or the sum exceeds the budget; in the second case the
    /// charge has been applied all the same.
    pub fn record_cost(&mut self, cost: u64) -> (r: EvmResult)
        ensures
            final(self)@ == old(self)@.charge(cost as nat),
            r is Ok <==> old(self)@.affords(cost as nat),
            r is Err ==> failure_of(r) == Some(out_of_gas()),
    {
        match self.used_gas.checked_add(cost) {
            Some(sum) => {
                self.used_gas = sum;
            },
            None => {
                return Err(PrecompileFailure::Error { exit_status: ExitError::OutOfGas });
            },
        }
        match self.target_gas {
            Some(gas_limit) if self.used_gas > gas_limit => Err(
                PrecompileFailure::Error { exit_status: ExitError::OutOfGas },
            ),
            _ => Ok(()),
        }
    }

    /// Charges for a log with `topics` topics and `data_len` bytes of data,
    /// before the log exists: useful where its size is known early.
    pub fn record_log_costs_manual(&mut self, topics: usize, data_len: usize) -> (r: EvmResult)
        ensures
            final(self)@ == old(self)@.charge_log(topics as nat, data_len as nat),
            final(self)@.limit == old(self)@.limit,
            r is Ok <==> old(self)@.affords(log_cost(topics as nat, data_len as nat)),
            r is Ok ==> final(self)@.used == old(self)@.used + log_cost(
                topics as nat,
                data_len as nat,
            ),
            r is Err ==> failure_of(r) == Some(out_of_gas()),
    {
        let topic_cost: u64 = match G_LOGTOPIC.checked_mul(topics as u64) {
            Some(cost) => cost,
            None => {
                return Err(PrecompileFailure::Error { exit_status: ExitError::OutOfGas });
            },
        };
        let data_cost: u64 = match G_LOGDATA.checked_mul(data_len as u64) {
            Some(cost) => cost,
            None => {
                return Err(PrecompileFailure::Error { exit_status: ExitError::OutOfGas });
            },
        };
        proof {
            let costs = seq![375nat, topic_cost as nat, data_cost as nat];
            assert(costs.drop_first() =~= seq![topic_cost as nat, data_cost as nat]);
            assert(costs.drop_first().drop_first() =~= seq![data_cost as nat]);
            assert(costs.drop_first().drop_first().drop_first() =~= Seq::<nat>::empty());
            reveal_with_fuel(GasLedger::charge_all, 4);
        }
        self.record_cost(G_LOG)?;
        self.record_cost(topic_cost)?;
        self.record_cost(data_cost)?;
        Ok(())
    }

    /// Charges for each of `logs` in order, and stops at the first that the
    /// ledger cannot pay for.
    pub fn record_log_costs(&mut self, logs: &[Log]) -> (r: EvmResult)
        ensures
            final(self)@ == old(self)@.charge_logs(log_views(logs@)),
            final(self)@.limit == old(self)@.limit,
            r is Ok <==> old(self)@.affords_all(log_costs(log_views(logs@))),
            r is Ok ==> final(self)@.used == old(self)@.used + total(
                log_costs(log_views(logs@)),
            ),
            r is Err ==> failure_of(r) == Some(out_of_gas()),
    {
        let ghost views = log_views(logs@);
        let ghost costs = log_costs(views);
        let mut i: usize = 0;
        proof {
            assert(views.skip(0) =~= views);
            assert(costs.skip(0) =~= costs);
        }
        while i < logs.len()
            invariant
                i <= logs.len(),
                views == log_views(logs@),
                costs == log_costs(views),
                self@.limit == old(self)@.limit,
                old(self)@.charge_logs(views) == self@.charge_logs(views.skip(i as int)),
                old(self)@.affords_all(costs) == self@.affords_all(costs.skip(i as int)),
                old(self)@.used + total(costs) == self@.used + total(costs.skip(i as int)),
            decreases logs.len() - i,
        {
            proof {
                assert(views.skip(i as int).drop_first() =~= views.skip(i as int + 1));
                assert(costs.skip(i as int).drop_first() =~= costs.skip(i as int + 1));
                assert(views.skip(i as int)[0] == logs@[i as int]@);
                assert(logs@[i as int]@.topics.len() == logs@[i as int].topics@.len());
            }
            let ghost before = self@;
            let log = &logs[i];
            let charged = self.record_log_costs_manual(log.topics.len(), log.data.len());
            if charged.is_err() {
                return charged;
            }
            proof {
                lemma_charge_log_when_afforded(before, log.topics@.len(), log.data@.len());
            }
            i += 1;
        }
        Ok(())
    }

    /// What is left of the budget: `None` where there is no budget, an
    /// out-of-gas error where the budget is overdrawn.
    pub fn remaining_gas(&self) -> (r: EvmResult<Option<u64>>)
        ensures
            match r {
                Ok(None) => self@.limit is None,
                Ok(Some(left)) => self@.limit is Some && self@.remaining() == Some(left as nat),
                Err(e) => self@.limit is Some && !self@.within_budget() && e@ == out_of_gas(),
            },
    {
        match self.target_gas {
            None => Ok(None),
            Some(gas_limit) => match gas_limit.checked_sub(self.used_gas) {
                Some(left) => Ok(Some(left)),
                None => Err(PrecompileFailure::Error { exit_status: ExitError::OutOfGas }),
            },
        }
    }

    /// The revert that carries `output` and bills what was charged so far.
    /// A revert hands its message to the calling contract and costs it no
    /// more than the work done; an error costs it all its gas.
    pub fn revert(&self, output: &[u8]) -> (r: PrecompileFailure)
        ensures
            r@ == reverted(output@, self@.used as u64),
    {
        PrecompileFailure::Revert {
            exit_status: ExitRevert::Reverted,
            output: slice_to_vec(output),
            cost: self.used_gas,
        }
    }

    /// Checks that a function with the given modifier may be called in this
    /// context. A refusal is a revert that bills what was charged so far.
    pub fn check_function_modifier(
        &self,
        context: &Context,
        is_static: bool,
        modifier: FunctionModifier,
    ) -> (r: EvmResult)
        ensures
            failure_of(r) == match modifier_refusal(is_static, context.apparent_value@, modifier) {
                Some(message) => Some(reverted(message, self@.used as u64)),
                None => None,
            },
    {
        if is_static && modifier != FunctionModifier::View {
            return Err(self.revert("can't call non-static function in static context".as_bytes()));
        }
        if modifier != FunctionModifier::Payable && !context.apparent_value.is_zero() {
            return Err(self.revert("function is not payable".as_bytes()));
        }
        Ok(())
    }
}

/// A log that the ledger can pay for is charged its cost, no more and no less.
pub proof fn lemma_charge_log_when_afforded(ledger: GasLedger, topics: nat, data_len: nat)
    requires
        ledger.affords(log_cost(topics, data_len)),
    ensures
        ledger.charge_log(topics, data_len) == ledger.charge(log_cost(topics, data_len)),
{
    let costs = seq![375nat, 375 * topics, 8 * data_len];
    assert(costs.drop_first() =~= seq![375 * topics, 8 * data_len]);
    assert(costs.drop_first().drop_first() =~= seq![8 * data_len]);
    assert(costs.drop_first().drop_first().drop_first() =~= Seq::<nat>::empty());
    reveal_with_fuel(GasLedger::charge_all, 4);
}

} // verus!

verus! {

/// Charges that all succeed add up: the ledger then holds what it held plus
/// the sum of the costs, under the same budget.
pub proof fn lemma_charges_add_up(ledger: GasLedger, costs: Seq<nat>)
    requires
        ledger.affords_all(costs),
    ensures
        ledger.charge_all(costs).used == ledger.used + total(costs),
        ledger.charge_all(costs).limit == ledger.limit,
        costs.len() > 0 ==> ledger.charge_all(costs).within_budget(),
    decreases costs.len(),
{
    if costs.len() > 0 {
        let next = ledger.charge(costs[0]);
        lemma_charges_add_up(next, costs.drop_first());
    }
}

/// A run of charges succeeds if and only if the ledger affords their sum;
/// an empty run succeeds on any ledger.
pub proof fn lemma_affords_all_is_affords_total(ledger: GasLedger, costs: Seq<nat>)
    ensures
        ledger.affords_all(costs) <==> (costs.len() == 0 || ledger.affords(total(costs))),
    decreases costs.len(),
{
    if costs.len() > 0 {
        let rest = costs.drop_first();
        lemma_affords_all_is_affords_total(ledger.charge(costs[0]), rest);
        if rest.len() == 0 {
            assert(total(rest) == 0);
        }
    }
}

/// The budget is a hard ceiling: a run of one or more charges whose sum
/// would take the ledger over its budget fails.
pub proof fn lemma_hard_ceiling(ledger: GasLedger, costs: Seq<nat>)
    requires
        costs.len() > 0,
        ledger.limit matches Some(limit) && ledger.used + total(costs) > limit,
    ensures
        !ledger.affords_all(costs),
{
    lemma_affords_all_is_affords_total(ledger, costs);
}

/// An overdrawn ledger affords nothing more, not even a charge of zero.
pub proof fn lemma_overdrawn_affords_nothing(ledger: GasLedger, cost: nat)
    requires
        !ledger.within_budget(),
    ensures
        !ledger.affords(cost),
        !ledger.charge(cost).within_budget(),
{
}

/// Without a budget a run of charges fails only where the counter cannot hold the sum.
pub proof fn lemma_unmetered_pass_through(ledger: GasLedger, costs: Seq<nat>)
    requires
        ledger.limit is None,
    ensures
        ledger.affords_all(costs) <==> (costs.len() == 0 || ledger.used + total(costs)
            <= u64::MAX),
{
    lemma_affords_all_is_affords_total(ledger, costs);
}

/// Which calls the modifier check lets through, for every call but one
/// that reaches a view function from a context that is not static and
/// without funds: a view function in a static context without funds, a
/// function that is not a view in a context that is not static without funds,
/// and a payable function in a context that is not static with funds.
pub proof fn lemma_modifier_matrix(is_static: bool, value: nat, modifier: FunctionModifier)
    requires
        !(modifier == FunctionModifier::View && !is_static && value == 0),
    ensures
        modifier_refusal(is_static, value, modifier) is None <==> {
            ||| modifier == FunctionModifier::View && is_static && value == 0
            ||| modifier == FunctionModifier::NonPayable && !is_static && value == 0
            ||| modifier == FunctionModifier::Payable && !is_static && value == 0
            ||| modifier == FunctionModifier::Payable && !is_static && value > 0
        },
        modifier_refusal(is_static, value, modifier) matches Some(message) ==> message == if is_static
            && modifier != FunctionModifier::View {
            static_context_message()
        } else {
            not_payable_message()
        },
{
}

} // verus!
