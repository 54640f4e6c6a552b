//! Ordered, dependent call chains.
//!
//! A chain is a sequence of steps where step `k + 1` is gated on the
//! resolution of step `k`: the runtime never reorders or parallelizes
//! dependent steps, and each step has exactly one successor. The library
//! only constructs the plan; the surrounding program hands it to the
//! runtime's scheduler and later hands the resolved results back in.

use vstd::prelude::*;

verus! {

use crate::account::AccountId;
use crate::error::WorkflowError;

/// The compute budget attached to one plain call.
pub const SINGLE_CALL_GAS: u64 = 20_000_000_000_000;

/// The deposit that funds one transfer of a fungible token.
pub const TRANSFER_FROM_NEAR_COST: u128 = 36_500_000_000_000_000_000_000;

/// The method a step invokes on its target service.
#[derive(Clone, Copy, Debug, PartialEq, Eq, Structural)]
pub enum Method {
    /// Counter service: add one to the counter.
    Increment,
    /// Counter service: read the counter as an ASCII-decimal payload.
    GetNum,
    /// Orchestrator: the continuation after the increment chain.
    PostIncrement,
    /// Transfer service: move tokens to a recipient.
    Transfer,
    /// Orchestrator: the continuation after the transfer chain.
    PostTransfer,
}

/// One scheduled call. Immutable once scheduled; its effects are not
/// observable until the runtime resolves it.
#[derive(Debug, PartialEq, Eq)]
pub struct CallStep {
    /// The service the call is addressed to.
    pub target: AccountId,
    /// The method invoked on the target.
    pub method: Method,
    /// The serialized argument payload handed to the method.
    pub args: Vec<u8>,
    /// The value attached to the call.
    pub deposit: u128,
    /// The compute budget attached to the call.
    pub gas: u64,
}

/// The outcome of one scheduled step, produced once per step and consumed
/// exactly once by the step that depends on it. `NotReady` is fatal for
/// this design: there is no retry or poll loop.
#[derive(Debug, PartialEq, Eq)]
pub enum StepResult {
    /// The step resolved and returned this payload.
    Successful(Vec<u8>),
    /// The step resolved and failed.
    Failed,
    /// The step has not resolved.
    NotReady,
}

/// The combined compute budget of a sequence of steps.
pub open spec fn total_gas(steps: Seq<CallStep>) -> int
    decreases steps.len(),
{
    if steps.len() == 0 {
        0
    } else {
        total_gas(steps.drop_last()) + steps.last().gas
    }
}

/// A budget already beyond `limit` can only grow with further steps.
proof fn lemma_total_gas_grows(steps: Seq<CallStep>, j: int, limit: int)
    requires
        0 <= j <= steps.len(),
        total_gas(steps.take(j)) > limit,
    ensures
        total_gas(steps) > limit,
    decreases steps.len() - j,
{
    if j == steps.len() {
        assert(steps.take(j) =~= steps);
    } else {
        assert(steps.take(j + 1).drop_last() =~= steps.take(j));
        assert(steps.take(j + 1).last() == steps[j]);
        lemma_total_gas_grows(steps, j + 1, limit);
    }
}

/// Builds an ordered, dependent sequence of calls. Steps are appended in
/// the order the runtime must resolve them.
pub struct CallChainBuilder {
    steps: Vec<CallStep>,
}

impl View for CallChainBuilder {
    type V = Seq<CallStep>;

    closed spec fn view(&self) -> Seq<CallStep> {
        self.steps@
    }
}

impl CallChainBuilder {
    /// An empty chain.
    pub fn new() -> (r: Self)
        ensures
            r@ == Seq::<CallStep>::empty(),
    {
        CallChainBuilder { steps: Vec::new() }
    }

    /// Appends `step`, scheduled to run strictly after every step already
    /// in the chain resolves.
    pub fn schedule(&mut self, step: CallStep)
        ensures
            final(self)@ == old(self)@.push(step),
    {
        self.steps.push(step);
    }

    /// Hands the plan out, provided the compute budget attached to the
    /// scheduling call covers every step. Under-budgeting is an explicit,
    /// fatal resource-exhaustion error at schedule time.
    pub fn into_plan(self, prepaid_gas: u64) -> (r: Result<Vec<CallStep>, WorkflowError>)
        ensures
            r is Ok <==> total_gas(self@) <= prepaid_gas,
            r matches Ok(steps) ==> steps@ == self@,
            r is Err ==> r == Err::<Vec<CallStep>, WorkflowError>(WorkflowError::GasExhausted),
    {
        let n = self.steps.len();
        let mut sum: u64 = 0;
        let mut i: usize = 0;
        proof {
            assert(self@.take(0) =~= Seq::<CallStep>::empty());
        }
        while i < n
            invariant
                0 <= i <= n,
                n == self@.len(),
                self.steps@ == self@,
                sum == total_gas(self@.take(i as int)),
                sum <= prepaid_gas,
            decreases n - i,
        {
            let g = self.steps[i].gas;
            proof {
                assert(self@.take(i as int + 1).drop_last() =~= self@.take(i as int));
                assert(self@.take(i as int + 1).last() == self@[i as int]);
            }
            if g > prepaid_gas - sum {
                proof {
                    lemma_total_gas_grows(self@, i as int + 1, prepaid_gas as int);
                }
                return Err(WorkflowError::GasExhausted);
            }
            sum = sum + g;
            i = i + 1;
        }
        proof {
            assert(self@.take(n as int) =~= self@);
        }
        Ok(self.steps)
    }
}

} // verus!
