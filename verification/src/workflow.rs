//! The workflow orchestrator.
//!
//! The orchestrator exposes the externally callable entrypoints and
//! composes the decoder, the parity predicate, the access guard and the
//! chain builder into two workflows: the increment chain and the
//! conditional transfer chain. It holds no mutable state of its own; each
//! entrypoint call establishes a fresh, independent chain, and the data a
//! later step needs is threaded forward inside serialized arguments.
//!
//! A continuation may initiate a new chain, but it cannot itself be
//! resumed by that chain's resolution within the same invocation: the
//! transfer chain returned by the continuation is a new, independent
//! top-level chain. This structural limitation is part of the design.

use vstd::prelude::*;

verus! {

use crate::account::AccountId;
use crate::account::CallContext;
use crate::account::require_self;
use crate::args::args_account;
use crate::args::args_empty;
use crate::args::args_token_account;
use crate::args::args_transfer;
use crate::args::empty_args;
use crate::args::get_num_args;
use crate::args::post_increment_args;
use crate::args::transfer_args;
use crate::chain::CallChainBuilder;
use crate::chain::CallStep;
use crate::chain::Method;
use crate::chain::StepResult;
use crate::chain::SINGLE_CALL_GAS;
use crate::chain::TRANSFER_FROM_NEAR_COST;
use crate::chain::total_gas;
use crate::decode::decode;
use crate::decode::decode_spec;
use crate::error::WorkflowError;

/// The orchestrator. It is stateless: the only shared resource is its
/// own identity, which every entrypoint receives in its `CallContext`.
#[derive(Debug, PartialEq, Eq, Structural)]
pub struct Simulation {}

/// How a continuation left the workflow when it did not fail: either a
/// transfer chain was scheduled, or the parity predicate did not hold and
/// the workflow reached its terminal non-transfer state.
#[derive(Debug, PartialEq, Eq)]
pub enum Outcome {
    /// The counter was even: this transfer chain was scheduled.
    TransferScheduled(Vec<CallStep>),
    /// The counter was odd: the workflow ends here, normally.
    ChainEnded,
}

/// The plan scheduled by the public increment entrypoint: increment the
/// counter, read it back, and re-enter the orchestrator with the
/// transfer-service identity threaded forward.
pub open spec fn is_increment_plan(
    steps: Seq<CallStep>,
    counter: Seq<u8>,
    token: Seq<u8>,
    predecessor: Seq<u8>,
    current: Seq<u8>,
) -> bool {
    &&& steps.len() == 3
    &&& steps[0].target@ == counter
    &&& steps[0].method == Method::Increment
    &&& steps[0].args@ == args_empty()
    &&& steps[0].deposit == 0
    &&& steps[0].gas == SINGLE_CALL_GAS
    &&& steps[1].target@ == counter
    &&& steps[1].method == Method::GetNum
    &&& steps[1].args@ == args_account(predecessor)
    &&& steps[1].deposit == 0
    &&& steps[1].gas == SINGLE_CALL_GAS
    &&& steps[2].target@ == current
    &&& steps[2].method == Method::PostIncrement
    &&& steps[2].args@ == args_token_account(token)
    &&& steps[2].deposit == 0
    &&& steps[2].gas == 3 * SINGLE_CALL_GAS
}

/// The plan scheduled when the parity predicate holds: one transfer of
/// one token unit to the recipient, funded with the fixed deposit, and a
/// final self-continuation to record completion.
pub open spec fn is_transfer_plan(
    steps: Seq<CallStep>,
    token: Seq<u8>,
    recipient: Seq<u8>,
    current: Seq<u8>,
) -> bool {
    &&& steps.len() == 2
    &&& steps[0].target@ == token
    &&& steps[0].method == Method::Transfer
    &&& steps[0].args@ == args_transfer(recipient, 1)
    &&& steps[0].deposit == TRANSFER_FROM_NEAR_COST
    &&& steps[0].gas == SINGLE_CALL_GAS
    &&& steps[1].target@ == current
    &&& steps[1].method == Method::PostTransfer
    &&& steps[1].args@ == args_empty()
    &&& steps[1].deposit == 0
    &&& steps[1].gas == SINGLE_CALL_GAS
}

/// The collaborator interface of the external transfer service: moves
/// `amount` token units to `new_owner_id`. The orchestrator only ever
/// schedules calls to it; no type here implements it.
pub trait ExtFunToken {
    /// Moves `amount` token units to `new_owner_id`.
    fn transfer(&mut self, new_owner_id: AccountId, amount: u128);
}

/// The orchestrator's own continuation interface: the entrypoint that the
/// transfer chain re-enters once it resolves.
pub trait ExtSimulation {
    /// The final continuation. Re-applies the access guard, requires
    /// exactly one attached prior result, requires it be successful
    /// (ignoring its payload), and reports completion.
    fn post_transfer(&mut self, ctx: &CallContext, results: &Vec<StepResult>) -> (r: Result<
        (),
        WorkflowError,
    >)
        ensures
            !ctx.caller_is_self() ==> r == Err::<(), WorkflowError>(WorkflowError::Unauthorized),
            ctx.caller_is_self() && results@.len() != 1 ==> r == Err::<(), WorkflowError>(
                WorkflowError::ShapeViolation,
            ),
            ctx.caller_is_self() && results@.len() == 1 && results@[0] is Failed ==> r == Err::<
                (),
                WorkflowError,
            >(WorkflowError::UpstreamFailed),
            ctx.caller_is_self() && results@.len() == 1 && results@[0] is NotReady ==> r == Err::<
                (),
                WorkflowError,
            >(WorkflowError::UpstreamNotReady),
            ctx.caller_is_self() && results@.len() == 1 && results@[0] is Successful ==> r == Ok::<
                (),
                WorkflowError,
            >(()),
    ;
}

impl Simulation {
    /// A fresh orchestrator. It carries no state.
    pub fn new() -> (r: Self)
        ensures
            r == (Simulation {  }),
    {
        Simulation {  }
    }

    /// The parity predicate: true exactly when `num` is even, read off
    /// the low bit.
    pub fn _is_even(&self, num: u8) -> (r: bool)
        ensures
            r == (num % 2 == 0),
    {
        proof {
            assert((num & 1 == 0) == (num % 2 == 0)) by (bit_vector);
        }
        num & 1 == 0
    }

    /// The public entrypoint: schedules the increment call against the
    /// counter service, the dependent read of the new value, and the
    /// self-continuation that will inspect it, threading the
    /// transfer-service identity forward. Fails only when the attached
    /// compute budget cannot cover the plan.
    pub fn cross_contract_increment(
        &mut self,
        counter_account: &AccountId,
        token_account: &AccountId,
        ctx: &CallContext,
    ) -> (r: Result<Vec<CallStep>, WorkflowError>)
        ensures
            *final(self) == *old(self),
            r is Ok <==> 5 * SINGLE_CALL_GAS <= ctx.prepaid_gas,
            r matches Ok(steps) ==> is_increment_plan(
                steps@,
                counter_account@,
                token_account@,
                ctx.predecessor_account_id@,
                ctx.current_account_id@,
            ),
            r is Err ==> r == Err::<Vec<CallStep>, WorkflowError>(WorkflowError::GasExhausted),
    {
        let step_increment = CallStep {
            target: counter_account.clone(),
            method: Method::Increment,
            args: empty_args(),
            deposit: 0,
            gas: SINGLE_CALL_GAS,
        };
        let step_get_num = CallStep {
            target: counter_account.clone(),
            method: Method::GetNum,
            args: get_num_args(&ctx.predecessor_account_id),
            deposit: 0,
            gas: SINGLE_CALL_GAS,
        };
        let step_continuation = CallStep {
            target: ctx.current_account_id.clone(),
            method: Method::PostIncrement,
            args: post_increment_args(token_account),
            deposit: 0,
            gas: 3 * SINGLE_CALL_GAS,
        };
        let ghost g0 = step_increment;
        let ghost g1 = step_get_num;
        let ghost g2 = step_continuation;
        let mut builder = CallChainBuilder::new();
        builder.schedule(step_increment);
        builder.schedule(step_get_num);
        builder.schedule(step_continuation);
        proof {
            let e = Seq::<CallStep>::empty();
            assert(builder@ == e.push(g0).push(g1).push(g2));
            assert(e.push(g0).drop_last() =~= e);
            assert(e.push(g0).push(g1).drop_last() =~= e.push(g0));
            assert(e.push(g0).push(g1).push(g2).drop_last() =~= e.push(g0).push(g1));
            assert(total_gas(e) == 0);
            assert(total_gas(e.push(g0)) == SINGLE_CALL_GAS);
            assert(total_gas(e.push(g0).push(g1)) == 2 * SINGLE_CALL_GAS);
            assert(total_gas(builder@) == 5 * SINGLE_CALL_GAS);
        }
        builder.into_plan(ctx.prepaid_gas)
    }

    /// The continuation entrypoint that fires once the increment chain
    /// resolves. Preconditions are checked in order: the caller must be
    /// the orchestrator itself; exactly one prior result must be
    /// attached; the result must be successful. The payload is decoded
    /// and the parity predicate decides whether a transfer chain is
    /// scheduled to `token_account`, with the original signer as the
    /// recipient.
    pub fn post_increment(
        &mut self,
        token_account: &AccountId,
        ctx: &CallContext,
        results: &Vec<StepResult>,
    ) -> (r: Result<Outcome, WorkflowError>)
        ensures
            *final(self) == *old(self),
            !ctx.caller_is_self() ==> r == Err::<Outcome, WorkflowError>(
                WorkflowError::Unauthorized,
            ),
            ctx.caller_is_self() && results@.len() != 1 ==> r == Err::<Outcome, WorkflowError>(
                WorkflowError::ShapeViolation,
            ),
            ctx.caller_is_self() && results@.len() == 1 && results@[0] is Failed ==> r == Err::<
                Outcome,
                WorkflowError,
            >(WorkflowError::UpstreamFailed),
            ctx.caller_is_self() && results@.len() == 1 && results@[0] is NotReady ==> r == Err::<
                Outcome,
                WorkflowError,
            >(WorkflowError::UpstreamNotReady),
            ctx.caller_is_self() && results@.len() == 1 ==> (results@[0] matches
                StepResult::Successful(payload) ==> (decode_spec(payload@) matches Err(e) ==> r
                == Err::<Outcome, WorkflowError>(WorkflowError::Decode(e)))),
            ctx.caller_is_self() && results@.len() == 1 ==> (results@[0] matches
                StepResult::Successful(payload) ==> (decode_spec(payload@) matches Ok(num) && num
                % 2 != 0 ==> r == Ok::<Outcome, WorkflowError>(Outcome::ChainEnded))),
            ctx.caller_is_self() && results@.len() == 1 ==> (results@[0] matches
                StepResult::Successful(payload) ==> (decode_spec(payload@) matches Ok(num) && num
                % 2 == 0 && 2 * SINGLE_CALL_GAS <= ctx.prepaid_gas ==> (r matches Ok(
                Outcome::TransferScheduled(steps),
            ) && is_transfer_plan(
                steps@,
                token_account@,
                ctx.signer_account_id@,
                ctx.current_account_id@,
            )))),
            ctx.caller_is_self() && results@.len() == 1 ==> (results@[0] matches
                StepResult::Successful(payload) ==> (decode_spec(payload@) matches Ok(num) && num
                % 2 == 0 && 2 * SINGLE_CALL_GAS > ctx.prepaid_gas ==> r == Err::<
                Outcome,
                WorkflowError,
            >(WorkflowError::GasExhausted))),
    {
        match require_self(&ctx.predecessor_account_id, &ctx.current_account_id) {
            Err(e) => {
                return Err(e);
            },
            Ok(()) => {},
        }
        if results.len() != 1 {
            return Err(WorkflowError::ShapeViolation);
        }
        let payload = match &results[0] {
            StepResult::Successful(payload) => payload,
            StepResult::Failed => {
                return Err(WorkflowError::UpstreamFailed);
            },
            StepResult::NotReady => {
                return Err(WorkflowError::UpstreamNotReady);
            },
        };
        let new_num = match decode(payload) {
            Ok(num) => num,
            Err(e) => {
                return Err(WorkflowError::Decode(e));
            },
        };
        match self.send_token_if_counter_even(new_num, token_account, &ctx.signer_account_id, ctx) {
            Ok(steps) => Ok(Outcome::TransferScheduled(steps)),
            Err(WorkflowError::PredicateUnmet) => Ok(Outcome::ChainEnded),
            Err(e) => Err(e),
        }
    }

    /// The branch point: guarded to the orchestrator itself, it schedules
    /// a transfer of exactly one token unit to `recipient_account` when
    /// `new_num` is even, followed by the final self-continuation. When
    /// the predicate does not hold it fails with `PredicateUnmet`, which
    /// the increment workflow treats as its normal non-transfer ending.
    pub fn send_token_if_counter_even(
        &mut self,
        new_num: u8,
        token_account: &AccountId,
        recipient_account: &AccountId,
        ctx: &CallContext,
    ) -> (r: Result<Vec<CallStep>, WorkflowError>)
        ensures
            *final(self) == *old(self),
            !ctx.caller_is_self() ==> r == Err::<Vec<CallStep>, WorkflowError>(
                WorkflowError::Unauthorized,
            ),
            ctx.caller_is_self() && new_num % 2 != 0 ==> r == Err::<Vec<CallStep>, WorkflowError>(
                WorkflowError::PredicateUnmet,
            ),
            ctx.caller_is_self() && new_num % 2 == 0 && 2 * SINGLE_CALL_GAS <= ctx.prepaid_gas
                ==> (r matches Ok(steps) && is_transfer_plan(
                steps@,
                token_account@,
                recipient_account@,
                ctx.current_account_id@,
            )),
            ctx.caller_is_self() && new_num % 2 == 0 && 2 * SINGLE_CALL_GAS > ctx.prepaid_gas ==> r
                == Err::<Vec<CallStep>, WorkflowError>(WorkflowError::GasExhausted),
    {
        match require_self(&ctx.predecessor_account_id, &ctx.current_account_id) {
            Err(e) => {
                return Err(e);
            },
            Ok(()) => {},
        }
        if !self._is_even(new_num) {
            return Err(WorkflowError::PredicateUnmet);
        }
        let step_transfer = CallStep {
            target: token_account.clone(),
            method: Method::Transfer,
            args: transfer_args(recipient_account, 1),
            deposit: TRANSFER_FROM_NEAR_COST,
            gas: SINGLE_CALL_GAS,
        };
        let step_continuation = CallStep {
            target: ctx.current_account_id.clone(),
            method: Method::PostTransfer,
            args: empty_args(),
            deposit: 0,
            gas: SINGLE_CALL_GAS,
        };
        let ghost g0 = step_transfer;
        let ghost g1 = step_continuation;
        let mut builder = CallChainBuilder::new();
        builder.schedule(step_transfer);
        builder.schedule(step_continuation);
        proof {
            let e = Seq::<CallStep>::empty();
            assert(builder@ == e.push(g0).push(g1));
            assert(e.push(g0).drop_last() =~= e);
            assert(e.push(g0).push(g1).drop_last() =~= e.push(g0));
            assert(total_gas(e) == 0);
            assert(total_gas(e.push(g0)) == SINGLE_CALL_GAS);
            assert(total_gas(builder@) == 2 * SINGLE_CALL_GAS);
        }
        builder.into_plan(ctx.prepaid_gas)
    }
}

impl ExtSimulation for Simulation {
    fn post_transfer(&mut self, ctx: &CallContext, results: &Vec<StepResult>) -> (r: Result<
        (),
        WorkflowError,
    >) {
        match require_self(&ctx.predecessor_account_id, &ctx.current_account_id) {
            Err(e) => {
                return Err(e);
            },
            Ok(()) => {},
        }
        if results.len() != 1 {
            return Err(WorkflowError::ShapeViolation);
        }
        match &results[0] {
            StepResult::Successful(_) => Ok(()),
            StepResult::Failed => Err(WorkflowError::UpstreamFailed),
            StepResult::NotReady => Err(WorkflowError::UpstreamNotReady),
        }
    }
}

} // verus!
