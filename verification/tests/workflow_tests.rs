use promise_chain::account::{require_self, AccountId, CallContext};
use promise_chain::chain::{
    CallChainBuilder, CallStep, Method, StepResult, SINGLE_CALL_GAS, TRANSFER_FROM_NEAR_COST,
};
use promise_chain::decode::{encode, DecodeError};
use promise_chain::error::WorkflowError;
use promise_chain::workflow::{ExtSimulation, Outcome, Simulation};

fn id(name: &str) -> AccountId {
    AccountId::new(name.as_bytes().to_vec())
}

/// The context an arbitrary external caller produces when invoking the
/// orchestrator deployed as `sim`.
fn public_ctx() -> CallContext {
    CallContext {
        predecessor_account_id: id("alice"),
        current_account_id: id("sim"),
        signer_account_id: id("alice"),
        prepaid_gas: 6 * SINGLE_CALL_GAS,
    }
}

/// The context the orchestrator's own continuations run under.
fn self_ctx() -> CallContext {
    CallContext {
        predecessor_account_id: id("sim"),
        current_account_id: id("sim"),
        signer_account_id: id("alice"),
        prepaid_gas: 3 * SINGLE_CALL_GAS,
    }
}

fn successful(payload: &[u8]) -> Vec<StepResult> {
    vec![StepResult::Successful(payload.to_vec())]
}

#[test]
fn identities_compare_by_name() {
    assert!(id("a").same_as(&id("a")));
    assert!(!id("a").same_as(&id("b")));
    assert!(!id("a").same_as(&id("ab")));
    assert!(require_self(&id("sim"), &id("sim")).is_ok());
    assert_eq!(
        require_self(&id("alice"), &id("sim")),
        Err(WorkflowError::Unauthorized)
    );
}

#[test]
fn parity_predicate_matches_low_bit() {
    let sim = Simulation::new();
    for n in 0..=255u8 {
        assert_eq!(sim._is_even(n), n % 2 == 0);
    }
}

#[test]
fn increment_chain_schedules_three_ordered_steps() {
    let mut sim = Simulation::new();
    let steps = sim
        .cross_contract_increment(&id("counter"), &id("token"), &public_ctx())
        .unwrap();
    assert_eq!(steps.len(), 3);

    assert_eq!(steps[0].target, id("counter"));
    assert_eq!(steps[0].method, Method::Increment);
    assert_eq!(steps[0].args, b"{}".to_vec());
    assert_eq!(steps[0].deposit, 0);
    assert_eq!(steps[0].gas, SINGLE_CALL_GAS);

    assert_eq!(steps[1].target, id("counter"));
    assert_eq!(steps[1].method, Method::GetNum);
    assert_eq!(steps[1].args, b"{\"account\":\"alice\"}".to_vec());
    assert_eq!(steps[1].deposit, 0);
    assert_eq!(steps[1].gas, SINGLE_CALL_GAS);

    assert_eq!(steps[2].target, id("sim"));
    assert_eq!(steps[2].method, Method::PostIncrement);
    assert_eq!(steps[2].args, b"{\"token_account\":\"token\"}".to_vec());
    assert_eq!(steps[2].deposit, 0);
    assert_eq!(steps[2].gas, 3 * SINGLE_CALL_GAS);
}

#[test]
fn increment_chain_fails_when_under_budgeted() {
    let mut sim = Simulation::new();
    let mut ctx = public_ctx();
    ctx.prepaid_gas = 5 * SINGLE_CALL_GAS - 1;
    assert_eq!(
        sim.cross_contract_increment(&id("counter"), &id("token"), &ctx),
        Err(WorkflowError::GasExhausted)
    );
}

#[test]
fn continuation_rejects_external_callers() {
    let mut sim = Simulation::new();
    let ctx = public_ctx();
    assert_eq!(
        sim.post_increment(&id("token"), &ctx, &successful(b"2")),
        Err(WorkflowError::Unauthorized)
    );
    assert_eq!(
        sim.send_token_if_counter_even(2, &id("token"), &id("alice"), &ctx),
        Err(WorkflowError::Unauthorized)
    );
    assert_eq!(
        sim.post_transfer(&ctx, &successful(b"")),
        Err(WorkflowError::Unauthorized)
    );
}

#[test]
fn continuation_rejects_wrong_result_count() {
    let mut sim = Simulation::new();
    let ctx = self_ctx();
    let none: Vec<StepResult> = Vec::new();
    let two = vec![
        StepResult::Successful(b"2".to_vec()),
        StepResult::Successful(b"2".to_vec()),
    ];
    assert_eq!(
        sim.post_increment(&id("token"), &ctx, &none),
        Err(WorkflowError::ShapeViolation)
    );
    assert_eq!(
        sim.post_increment(&id("token"), &ctx, &two),
        Err(WorkflowError::ShapeViolation)
    );
    assert_eq!(sim.post_transfer(&ctx, &none), Err(WorkflowError::ShapeViolation));
    assert_eq!(sim.post_transfer(&ctx, &two), Err(WorkflowError::ShapeViolation));
}

#[test]
fn continuation_rejects_failed_and_not_ready_chains() {
    let mut sim = Simulation::new();
    let ctx = self_ctx();
    assert_eq!(
        sim.post_increment(&id("token"), &ctx, &vec![StepResult::Failed]),
        Err(WorkflowError::UpstreamFailed)
    );
    assert_eq!(
        sim.post_increment(&id("token"), &ctx, &vec![StepResult::NotReady]),
        Err(WorkflowError::UpstreamNotReady)
    );
    assert_eq!(
        sim.post_transfer(&ctx, &vec![StepResult::Failed]),
        Err(WorkflowError::UpstreamFailed)
    );
    assert_eq!(
        sim.post_transfer(&ctx, &vec![StepResult::NotReady]),
        Err(WorkflowError::UpstreamNotReady)
    );
}

#[test]
fn continuation_fails_closed_on_malformed_payloads() {
    let mut sim = Simulation::new();
    let ctx = self_ctx();
    assert_eq!(
        sim.post_increment(&id("token"), &ctx, &successful(b"xyz")),
        Err(WorkflowError::Decode(DecodeError::NotANumber))
    );
    assert_eq!(
        sim.post_increment(&id("token"), &ctx, &vec![StepResult::Successful(vec![0xff])]),
        Err(WorkflowError::Decode(DecodeError::NotUtf8))
    );
}

#[test]
fn transfer_branch_requires_even_number() {
    let mut sim = Simulation::new();
    let ctx = self_ctx();
    assert_eq!(
        sim.send_token_if_counter_even(3, &id("token"), &id("alice"), &ctx),
        Err(WorkflowError::PredicateUnmet)
    );
    let steps = sim
        .send_token_if_counter_even(2, &id("token"), &id("alice"), &ctx)
        .unwrap();
    assert_eq!(steps.len(), 2);
    assert_eq!(steps[0].target, id("token"));
    assert_eq!(steps[0].method, Method::Transfer);
    assert_eq!(
        steps[0].args,
        b"{\"new_owner_id\":\"alice\",\"amount\":\"1\"}".to_vec()
    );
    assert_eq!(steps[0].deposit, TRANSFER_FROM_NEAR_COST);
    assert_eq!(steps[0].gas, SINGLE_CALL_GAS);
    assert_eq!(steps[1].target, id("sim"));
    assert_eq!(steps[1].method, Method::PostTransfer);
    assert_eq!(steps[1].args, b"{}".to_vec());
    assert_eq!(steps[1].deposit, 0);
    assert_eq!(steps[1].gas, SINGLE_CALL_GAS);
}

#[test]
fn transfer_branch_fails_when_under_budgeted() {
    let mut sim = Simulation::new();
    let mut ctx = self_ctx();
    ctx.prepaid_gas = 2 * SINGLE_CALL_GAS - 1;
    assert_eq!(
        sim.send_token_if_counter_even(2, &id("token"), &id("alice"), &ctx),
        Err(WorkflowError::GasExhausted)
    );
}

#[test]
fn embedded_names_are_escaped() {
    let mut sim = Simulation::new();
    let steps = sim
        .send_token_if_counter_even(0, &id("token"), &id("a\"b\\c"), &self_ctx())
        .unwrap();
    assert_eq!(
        steps[0].args,
        b"{\"new_owner_id\":\"a\\\"b\\\\c\",\"amount\":\"1\"}".to_vec()
    );
}

#[test]
fn builder_keeps_schedule_order_and_checks_budget() {
    let mut b = CallChainBuilder::new();
    b.schedule(CallStep {
        target: id("x"),
        method: Method::Increment,
        args: b"{}".to_vec(),
        deposit: 0,
        gas: 10,
    });
    b.schedule(CallStep {
        target: id("y"),
        method: Method::GetNum,
        args: b"{}".to_vec(),
        deposit: 0,
        gas: 20,
    });
    let steps = b.into_plan(30).unwrap();
    assert_eq!(steps.len(), 2);
    assert_eq!(steps[0].target, id("x"));
    assert_eq!(steps[1].target, id("y"));

    let mut b = CallChainBuilder::new();
    b.schedule(CallStep {
        target: id("x"),
        method: Method::Increment,
        args: b"{}".to_vec(),
        deposit: 0,
        gas: 10,
    });
    b.schedule(CallStep {
        target: id("y"),
        method: Method::GetNum,
        args: b"{}".to_vec(),
        deposit: 0,
        gas: 20,
    });
    assert_eq!(b.into_plan(29), Err(WorkflowError::GasExhausted));

    // A budget that would overflow the accumulator is still exhausted.
    let mut b = CallChainBuilder::new();
    for _ in 0..3usize {
        b.schedule(CallStep {
            target: id("x"),
            method: Method::Increment,
            args: b"{}".to_vec(),
            deposit: 0,
            gas: u64::MAX,
        });
    }
    assert_eq!(b.into_plan(u64::MAX), Err(WorkflowError::GasExhausted));
}

/// Runs one full increment chain against an in-memory counter service and
/// hands the continuation its resolved result, as the runtime would.
fn run_increment_chain(sim: &mut Simulation, counter: &mut u8) -> Result<Outcome, WorkflowError> {
    let counter_id = id("counter");
    let token_id = id("token");
    let steps = sim
        .cross_contract_increment(&counter_id, &token_id, &public_ctx())
        .unwrap();

    // Step 1 resolves: the counter service increments.
    assert_eq!(steps[0].method, Method::Increment);
    *counter += 1;

    // Step 2 resolves: the counter service reports its value as an
    // ASCII-decimal payload.
    assert_eq!(steps[1].method, Method::GetNum);
    let payload = encode(*counter as u128);

    // Step 3 resolves: the runtime re-enters the orchestrator with the
    // prior result attached.
    assert_eq!(steps[2].method, Method::PostIncrement);
    sim.post_increment(&token_id, &self_ctx(), &vec![StepResult::Successful(payload)])
}

#[test]
fn odd_counter_ends_without_transfer() {
    let mut sim = Simulation::new();
    let mut counter: u8 = 0;
    // 0 -> 1: odd, so the workflow reaches its terminal non-transfer state.
    let outcome = run_increment_chain(&mut sim, &mut counter).unwrap();
    assert_eq!(counter, 1);
    assert_eq!(outcome, Outcome::ChainEnded);
}

#[test]
fn even_counter_schedules_one_transfer_and_finalizes() {
    let mut sim = Simulation::new();
    let mut counter: u8 = 0;
    // 0 -> 1: odd, no transfer.
    assert_eq!(run_increment_chain(&mut sim, &mut counter).unwrap(), Outcome::ChainEnded);
    // 1 -> 2: even, so exactly one transfer of one unit is scheduled to
    // the signer, followed by the finalizing continuation.
    let outcome = run_increment_chain(&mut sim, &mut counter).unwrap();
    assert_eq!(counter, 2);
    let steps = match outcome {
        Outcome::TransferScheduled(steps) => steps,
        Outcome::ChainEnded => panic!("expected a transfer chain"),
    };
    let transfers: Vec<&CallStep> = steps.iter().filter(|s| s.method == Method::Transfer).collect();
    assert_eq!(transfers.len(), 1);
    assert_eq!(transfers[0].target, id("token"));
    assert_eq!(
        transfers[0].args,
        b"{\"new_owner_id\":\"alice\",\"amount\":\"1\"}".to_vec()
    );

    // The transfer chain resolves successfully; the finalizer accepts it.
    assert_eq!(steps[1].method, Method::PostTransfer);
    assert_eq!(
        sim.post_transfer(&self_ctx(), &vec![StepResult::Successful(Vec::new())]),
        Ok(())
    );
}
