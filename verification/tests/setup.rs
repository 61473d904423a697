use staking_jobs::account::{derive_account_id, neuron_account_id};
use staking_jobs::commands::setup::{
    covers_setup, default_delays, Command, SetupAction, SetupEvent, SetupJob, SetupPlan,
    SetupState, Stage, UNIT_STAKE_E8S,
};
use staking_jobs::commands::{Failure, Phase};
use staking_jobs::error::Error;
use staking_jobs::governance::generated::{
    ClaimOrRefreshNeuronFromAccountResponse, Command_1, GovernanceError, ManageNeuronResponse,
    NeuronId, Result_1 as ClaimResult,
};
use staking_jobs::identity::IdentityArgs;
use staking_jobs::ledger::{Result_1 as TransferResult, Tokens, TransferError};
use staking_jobs::principal::Principal;

fn governance() -> Principal {
    Principal::from_slice(&[0, 0, 0, 0, 0, 0, 0, 1, 1, 1]).unwrap()
}

fn deposits() -> Principal {
    Principal::from_slice(&[0, 0, 0, 0, 1, 96, 1, 125, 1, 1]).unwrap()
}

fn operator() -> Principal {
    Principal::from_slice(&[1, 2, 3]).unwrap()
}

fn plan(delays: Vec<u32>) -> SetupPlan {
    SetupPlan {
        delays,
        unit_stake: 100_000_000,
        fee: 10_000,
        governance: governance(),
        operator: operator(),
        deposits: deposits(),
    }
}

fn transferred() -> SetupEvent {
    SetupEvent::Transferred(TransferResult::Transferred(5))
}

fn claimed(id: u64) -> SetupEvent {
    SetupEvent::Claimed(ClaimOrRefreshNeuronFromAccountResponse {
        result: Some(ClaimResult::NeuronId(NeuronId { id })),
    })
}

fn configured() -> SetupEvent {
    SetupEvent::NeuronManaged(ManageNeuronResponse { command: Some(Command_1::Configure) })
}

fn hex(bytes: &[u8]) -> String {
    let mut out = String::new();
    for b in bytes {
        out.push_str(&format!("{:02x}", b));
    }
    out
}

#[test]
fn default_delays_span_half_a_year_to_eight_years() {
    assert_eq!(
        default_delays(),
        vec![
            15778800, 31557600, 47336400, 63115200, 78894000, 94672800, 110451600, 126230400,
            142009200, 157788000, 173566800, 189345600, 205124400, 220903200, 236682000, 252460800,
        ]
    );
    assert_eq!(UNIT_STAKE_E8S, 100_000_000);
}

#[test]
fn balance_covers_the_setup_from_the_exact_minimum_on() {
    assert!(covers_setup(1_600_010_000, 16, 100_000_000, 10_000));
    assert!(!covers_setup(1_600_009_999, 16, 100_000_000, 10_000));
    assert!(covers_setup(1_600_010_001, 16, 100_000_000, 10_000));
    assert!(covers_setup(10_000, 0, 100_000_000, 10_000));
    assert!(!covers_setup(9_999, 0, 100_000_000, 10_000));
    assert!(covers_setup(0, 0, 5, 0));
    assert!(covers_setup(u64::MAX, 1, u64::MAX, 0));
    // a requirement beyond any balance is never covered
    assert!(!covers_setup(u64::MAX, 1, u64::MAX, 1));
    assert!(!covers_setup(u64::MAX, 2, u64::MAX, 0));
    assert!(!covers_setup(u64::MAX, usize::MAX, u64::MAX, u64::MAX));
}

#[test]
fn short_balance_fails_without_issuing_any_transfer() {
    let job = SetupJob::new(plan(default_delays()));
    let (job, first) = job.step(SetupEvent::Begin);
    assert_eq!(first, SetupAction::QueryBalance { account: derive_account_id(&operator(), None) });
    assert_eq!(job.phase(), Phase::Checking);
    let (job, second) = job.step(SetupEvent::Balance(1_600_009_999));
    assert_eq!(second, SetupAction::Halt);
    assert_eq!(
        job.failure(),
        Some(Failure { error: Error::InsufficientBalance, phase: Phase::Checking, neuron: None })
    );
    let (job, third) = job.step(transferred());
    assert_eq!(third, SetupAction::Halt);
    assert_eq!(job.phase(), Phase::Failed);
}

#[test]
fn exact_balance_begins_the_funding() {
    let job = SetupJob::new(plan(default_delays()));
    let (job, _) = job.step(SetupEvent::Begin);
    let (job, action) = job.step_with_memo(SetupEvent::Balance(1_600_010_000), 7);
    assert_eq!(
        action,
        SetupAction::Transfer {
            to: neuron_account_id(&governance(), &operator(), 7),
            amount_e8s: 100_000_000,
            memo: 7
        }
    );
    match &action {
        SetupAction::Transfer { to, .. } => assert_eq!(
            hex(&to.to_address()),
            "f791aaef2f903fefc1251026b383c802a9c8a92203a42efb11f27e5934387d14"
        ),
        _ => unreachable!(),
    }
    assert_eq!(
        job.state(),
        &SetupState::Bucket { bucket: 0, stage: Stage::Funding, memo: 7, ids: vec![] }
    );
    assert_eq!(job.phase(), Phase::Funding);
}

#[test]
fn a_full_setup_of_two_buckets_takes_every_step_in_order() {
    let job = SetupJob::new(plan(vec![100, 200]));
    let mut actions = Vec::new();
    let mut job = job;
    let events: Vec<(SetupEvent, u64)> = vec![
        (SetupEvent::Begin, 0),
        (SetupEvent::Balance(200_050_000), 11),
        (transferred(), 0),
        (claimed(501), 0),
        (configured(), 0),
        (configured(), 0),
        (configured(), 22),
        (transferred(), 0),
        (claimed(502), 0),
        (configured(), 0),
        (configured(), 0),
        (configured(), 33),
        (SetupEvent::Completed, 0),
        (SetupEvent::Balance(40_000), 0),
        (transferred(), 0),
        (SetupEvent::Completed, 0),
    ];
    for (event, memo) in events {
        let (next, action) = job.step_with_memo(event, memo);
        job = next;
        actions.push(action);
    }
    let operator_account = derive_account_id(&operator(), None);
    assert_eq!(
        actions,
        vec![
            SetupAction::QueryBalance { account: operator_account },
            SetupAction::Transfer {
                to: neuron_account_id(&governance(), &operator(), 11),
                amount_e8s: 100_000_000,
                memo: 11
            },
            SetupAction::ClaimNeuron { controller: operator(), memo: 11 },
            SetupAction::IncreaseDissolveDelay { neuron_id: 501, additional_seconds: 100 },
            SetupAction::AddHotKey { neuron_id: 501, key: deposits() },
            SetupAction::EnableAutoStakeMaturity { neuron_id: 501 },
            SetupAction::Transfer {
                to: neuron_account_id(&governance(), &operator(), 22),
                amount_e8s: 100_000_000,
                memo: 22
            },
            SetupAction::ClaimNeuron { controller: operator(), memo: 22 },
            SetupAction::IncreaseDissolveDelay { neuron_id: 502, additional_seconds: 200 },
            SetupAction::AddHotKey { neuron_id: 502, key: deposits() },
            SetupAction::EnableAutoStakeMaturity { neuron_id: 502 },
            SetupAction::ResetStakingNeurons { neuron_ids: vec![501, 502] },
            SetupAction::QueryBalance { account: operator_account },
            SetupAction::Transfer {
                to: derive_account_id(&deposits(), None),
                amount_e8s: 30_000,
                memo: 0
            },
            SetupAction::FlushPendingDeposits,
            SetupAction::Halt,
        ]
    );
    assert!(job.is_done());
    assert_eq!(job.failure(), None);
    assert_eq!(job.plan().delays, vec![100, 200]);
}

#[test]
fn setup_without_buckets_registers_nothing_and_settles() {
    let job = SetupJob::new(plan(vec![]));
    let (job, _) = job.step(SetupEvent::Begin);
    let (job, action) = job.step(SetupEvent::Balance(10_000));
    assert_eq!(action, SetupAction::ResetStakingNeurons { neuron_ids: vec![] });
    assert_eq!(job.phase(), Phase::Registering);
    let (job, _) = job.step(SetupEvent::Completed);
    assert_eq!(job.phase(), Phase::Settling);
    let (job, action) = job.step(SetupEvent::Balance(10_000));
    assert_eq!(
        action,
        SetupAction::Transfer { to: derive_account_id(&deposits(), None), amount_e8s: 0, memo: 0 }
    );
    let (job, action) = job.step(transferred());
    assert_eq!(action, SetupAction::FlushPendingDeposits);
    let (job, action) = job.step(SetupEvent::Completed);
    assert_eq!(action, SetupAction::Halt);
    assert!(job.is_done());
}

#[test]
fn random_memo_funds_and_claims_under_the_same_number() {
    let job = SetupJob::new(plan(vec![100]));
    let (job, _) = job.step(SetupEvent::Begin);
    let (job, action) = job.step(SetupEvent::Balance(u64::MAX));
    let memo = match action {
        SetupAction::Transfer { to, amount_e8s, memo } => {
            assert_eq!(to, neuron_account_id(&governance(), &operator(), memo));
            assert_eq!(amount_e8s, 100_000_000);
            memo
        }
        other => panic!("unexpected action: {:?}", other),
    };
    let (_, action) = job.step(transferred());
    assert_eq!(action, SetupAction::ClaimNeuron { controller: operator(), memo });
}

#[test]
fn refused_transfer_fails_the_setup() {
    let job = SetupJob::new(plan(vec![100]));
    let (job, _) = job.step(SetupEvent::Begin);
    let (job, _) = job.step_with_memo(SetupEvent::Balance(200_000_000), 1);
    let (job, action) = job.step(SetupEvent::Transferred(TransferResult::Refused(
        TransferError::InsufficientFunds { balance: Tokens { e8s: 1 } },
    )));
    assert_eq!(action, SetupAction::Halt);
    assert_eq!(
        job.failure(),
        Some(Failure { error: Error::RemoteRejection, phase: Phase::Funding, neuron: None })
    );
}

#[test]
fn claim_failures_fail_the_setup() {
    let begin = || {
        let job = SetupJob::new(plan(vec![100]));
        let (job, _) = job.step(SetupEvent::Begin);
        let (job, _) = job.step_with_memo(SetupEvent::Balance(200_000_000), 1);
        let (job, _) = job.step(transferred());
        job
    };
    let (job, _) = begin().step(SetupEvent::Claimed(ClaimOrRefreshNeuronFromAccountResponse {
        result: None,
    }));
    assert_eq!(
        job.failure(),
        Some(Failure { error: Error::ProtocolError, phase: Phase::Funding, neuron: None })
    );
    let (job, _) = begin().step(SetupEvent::Claimed(ClaimOrRefreshNeuronFromAccountResponse {
        result: Some(ClaimResult::Error(GovernanceError {
            error_message: String::from("no"),
            error_type: 1,
        })),
    }));
    assert_eq!(
        job.failure(),
        Some(Failure { error: Error::RemoteRejection, phase: Phase::Funding, neuron: None })
    );
}

#[test]
fn failure_after_the_claim_names_the_neuron() {
    let job = SetupJob::new(plan(vec![100]));
    let (job, _) = job.step(SetupEvent::Begin);
    let (job, _) = job.step_with_memo(SetupEvent::Balance(200_000_000), 1);
    let (job, _) = job.step(transferred());
    let (job, _) = job.step(claimed(9));
    assert_eq!(
        job.state(),
        &SetupState::Bucket { bucket: 0, stage: Stage::Delaying, memo: 1, ids: vec![9] }
    );
    let (job, action) = job.step(SetupEvent::Failed(Error::NetworkError));
    assert_eq!(action, SetupAction::Halt);
    assert_eq!(
        job.failure(),
        Some(Failure { error: Error::NetworkError, phase: Phase::Funding, neuron: Some(9) })
    );
}

#[test]
fn remaining_balance_below_the_fee_fails_the_settling() {
    let job = SetupJob::new(plan(vec![]));
    let (job, _) = job.step(SetupEvent::Begin);
    let (job, _) = job.step(SetupEvent::Balance(10_000));
    let (job, _) = job.step(SetupEvent::Completed);
    let (job, action) = job.step(SetupEvent::Balance(9_999));
    assert_eq!(action, SetupAction::Halt);
    assert_eq!(
        job.failure(),
        Some(Failure { error: Error::InsufficientBalance, phase: Phase::Settling, neuron: None })
    );
}

#[test]
fn an_event_that_answers_nothing_fails_the_setup() {
    let (job, action) = SetupJob::new(plan(vec![1])).step(SetupEvent::Completed);
    assert_eq!(action, SetupAction::Halt);
    assert_eq!(
        job.failure(),
        Some(Failure { error: Error::ProtocolError, phase: Phase::Start, neuron: None })
    );
    let (job, _) = SetupJob::new(plan(vec![1])).step(SetupEvent::Begin);
    let (job, _) = job.step(SetupEvent::Failed(Error::NetworkError));
    assert_eq!(
        job.failure(),
        Some(Failure { error: Error::NetworkError, phase: Phase::Checking, neuron: None })
    );
}

fn args(deposits: &str, governance: &str) -> IdentityArgs {
    IdentityArgs {
        private_pem: None,
        signing_canister: String::from("aaaaa-aa"),
        deposits: String::from(deposits),
        governance: String::from(governance),
        ic_url: String::from("https://ic0.app"),
    }
}

#[test]
fn command_begins_the_reference_setup() {
    let command = Command {
        identity: args("hnwvc-lyaaa-aaaal-aaf6q-cai", "rrkah-fqaaa-aaaaa-aaaaq-cai"),
        icp_ledger: String::from("ryjl3-tyaaa-aaaaa-aaaba-cai"),
    };
    let (job, action) = command.run(operator()).unwrap();
    assert_eq!(action, SetupAction::QueryBalance { account: derive_account_id(&operator(), None) });
    assert_eq!(job.plan(), &plan(default_delays()));
    assert_eq!(job.state(), &SetupState::Checking);
    let (job, action) = job.step(SetupEvent::Balance(1_600_009_999));
    assert_eq!(action, SetupAction::Halt);
    assert_eq!(job.failure().unwrap().error, Error::InsufficientBalance);
}

#[test]
fn setup_command_with_an_unreadable_principal_begins_nothing() {
    let good = "rrkah-fqaaa-aaaaa-aaaaq-cai";
    for (d, g, l) in [("x", good, good), (good, "x", good), (good, good, "x")] {
        let command = Command { identity: args(d, g), icp_ledger: String::from(l) };
        assert!(command.run(operator()).is_none());
    }
}
