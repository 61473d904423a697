use staking_jobs::account::neuron_account_id;
use staking_jobs::commands::make_neuron::{
    choose_memo, pick_memo, Command, MakeNeuronJob, MakeNeuronPlan, MakeNeuronState,
};
use staking_jobs::commands::setup::{SetupAction, SetupEvent};
use staking_jobs::commands::{Failure, Phase};
use staking_jobs::error::Error;
use staking_jobs::governance::generated::{
    ClaimOrRefreshNeuronFromAccountResponse, Command_1, ManageNeuronResponse, NeuronId, Result_1,
};
use staking_jobs::identity::IdentityArgs;
use staking_jobs::ledger::Result_1 as TransferResult;
use staking_jobs::principal::Principal;

fn governance() -> Principal {
    Principal::from_slice(&[0, 0, 0, 0, 0, 0, 0, 1, 1, 1]).unwrap()
}

fn deposits() -> Principal {
    Principal::from_slice(&[0, 0, 0, 0, 1, 96, 1, 125, 1, 1]).unwrap()
}

fn operator() -> Principal {
    Principal::from_slice(&[1, 2, 3]).unwrap()
}

fn plan(memo: u64, delay: u32) -> MakeNeuronPlan {
    MakeNeuronPlan {
        governance: governance(),
        operator: operator(),
        deposits: deposits(),
        memo,
        delay,
        unit_stake: 100_000_000,
    }
}

fn configured() -> SetupEvent {
    SetupEvent::NeuronManaged(ManageNeuronResponse { command: Some(Command_1::Configure) })
}

fn claimed(id: u64) -> SetupEvent {
    SetupEvent::Claimed(ClaimOrRefreshNeuronFromAccountResponse {
        result: Some(Result_1::NeuronId(NeuronId { id })),
    })
}

fn run(job: MakeNeuronJob, events: Vec<SetupEvent>) -> (MakeNeuronJob, Vec<SetupAction>) {
    let mut job = job;
    let mut actions = Vec::new();
    for event in events {
        let (next, action) = job.step(event);
        job = next;
        actions.push(action);
    }
    (job, actions)
}

#[test]
fn memo_is_the_one_asked_for_or_a_fresh_one() {
    assert_eq!(choose_memo(0, 99), 99);
    assert_eq!(choose_memo(5, 99), 5);
    assert_eq!(choose_memo(u64::MAX, 0), u64::MAX);
    assert_eq!(pick_memo(17), 17);
}

#[test]
fn a_neuron_with_a_delay_is_made_in_six_steps() {
    let events = vec![
        SetupEvent::Begin,
        SetupEvent::Transferred(TransferResult::Transferred(1)),
        claimed(64),
        configured(),
        configured(),
        configured(),
    ];
    let (job, actions) = run(MakeNeuronJob::new(plan(7, 3600)), events);
    assert_eq!(
        actions,
        vec![
            SetupAction::Transfer {
                to: neuron_account_id(&governance(), &operator(), 7),
                amount_e8s: 100_000_000,
                memo: 7
            },
            SetupAction::ClaimNeuron { controller: operator(), memo: 7 },
            SetupAction::AddHotKey { neuron_id: 64, key: deposits() },
            SetupAction::IncreaseDissolveDelay { neuron_id: 64, additional_seconds: 3600 },
            SetupAction::EnableAutoStakeMaturity { neuron_id: 64 },
            SetupAction::Halt,
        ]
    );
    assert_eq!(job.state, MakeNeuronState::Done { neuron_id: 64 });
}

#[test]
fn a_neuron_without_a_delay_skips_the_lengthening() {
    let events = vec![
        SetupEvent::Begin,
        SetupEvent::Transferred(TransferResult::Transferred(1)),
        claimed(64),
        configured(),
        configured(),
    ];
    let (job, actions) = run(MakeNeuronJob::new(plan(7, 0)), events);
    assert_eq!(actions[3], SetupAction::EnableAutoStakeMaturity { neuron_id: 64 });
    assert_eq!(actions[4], SetupAction::Halt);
    assert_eq!(job.state, MakeNeuronState::Done { neuron_id: 64 });
}

#[test]
fn a_failure_stops_the_making() {
    let events = vec![
        SetupEvent::Begin,
        SetupEvent::Transferred(TransferResult::Transferred(1)),
        claimed(64),
        SetupEvent::Failed(Error::NetworkError),
        configured(),
    ];
    let (job, actions) = run(MakeNeuronJob::new(plan(7, 0)), events);
    assert_eq!(actions[3], SetupAction::Halt);
    assert_eq!(actions[4], SetupAction::Halt);
    assert_eq!(
        job.state,
        MakeNeuronState::Failed(Failure {
            error: Error::NetworkError,
            phase: Phase::Funding,
            neuron: Some(64)
        })
    );
    let (job, action) = MakeNeuronJob::new(plan(7, 0)).step(SetupEvent::Completed);
    assert_eq!(action, SetupAction::Halt);
    assert_eq!(
        job.state,
        MakeNeuronState::Failed(Failure {
            error: Error::ProtocolError,
            phase: Phase::Start,
            neuron: None
        })
    );
}

fn command(memo: u64, ledger: &str) -> Command {
    Command {
        identity: IdentityArgs {
            private_pem: None,
            signing_canister: String::from("aaaaa-aa"),
            deposits: String::from("hnwvc-lyaaa-aaaal-aaf6q-cai"),
            governance: String::from("rrkah-fqaaa-aaaaa-aaaaq-cai"),
            ic_url: String::from("https://ic0.app"),
        },
        icp_ledger: String::from(ledger),
        memo,
        delay: 10,
    }
}

#[test]
fn command_begins_with_the_funding_under_the_memo_asked_for() {
    let (job, action) = command(12, "ryjl3-tyaaa-aaaaa-aaaba-cai").run(operator()).unwrap();
    assert_eq!(job.plan, plan(12, 10));
    assert_eq!(job.state, MakeNeuronState::Funding);
    assert_eq!(
        action,
        SetupAction::Transfer {
            to: neuron_account_id(&governance(), &operator(), 12),
            amount_e8s: 100_000_000,
            memo: 12
        }
    );
}

#[test]
fn command_without_a_memo_funds_under_the_one_it_drew() {
    let (job, action) = command(0, "ryjl3-tyaaa-aaaaa-aaaba-cai").run(operator()).unwrap();
    match action {
        SetupAction::Transfer { to, memo, .. } => {
            assert_eq!(memo, job.plan.memo);
            assert_eq!(to, neuron_account_id(&governance(), &operator(), memo));
        }
        other => panic!("unexpected action: {:?}", other),
    }
    let (job, action) = command(0, "ryjl3-tyaaa-aaaaa-aaaba-cai")
        .run_with_memo(operator(), 5)
        .unwrap();
    assert_eq!(job.plan.memo, 5);
    assert!(matches!(action, SetupAction::Transfer { memo: 5, .. }));
}

#[test]
fn command_with_an_unreadable_ledger_begins_nothing() {
    assert!(command(1, "nonsense").run(operator()).is_none());
}
