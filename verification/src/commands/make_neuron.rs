use crate::account::{neuron_account_id, spec_neuron_account_id};
use crate::commands::setup::{
    random_memo, SetupAction, SetupActionView, SetupEvent, UNIT_STAKE_E8S,
};
use crate::commands::{Failure, Phase};
use crate::error::Error;
use crate::governance::{claim_outcome, manage_outcome, spec_claim_outcome, spec_manage_outcome};
use crate::ledger::{spec_transfer_outcome, transfer_outcome};
use crate::identity::IdentityArgs;
use crate::principal::{spec_principal_from_text, Principal};
use vstd::prelude::*;

verus! {

/// What the making of one neuron is to do, and for whom.
#[derive(Clone, Copy, Debug, PartialEq)]
pub struct MakeNeuronPlan {
    /// The governance service.
    pub governance: Principal,
    /// The operator, who pays for the neuron and controls it.
    pub operator: Principal,
    /// The deposits service, which becomes a hotkey of the neuron.
    pub deposits: Principal,
    /// The memo under which the neuron is funded and claimed.
    pub memo: u64,
    /// The dissolve delay to give the neuron, in seconds; none if zero.
    pub delay: u32,
    /// What the neuron is funded with, in e8s.
    pub unit_stake: u64,
}

/// Where the making of a neuron stands.
#[derive(Clone, Copy, Debug, PartialEq, Eq, Structural)]
pub enum MakeNeuronState {
    /// Nothing was asked for yet.
    Start,
    /// The transfer of the stake is awaited.
    Funding,
    /// The claim of the neuron is awaited.
    Claiming,
    /// The adding of the hotkey is awaited.
    Hotkeying { neuron_id: u64 },
    /// The lengthening of the dissolve delay is awaited.
    Delaying { neuron_id: u64 },
    /// The switching on of the automatic staking of maturity is awaited.
    AutoStaking { neuron_id: u64 },
    /// The neuron is made.
    Done { neuron_id: u64 },
    /// A step failed; none was taken after it.
    Failed(Failure),
}

impl MakeNeuronState {
    /// Whether the making has ended, well or badly.
    pub open spec fn is_terminal(self) -> bool {
        self is Done || self is Failed
    }

    /// The neuron that the awaited operation is about.
    pub open spec fn current_neuron(self) -> Option<u64> {
        match self {
            MakeNeuronState::Hotkeying { neuron_id } => Some(neuron_id),
            MakeNeuronState::Delaying { neuron_id } => Some(neuron_id),
            MakeNeuronState::AutoStaking { neuron_id } => Some(neuron_id),
            _ => None,
        }
    }

    /// The phase that the state belongs to.
    pub open spec fn phase(self) -> Phase {
        match self {
            MakeNeuronState::Start => Phase::Start,
            MakeNeuronState::Done { .. } => Phase::Done,
            MakeNeuronState::Failed(_) => Phase::Failed,
            _ => Phase::Funding,
        }
    }

    /// The failure that `error` causes in this state.
    pub open spec fn failure(self, error: Error) -> Failure {
        Failure { error, phase: self.phase(), neuron: self.current_neuron() }
    }
}

/// The memo to use: the one asked for, or the fresh one where none was
/// asked for, which is what zero means.
pub open spec fn spec_choose_memo(requested: u64, fresh: u64) -> u64 {
    if requested == 0 {
        fresh
    } else {
        requested
    }
}

/// The memo to use: the one asked for, or the fresh one where none was
/// asked for.
pub fn choose_memo(requested: u64, fresh: u64) -> (memo: u64)
    ensures
        memo == spec_choose_memo(requested, fresh),
{
    if requested == 0 {
        fresh
    } else {
        requested
    }
}

/// The memo to use: the one asked for, or one drawn at random where none
/// was asked for.
pub fn pick_memo(requested: u64) -> (memo: u64)
    ensures
        exists|fresh: u64| memo == #[trigger] spec_choose_memo(requested, fresh),
        requested != 0 ==> memo == requested,
{
    let fresh = if requested == 0 {
        random_memo()
    } else {
        0
    };
    let memo = choose_memo(requested, fresh);
    assert(memo == spec_choose_memo(requested, fresh));
    memo
}

/// One step of the making of a neuron: the state and the action that
/// follow from a state and an event.
///
/// The neuron is funded at the account that belongs to the governance
/// service, the operator and the memo; it is claimed under the same memo;
/// the deposits service becomes its hotkey; its dissolve delay is
/// lengthened if the plan names one; and the automatic staking of its
/// maturity is switched on.
pub open spec fn spec_make_neuron_step(
    plan: MakeNeuronPlan,
    state: MakeNeuronState,
    event: SetupEvent,
) -> (MakeNeuronState, SetupActionView) {
    let unexpected = (
        MakeNeuronState::Failed(state.failure(Error::ProtocolError)),
        SetupActionView::Halt,
    );
    if state.is_terminal() {
        (state, SetupActionView::Halt)
    } else if let SetupEvent::Failed(error) = event {
        (MakeNeuronState::Failed(state.failure(error)), SetupActionView::Halt)
    } else {
        match (state, event) {
            (MakeNeuronState::Start, SetupEvent::Begin) => (
                MakeNeuronState::Funding,
                SetupActionView::Transfer {
                    to: spec_neuron_account_id(plan.governance@, plan.operator@, plan.memo),
                    amount_e8s: plan.unit_stake,
                    memo: plan.memo,
                },
            ),
            (MakeNeuronState::Funding, SetupEvent::Transferred(reply)) => match spec_transfer_outcome(
                reply,
            ) {
                Ok(_) => (
                    MakeNeuronState::Claiming,
                    SetupActionView::ClaimNeuron { controller: plan.operator@, memo: plan.memo },
                ),
                Err(error) => (
                    MakeNeuronState::Failed(state.failure(error)),
                    SetupActionView::Halt,
                ),
            },
            (MakeNeuronState::Claiming, SetupEvent::Claimed(response)) => match spec_claim_outcome(
                response,
            ) {
                Ok(neuron_id) => (
                    MakeNeuronState::Hotkeying { neuron_id },
                    SetupActionView::AddHotKey { neuron_id, key: plan.deposits@ },
                ),
                Err(error) => (
                    MakeNeuronState::Failed(state.failure(error)),
                    SetupActionView::Halt,
                ),
            },
            (
                MakeNeuronState::Hotkeying { neuron_id },
                SetupEvent::NeuronManaged(response),
            ) => match spec_manage_outcome(response) {
                Some(error) => (
                    MakeNeuronState::Failed(state.failure(error)),
                    SetupActionView::Halt,
                ),
                None => if plan.delay > 0 {
                    (
                        MakeNeuronState::Delaying { neuron_id },
                        SetupActionView::IncreaseDissolveDelay {
                            neuron_id,
                            additional_seconds: plan.delay,
                        },
                    )
                } else {
                    (
                        MakeNeuronState::AutoStaking { neuron_id },
                        SetupActionView::EnableAutoStakeMaturity { neuron_id },
                    )
                },
            },
            (
                MakeNeuronState::Delaying { neuron_id },
                SetupEvent::NeuronManaged(response),
            ) => match spec_manage_outcome(response) {
                Some(error) => (
                    MakeNeuronState::Failed(state.failure(error)),
                    SetupActionView::Halt,
                ),
                None => (
                    MakeNeuronState::AutoStaking { neuron_id },
                    SetupActionView::EnableAutoStakeMaturity { neuron_id },
                ),
            },
            (
                MakeNeuronState::AutoStaking { neuron_id },
                SetupEvent::NeuronManaged(response),
            ) => match spec_manage_outcome(response) {
                Some(error) => (
                    MakeNeuronState::Failed(state.failure(error)),
                    SetupActionView::Halt,
                ),
                None => (MakeNeuronState::Done { neuron_id }, SetupActionView::Halt),
            },
            _ => unexpected,
        }
    }
}

/// The making of one neuron: its plan, and where it stands.
#[derive(Clone, Copy, Debug, PartialEq)]
pub struct MakeNeuronJob {
    pub plan: MakeNeuronPlan,
    pub state: MakeNeuronState,
}

fn fail(plan: MakeNeuronPlan, state: MakeNeuronState, error: Error) -> (r: (
    MakeNeuronJob,
    SetupAction,
))
    ensures
        r.0 == (MakeNeuronJob { plan, state: MakeNeuronState::Failed(state.failure(error)) }),
        r.1@ == SetupActionView::Halt,
{
    let phase = match state {
        MakeNeuronState::Start => Phase::Start,
        MakeNeuronState::Done { .. } => Phase::Done,
        MakeNeuronState::Failed(_) => Phase::Failed,
        _ => Phase::Funding,
    };
    let neuron = match state {
        MakeNeuronState::Hotkeying { neuron_id } => Some(neuron_id),
        MakeNeuronState::Delaying { neuron_id } => Some(neuron_id),
        MakeNeuronState::AutoStaking { neuron_id } => Some(neuron_id),
        _ => None,
    };
    (
        MakeNeuronJob { plan, state: MakeNeuronState::Failed(Failure { error, phase, neuron }) },
        SetupAction::Halt,
    )
}

impl MakeNeuronJob {
    /// A making that has not begun.
    pub fn new(plan: MakeNeuronPlan) -> (job: MakeNeuronJob)
        ensures
            job == (MakeNeuronJob { plan, state: MakeNeuronState::Start }),
    {
        MakeNeuronJob { plan, state: MakeNeuronState::Start }
    }

    /// Takes one step: consumes the event that the driver reports and
    /// returns the making as it then stands, with the action to perform
    /// next.
    pub fn step(self, event: SetupEvent) -> (r: (MakeNeuronJob, SetupAction))
        ensures
            r.0.plan == self.plan,
            (r.0.state, r.1@) == spec_make_neuron_step(self.plan, self.state, event),
    {
        let plan = self.plan;
        let state = self.state;
        match (state, event) {
            (MakeNeuronState::Done { .. }, _) => (self, SetupAction::Halt),
            (MakeNeuronState::Failed(_), _) => (self, SetupAction::Halt),
            (_, SetupEvent::Failed(error)) => fail(plan, state, error),
            (MakeNeuronState::Start, SetupEvent::Begin) => {
                let to = neuron_account_id(&plan.governance, &plan.operator, plan.memo);
                (
                    MakeNeuronJob { plan, state: MakeNeuronState::Funding },
                    SetupAction::Transfer { to, amount_e8s: plan.unit_stake, memo: plan.memo },
                )
            },
            (MakeNeuronState::Funding, SetupEvent::Transferred(reply)) => match transfer_outcome(
                &reply,
            ) {
                Ok(_) => (
                    MakeNeuronJob { plan, state: MakeNeuronState::Claiming },
                    SetupAction::ClaimNeuron { controller: plan.operator, memo: plan.memo },
                ),
                Err(error) => fail(plan, state, error),
            },
            (MakeNeuronState::Claiming, SetupEvent::Claimed(response)) => match claim_outcome(
                &response,
            ) {
                Ok(neuron_id) => (
                    MakeNeuronJob { plan, state: MakeNeuronState::Hotkeying { neuron_id } },
                    SetupAction::AddHotKey { neuron_id, key: plan.deposits },
                ),
                Err(error) => fail(plan, state, error),
            },
            (
                MakeNeuronState::Hotkeying { neuron_id },
                SetupEvent::NeuronManaged(response),
            ) => match manage_outcome(&response) {
                Some(error) => fail(plan, state, error),
                None => if plan.delay > 0 {
                    (
                        MakeNeuronJob { plan, state: MakeNeuronState::Delaying { neuron_id } },
                        SetupAction::IncreaseDissolveDelay {
                            neuron_id,
                            additional_seconds: plan.delay,
                        },
                    )
                } else {
                    (
                        MakeNeuronJob { plan, state: MakeNeuronState::AutoStaking { neuron_id } },
                        SetupAction::EnableAutoStakeMaturity { neuron_id },
                    )
                },
            },
            (
                MakeNeuronState::Delaying { neuron_id },
                SetupEvent::NeuronManaged(response),
            ) => match manage_outcome(&response) {
                Some(error) => fail(plan, state, error),
                None => (
                    MakeNeuronJob { plan, state: MakeNeuronState::AutoStaking { neuron_id } },
                    SetupAction::EnableAutoStakeMaturity { neuron_id },
                ),
            },
            (
                MakeNeuronState::AutoStaking { neuron_id },
                SetupEvent::NeuronManaged(response),
            ) => match manage_outcome(&response) {
                Some(error) => fail(plan, state, error),
                None => (
                    MakeNeuronJob { plan, state: MakeNeuronState::Done { neuron_id } },
                    SetupAction::Halt,
                ),
            },
            _ => fail(plan, state, Error::ProtocolError),
        }
    }
}

/// A making that is done or has failed stays as it is, and a failed
/// operation fails a making that is under way, with nothing asked for.
pub proof fn lemma_making_stops(plan: MakeNeuronPlan, state: MakeNeuronState, event: SetupEvent)
    ensures
        state.is_terminal() ==> spec_make_neuron_step(plan, state, event) == (
            state,
            SetupActionView::Halt,
        ),
        !state.is_terminal() ==> (event matches SetupEvent::Failed(error) ==> spec_make_neuron_step(
            plan,
            state,
            event,
        ) == (MakeNeuronState::Failed(state.failure(error)), SetupActionView::Halt)),
{
}

/// The making of one neuron, as the operator asked for it.
#[derive(Debug, PartialEq)]
pub struct Command {
    /// Where the job runs and who signs for it.
    pub identity: IdentityArgs,
    /// The principal of the ledger, as text.
    pub icp_ledger: String,
    /// The memo to make the neuron under; zero asks for a random one.
    pub memo: u64,
    /// The dissolve delay to give the neuron, in seconds.
    pub delay: u32,
}

impl Command {
    /// Begins the making of a neuron for `operator` under `memo`: the job
    /// as it stands once it has begun, and its first action, which funds
    /// the neuron. `None` where the principal of the deposits service, of
    /// the governance service or of the ledger cannot be read; nothing is
    /// asked for then.
    pub fn run_with_memo(&self, operator: Principal, memo: u64) -> (r: Option<
        (MakeNeuronJob, SetupAction),
    >)
        ensures
            r is Some == (spec_principal_from_text(self.identity.deposits@) is Some
                && spec_principal_from_text(self.identity.governance@) is Some
                && spec_principal_from_text(self.icp_ledger@) is Some),
            r matches Some((job, action)) ==> {
                &&& job.plan.governance@ == spec_principal_from_text(self.identity.governance@).unwrap()
                &&& job.plan.deposits@ == spec_principal_from_text(self.identity.deposits@).unwrap()
                &&& job.plan.operator == operator
                &&& job.plan.memo == memo
                &&& job.plan.delay == self.delay
                &&& job.plan.unit_stake == UNIT_STAKE_E8S
                &&& (job.state, action@) == spec_make_neuron_step(
                    job.plan,
                    MakeNeuronState::Start,
                    SetupEvent::Begin,
                )
            },
    {
        let deposits = match Principal::from_text(self.identity.deposits.as_str()) {
            Some(p) => p,
            None => {
                return None;
            },
        };
        let governance = match Principal::from_text(self.identity.governance.as_str()) {
            Some(p) => p,
            None => {
                return None;
            },
        };
        if Principal::from_text(self.icp_ledger.as_str()).is_none() {
            return None;
        }
        let plan = MakeNeuronPlan {
            governance,
            operator,
            deposits,
            memo,
            delay: self.delay,
            unit_stake: UNIT_STAKE_E8S,
        };
        Some(MakeNeuronJob::new(plan).step(SetupEvent::Begin))
    }

    /// Begins the making of a neuron for `operator`, under the memo that
    /// was asked for, or under one drawn at random where none was.
    pub fn run(&self, operator: Principal) -> (r: Option<(MakeNeuronJob, SetupAction)>)
        ensures
            r is Some == (spec_principal_from_text(self.identity.deposits@) is Some
                && spec_principal_from_text(self.identity.governance@) is Some
                && spec_principal_from_text(self.icp_ledger@) is Some),
            r matches Some((job, action)) ==> {
                &&& job.plan.governance@ == spec_principal_from_text(self.identity.governance@).unwrap()
                &&& job.plan.deposits@ == spec_principal_from_text(self.identity.deposits@).unwrap()
                &&& job.plan.operator == operator
                &&& self.memo != 0 ==> job.plan.memo == self.memo
                &&& job.plan.delay == self.delay
                &&& job.plan.unit_stake == UNIT_STAKE_E8S
                &&& (job.state, action@) == spec_make_neuron_step(
                    job.plan,
                    MakeNeuronState::Start,
                    SetupEvent::Begin,
                )
            },
    {
        self.run_with_memo(operator, pick_memo(self.memo))
    }
}

} // verus!
