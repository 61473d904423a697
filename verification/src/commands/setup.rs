use crate::account::{
    derive_account_id, neuron_account_id, spec_derive_account_id, spec_neuron_account_id,
    AccountIdentifier,
};
use crate::commands::{Failure, Phase};
use crate::error::Error;
use crate::governance::generated::{ClaimOrRefreshNeuronFromAccountResponse, ManageNeuronResponse};
use crate::governance::{claim_outcome, manage_outcome, spec_claim_outcome, spec_manage_outcome};
use crate::ledger::{spec_transfer_outcome, transfer_outcome, Result_1};
use crate::governance::ICP_FEE;
use crate::identity::IdentityArgs;
use crate::principal::{spec_principal_from_text, Principal};
use rand::Rng;
use vstd::prelude::*;

verus! {

/// What one neuron is funded with, in e8s: one token.
pub const UNIT_STAKE_E8S: u64 = 100_000_000;

/// Calls `thread_rng().gen()` of the `rand` crate for a 64-bit number.
/// Nothing is promised of the number that comes back.
#[verifier::external_body]
pub(crate) fn random_memo() -> (memo: u64) {
    rand::thread_rng().gen()
}

/// What a setup is to do, and for whom.
#[derive(Debug, PartialEq)]
pub struct SetupPlan {
    /// The dissolve delay of each neuron to create, in seconds.
    pub delays: Vec<u32>,
    /// What each neuron is funded with, in e8s.
    pub unit_stake: u64,
    /// The ledger's fee for one transfer, in e8s.
    pub fee: u64,
    /// The governance service.
    pub governance: Principal,
    /// The operator, who pays for the neurons and controls them.
    pub operator: Principal,
    /// The deposits service, which becomes a hotkey of each neuron.
    pub deposits: Principal,
}

/// The mathematical model of `SetupPlan`.
pub struct SetupPlanView {
    pub delays: Seq<u32>,
    pub unit_stake: u64,
    pub fee: u64,
    pub governance: Seq<u8>,
    pub operator: Seq<u8>,
    pub deposits: Seq<u8>,
}

impl View for SetupPlan {
    type V = SetupPlanView;

    open spec fn view(&self) -> SetupPlanView {
        SetupPlanView {
            delays: self.delays@,
            unit_stake: self.unit_stake,
            fee: self.fee,
            governance: self.governance@,
            operator: self.operator@,
            deposits: self.deposits@,
        }
    }
}

/// The balance that a setup needs before it begins: the stake of every
/// neuron, and one fee.
pub open spec fn spec_minimum_required(buckets: nat, unit_stake: u64, fee: u64) -> int {
    buckets * unit_stake + fee
}

impl SetupPlanView {
    /// The balance that this setup needs before it begins.
    pub open spec fn minimum_required(self) -> int {
        spec_minimum_required(self.delays.len(), self.unit_stake, self.fee)
    }

    /// The operator's own account, which pays.
    pub open spec fn operator_account(self) -> Seq<u8> {
        spec_derive_account_id(self.operator, None)
    }

    /// The deposits service's account, which gets what is left.
    pub open spec fn deposits_account(self) -> Seq<u8> {
        spec_derive_account_id(self.deposits, None)
    }
}

/// The sixteen dissolve delays of the reference deployment: every half year
/// from half a year to eight years, in seconds.
pub open spec fn spec_default_delays() -> Seq<u32> {
    Seq::new(16, |i: int| (15_778_800 * (i + 1)) as u32)
}

/// The sixteen dissolve delays of the reference deployment.
pub fn default_delays() -> (delays: Vec<u32>)
    ensures
        delays@ == spec_default_delays(),
{
    let mut delays: Vec<u32> = Vec::new();
    let mut i: u32 = 0;
    while i < 16
        invariant
            i <= 16,
            delays@.len() == i,
            forall|j: int| 0 <= j < i ==> delays@[j] == 15_778_800 * (j + 1),
        decreases 16 - i,
    {
        delays.push(15_778_800 * (i + 1));
        i = i + 1;
    }
    assert(delays@ =~= spec_default_delays());
    delays
}

/// Whether `balance` covers a setup of `buckets` neurons: exactly when it is
/// at least `buckets * unit_stake + fee`, however large that is.
pub fn covers_setup(balance: u64, buckets: usize, unit_stake: u64, fee: u64) -> (covered: bool)
    ensures
        covered == (balance >= spec_minimum_required(buckets as nat, unit_stake, fee)),
{
    let count: u128 = buckets as u128;
    let unit: u128 = unit_stake as u128;
    assert(count * unit <= 0xffff_ffff_ffff_ffff * 0xffff_ffff_ffff_ffff) by (nonlinear_arith)
        requires
            0 <= count <= 0xffff_ffff_ffff_ffff,
            0 <= unit <= 0xffff_ffff_ffff_ffff,
    ;
    let required: u128 = count * unit + (fee as u128);
    (balance as u128) >= required
}

/// What the setup is doing for the neuron of one bucket.
#[derive(Clone, Copy, Debug, PartialEq, Eq, Structural)]
pub enum Stage {
    /// The transfer of the stake is awaited.
    Funding,
    /// The claim of the neuron is awaited.
    Claiming,
    /// The lengthening of the dissolve delay is awaited.
    Delaying,
    /// The adding of the hotkey is awaited.
    Hotkeying,
    /// The switching on of the automatic staking of maturity is awaited.
    AutoStaking,
}

/// What the setup asks its driver to do next. Every variant but `Halt` is
/// one remote operation.
#[derive(Debug, PartialEq)]
pub enum SetupAction {
    /// Ask the ledger for the balance of the account.
    QueryBalance { account: AccountIdentifier },
    /// Transfer the amount to the account, under the memo.
    Transfer { to: AccountIdentifier, amount_e8s: u64, memo: u64 },
    /// Claim the neuron that the controller funded under the memo.
    ClaimNeuron { controller: Principal, memo: u64 },
    /// Lengthen the neuron's dissolve delay.
    IncreaseDissolveDelay { neuron_id: u64, additional_seconds: u32 },
    /// Make the principal a hotkey of the neuron.
    AddHotKey { neuron_id: u64, key: Principal },
    /// Let the neuron stake its maturity by itself.
    EnableAutoStakeMaturity { neuron_id: u64 },
    /// Tell the deposits service that these, and no others, are the staking
    /// neurons.
    ResetStakingNeurons { neuron_ids: Vec<u64> },
    /// Let the deposits service settle what is pending.
    FlushPendingDeposits,
    /// Nothing is left to do: the setup is done, or it has failed.
    Halt,
}

/// The mathematical model of `SetupAction`.
pub enum SetupActionView {
    QueryBalance { account: Seq<u8> },
    Transfer { to: Seq<u8>, amount_e8s: u64, memo: u64 },
    ClaimNeuron { controller: Seq<u8>, memo: u64 },
    IncreaseDissolveDelay { neuron_id: u64, additional_seconds: u32 },
    AddHotKey { neuron_id: u64, key: Seq<u8> },
    EnableAutoStakeMaturity { neuron_id: u64 },
    ResetStakingNeurons { neuron_ids: Seq<u64> },
    FlushPendingDeposits,
    Halt,
}

impl View for SetupAction {
    type V = SetupActionView;

    open spec fn view(&self) -> SetupActionView {
        match *self {
            SetupAction::QueryBalance { account } => SetupActionView::QueryBalance {
                account: account@,
            },
            SetupAction::Transfer { to, amount_e8s, memo } => SetupActionView::Transfer {
                to: to@,
                amount_e8s,
                memo,
            },
            SetupAction::ClaimNeuron { controller, memo } => SetupActionView::ClaimNeuron {
                controller: controller@,
                memo,
            },
            SetupAction::IncreaseDissolveDelay {
                neuron_id,
                additional_seconds,
            } => SetupActionView::IncreaseDissolveDelay { neuron_id, additional_seconds },
            SetupAction::AddHotKey { neuron_id, key } => SetupActionView::AddHotKey {
                neuron_id,
                key: key@,
            },
            SetupAction::EnableAutoStakeMaturity {
                neuron_id,
            } => SetupActionView::EnableAutoStakeMaturity { neuron_id },
            SetupAction::ResetStakingNeurons {
                neuron_ids,
            } => SetupActionView::ResetStakingNeurons { neuron_ids: neuron_ids@ },
            SetupAction::FlushPendingDeposits => SetupActionView::FlushPendingDeposits,
            SetupAction::Halt => SetupActionView::Halt,
        }
    }
}

impl SetupActionView {
    /// Whether the action changes anything on a remote service. To ask for a
    /// balance changes nothing, and neither does halting.
    pub open spec fn is_mutating(self) -> bool {
        !(self is QueryBalance || self is Halt)
    }
}

/// What the driver reports to the setup.
#[derive(Debug, PartialEq)]
pub enum SetupEvent {
    /// The setup is to begin.
    Begin,
    /// The ledger holds this balance, in e8s, for the account asked about.
    Balance(u64),
    /// The ledger answered a transfer.
    Transferred(Result_1),
    /// The governance service answered a claim.
    Claimed(ClaimOrRefreshNeuronFromAccountResponse),
    /// The governance service answered a configure command.
    NeuronManaged(ManageNeuronResponse),
    /// The deposits service did what it was asked to.
    Completed,
    /// The operation failed.
    Failed(Error),
}

/// The working state of the setup.
#[derive(Debug, PartialEq)]
pub enum SetupState {
    /// Nothing was asked for yet.
    Start,
    /// The operator's balance is awaited, to be checked against what the
    /// setup needs.
    Checking,
    /// The neuron of the bucket `bucket` is being made under `memo`; `ids`
    /// holds the neurons claimed so far, this bucket's last once it is
    /// claimed.
    Bucket { bucket: usize, stage: Stage, memo: u64, ids: Vec<u64> },
    /// The deposits service's reset is awaited.
    Registering,
    /// The operator's remaining balance is awaited.
    Measuring,
    /// The transfer of the remaining balance is awaited.
    Sweeping,
    /// The deposits service's flush is awaited.
    Flushing,
    /// Every step was taken.
    Done,
    /// A step failed; none was taken after it.
    Failed(Failure),
}

/// The mathematical model of `SetupState`.
pub enum SetupStateView {
    Start,
    Checking,
    Bucket { bucket: int, stage: Stage, memo: u64, ids: Seq<u64> },
    Registering,
    Measuring,
    Sweeping,
    Flushing,
    Done,
    Failed(Failure),
}

impl View for SetupState {
    type V = SetupStateView;

    open spec fn view(&self) -> SetupStateView {
        match *self {
            SetupState::Start => SetupStateView::Start,
            SetupState::Checking => SetupStateView::Checking,
            SetupState::Bucket { bucket, stage, memo, ids } => SetupStateView::Bucket {
                bucket: bucket as int,
                stage,
                memo,
                ids: ids@,
            },
            SetupState::Registering => SetupStateView::Registering,
            SetupState::Measuring => SetupStateView::Measuring,
            SetupState::Sweeping => SetupStateView::Sweeping,
            SetupState::Flushing => SetupStateView::Flushing,
            SetupState::Done => SetupStateView::Done,
            SetupState::Failed(failure) => SetupStateView::Failed(failure),
        }
    }
}

/// Whether the neuron of a bucket exists at this stage.
pub open spec fn spec_is_claimed(stage: Stage) -> bool {
    !(stage is Funding || stage is Claiming)
}

impl SetupStateView {
    /// A state is well formed for a plan when its bucket is one of the
    /// plan's, and one neuron was claimed for each bucket before it, and for
    /// itself once it is claimed.
    pub open spec fn wf(self, plan: SetupPlanView) -> bool {
        match self {
            SetupStateView::Bucket { bucket, stage, ids, .. } => {
                &&& 0 <= bucket < plan.delays.len()
                &&& ids.len() == if spec_is_claimed(stage) {
                    bucket + 1
                } else {
                    bucket
                }
            },
            _ => true,
        }
    }

    /// The phase that the state belongs to.
    pub open spec fn phase(self) -> Phase {
        match self {
            SetupStateView::Start => Phase::Start,
            SetupStateView::Checking => Phase::Checking,
            SetupStateView::Bucket { .. } => Phase::Funding,
            SetupStateView::Registering => Phase::Registering,
            SetupStateView::Measuring => Phase::Settling,
            SetupStateView::Sweeping => Phase::Settling,
            SetupStateView::Flushing => Phase::Settling,
            SetupStateView::Done => Phase::Done,
            SetupStateView::Failed(_) => Phase::Failed,
        }
    }

    /// Whether the setup has ended, well or badly.
    pub open spec fn is_terminal(self) -> bool {
        self is Done || self is Failed
    }

    /// The neuron that the awaited operation is about.
    pub open spec fn current_neuron(self) -> Option<u64> {
        match self {
            SetupStateView::Bucket { stage, ids, .. } => if spec_is_claimed(stage) {
                Some(ids.last())
            } else {
                None
            },
            _ => None,
        }
    }

    /// The failure that `error` causes in this state.
    pub open spec fn failure(self, error: Error) -> Failure {
        Failure { error, phase: self.phase(), neuron: self.current_neuron() }
    }
}

/// Where the setup stands once the neurons of the first `bucket` buckets
/// are made: it funds the next neuron under the fresh memo, at the account
/// from which the operator will claim it; or, with every bucket done, it
/// registers all the new neurons at once.
pub open spec fn spec_fund_from(plan: SetupPlanView, bucket: int, ids: Seq<u64>, memo: u64) -> (
    SetupStateView,
    SetupActionView,
) {
    if 0 <= bucket < plan.delays.len() {
        (
            SetupStateView::Bucket { bucket, stage: Stage::Funding, memo, ids },
            SetupActionView::Transfer {
                to: spec_neuron_account_id(plan.governance, plan.operator, memo),
                amount_e8s: plan.unit_stake,
                memo,
            },
        )
    } else {
        (SetupStateView::Registering, SetupActionView::ResetStakingNeurons { neuron_ids: ids })
    }
}

/// One step of the setup: the state and the action that follow from a
/// state, an event, and the fresh memo to use if a neuron is funded next.
///
/// The setup first asks for the operator's balance and fails with
/// `InsufficientBalance` if it is short. Then, bucket by bucket, it funds a
/// neuron, claims it, lengthens its dissolve delay, adds the deposits
/// service as a hotkey and switches on the automatic staking. With all
/// neurons made it registers them, transfers what is left of the balance,
/// less one fee, to the deposits service, and lets that service flush.
pub open spec fn spec_setup_step(
    plan: SetupPlanView,
    state: SetupStateView,
    event: SetupEvent,
    memo: u64,
) -> (SetupStateView, SetupActionView) {
    let unexpected = (
        SetupStateView::Failed(state.failure(Error::ProtocolError)),
        SetupActionView::Halt,
    );
    if state.is_terminal() {
        (state, SetupActionView::Halt)
    } else if let SetupEvent::Failed(error) = event {
        (SetupStateView::Failed(state.failure(error)), SetupActionView::Halt)
    } else {
        match state {
            SetupStateView::Start => match event {
                SetupEvent::Begin => (
                    SetupStateView::Checking,
                    SetupActionView::QueryBalance { account: plan.operator_account() },
                ),
                _ => unexpected,
            },
            SetupStateView::Checking => match event {
                SetupEvent::Balance(balance) => if balance < plan.minimum_required() {
                    (
                        SetupStateView::Failed(state.failure(Error::InsufficientBalance)),
                        SetupActionView::Halt,
                    )
                } else {
                    spec_fund_from(plan, 0, Seq::empty(), memo)
                },
                _ => unexpected,
            },
            SetupStateView::Bucket { bucket, stage, memo: used, ids } => match (stage, event) {
                (Stage::Funding, SetupEvent::Transferred(reply)) => match spec_transfer_outcome(
                    reply,
                ) {
                    Ok(_) => (
                        SetupStateView::Bucket { bucket, stage: Stage::Claiming, memo: used, ids },
                        SetupActionView::ClaimNeuron { controller: plan.operator, memo: used },
                    ),
                    Err(error) => (
                        SetupStateView::Failed(state.failure(error)),
                        SetupActionView::Halt,
                    ),
                },
                (Stage::Claiming, SetupEvent::Claimed(response)) => match spec_claim_outcome(
                    response,
                ) {
                    Ok(id) => (
                        SetupStateView::Bucket {
                            bucket,
                            stage: Stage::Delaying,
                            memo: used,
                            ids: ids.push(id),
                        },
                        SetupActionView::IncreaseDissolveDelay {
                            neuron_id: id,
                            additional_seconds: plan.delays[bucket],
                        },
                    ),
                    Err(error) => (
                        SetupStateView::Failed(state.failure(error)),
                        SetupActionView::Halt,
                    ),
                },
                (Stage::Delaying, SetupEvent::NeuronManaged(response)) => match spec_manage_outcome(
                    response,
                ) {
                    Some(error) => (
                        SetupStateView::Failed(state.failure(error)),
                        SetupActionView::Halt,
                    ),
                    None => (
                        SetupStateView::Bucket { bucket, stage: Stage::Hotkeying, memo: used, ids },
                        SetupActionView::AddHotKey { neuron_id: ids.last(), key: plan.deposits },
                    ),
                },
                (Stage::Hotkeying, SetupEvent::NeuronManaged(response)) => match spec_manage_outcome(
                    response,
                ) {
                    Some(error) => (
                        SetupStateView::Failed(state.failure(error)),
                        SetupActionView::Halt,
                    ),
                    None => (
                        SetupStateView::Bucket {
                            bucket,
                            stage: Stage::AutoStaking,
                            memo: used,
                            ids,
                        },
                        SetupActionView::EnableAutoStakeMaturity { neuron_id: ids.last() },
                    ),
                },
                (
                    Stage::AutoStaking,
                    SetupEvent::NeuronManaged(response),
                ) => match spec_manage_outcome(response) {
                    Some(error) => (
                        SetupStateView::Failed(state.failure(error)),
                        SetupActionView::Halt,
                    ),
                    None => spec_fund_from(plan, bucket + 1, ids, memo),
                },
                _ => unexpected,
            },
            SetupStateView::Registering => match event {
                SetupEvent::Completed => (
                    SetupStateView::Measuring,
                    SetupActionView::QueryBalance { account: plan.operator_account() },
                ),
                _ => unexpected,
            },
            SetupStateView::Measuring => match event {
                SetupEvent::Balance(balance) => if balance < plan.fee {
                    (
                        SetupStateView::Failed(state.failure(Error::InsufficientBalance)),
                        SetupActionView::Halt,
                    )
                } else {
                    (
                        SetupStateView::Sweeping,
                        SetupActionView::Transfer {
                            to: plan.deposits_account(),
                            amount_e8s: (balance - plan.fee) as u64,
                            memo: 0,
                        },
                    )
                },
                _ => unexpected,
            },
            SetupStateView::Sweeping => match event {
                SetupEvent::Transferred(reply) => match spec_transfer_outcome(reply) {
                    Ok(_) => (SetupStateView::Flushing, SetupActionView::FlushPendingDeposits),
                    Err(error) => (
                        SetupStateView::Failed(state.failure(error)),
                        SetupActionView::Halt,
                    ),
                },
                _ => unexpected,
            },
            SetupStateView::Flushing => match event {
                SetupEvent::Completed => (SetupStateView::Done, SetupActionView::Halt),
                _ => unexpected,
            },
            _ => (state, SetupActionView::Halt),
        }
    }
}

/// The setup: its plan, and where it stands.
#[derive(Debug, PartialEq)]
pub struct SetupJob {
    plan: SetupPlan,
    state: SetupState,
}

/// The mathematical model of `SetupJob`.
pub struct SetupJobView {
    pub plan: SetupPlanView,
    pub state: SetupStateView,
}

impl View for SetupJob {
    type V = SetupJobView;

    closed spec fn view(&self) -> SetupJobView {
        SetupJobView { plan: self.plan@, state: self.state@ }
    }
}

impl SetupJobView {
    /// The setup after one event, and the action it asks for.
    pub open spec fn step(self, event: SetupEvent, memo: u64) -> (SetupJobView, SetupActionView) {
        let (state, action) = spec_setup_step(self.plan, self.state, event, memo);
        (SetupJobView { plan: self.plan, state }, action)
    }
}

fn fail(plan: SetupPlan, error: Error, phase: Phase, neuron: Option<u64>) -> (r: (
    SetupJob,
    SetupAction,
))
    ensures
        r.0@ == (SetupJobView {
            plan: plan@,
            state: SetupStateView::Failed(Failure { error, phase, neuron }),
        }),
        r.1@ == SetupActionView::Halt,
{
    (
        SetupJob { plan, state: SetupState::Failed(Failure { error, phase, neuron }) },
        SetupAction::Halt,
    )
}

fn fund_from(plan: SetupPlan, bucket: usize, ids: Vec<u64>, memo: u64) -> (r: (SetupJob, SetupAction))
    requires
        bucket <= plan@.delays.len(),
        ids@.len() == bucket,
    ensures
        r.0@.plan == plan@,
        (r.0@.state, r.1@) == spec_fund_from(plan@, bucket as int, ids@, memo),
{
    if bucket < plan.delays.len() {
        let to = neuron_account_id(&plan.governance, &plan.operator, memo);
        let amount_e8s = plan.unit_stake;
        (
            SetupJob { plan, state: SetupState::Bucket { bucket, stage: Stage::Funding, memo, ids } },
            SetupAction::Transfer { to, amount_e8s, memo },
        )
    } else {
        (
            SetupJob { plan, state: SetupState::Registering },
            SetupAction::ResetStakingNeurons { neuron_ids: ids },
        )
    }
}

impl SetupJob {
    #[verifier::type_invariant]
    closed spec fn inv(&self) -> bool {
        self.state@.wf(self.plan@)
    }

    /// A setup that has not begun.
    pub fn new(plan: SetupPlan) -> (job: SetupJob)
        ensures
            job@ == (SetupJobView { plan: plan@, state: SetupStateView::Start }),
    {
        SetupJob { plan, state: SetupState::Start }
    }

    /// Takes one step with the memo `memo` at hand: consumes the event that
    /// the driver reports and returns the setup as it then stands, with the
    /// action to perform next. The memo is used only where the step funds a
    /// neuron.
    pub fn step_with_memo(self, event: SetupEvent, memo: u64) -> (r: (SetupJob, SetupAction))
        ensures
            (r.0@, r.1@) == self@.step(event, memo),
            self@.state.wf(self@.plan),
            r.0@.state.wf(r.0@.plan),
    {
        proof {
            use_type_invariant(&self);
        }
        let SetupJob { plan, state } = self;
        match state {
            SetupState::Done => (SetupJob { plan, state: SetupState::Done }, SetupAction::Halt),
            SetupState::Failed(failure) => (
                SetupJob { plan, state: SetupState::Failed(failure) },
                SetupAction::Halt,
            ),
            SetupState::Start => match event {
                SetupEvent::Begin => {
                    let account = derive_account_id(&plan.operator, None);
                    (
                        SetupJob { plan, state: SetupState::Checking },
                        SetupAction::QueryBalance { account },
                    )
                },
                SetupEvent::Failed(error) => fail(plan, error, Phase::Start, None),
                _ => fail(plan, Error::ProtocolError, Phase::Start, None),
            },
            SetupState::Checking => match event {
                SetupEvent::Balance(balance) => {
                    if covers_setup(balance, plan.delays.len(), plan.unit_stake, plan.fee) {
                        fund_from(plan, 0, Vec::new(), memo)
                    } else {
                        fail(plan, Error::InsufficientBalance, Phase::Checking, None)
                    }
                },
                SetupEvent::Failed(error) => fail(plan, error, Phase::Checking, None),
                _ => fail(plan, Error::ProtocolError, Phase::Checking, None),
            },
            SetupState::Bucket { bucket, stage, memo: used, ids } => {
                assert(plan.delays.len() == plan.delays@.len());
                let neuron = match stage {
                    Stage::Funding => None,
                    Stage::Claiming => None,
                    _ => Some(ids[ids.len() - 1]),
                };
                match (stage, event) {
                    (Stage::Funding, SetupEvent::Transferred(reply)) => match transfer_outcome(
                        &reply,
                    ) {
                        Ok(_) => {
                            let controller = plan.operator;
                            (
                                SetupJob {
                                    plan,
                                    state: SetupState::Bucket {
                                        bucket,
                                        stage: Stage::Claiming,
                                        memo: used,
                                        ids,
                                    },
                                },
                                SetupAction::ClaimNeuron { controller, memo: used },
                            )
                        },
                        Err(error) => fail(plan, error, Phase::Funding, neuron),
                    },
                    (Stage::Claiming, SetupEvent::Claimed(response)) => match claim_outcome(
                        &response,
                    ) {
                        Ok(id) => {
                            let mut ids = ids;
                            ids.push(id);
                            let additional_seconds = plan.delays[bucket];
                            (
                                SetupJob {
                                    plan,
                                    state: SetupState::Bucket {
                                        bucket,
                                        stage: Stage::Delaying,
                                        memo: used,
                                        ids,
                                    },
                                },
                                SetupAction::IncreaseDissolveDelay {
                                    neuron_id: id,
                                    additional_seconds,
                                },
                            )
                        },
                        Err(error) => fail(plan, error, Phase::Funding, neuron),
                    },
                    (Stage::Delaying, SetupEvent::NeuronManaged(response)) => match manage_outcome(
                        &response,
                    ) {
                        Some(error) => fail(plan, error, Phase::Funding, neuron),
                        None => {
                            let neuron_id = ids[ids.len() - 1];
                            let key = plan.deposits;
                            (
                                SetupJob {
                                    plan,
                                    state: SetupState::Bucket {
                                        bucket,
                                        stage: Stage::Hotkeying,
                                        memo: used,
                                        ids,
                                    },
                                },
                                SetupAction::AddHotKey { neuron_id, key },
                            )
                        },
                    },
                    (Stage::Hotkeying, SetupEvent::NeuronManaged(response)) => match manage_outcome(
                        &response,
                    ) {
                        Some(error) => fail(plan, error, Phase::Funding, neuron),
                        None => {
                            let neuron_id = ids[ids.len() - 1];
                            (
                                SetupJob {
                                    plan,
                                    state: SetupState::Bucket {
                                        bucket,
                                        stage: Stage::AutoStaking,
                                        memo: used,
                                        ids,
                                    },
                                },
                                SetupAction::EnableAutoStakeMaturity { neuron_id },
                            )
                        },
                    },
                    (
                        Stage::AutoStaking,
                        SetupEvent::NeuronManaged(response),
                    ) => match manage_outcome(&response) {
                        Some(error) => fail(plan, error, Phase::Funding, neuron),
                        None => fund_from(plan, bucket + 1, ids, memo),
                    },
                    (_, SetupEvent::Failed(error)) => fail(plan, error, Phase::Funding, neuron),
                    _ => fail(plan, Error::ProtocolError, Phase::Funding, neuron),
                }
            },
            SetupState::Registering => match event {
                SetupEvent::Completed => {
                    let account = derive_account_id(&plan.operator, None);
                    (
                        SetupJob { plan, state: SetupState::Measuring },
                        SetupAction::QueryBalance { account },
                    )
                },
                SetupEvent::Failed(error) => fail(plan, error, Phase::Registering, None),
                _ => fail(plan, Error::ProtocolError, Phase::Registering, None),
            },
            SetupState::Measuring => match event {
                SetupEvent::Balance(balance) => {
                    if balance < plan.fee {
                        fail(plan, Error::InsufficientBalance, Phase::Settling, None)
                    } else {
                        let to = derive_account_id(&plan.deposits, None);
                        let amount_e8s = balance - plan.fee;
                        (
                            SetupJob { plan, state: SetupState::Sweeping },
                            SetupAction::Transfer { to, amount_e8s, memo: 0 },
                        )
                    }
                },
                SetupEvent::Failed(error) => fail(plan, error, Phase::Settling, None),
                _ => fail(plan, Error::ProtocolError, Phase::Settling, None),
            },
            SetupState::Sweeping => match event {
                SetupEvent::Transferred(reply) => match transfer_outcome(&reply) {
                    Ok(_) => (
                        SetupJob { plan, state: SetupState::Flushing },
                        SetupAction::FlushPendingDeposits,
                    ),
                    Err(error) => fail(plan, error, Phase::Settling, None),
                },
                SetupEvent::Failed(error) => fail(plan, error, Phase::Settling, None),
                _ => fail(plan, Error::ProtocolError, Phase::Settling, None),
            },
            SetupState::Flushing => match event {
                SetupEvent::Completed => (
                    SetupJob { plan, state: SetupState::Done },
                    SetupAction::Halt,
                ),
                SetupEvent::Failed(error) => fail(plan, error, Phase::Settling, None),
                _ => fail(plan, Error::ProtocolError, Phase::Settling, None),
            },
        }
    }

    /// Takes one step, with a memo drawn at random for the neuron that the
    /// step may fund: the result is that of `step_with_memo` for some memo.
    pub fn step(self, event: SetupEvent) -> (r: (SetupJob, SetupAction))
        ensures
            exists|memo: u64| #[trigger] self@.step(event, memo) == (r.0@, r.1@),
            r.0@.state.wf(r.0@.plan),
    {
        let memo = random_memo();
        let ghost before = self@;
        let r = self.step_with_memo(event, memo);
        assert(before.step(event, memo) == (r.0@, r.1@));
        r
    }
}

impl SetupJob {
    /// The phase in which the setup stands.
    pub fn phase(&self) -> (phase: Phase)
        ensures
            phase == self@.state.phase(),
    {
        match &self.state {
            SetupState::Start => Phase::Start,
            SetupState::Checking => Phase::Checking,
            SetupState::Bucket { .. } => Phase::Funding,
            SetupState::Registering => Phase::Registering,
            SetupState::Measuring => Phase::Settling,
            SetupState::Sweeping => Phase::Settling,
            SetupState::Flushing => Phase::Settling,
            SetupState::Done => Phase::Done,
            SetupState::Failed(_) => Phase::Failed,
        }
    }

    /// Whether every step was taken.
    pub fn is_done(&self) -> (done: bool)
        ensures
            done == (self@.state is Done),
    {
        match &self.state {
            SetupState::Done => true,
            _ => false,
        }
    }

    /// Why the setup stopped, if it failed.
    pub fn failure(&self) -> (failure: Option<Failure>)
        ensures
            failure == match self@.state {
                SetupStateView::Failed(f) => Some(f),
                _ => None,
            },
    {
        match &self.state {
            SetupState::Failed(f) => Some(*f),
            _ => None,
        }
    }

    /// The working state of the setup.
    pub fn state(&self) -> (state: &SetupState)
        ensures
            state@ == self@.state,
            state@.wf(self@.plan),
    {
        proof {
            use_type_invariant(self);
        }
        &self.state
    }

    /// The plan that the setup follows.
    pub fn plan(&self) -> (plan: &SetupPlan)
        ensures
            plan@ == self@.plan,
    {
        &self.plan
    }
}

/// The setup after a run of events, each with the memo at hand when it
/// came, and the actions it asked for, one for each event.
pub open spec fn spec_setup_run(job: SetupJobView, events: Seq<(SetupEvent, u64)>) -> (
    SetupJobView,
    Seq<SetupActionView>,
)
    decreases events.len(),
{
    if events.len() == 0 {
        (job, Seq::empty())
    } else {
        let (before, actions) = spec_setup_run(job, events.drop_last());
        let (after, action) = before.step(events.last().0, events.last().1);
        (after, actions.push(action))
    }
}

/// A step leaves a well-formed state well formed, and never changes the
/// plan.
pub proof fn lemma_step_keeps_well_formed(job: SetupJobView, event: SetupEvent, memo: u64)
    requires
        job.state.wf(job.plan),
    ensures
        job.step(event, memo).0.state.wf(job.plan),
        job.step(event, memo).0.plan == job.plan,
{
}

/// A setup that is done or has failed stays as it is, and asks for nothing
/// more.
pub proof fn lemma_ended_setup_stays(job: SetupJobView, event: SetupEvent, memo: u64)
    requires
        job.state.is_terminal(),
    ensures
        job.step(event, memo) == (job, SetupActionView::Halt),
{
}

/// A failed operation fails the setup at once: the setup records the error
/// with the phase and the neuron it came at, and asks for nothing more.
pub proof fn lemma_failure_stops_the_setup(job: SetupJobView, error: Error, memo: u64)
    requires
        !job.state.is_terminal(),
    ensures
        job.step(SetupEvent::Failed(error), memo) == (
            SetupJobView {
                plan: job.plan,
                state: SetupStateView::Failed(
                    Failure { error, phase: job.state.phase(), neuron: job.state.current_neuron() },
                ),
            },
            SetupActionView::Halt,
        ),
{
}

/// The memo at hand matters only where the step funds a neuron: every
/// other step is the same whatever the memo.
pub proof fn lemma_memo_matters_only_for_funding(
    job: SetupJobView,
    event: SetupEvent,
    memo: u64,
    other: u64,
)
    ensures
        job.step(event, memo) == job.step(event, other) || (job.step(event, memo).0.state matches SetupStateView::Bucket {
            stage: Stage::Funding,
            memo: used,
            ..
        } && used == memo),
{
}

/// A neuron is funded at the account that belongs to the governance
/// service, the operator and the memo, with the unit stake; and it is
/// claimed for the operator under the very memo it was funded under.
pub proof fn lemma_claim_follows_funding(
    job: SetupJobView,
    bucket: int,
    ids: Seq<u64>,
    memo: u64,
    reply: Result_1,
    fresh: u64,
)
    requires
        0 <= bucket < job.plan.delays.len(),
        job.state == (SetupStateView::Bucket { bucket, stage: Stage::Funding, memo, ids }),
        spec_transfer_outcome(reply) is Ok,
    ensures
        spec_fund_from(job.plan, bucket, ids, memo) == (
            job.state,
            SetupActionView::Transfer {
                to: spec_neuron_account_id(job.plan.governance, job.plan.operator, memo),
                amount_e8s: job.plan.unit_stake,
                memo,
            },
        ),
        job.step(SetupEvent::Transferred(reply), fresh) == (
            SetupJobView {
                plan: job.plan,
                state: SetupStateView::Bucket { bucket, stage: Stage::Claiming, memo, ids },
            },
            SetupActionView::ClaimNeuron { controller: job.plan.operator, memo },
        ),
{
}

/// The events of the making of one neuron that goes well: the replies to
/// the transfer, to the claim, and to the three configure commands. The
/// memo `fresh` is at hand when the last of them comes.
pub open spec fn spec_bucket_events(
    transfer: Result_1,
    claim: ClaimOrRefreshNeuronFromAccountResponse,
    delayed: ManageNeuronResponse,
    hotkeyed: ManageNeuronResponse,
    auto_staked: ManageNeuronResponse,
    fresh: u64,
) -> Seq<(SetupEvent, u64)> {
    seq![
        (SetupEvent::Transferred(transfer), 0u64),
        (SetupEvent::Claimed(claim), 0u64),
        (SetupEvent::NeuronManaged(delayed), 0u64),
        (SetupEvent::NeuronManaged(hotkeyed), 0u64),
        (SetupEvent::NeuronManaged(auto_staked), fresh),
    ]
}

/// The making of one neuron. Once the neuron of a bucket is funded under a
/// memo, and while every operation succeeds, the setup claims the neuron
/// for the operator under that same memo, lengthens its dissolve delay by
/// the bucket's duration, makes the deposits service its hotkey, and
/// switches on the automatic staking of its maturity, in this order and each
/// once. It records the new neuron after those of the buckets before, and
/// goes on to the next bucket, or to the registration of all the neurons.
pub proof fn lemma_bucket_run(
    job: SetupJobView,
    bucket: int,
    ids: Seq<u64>,
    memo: u64,
    transfer: Result_1,
    claim: ClaimOrRefreshNeuronFromAccountResponse,
    delayed: ManageNeuronResponse,
    hotkeyed: ManageNeuronResponse,
    auto_staked: ManageNeuronResponse,
    id: u64,
    fresh: u64,
)
    requires
        0 <= bucket < job.plan.delays.len(),
        ids.len() == bucket,
        job.state == (SetupStateView::Bucket { bucket, stage: Stage::Funding, memo, ids }),
        spec_transfer_outcome(transfer) is Ok,
        spec_claim_outcome(claim) == Ok::<u64, Error>(id),
        spec_manage_outcome(delayed) is None,
        spec_manage_outcome(hotkeyed) is None,
        spec_manage_outcome(auto_staked) is None,
    ensures
        ({
            let (end, actions) = spec_setup_run(
                job,
                spec_bucket_events(transfer, claim, delayed, hotkeyed, auto_staked, fresh),
            );
            &&& end.plan == job.plan
            &&& end.state == spec_fund_from(job.plan, bucket + 1, ids.push(id), fresh).0
            &&& actions == seq![
                SetupActionView::ClaimNeuron { controller: job.plan.operator, memo },
                SetupActionView::IncreaseDissolveDelay {
                    neuron_id: id,
                    additional_seconds: job.plan.delays[bucket],
                },
                SetupActionView::AddHotKey { neuron_id: id, key: job.plan.deposits },
                SetupActionView::EnableAutoStakeMaturity { neuron_id: id },
                spec_fund_from(job.plan, bucket + 1, ids.push(id), fresh).1,
            ]
        }),
{
    let events = spec_bucket_events(transfer, claim, delayed, hotkeyed, auto_staked, fresh);
    let e4 = events.drop_last();
    let e3 = e4.drop_last();
    let e2 = e3.drop_last();
    let e1 = e2.drop_last();
    assert(e1.drop_last() =~= Seq::<(SetupEvent, u64)>::empty());
    assert(e1.last() == events[0] && e2.last() == events[1] && e3.last() == events[2] && e4.last()
        == events[3] && events.last() == events[4]);
    let r0 = spec_setup_run(job, e1.drop_last());
    assert(r0 == (job, Seq::<SetupActionView>::empty()));
    let r1 = spec_setup_run(job, e1);
    let r2 = spec_setup_run(job, e2);
    let r3 = spec_setup_run(job, e3);
    let r4 = spec_setup_run(job, e4);
    let r5 = spec_setup_run(job, events);
    let claimed = ids.push(id);
    assert(claimed.last() == id);
    assert(r1.0.state == (SetupStateView::Bucket { bucket, stage: Stage::Claiming, memo, ids }));
    assert(r2.0.state == (SetupStateView::Bucket {
        bucket,
        stage: Stage::Delaying,
        memo,
        ids: claimed,
    }));
    assert(r3.0.state == (SetupStateView::Bucket {
        bucket,
        stage: Stage::Hotkeying,
        memo,
        ids: claimed,
    }));
    assert(r4.0.state == (SetupStateView::Bucket {
        bucket,
        stage: Stage::AutoStaking,
        memo,
        ids: claimed,
    }));
    assert(r5.1 =~= seq![
        SetupActionView::ClaimNeuron { controller: job.plan.operator, memo },
        SetupActionView::IncreaseDissolveDelay {
            neuron_id: id,
            additional_seconds: job.plan.delays[bucket],
        },
        SetupActionView::AddHotKey { neuron_id: id, key: job.plan.deposits },
        SetupActionView::EnableAutoStakeMaturity { neuron_id: id },
        spec_fund_from(job.plan, bucket + 1, claimed, fresh).1,
    ]);
}

/// A run of events is a run of its first part and then, from where that
/// ended, a run of the rest.
pub proof fn lemma_run_in_two_parts(
    job: SetupJobView,
    first: Seq<(SetupEvent, u64)>,
    rest: Seq<(SetupEvent, u64)>,
)
    ensures
        spec_setup_run(job, first + rest).0 == spec_setup_run(
            spec_setup_run(job, first).0,
            rest,
        ).0,
        spec_setup_run(job, first + rest).1 == spec_setup_run(job, first).1 + spec_setup_run(
            spec_setup_run(job, first).0,
            rest,
        ).1,
    decreases rest.len(),
{
    let middle = spec_setup_run(job, first).0;
    if rest.len() == 0 {
        assert(first + rest =~= first);
        assert(spec_setup_run(job, first).1 + spec_setup_run(middle, rest).1 =~= spec_setup_run(
            job,
            first,
        ).1);
    } else {
        lemma_run_in_two_parts(job, first, rest.drop_last());
        assert((first + rest).drop_last() =~= first + rest.drop_last());
        assert((first + rest).last() == rest.last());
        let before = spec_setup_run(middle, rest.drop_last());
        let step = before.0.step(rest.last().0, rest.last().1);
        assert(spec_setup_run(job, first).1 + before.1.push(step.1) =~= (spec_setup_run(
            job,
            first,
        ).1 + before.1).push(step.1));
    }
}

/// The replies that the making of the neurons meets when all goes well,
/// bucket by bucket, with the neurons that are claimed and the memos that
/// are at hand: `memos[j]` is the memo under which the bucket `j` is
/// funded.
pub struct BucketReplies {
    pub transfers: Seq<Result_1>,
    pub claims: Seq<ClaimOrRefreshNeuronFromAccountResponse>,
    pub delayed: Seq<ManageNeuronResponse>,
    pub hotkeyed: Seq<ManageNeuronResponse>,
    pub auto_staked: Seq<ManageNeuronResponse>,
    pub claimed: Seq<u64>,
    pub memos: Seq<u64>,
}

impl BucketReplies {
    /// Whether these are the replies of `count` buckets that go well.
    pub open spec fn go_well(self, count: nat) -> bool {
        &&& self.transfers.len() == count
        &&& self.claims.len() == count
        &&& self.delayed.len() == count
        &&& self.hotkeyed.len() == count
        &&& self.auto_staked.len() == count
        &&& self.claimed.len() == count
        &&& self.memos.len() == count + 1
        &&& forall|j: int|
            0 <= j < count ==> {
                &&& spec_transfer_outcome(#[trigger] self.transfers[j]) is Ok
                &&& spec_claim_outcome(self.claims[j]) == Ok::<u64, Error>(self.claimed[j])
                &&& spec_manage_outcome(self.delayed[j]) is None
                &&& spec_manage_outcome(self.hotkeyed[j]) is None
                &&& spec_manage_outcome(self.auto_staked[j]) is None
            }
    }

    /// The events of the first `count` buckets, in order.
    pub open spec fn events(self, count: nat) -> Seq<(SetupEvent, u64)>
        decreases count,
    {
        if count == 0 {
            Seq::empty()
        } else {
            let j = count - 1;
            self.events(j as nat) + spec_bucket_events(
                self.transfers[j],
                self.claims[j],
                self.delayed[j],
                self.hotkeyed[j],
                self.auto_staked[j],
                self.memos[j + 1],
            )
        }
    }
}

/// The making of all the neurons. While every operation succeeds, the setup
/// makes the neurons bucket by bucket, five operations each: the claim under
/// the memo of the funding, the dissolve delay of the bucket, the hotkey,
/// the automatic staking, and then the funding of the next bucket. After
/// the last bucket it registers with the deposits service exactly the
/// neurons it has claimed, all of them and in the order of the buckets.
pub proof fn lemma_buckets_run(job: SetupJobView, replies: BucketReplies, count: nat)
    requires
        0 < job.plan.delays.len(),
        count <= job.plan.delays.len(),
        replies.go_well(job.plan.delays.len()),
        job.state == (SetupStateView::Bucket {
            bucket: 0,
            stage: Stage::Funding,
            memo: replies.memos[0],
            ids: Seq::empty(),
        }),
    ensures
        ({
            let (end, actions) = spec_setup_run(job, replies.events(count));
            let plan = job.plan;
            &&& end.plan == plan
            &&& end.state == spec_fund_from(
                plan,
                count as int,
                replies.claimed.take(count as int),
                replies.memos[count as int],
            ).0
            &&& actions.len() == 5 * count
            &&& forall|j: int|
                0 <= j < count ==> {
                    &&& (#[trigger] actions[5 * j]) == (SetupActionView::ClaimNeuron {
                        controller: plan.operator,
                        memo: replies.memos[j],
                    })
                    &&& actions[5 * j + 1] == (SetupActionView::IncreaseDissolveDelay {
                        neuron_id: replies.claimed[j],
                        additional_seconds: plan.delays[j],
                    })
                    &&& actions[5 * j + 2] == (SetupActionView::AddHotKey {
                        neuron_id: replies.claimed[j],
                        key: plan.deposits,
                    })
                    &&& actions[5 * j + 3] == (SetupActionView::EnableAutoStakeMaturity {
                        neuron_id: replies.claimed[j],
                    })
                    &&& actions[5 * j + 4] == spec_fund_from(
                        plan,
                        j + 1,
                        replies.claimed.take(j + 1),
                        replies.memos[j + 1],
                    ).1
                }
            &&& count == plan.delays.len() ==> actions[5 * count - 1]
                == (SetupActionView::ResetStakingNeurons { neuron_ids: replies.claimed })
        }),
    decreases count,
{
    let plan = job.plan;
    if count == 0 {
        assert(replies.claimed.take(0) =~= Seq::<u64>::empty());
    } else {
        let j = (count - 1) as int;
        lemma_buckets_run(job, replies, j as nat);
        let first = replies.events(j as nat);
        let rest = spec_bucket_events(
            replies.transfers[j],
            replies.claims[j],
            replies.delayed[j],
            replies.hotkeyed[j],
            replies.auto_staked[j],
            replies.memos[j + 1],
        );
        lemma_run_in_two_parts(job, first, rest);
        let (middle, early) = spec_setup_run(job, first);
        let before = replies.claimed.take(j);
        assert(spec_transfer_outcome(replies.transfers[j]) is Ok);
        lemma_bucket_run(
            middle,
            j,
            before,
            replies.memos[j],
            replies.transfers[j],
            replies.claims[j],
            replies.delayed[j],
            replies.hotkeyed[j],
            replies.auto_staked[j],
            replies.claimed[j],
            replies.memos[j + 1],
        );
        assert(before.push(replies.claimed[j]) =~= replies.claimed.take(j + 1));
        let (end, late) = spec_setup_run(middle, rest);
        let actions = early + late;
        assert(spec_setup_run(job, replies.events(count)) == (end, actions));
        assert(late.len() == 5);
        assert forall|i: int| 0 <= i < count implies {
            &&& (#[trigger] actions[5 * i]) == (SetupActionView::ClaimNeuron {
                controller: plan.operator,
                memo: replies.memos[i],
            })
            &&& actions[5 * i + 1] == (SetupActionView::IncreaseDissolveDelay {
                neuron_id: replies.claimed[i],
                additional_seconds: plan.delays[i],
            })
            &&& actions[5 * i + 2] == (SetupActionView::AddHotKey {
                neuron_id: replies.claimed[i],
                key: plan.deposits,
            })
            &&& actions[5 * i + 3] == (SetupActionView::EnableAutoStakeMaturity {
                neuron_id: replies.claimed[i],
            })
            &&& actions[5 * i + 4] == spec_fund_from(
                plan,
                i + 1,
                replies.claimed.take(i + 1),
                replies.memos[i + 1],
            ).1
        } by {
            if i < j {
                assert(actions[5 * i] == early[5 * i]);
                assert(actions[5 * i + 1] == early[5 * i + 1]);
                assert(actions[5 * i + 2] == early[5 * i + 2]);
                assert(actions[5 * i + 3] == early[5 * i + 3]);
                assert(actions[5 * i + 4] == early[5 * i + 4]);
            } else {
                assert(actions[5 * i] == late[0]);
                assert(actions[5 * i + 1] == late[1]);
                assert(actions[5 * i + 2] == late[2]);
                assert(actions[5 * i + 3] == late[3]);
                assert(actions[5 * i + 4] == late[4]);
            }
        }
        if count == plan.delays.len() {
            assert(replies.claimed.take(count as int) =~= replies.claimed);
            assert(actions[5 * count - 1] == late[4]);
        }
    }
}

/// A balance below the stake of every bucket plus one fee fails the setup
/// with `InsufficientBalance`, in the checking phase, with nothing asked
/// for.
pub proof fn lemma_short_balance_fails(job: SetupJobView, balance: u64, memo: u64)
    requires
        job.state is Checking,
        balance < job.plan.delays.len() * job.plan.unit_stake + job.plan.fee,
    ensures
        job.step(SetupEvent::Balance(balance), memo) == (
            SetupJobView {
                plan: job.plan,
                state: SetupStateView::Failed(
                    Failure { error: Error::InsufficientBalance, phase: Phase::Checking, neuron: None },
                ),
            },
            SetupActionView::Halt,
        ),
{
}

/// Whatever is reported to a setup that has ended, it asks for no remote
/// operation again.
pub proof fn lemma_nothing_follows_the_end(job: SetupJobView, events: Seq<(SetupEvent, u64)>)
    requires
        job.state.is_terminal(),
    ensures
        spec_setup_run(job, events).0 == job,
        spec_setup_run(job, events).1.len() == events.len(),
        forall|i: int|
            0 <= i < events.len() ==> (#[trigger] spec_setup_run(job, events).1[i])
                == SetupActionView::Halt,
    decreases events.len(),
{
    if events.len() > 0 {
        lemma_nothing_follows_the_end(job, events.drop_last());
        lemma_ended_setup_stays(job, events.last().0, events.last().1);
    }
}

/// The precondition of the setup. Whenever the operator's balance is below
/// what the setup needs, a setup that begins and learns that balance fails
/// with `InsufficientBalance`, and whatever is reported afterwards, it
/// never asks for an operation that changes anything: its first action
/// asks for the balance, and all the others are `Halt`.
pub proof fn lemma_short_balance_changes_nothing(
    plan: SetupPlanView,
    balance: u64,
    first_memo: u64,
    second_memo: u64,
    later: Seq<(SetupEvent, u64)>,
)
    requires
        balance < plan.delays.len() * plan.unit_stake + plan.fee,
    ensures
        ({
            let start = SetupJobView { plan, state: SetupStateView::Start };
            let events = seq![
                (SetupEvent::Begin, first_memo),
                (SetupEvent::Balance(balance), second_memo),
            ] + later;
            let (end, actions) = spec_setup_run(start, events);
            &&& end.state == SetupStateView::Failed(
                Failure { error: Error::InsufficientBalance, phase: Phase::Checking, neuron: None },
            )
            &&& actions.len() == events.len()
            &&& actions[0] == SetupActionView::QueryBalance { account: plan.operator_account() }
            &&& forall|i: int| 1 <= i < actions.len() ==> (#[trigger] actions[i]) == SetupActionView::Halt
            &&& forall|i: int| 0 <= i < actions.len() ==> !(#[trigger] actions[i]).is_mutating()
        }),
    decreases later.len(),
{
    let start = SetupJobView { plan, state: SetupStateView::Start };
    let head = seq![(SetupEvent::Begin, first_memo), (SetupEvent::Balance(balance), second_memo)];
    let events = head + later;
    if later.len() == 0 {
        assert(events =~= head);
        assert(head.drop_last() =~= seq![(SetupEvent::Begin, first_memo)]);
        assert(head.drop_last().drop_last() =~= Seq::<(SetupEvent, u64)>::empty());
        assert(spec_setup_run(start, head.drop_last().drop_last()) == (
            start,
            Seq::<SetupActionView>::empty(),
        ));
        let checking = SetupJobView { plan, state: SetupStateView::Checking };
        assert(spec_setup_run(start, head.drop_last()).0 == checking);
        lemma_short_balance_fails(checking, balance, second_memo);
    } else {
        lemma_short_balance_changes_nothing(plan, balance, first_memo, second_memo, later.drop_last());
        assert(events.drop_last() =~= head + later.drop_last());
        assert(events.last() == later.last());
        let (before, _) = spec_setup_run(start, head + later.drop_last());
        lemma_ended_setup_stays(before, later.last().0, later.last().1);
    }
}

/// The setup, as the operator asked for it.
#[derive(Debug, PartialEq)]
pub struct Command {
    /// Where the job runs and who signs for it.
    pub identity: IdentityArgs,
    /// The principal of the ledger, as text.
    pub icp_ledger: String,
}

impl Command {
    /// Begins the setup for `operator`: the job as it stands once it has
    /// begun, and its first action, which asks for the operator's balance.
    /// The plan is that of the reference deployment: sixteen neurons of one
    /// token each, and the ledger's standard fee. `None` where the
    /// principal of the deposits service, of the governance service or of
    /// the ledger cannot be read; nothing is asked for then.
    pub fn run(&self, operator: Principal) -> (r: Option<(SetupJob, SetupAction)>)
        ensures
            r is Some == (spec_principal_from_text(self.identity.deposits@) is Some
                && spec_principal_from_text(self.identity.governance@) is Some
                && spec_principal_from_text(self.icp_ledger@) is Some),
            r matches Some((job, action)) ==> {
                &&& job@.plan == (SetupPlanView {
                    delays: spec_default_delays(),
                    unit_stake: UNIT_STAKE_E8S,
                    fee: ICP_FEE,
                    governance: spec_principal_from_text(self.identity.governance@).unwrap(),
                    operator: operator@,
                    deposits: spec_principal_from_text(self.identity.deposits@).unwrap(),
                })
                &&& job@.state == SetupStateView::Checking
                &&& action@ == (SetupActionView::QueryBalance {
                    account: spec_derive_account_id(operator@, None),
                })
            },
    {
        let deposits = match Principal::from_text(self.identity.deposits.as_str()) {
            Some(p) => p,
            None => {
                return None;
            },
        };
        let governance = match Principal::from_text(self.identity.governance.as_str()) {
            Some(p) => p,
            None => {
                return None;
            },
        };
        if Principal::from_text(self.icp_ledger.as_str()).is_none() {
            return None;
        }
        let plan = SetupPlan {
            delays: default_delays(),
            unit_stake: UNIT_STAKE_E8S,
            fee: ICP_FEE,
            governance,
            operator,
            deposits,
        };
        Some(SetupJob::new(plan).step_with_memo(SetupEvent::Begin, 0))
    }
}

} // verus!
