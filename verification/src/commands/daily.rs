use crate::account::{derive_account_id, spec_derive_account_id, AccountIdentifier};
use crate::commands::{Failure, Phase};
use crate::deposits::SplitInstruction;
use crate::error::Error;
use crate::governance::generated::{ManageNeuronResponse, Neuron};
use crate::governance::{
    manage_outcome, neurons_to_disburse, spec_disbursable, spec_manage_outcome, spec_split_outcome,
    split_outcome,
};
use crate::identity::IdentityArgs;
use crate::principal::{spec_principal_from_text, Principal};
use vstd::prelude::*;

verus! {

/// What the daily job asks its driver to do next. Every variant but `Halt`
/// is one remote operation; the driver performs it and reports back with
/// the matching `DailyEvent`.
#[derive(Clone, Copy, Debug, PartialEq, Eq)]
pub enum DailyAction {
    /// List the neurons that the caller may read.
    ListNeurons,
    /// Pay the whole neuron out to the account.
    Disburse { neuron_id: u64, to: AccountIdentifier },
    /// Let the deposits service collect, apply interest and settle.
    RefreshNeuronsAndApplyInterest,
    /// Split the amount off the neuron into a new one.
    Split { neuron_id: u64, amount_e8s: u64 },
    /// Start the neuron dissolving.
    StartDissolving { neuron_id: u64 },
    /// Tell the deposits service that `new_id` stakes in place of `old_id`.
    ReplaceStakingNeuron { old_id: u64, new_id: u64 },
    /// Nothing is left to do: the job is done, or it has failed.
    Halt,
}

/// What the driver reports to the daily job.
#[derive(Debug, PartialEq)]
pub enum DailyEvent {
    /// The job is to begin.
    Begin,
    /// The governance service listed these neurons.
    NeuronsListed(Vec<Neuron>),
    /// The governance service answered a disburse, split or configure
    /// command.
    NeuronManaged(ManageNeuronResponse),
    /// The deposits service refreshed, and asks for these splits.
    Refreshed(Vec<SplitInstruction>),
    /// The deposits service replaced a staking neuron.
    Replaced,
    /// The operation failed.
    Failed(Error),
}

/// The working state of the daily job.
#[derive(Debug, PartialEq)]
pub enum DailyState {
    /// Nothing was asked for yet.
    Start,
    /// The listing of neurons is awaited.
    Listing,
    /// The disbursement of `pending[next]` is awaited.
    Disbursing { pending: Vec<u64>, next: usize },
    /// The deposits service's refresh is awaited.
    Refreshing,
    /// The instruction `instructions[next]` is being carried out. With
    /// `dissolving` empty its split is awaited; else the start of the
    /// dissolving of that neuron.
    Splitting {
        instructions: Vec<SplitInstruction>,
        next: usize,
        dissolving: Option<u64>,
        replacements: Vec<(u64, u64)>,
    },
    /// The replacement `pairs[next]` is awaited.
    Replacing { pairs: Vec<(u64, u64)>, next: usize },
    /// Every step was taken.
    Done,
    /// A step failed; none was taken after it.
    Failed(Failure),
}

/// The mathematical model of `DailyState`.
pub enum DailyStateView {
    Start,
    Listing,
    Disbursing { pending: Seq<u64>, next: int },
    Refreshing,
    Splitting {
        instructions: Seq<SplitInstruction>,
        next: int,
        dissolving: Option<u64>,
        replacements: Seq<(u64, u64)>,
    },
    Replacing { pairs: Seq<(u64, u64)>, next: int },
    Done,
    Failed(Failure),
}

impl View for DailyState {
    type V = DailyStateView;

    open spec fn view(&self) -> DailyStateView {
        match *self {
            DailyState::Start => DailyStateView::Start,
            DailyState::Listing => DailyStateView::Listing,
            DailyState::Disbursing { pending, next } => DailyStateView::Disbursing {
                pending: pending@,
                next: next as int,
            },
            DailyState::Refreshing => DailyStateView::Refreshing,
            DailyState::Splitting {
                instructions,
                next,
                dissolving,
                replacements,
            } => DailyStateView::Splitting {
                instructions: instructions@,
                next: next as int,
                dissolving,
                replacements: replacements@,
            },
            DailyState::Replacing { pairs, next } => DailyStateView::Replacing {
                pairs: pairs@,
                next: next as int,
            },
            DailyState::Done => DailyStateView::Done,
            DailyState::Failed(failure) => DailyStateView::Failed(failure),
        }
    }
}

impl DailyStateView {
    /// A state is well formed when the item it waits for exists.
    pub open spec fn wf(self) -> bool {
        match self {
            DailyStateView::Disbursing { pending, next } => 0 <= next < pending.len(),
            DailyStateView::Splitting { instructions, next, .. } => 0 <= next < instructions.len(),
            DailyStateView::Replacing { pairs, next } => 0 <= next < pairs.len(),
            _ => true,
        }
    }

    /// The phase that the state belongs to. The listing of neurons is the
    /// first part of the disbursing.
    pub open spec fn phase(self) -> Phase {
        match self {
            DailyStateView::Start => Phase::Start,
            DailyStateView::Listing => Phase::Disbursing,
            DailyStateView::Disbursing { .. } => Phase::Disbursing,
            DailyStateView::Refreshing => Phase::Refreshing,
            DailyStateView::Splitting { .. } => Phase::Splitting,
            DailyStateView::Replacing { .. } => Phase::Replacing,
            DailyStateView::Done => Phase::Done,
            DailyStateView::Failed(_) => Phase::Failed,
        }
    }

    /// Whether the job has ended, well or badly.
    pub open spec fn is_terminal(self) -> bool {
        self is Done || self is Failed
    }

    /// The neuron that the awaited operation is about.
    pub open spec fn current_neuron(self) -> Option<u64> {
        match self {
            DailyStateView::Disbursing { pending, next } => Some(pending[next]),
            DailyStateView::Splitting { instructions, next, dissolving, .. } => match dissolving {
                Some(id) => Some(id),
                None => Some(instructions[next].source_neuron),
            },
            DailyStateView::Replacing { pairs, next } => Some(pairs[next].0),
            _ => None,
        }
    }

    /// The failure that `error` causes in this state.
    pub open spec fn failure(self, error: Error) -> Failure {
        Failure { error, phase: self.phase(), neuron: self.current_neuron() }
    }
}

/// The neuron to dissolve once a split of `instruction` has created
/// `created`: the source where the new neuron replaces it, else the new
/// neuron.
pub open spec fn spec_neuron_to_dissolve(instruction: SplitInstruction, created: u64) -> u64 {
    if instruction.replace_existing {
        instruction.source_neuron
    } else {
        created
    }
}

/// The replacements after a split of `instruction` has created `created`:
/// one more pair of source and new neuron where the new neuron replaces the
/// source, else the same as before.
pub open spec fn spec_record_replacement(
    replacements: Seq<(u64, u64)>,
    instruction: SplitInstruction,
    created: u64,
) -> Seq<(u64, u64)> {
    if instruction.replace_existing {
        replacements.push((instruction.source_neuron, created))
    } else {
        replacements
    }
}

/// Where the job stands once the first `next` of `pairs` are replaced.
pub open spec fn spec_replace_from(pairs: Seq<(u64, u64)>, next: int) -> (DailyStateView, DailyAction) {
    if 0 <= next < pairs.len() {
        (
            DailyStateView::Replacing { pairs, next },
            DailyAction::ReplaceStakingNeuron { old_id: pairs[next].0, new_id: pairs[next].1 },
        )
    } else {
        (DailyStateView::Done, DailyAction::Halt)
    }
}

/// Where the job stands once the first `next` of `instructions` are
/// carried out.
pub open spec fn spec_split_from(
    instructions: Seq<SplitInstruction>,
    next: int,
    replacements: Seq<(u64, u64)>,
) -> (DailyStateView, DailyAction) {
    if 0 <= next < instructions.len() {
        (
            DailyStateView::Splitting { instructions, next, dissolving: None, replacements },
            DailyAction::Split {
                neuron_id: instructions[next].source_neuron,
                amount_e8s: instructions[next].amount,
            },
        )
    } else {
        spec_replace_from(replacements, 0)
    }
}

/// Where the job stands once the first `next` of `pending` are disbursed.
pub open spec fn spec_disburse_from(target: AccountIdentifier, pending: Seq<u64>, next: int) -> (
    DailyStateView,
    DailyAction,
) {
    if 0 <= next < pending.len() {
        (
            DailyStateView::Disbursing { pending, next },
            DailyAction::Disburse { neuron_id: pending[next], to: target },
        )
    } else {
        (DailyStateView::Refreshing, DailyAction::RefreshNeuronsAndApplyInterest)
    }
}

/// One step of the daily job: the state and the action that follow from a
/// state and an event.
///
/// A job that has ended stays as it is and halts. A failed operation fails
/// the job, and so does an event that does not answer the awaited
/// operation. Otherwise the job moves on: it lists the neurons, disburses
/// those that are due one after the other, lets the deposits service
/// refresh, carries out each split and starts the right neuron dissolving,
/// and reports each replacement.
pub open spec fn spec_daily_step(
    now: u64,
    target: AccountIdentifier,
    state: DailyStateView,
    event: DailyEvent,
) -> (DailyStateView, DailyAction) {
    let unexpected = (DailyStateView::Failed(state.failure(Error::ProtocolError)), DailyAction::Halt);
    if state.is_terminal() {
        (state, DailyAction::Halt)
    } else if let DailyEvent::Failed(error) = event {
        (DailyStateView::Failed(state.failure(error)), DailyAction::Halt)
    } else {
        match state {
            DailyStateView::Start => match event {
                DailyEvent::Begin => (DailyStateView::Listing, DailyAction::ListNeurons),
                _ => unexpected,
            },
            DailyStateView::Listing => match event {
                DailyEvent::NeuronsListed(neurons) => spec_disburse_from(
                    target,
                    spec_disbursable(neurons@, now),
                    0,
                ),
                _ => unexpected,
            },
            DailyStateView::Disbursing { pending, next } => match event {
                DailyEvent::NeuronManaged(response) => match spec_manage_outcome(response) {
                    Some(error) => (DailyStateView::Failed(state.failure(error)), DailyAction::Halt),
                    None => spec_disburse_from(target, pending, next + 1),
                },
                _ => unexpected,
            },
            DailyStateView::Refreshing => match event {
                DailyEvent::Refreshed(instructions) => spec_split_from(
                    instructions@,
                    0,
                    Seq::empty(),
                ),
                _ => unexpected,
            },
            DailyStateView::Splitting { instructions, next, dissolving: None, replacements } => match event {
                DailyEvent::NeuronManaged(response) => match spec_split_outcome(response) {
                    Ok(created) => (
                        DailyStateView::Splitting {
                            instructions,
                            next,
                            dissolving: Some(spec_neuron_to_dissolve(instructions[next], created)),
                            replacements: spec_record_replacement(
                                replacements,
                                instructions[next],
                                created,
                            ),
                        },
                        DailyAction::StartDissolving {
                            neuron_id: spec_neuron_to_dissolve(instructions[next], created),
                        },
                    ),
                    Err(error) => (DailyStateView::Failed(state.failure(error)), DailyAction::Halt),
                },
                _ => unexpected,
            },
            DailyStateView::Splitting { instructions, next, dissolving: Some(_), replacements } => match event {
                DailyEvent::NeuronManaged(response) => match spec_manage_outcome(response) {
                    Some(error) => (DailyStateView::Failed(state.failure(error)), DailyAction::Halt),
                    None => spec_split_from(instructions, next + 1, replacements),
                },
                _ => unexpected,
            },
            DailyStateView::Replacing { pairs, next } => match event {
                DailyEvent::Replaced => spec_replace_from(pairs, next + 1),
                _ => unexpected,
            },
            _ => (state, DailyAction::Halt),
        }
    }
}

/// The daily job: what it was started with, and where it stands.
#[derive(Debug, PartialEq)]
pub struct DailyJob {
    now: u64,
    target: AccountIdentifier,
    state: DailyState,
}

/// The mathematical model of `DailyJob`.
pub struct DailyJobView {
    pub now: u64,
    pub target: AccountIdentifier,
    pub state: DailyStateView,
}

impl View for DailyJob {
    type V = DailyJobView;

    closed spec fn view(&self) -> DailyJobView {
        DailyJobView { now: self.now, target: self.target, state: self.state@ }
    }
}

impl DailyJobView {
    /// The job after one event, and the action it asks for.
    pub open spec fn step(self, event: DailyEvent) -> (DailyJobView, DailyAction) {
        let (state, action) = spec_daily_step(self.now, self.target, self.state, event);
        (DailyJobView { now: self.now, target: self.target, state }, action)
    }
}

fn disburse_from(now: u64, target: AccountIdentifier, pending: Vec<u64>, next: usize) -> (r: (
    DailyJob,
    DailyAction,
))
    requires
        next <= pending@.len(),
    ensures
        r.0@.now == now,
        r.0@.target == target,
        (r.0@.state, r.1) == spec_disburse_from(target, pending@, next as int),
{
    if next < pending.len() {
        let action = DailyAction::Disburse { neuron_id: pending[next], to: target };
        (DailyJob { now, target, state: DailyState::Disbursing { pending, next } }, action)
    } else {
        (
            DailyJob { now, target, state: DailyState::Refreshing },
            DailyAction::RefreshNeuronsAndApplyInterest,
        )
    }
}

fn replace_from(now: u64, target: AccountIdentifier, pairs: Vec<(u64, u64)>, next: usize) -> (r: (
    DailyJob,
    DailyAction,
))
    requires
        next <= pairs@.len(),
    ensures
        r.0@.now == now,
        r.0@.target == target,
        (r.0@.state, r.1) == spec_replace_from(pairs@, next as int),
{
    if next < pairs.len() {
        let pair = pairs[next];
        let action = DailyAction::ReplaceStakingNeuron { old_id: pair.0, new_id: pair.1 };
        (DailyJob { now, target, state: DailyState::Replacing { pairs, next } }, action)
    } else {
        (DailyJob { now, target, state: DailyState::Done }, DailyAction::Halt)
    }
}

fn split_from(
    now: u64,
    target: AccountIdentifier,
    instructions: Vec<SplitInstruction>,
    next: usize,
    replacements: Vec<(u64, u64)>,
) -> (r: (DailyJob, DailyAction))
    requires
        next <= instructions@.len(),
    ensures
        r.0@.now == now,
        r.0@.target == target,
        (r.0@.state, r.1) == spec_split_from(instructions@, next as int, replacements@),
{
    if next < instructions.len() {
        let instruction = instructions[next];
        let action = DailyAction::Split {
            neuron_id: instruction.source_neuron,
            amount_e8s: instruction.amount,
        };
        (
            DailyJob {
                now,
                target,
                state: DailyState::Splitting { instructions, next, dissolving: None, replacements },
            },
            action,
        )
    } else {
        replace_from(now, target, replacements, 0)
    }
}

impl DailyJob {
    #[verifier::type_invariant]
    closed spec fn inv(&self) -> bool {
        self.state@.wf()
    }

    /// A job that has not begun: it will disburse what is due at `now` to
    /// the account `target`.
    pub fn new(now: u64, target: AccountIdentifier) -> (job: DailyJob)
        ensures
            job@ == (DailyJobView { now, target, state: DailyStateView::Start }),
    {
        DailyJob { now, target, state: DailyState::Start }
    }

    /// Takes one step: consumes the event that the driver reports and
    /// returns the job as it then stands, with the action to perform next.
    pub fn step(self, event: DailyEvent) -> (r: (DailyJob, DailyAction))
        ensures
            (r.0@, r.1) == self@.step(event),
            self@.state.wf(),
            r.0@.state.wf(),
    {
        proof {
            use_type_invariant(&self);
        }
        let DailyJob { now, target, state } = self;
        match state {
            DailyState::Done => (DailyJob { now, target, state: DailyState::Done }, DailyAction::Halt),
            DailyState::Failed(failure) => (
                DailyJob { now, target, state: DailyState::Failed(failure) },
                DailyAction::Halt,
            ),
            DailyState::Start => match event {
                DailyEvent::Begin => (
                    DailyJob { now, target, state: DailyState::Listing },
                    DailyAction::ListNeurons,
                ),
                DailyEvent::Failed(error) => fail(now, target, error, Phase::Start, None),
                _ => fail(now, target, Error::ProtocolError, Phase::Start, None),
            },
            DailyState::Listing => match event {
                DailyEvent::NeuronsListed(neurons) => {
                    let pending = neurons_to_disburse(&neurons, now);
                    disburse_from(now, target, pending, 0)
                },
                DailyEvent::Failed(error) => fail(now, target, error, Phase::Disbursing, None),
                _ => fail(now, target, Error::ProtocolError, Phase::Disbursing, None),
            },
            DailyState::Disbursing { pending, next } => {
                assert(pending.len() == pending@.len());
                let neuron = Some(pending[next]);
                match event {
                    DailyEvent::NeuronManaged(response) => match manage_outcome(&response) {
                        Some(error) => fail(now, target, error, Phase::Disbursing, neuron),
                        None => disburse_from(now, target, pending, next + 1),
                    },
                    DailyEvent::Failed(error) => fail(now, target, error, Phase::Disbursing, neuron),
                    _ => fail(now, target, Error::ProtocolError, Phase::Disbursing, neuron),
                }
            },
            DailyState::Refreshing => match event {
                DailyEvent::Refreshed(instructions) => split_from(
                    now,
                    target,
                    instructions,
                    0,
                    Vec::new(),
                ),
                DailyEvent::Failed(error) => fail(now, target, error, Phase::Refreshing, None),
                _ => fail(now, target, Error::ProtocolError, Phase::Refreshing, None),
            },
            DailyState::Splitting { instructions, next, dissolving: None, replacements } => {
                assert(instructions.len() == instructions@.len());
                let instruction = instructions[next];
                let neuron = Some(instruction.source_neuron);
                match event {
                    DailyEvent::NeuronManaged(response) => match split_outcome(&response) {
                        Ok(created) => {
                            let mut replacements = replacements;
                            let neuron_id = if instruction.replace_existing {
                                replacements.push((instruction.source_neuron, created));
                                instruction.source_neuron
                            } else {
                                created
                            };
                            (
                                DailyJob {
                                    now,
                                    target,
                                    state: DailyState::Splitting {
                                        instructions,
                                        next,
                                        dissolving: Some(neuron_id),
                                        replacements,
                                    },
                                },
                                DailyAction::StartDissolving { neuron_id },
                            )
                        },
                        Err(error) => fail(now, target, error, Phase::Splitting, neuron),
                    },
                    DailyEvent::Failed(error) => fail(now, target, error, Phase::Splitting, neuron),
                    _ => fail(now, target, Error::ProtocolError, Phase::Splitting, neuron),
                }
            },
            DailyState::Splitting { instructions, next, dissolving: Some(id), replacements } => {
                assert(instructions.len() == instructions@.len());
                let neuron = Some(id);
                match event {
                    DailyEvent::NeuronManaged(response) => match manage_outcome(&response) {
                        Some(error) => fail(now, target, error, Phase::Splitting, neuron),
                        None => split_from(now, target, instructions, next + 1, replacements),
                    },
                    DailyEvent::Failed(error) => fail(now, target, error, Phase::Splitting, neuron),
                    _ => fail(now, target, Error::ProtocolError, Phase::Splitting, neuron),
                }
            },
            DailyState::Replacing { pairs, next } => {
                assert(pairs.len() == pairs@.len());
                let neuron = Some(pairs[next].0);
                match event {
                    DailyEvent::Replaced => replace_from(now, target, pairs, next + 1),
                    DailyEvent::Failed(error) => fail(now, target, error, Phase::Replacing, neuron),
                    _ => fail(now, target, Error::ProtocolError, Phase::Replacing, neuron),
                }
            },
        }
    }
}

impl DailyJob {
    /// The phase in which the job stands.
    pub fn phase(&self) -> (phase: Phase)
        ensures
            phase == self@.state.phase(),
    {
        match &self.state {
            DailyState::Start => Phase::Start,
            DailyState::Listing => Phase::Disbursing,
            DailyState::Disbursing { .. } => Phase::Disbursing,
            DailyState::Refreshing => Phase::Refreshing,
            DailyState::Splitting { .. } => Phase::Splitting,
            DailyState::Replacing { .. } => Phase::Replacing,
            DailyState::Done => Phase::Done,
            DailyState::Failed(_) => Phase::Failed,
        }
    }

    /// Whether every step was taken.
    pub fn is_done(&self) -> (done: bool)
        ensures
            done == (self@.state is Done),
    {
        match &self.state {
            DailyState::Done => true,
            _ => false,
        }
    }

    /// Why the job stopped, if it failed.
    pub fn failure(&self) -> (failure: Option<Failure>)
        ensures
            failure == match self@.state {
                DailyStateView::Failed(f) => Some(f),
                _ => None,
            },
    {
        match &self.state {
            DailyState::Failed(f) => Some(*f),
            _ => None,
        }
    }

    /// The working state of the job.
    pub fn state(&self) -> (state: &DailyState)
        ensures
            state@ == self@.state,
            state@.wf(),
    {
        proof {
            use_type_invariant(self);
        }
        &self.state
    }
}

/// The job after a run of events, and the actions it asked for, one for
/// each event.
pub open spec fn spec_daily_run(job: DailyJobView, events: Seq<DailyEvent>) -> (
    DailyJobView,
    Seq<DailyAction>,
)
    decreases events.len(),
{
    if events.len() == 0 {
        (job, Seq::empty())
    } else {
        let (before, actions) = spec_daily_run(job, events.drop_last());
        let (after, action) = before.step(events.last());
        (after, actions.push(action))
    }
}

/// A step leaves a well-formed state well formed, and never changes what
/// the job was started with.
pub proof fn lemma_step_keeps_well_formed(job: DailyJobView, event: DailyEvent)
    requires
        job.state.wf(),
    ensures
        job.step(event).0.state.wf(),
        job.step(event).0.now == job.now,
        job.step(event).0.target == job.target,
{
}

/// A job that is done or has failed stays as it is, and asks for nothing
/// more.
pub proof fn lemma_ended_job_stays(job: DailyJobView, event: DailyEvent)
    requires
        job.state.is_terminal(),
    ensures
        job.step(event) == (job, DailyAction::Halt),
{
}

/// A failed operation fails the job at once: the job records the error
/// with the phase and the neuron it came at, and asks for nothing more.
pub proof fn lemma_failure_stops_the_job(job: DailyJobView, error: Error)
    requires
        !job.state.is_terminal(),
    ensures
        job.step(DailyEvent::Failed(error)).0.state == DailyStateView::Failed(
            Failure { error, phase: job.state.phase(), neuron: job.state.current_neuron() },
        ),
        job.step(DailyEvent::Failed(error)).1 == DailyAction::Halt,
{
}

/// Whatever is reported to a job that has ended, it asks for no remote
/// operation again: no step is taken after the one that failed.
pub proof fn lemma_nothing_follows_the_end(job: DailyJobView, events: Seq<DailyEvent>)
    requires
        job.state.is_terminal(),
    ensures
        spec_daily_run(job, events).0 == job,
        spec_daily_run(job, events).1.len() == events.len(),
        forall|i: int|
            0 <= i < events.len() ==> (#[trigger] spec_daily_run(job, events).1[i])
                == DailyAction::Halt,
    decreases events.len(),
{
    if events.len() > 0 {
        lemma_nothing_follows_the_end(job, events.drop_last());
        lemma_ended_job_stays(job, events.last());
    }
}

/// Once an operation has failed, the job is over: whatever events follow
/// the failure, every action from the failure on is `Halt`, and the job
/// ends in the failure that the failed operation caused.
pub proof fn lemma_failure_ends_the_run(job: DailyJobView, error: Error, later: Seq<DailyEvent>)
    requires
        !job.state.is_terminal(),
    ensures
        spec_daily_run(job, seq![DailyEvent::Failed(error)] + later).0.state
            == DailyStateView::Failed(job.state.failure(error)),
        spec_daily_run(job, seq![DailyEvent::Failed(error)] + later).1.len() == later.len() + 1,
        forall|i: int|
            0 <= i <= later.len() ==> (#[trigger] spec_daily_run(
                job,
                seq![DailyEvent::Failed(error)] + later,
            ).1[i]) == DailyAction::Halt,
    decreases later.len(),
{
    let first = seq![DailyEvent::Failed(error)];
    if later.len() == 0 {
        assert(first + later =~= first);
        assert(first.drop_last() =~= Seq::<DailyEvent>::empty());
        assert(spec_daily_run(job, first.drop_last()) == (job, Seq::<DailyAction>::empty()));
        lemma_failure_stops_the_job(job, error);
    } else {
        lemma_failure_ends_the_run(job, error, later.drop_last());
        assert((first + later).drop_last() =~= first + later.drop_last());
        assert((first + later).last() == later.last());
        let (before, _) = spec_daily_run(job, first + later.drop_last());
        lemma_ended_job_stays(before, later.last());
    }
}

/// The events that report these replies of the governance service, in
/// order.
pub open spec fn spec_managed(replies: Seq<ManageNeuronResponse>) -> Seq<DailyEvent> {
    replies.map_values(|reply: ManageNeuronResponse| DailyEvent::NeuronManaged(reply))
}

/// The events that report this many replacements by the deposits service.
pub open spec fn spec_replaced(count: nat) -> Seq<DailyEvent> {
    Seq::new(count, |i: int| DailyEvent::Replaced)
}

/// Disbursements are issued one by one, in the order of the selection, and
/// each exactly once. While the governance service confirms them, the
/// action after the confirmation of `pending[i]` is the disbursement of
/// `pending[i + 1]` to the job's target, and after the last one the
/// refresh: no neuron is skipped, and none is disbursed again.
pub proof fn lemma_disbursements_in_order(
    job: DailyJobView,
    pending: Seq<u64>,
    next: int,
    replies: Seq<ManageNeuronResponse>,
)
    requires
        0 <= next < pending.len(),
        next + replies.len() <= pending.len(),
        job.state == (DailyStateView::Disbursing { pending, next }),
        forall|i: int| 0 <= i < replies.len() ==> spec_manage_outcome(#[trigger] replies[i]) is None,
    ensures
        spec_daily_run(job, spec_managed(replies)).0 == (DailyJobView {
            state: if replies.len() == 0 {
                job.state
            } else {
                spec_disburse_from(job.target, pending, next + replies.len()).0
            },
            ..job
        }),
        spec_daily_run(job, spec_managed(replies)).1.len() == replies.len(),
        forall|i: int|
            0 <= i < replies.len() ==> (#[trigger] spec_daily_run(job, spec_managed(replies)).1[i])
                == spec_disburse_from(job.target, pending, next + i + 1).1,
    decreases replies.len(),
{
    let events = spec_managed(replies);
    if replies.len() > 0 {
        let front = replies.drop_last();
        lemma_disbursements_in_order(job, pending, next, front);
        assert(events.drop_last() =~= spec_managed(front));
        assert(events.last() == DailyEvent::NeuronManaged(replies.last()));
        assert(spec_manage_outcome(replies[replies.len() - 1]) is None);
        let (before, actions) = spec_daily_run(job, spec_managed(front));
        assert(before.state == (DailyStateView::Disbursing {
            pending,
            next: next + front.len(),
        }));
    }
}

/// Replacements are reported one by one, in the order in which they were
/// recorded, and each exactly once. While the deposits service confirms
/// them, the action after the confirmation of `pairs[i]` is the replacement
/// of `pairs[i + 1]`, and after the last one the job is done.
pub proof fn lemma_replacements_in_order(
    job: DailyJobView,
    pairs: Seq<(u64, u64)>,
    next: int,
    count: nat,
)
    requires
        0 <= next < pairs.len(),
        next + count <= pairs.len(),
        job.state == (DailyStateView::Replacing { pairs, next }),
    ensures
        spec_daily_run(job, spec_replaced(count)).0 == (DailyJobView {
            state: if count == 0 {
                job.state
            } else {
                spec_replace_from(pairs, next + count).0
            },
            ..job
        }),
        spec_daily_run(job, spec_replaced(count)).1.len() == count,
        forall|i: int|
            0 <= i < count ==> (#[trigger] spec_daily_run(job, spec_replaced(count)).1[i])
                == spec_replace_from(pairs, next + i + 1).1,
    decreases count,
{
    let events = spec_replaced(count);
    if count > 0 {
        let fewer = (count - 1) as nat;
        lemma_replacements_in_order(job, pairs, next, fewer);
        assert(events.drop_last() =~= spec_replaced(fewer));
        assert(events.last() == DailyEvent::Replaced);
        let (before, actions) = spec_daily_run(job, spec_replaced(fewer));
        assert(before.state == (DailyStateView::Replacing { pairs, next: next + fewer }));
    }
}

/// The replacements that are due once the first instructions have created
/// the neurons `created`, one each: for every instruction among them that
/// replaces its source, and for no other, the pair of the source and the
/// neuron it created, in the order of the instructions.
pub open spec fn spec_replacements(instructions: Seq<SplitInstruction>, created: Seq<u64>) -> Seq<
    (u64, u64),
> {
    Seq::new(created.len(), |j: int| (instructions[j], created[j])).filter(
        |done: (SplitInstruction, u64)| done.0.replace_existing,
    ).map_values(|done: (SplitInstruction, u64)| (done.0.source_neuron, done.1))
}

/// One more instruction carried out adds its pair to the replacements if it
/// replaces its source, and nothing otherwise.
pub proof fn lemma_replacements_push(
    instructions: Seq<SplitInstruction>,
    created: Seq<u64>,
    id: u64,
)
    requires
        created.len() < instructions.len(),
    ensures
        spec_replacements(instructions, created.push(id)) == spec_record_replacement(
            spec_replacements(instructions, created),
            instructions[created.len() as int],
            id,
        ),
{
    reveal(Seq::filter);
    let replaces = |done: (SplitInstruction, u64)| done.0.replace_existing;
    let before = Seq::new(created.len(), |j: int| (instructions[j], created[j]));
    let after = Seq::new(
        created.push(id).len(),
        |j: int| (instructions[j], created.push(id)[j]),
    );
    let last = (instructions[created.len() as int], id);
    assert(after.drop_last() =~= before);
    assert(after.last() == last);
    if last.0.replace_existing {
        assert(after.filter(replaces) == before.filter(replaces).push(last));
        assert(spec_replacements(instructions, created.push(id)) =~= spec_replacements(
            instructions,
            created,
        ).push((last.0.source_neuron, id)));
    } else {
        assert(after.filter(replaces) == before.filter(replaces));
    }
}

/// The events of a splitting that goes well: for each instruction the reply
/// to its split, and then the reply to the start of the dissolving.
pub open spec fn spec_split_events(
    splits: Seq<ManageNeuronResponse>,
    confirmations: Seq<ManageNeuronResponse>,
) -> Seq<DailyEvent> {
    Seq::new(
        2 * splits.len(),
        |i: int|
            DailyEvent::NeuronManaged(
                if i % 2 == 0 {
                    splits[i / 2]
                } else {
                    confirmations[i / 2]
                },
            ),
    )
}

/// The splitting as a whole. While the governance service carries out the
/// splits and confirms each start of a dissolving, the job starts, for every
/// instruction, exactly one neuron dissolving: the source where the
/// instruction replaces it, else the new neuron. After the instruction `j`
/// it goes on to the split of the next one; after the last it goes on to
/// the replacements, which are exactly `spec_replacements`: one pair of
/// source and new neuron for every instruction that replaces its source,
/// and none for any other.
pub proof fn lemma_splitting_run(
    job: DailyJobView,
    instructions: Seq<SplitInstruction>,
    splits: Seq<ManageNeuronResponse>,
    confirmations: Seq<ManageNeuronResponse>,
    created: Seq<u64>,
)
    requires
        0 < instructions.len(),
        job.state == (DailyStateView::Splitting {
            instructions,
            next: 0,
            dissolving: None,
            replacements: Seq::empty(),
        }),
        splits.len() <= instructions.len(),
        confirmations.len() == splits.len(),
        created.len() == splits.len(),
        forall|j: int|
            0 <= j < splits.len() ==> spec_split_outcome(#[trigger] splits[j]) == Ok::<u64, Error>(
                created[j],
            ),
        forall|j: int|
            0 <= j < splits.len() ==> spec_manage_outcome(#[trigger] confirmations[j]) is None,
    ensures
        ({
            let (end, actions) = spec_daily_run(job, spec_split_events(splits, confirmations));
            &&& end == (DailyJobView {
                state: spec_split_from(
                    instructions,
                    splits.len() as int,
                    spec_replacements(instructions, created),
                ).0,
                ..job
            })
            &&& actions.len() == 2 * splits.len()
            &&& forall|j: int|
                0 <= j < splits.len() ==> (#[trigger] actions[2 * j]) == (DailyAction::StartDissolving {
                    neuron_id: spec_neuron_to_dissolve(instructions[j], created[j]),
                })
            &&& forall|j: int|
                0 <= j < splits.len() ==> (#[trigger] actions[2 * j + 1]) == spec_split_from(
                    instructions,
                    j + 1,
                    spec_replacements(instructions, created.take(j + 1)),
                ).1
        }),
    decreases splits.len(),
{
    reveal(Seq::filter);
    let events = spec_split_events(splits, confirmations);
    let count = splits.len() as int;
    if count == 0 {
        assert(events =~= Seq::<DailyEvent>::empty());
        assert(created =~= Seq::<u64>::empty());
        assert(spec_replacements(instructions, created) =~= Seq::<(u64, u64)>::empty());
    } else {
        let fewer = spec_split_events(splits.drop_last(), confirmations.drop_last());
        lemma_splitting_run(
            job,
            instructions,
            splits.drop_last(),
            confirmations.drop_last(),
            created.drop_last(),
        );
        lemma_replacements_push(instructions, created.drop_last(), created.last());
        assert(created.drop_last().push(created.last()) =~= created);
        assert(events.drop_last().drop_last() =~= fewer);
        assert(events.last() == DailyEvent::NeuronManaged(confirmations[count - 1]));
        assert(events.drop_last().last() == DailyEvent::NeuronManaged(splits[count - 1]));
        let (start, early) = spec_daily_run(job, fewer);
        let (middle, split_action) = start.step(events.drop_last().last());
        let (end, next_action) = middle.step(events.last());
        assert(spec_daily_run(job, events.drop_last()) == (middle, early.push(split_action)));
        assert(spec_daily_run(job, events) == (end, early.push(split_action).push(next_action)));
        let actions = early.push(split_action).push(next_action);
        let before = spec_replacements(instructions, created.drop_last());
        assert(start.state == (DailyStateView::Splitting {
            instructions,
            next: count - 1,
            dissolving: None,
            replacements: before,
        }));
        assert(spec_split_outcome(splits[count - 1]) == Ok::<u64, Error>(created[count - 1]));
        assert(spec_manage_outcome(confirmations[count - 1]) is None);
        assert(created.take(count) =~= created);
        assert forall|j: int| 0 <= j < count implies (#[trigger] actions[2 * j]) == (DailyAction::StartDissolving {
            neuron_id: spec_neuron_to_dissolve(instructions[j], created[j]),
        }) by {
            if j < count - 1 {
                assert(actions[2 * j] == early[2 * j]);
                assert(created.drop_last()[j] == created[j]);
            }
        }
        assert forall|j: int| 0 <= j < count implies (#[trigger] actions[2 * j + 1])
            == spec_split_from(
            instructions,
            j + 1,
            spec_replacements(instructions, created.take(j + 1)),
        ).1 by {
            if j < count - 1 {
                assert(actions[2 * j + 1] == early[2 * j + 1]);
                assert(created.drop_last().take(j + 1) =~= created.take(j + 1));
            }
        }
    }
}

/// The bookkeeping of a split. When the split of an instruction has
/// created a neuron, the job asks to start exactly one neuron dissolving.
/// Where the instruction replaces the source, that neuron is the source,
/// and exactly one pair of source and new neuron joins the replacements.
/// Where it does not, that neuron is the new one, and the replacements stay
/// as they were.
pub proof fn lemma_split_bookkeeping(
    job: DailyJobView,
    instructions: Seq<SplitInstruction>,
    next: int,
    replacements: Seq<(u64, u64)>,
    response: ManageNeuronResponse,
    created: u64,
)
    requires
        0 <= next < instructions.len(),
        job.state == (DailyStateView::Splitting {
            instructions,
            next,
            dissolving: None,
            replacements,
        }),
        spec_split_outcome(response) == Ok::<u64, Error>(created),
    ensures
        instructions[next].replace_existing ==> job.step(DailyEvent::NeuronManaged(response)) == (
            DailyJobView {
                state: DailyStateView::Splitting {
                    instructions,
                    next,
                    dissolving: Some(instructions[next].source_neuron),
                    replacements: replacements.push((instructions[next].source_neuron, created)),
                },
                ..job
            },
            DailyAction::StartDissolving { neuron_id: instructions[next].source_neuron },
        ),
        !instructions[next].replace_existing ==> job.step(DailyEvent::NeuronManaged(response)) == (
            DailyJobView {
                state: DailyStateView::Splitting {
                    instructions,
                    next,
                    dissolving: Some(created),
                    replacements,
                },
                ..job
            },
            DailyAction::StartDissolving { neuron_id: created },
        ),
{
}

fn fail(now: u64, target: AccountIdentifier, error: Error, phase: Phase, neuron: Option<u64>) -> (r: (
    DailyJob,
    DailyAction,
))
    ensures
        r.0@ == (DailyJobView {
            now,
            target,
            state: DailyStateView::Failed(Failure { error, phase, neuron }),
        }),
        r.1 == DailyAction::Halt,
{
    (
        DailyJob { now, target, state: DailyState::Failed(Failure { error, phase, neuron }) },
        DailyAction::Halt,
    )
}

/// The daily job, as the operator asked for it.
#[derive(Debug, PartialEq)]
pub struct Command {
    /// Where the job runs and who signs for it.
    pub identity: IdentityArgs,
}

impl Command {
    /// Begins the daily job at the moment `now`, in seconds since the
    /// epoch: the job as it stands once it has begun, and its first action,
    /// which lists the neurons. What is due is paid out to the deposits
    /// service's own account. `None` where the principal of the deposits
    /// service or of the governance service cannot be read; nothing is
    /// asked for then.
    pub fn run(&self, now: u64) -> (r: Option<(DailyJob, DailyAction)>)
        ensures
            r is Some == (spec_principal_from_text(self.identity.deposits@) is Some
                && spec_principal_from_text(self.identity.governance@) is Some),
            r matches Some((job, action)) ==> {
                &&& job@.now == now
                &&& job@.target@ == spec_derive_account_id(
                    spec_principal_from_text(self.identity.deposits@).unwrap(),
                    None,
                )
                &&& job@.state == DailyStateView::Listing
                &&& action == DailyAction::ListNeurons
            },
    {
        let deposits = match Principal::from_text(self.identity.deposits.as_str()) {
            Some(p) => p,
            None => {
                return None;
            },
        };
        if Principal::from_text(self.identity.governance.as_str()).is_none() {
            return None;
        }
        let target = derive_account_id(&deposits, None);
        Some(DailyJob::new(now, target).step(DailyEvent::Begin))
    }
}

} // verus!
