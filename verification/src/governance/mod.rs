use crate::account::{derive_account_id, spec_derive_account_id};
use crate::error::Error;
use crate::principal::Principal;
use vstd::prelude::*;

pub mod generated;

use generated::{
    AccountIdentifier, AddHotKey, ChangeAutoStakeMaturity, ClaimOrRefreshNeuronFromAccount,
    ClaimOrRefreshNeuronFromAccountResponse, Command, Command_1, Configure, Disburse,
    DissolveState, IncreaseDissolveDelay, ListNeurons, ManageNeuron, ManageNeuronResponse, Neuron,
    NeuronId, NeuronIdOrSubaccount, Operation, Result_1, SpawnResponse, Split,
};

verus! {

/// The ledger's fee for one transfer, in e8s.
pub const ICP_FEE: u64 = 10_000;

/// A neuron is due for disbursement when it has an identifier and its
/// countdown ended at or before `now`.
pub open spec fn spec_is_due(neuron: Neuron, now: u64) -> bool {
    &&& neuron.id is Some
    &&& match neuron.dissolve_state {
        Some(DissolveState::WhenDissolvedTimestampSeconds(dissolved_at)) => dissolved_at <= now,
        _ => false,
    }
}

/// The identifier of a neuron that has one.
pub open spec fn spec_neuron_id(neuron: Neuron) -> u64 {
    neuron.id.unwrap().id
}

/// The identifiers of the neurons that are due, in the order of the listing.
pub open spec fn spec_disbursable(neurons: Seq<Neuron>, now: u64) -> Seq<u64> {
    neurons.filter(|n: Neuron| spec_is_due(n, now)).map_values(|n: Neuron| spec_neuron_id(n))
}

/// Listing one more neuron adds its identifier to the selection if it is
/// due, and changes nothing otherwise.
pub proof fn lemma_disbursable_push(neurons: Seq<Neuron>, last: Neuron, now: u64)
    ensures
        spec_disbursable(neurons.push(last), now) == if spec_is_due(last, now) {
            spec_disbursable(neurons, now).push(spec_neuron_id(last))
        } else {
            spec_disbursable(neurons, now)
        },
{
    reveal(Seq::filter);
    let due = |n: Neuron| spec_is_due(n, now);
    assert(neurons.push(last).drop_last() =~= neurons);
    assert(neurons.push(last).last() == last);
    if spec_is_due(last, now) {
        assert(neurons.push(last).filter(due) == neurons.filter(due).push(last));
        assert(spec_disbursable(neurons.push(last), now) =~= spec_disbursable(neurons, now).push(
            spec_neuron_id(last),
        ));
    } else {
        assert(neurons.push(last).filter(due) == neurons.filter(due));
    }
}

/// Selects the neurons to disburse: those that count down to a moment that
/// has come. A neuron that is locked for a delay, or whose moment lies after
/// `now`, is never selected.
pub fn neurons_to_disburse(neurons: &Vec<Neuron>, now: u64) -> (ids: Vec<u64>)
    ensures
        ids@ == spec_disbursable(neurons@, now),
{
    let mut ids: Vec<u64> = Vec::new();
    let mut i: usize = 0;
    assert(neurons@.subrange(0, 0) =~= Seq::<Neuron>::empty());
    proof {
        reveal(Seq::filter);
    }
    assert(spec_disbursable(Seq::<Neuron>::empty(), now) =~= Seq::<u64>::empty());
    while i < neurons.len()
        invariant
            i <= neurons@.len(),
            ids@ == spec_disbursable(neurons@.subrange(0, i as int), now),
        decreases neurons@.len() - i,
    {
        let neuron = &neurons[i];
        proof {
            lemma_disbursable_push(neurons@.subrange(0, i as int), *neuron, now);
            assert(neurons@.subrange(0, i as int).push(*neuron) =~= neurons@.subrange(
                0,
                i as int + 1,
            ));
        }
        match (&neuron.id, &neuron.dissolve_state) {
            (Some(id), Some(DissolveState::WhenDissolvedTimestampSeconds(dissolved_at))) => {
                if *dissolved_at <= now {
                    ids.push(id.id);
                }
            },
            _ => {},
        }
        i = i + 1;
    }
    assert(neurons@.subrange(0, i as int) =~= neurons@);
    ids
}

/// The selection depends on nothing but the identifiers, the dissolve
/// states and `now`: two listings that agree on those give the same
/// selection, whatever else their neurons hold.
pub proof fn lemma_selection_reads_only_dissolve_state(a: Seq<Neuron>, b: Seq<Neuron>, now: u64)
    requires
        a.len() == b.len(),
        forall|i: int|
            0 <= i < a.len() ==> a[i].id == b[i].id && a[i].dissolve_state == b[i].dissolve_state,
    ensures
        spec_disbursable(a, now) == spec_disbursable(b, now),
    decreases a.len(),
{
    if a.len() == 0 {
        assert(a =~= Seq::<Neuron>::empty());
        assert(b =~= Seq::<Neuron>::empty());
    } else {
        lemma_selection_reads_only_dissolve_state(a.drop_last(), b.drop_last(), now);
        lemma_disbursable_push(a.drop_last(), a.last(), now);
        lemma_disbursable_push(b.drop_last(), b.last(), now);
        assert(a.drop_last().push(a.last()) =~= a);
        assert(b.drop_last().push(b.last()) =~= b);
    }
}

/// Whether some listed neuron is due and has the identifier `id`.
pub open spec fn spec_has_due_neuron(neurons: Seq<Neuron>, now: u64, id: u64) -> bool {
    exists|i: int|
        0 <= i < neurons.len() && spec_is_due(#[trigger] neurons[i], now) && spec_neuron_id(
            neurons[i],
        ) == id
}

/// Every selected identifier belongs to a listed neuron that is due, and
/// every listed neuron that is due has its identifier selected.
pub proof fn lemma_selected_are_the_due(neurons: Seq<Neuron>, now: u64)
    ensures
        forall|k: int|
            0 <= k < spec_disbursable(neurons, now).len() ==> spec_has_due_neuron(
                neurons,
                now,
                #[trigger] spec_disbursable(neurons, now)[k],
            ),
        forall|i: int|
            0 <= i < neurons.len() && spec_is_due(#[trigger] neurons[i], now)
                ==> spec_disbursable(neurons, now).contains(spec_neuron_id(neurons[i])),
        spec_disbursable(neurons, now).len() <= neurons.len(),
    decreases neurons.len(),
{
    let selected = spec_disbursable(neurons, now);
    if neurons.len() == 0 {
        reveal(Seq::filter);
        assert(selected =~= Seq::<u64>::empty());
    } else {
        let front = neurons.drop_last();
        let last = neurons.last();
        lemma_selected_are_the_due(front, now);
        lemma_disbursable_push(front, last, now);
        assert(front.push(last) =~= neurons);
        let before = spec_disbursable(front, now);
        assert forall|k: int| 0 <= k < selected.len() implies spec_has_due_neuron(
            neurons,
            now,
            #[trigger] selected[k],
        ) by {
            if k < before.len() {
                assert(spec_has_due_neuron(front, now, before[k]));
                let i = choose|i: int|
                    0 <= i < front.len() && spec_is_due(#[trigger] front[i], now) && spec_neuron_id(
                        front[i],
                    ) == before[k];
                assert(neurons[i] == front[i]);
            } else {
                assert(spec_is_due(neurons[neurons.len() - 1], now));
            }
        }
        assert forall|i: int|
            0 <= i < neurons.len() && spec_is_due(#[trigger] neurons[i], now) implies selected.contains(
            spec_neuron_id(neurons[i]),
        ) by {
            if i < front.len() {
                assert(front[i] == neurons[i]);
                let k = choose|k: int|
                    0 <= k < before.len() && before[k] == spec_neuron_id(front[i]);
                assert(selected[k] == spec_neuron_id(neurons[i]));
            } else {
                assert(selected[selected.len() - 1] == spec_neuron_id(neurons[i]));
            }
        }
    }
}

/// A listing in which no neuron counts down to a moment that has come
/// selects nothing: neither a neuron that is locked for a delay nor one
/// whose moment lies after `now` is ever disbursed.
pub proof fn lemma_nothing_due_selects_nothing(neurons: Seq<Neuron>, now: u64)
    requires
        forall|i: int|
            0 <= i < neurons.len() ==> match (#[trigger] neurons[i]).dissolve_state {
                Some(DissolveState::WhenDissolvedTimestampSeconds(dissolved_at)) => dissolved_at > now,
                _ => true,
            },
    ensures
        spec_disbursable(neurons, now) == Seq::<u64>::empty(),
{
    lemma_selected_are_the_due(neurons, now);
    if spec_disbursable(neurons, now).len() > 0 {
        assert(spec_has_due_neuron(neurons, now, spec_disbursable(neurons, now)[0]));
        let i = choose|i: int|
            0 <= i < neurons.len() && spec_is_due(#[trigger] neurons[i], now) && spec_neuron_id(
                neurons[i],
            ) == spec_disbursable(neurons, now)[0];
        assert(false);
    }
    assert(spec_disbursable(neurons, now) =~= Seq::<u64>::empty());
}

/// What a governance reply says of the command it answers: a refusal by
/// the service is a rejection, anything else counts as done.
pub open spec fn spec_manage_outcome(response: ManageNeuronResponse) -> Option<Error> {
    match response.command {
        Some(Command_1::Error(_)) => Some(Error::RemoteRejection),
        _ => None,
    }
}

/// What a governance reply says of a split: the identifier of the neuron it
/// created; a rejection where the service refused; a protocol error where
/// the reply is of any other shape, or names no new neuron.
pub open spec fn spec_split_outcome(response: ManageNeuronResponse) -> Result<u64, Error> {
    match response.command {
        Some(Command_1::Split(SpawnResponse { created_neuron_id: Some(NeuronId { id }) })) => Ok(id),
        Some(Command_1::Error(_)) => Err(Error::RemoteRejection),
        _ => Err(Error::ProtocolError),
    }
}

/// What a claim reply says: the identifier of the claimed neuron; a
/// rejection where the service refused; a protocol error where the reply
/// is empty.
pub open spec fn spec_claim_outcome(response: ClaimOrRefreshNeuronFromAccountResponse) -> Result<
    u64,
    Error,
> {
    match response.result {
        Some(Result_1::NeuronId(NeuronId { id })) => Ok(id),
        Some(Result_1::Error(_)) => Err(Error::RemoteRejection),
        None => Err(Error::ProtocolError),
    }
}

/// Reads a reply to a disburse or configure command.
pub fn manage_outcome(response: &ManageNeuronResponse) -> (outcome: Option<Error>)
    ensures
        outcome == spec_manage_outcome(*response),
{
    match &response.command {
        Some(Command_1::Error(_)) => Some(Error::RemoteRejection),
        _ => None,
    }
}

/// Reads a reply to a split command.
pub fn split_outcome(response: &ManageNeuronResponse) -> (outcome: Result<u64, Error>)
    ensures
        outcome == spec_split_outcome(*response),
{
    match &response.command {
        Some(Command_1::Split(spawned)) => match &spawned.created_neuron_id {
            Some(created) => Ok(created.id),
            None => Err(Error::ProtocolError),
        },
        Some(Command_1::Error(_)) => Err(Error::RemoteRejection),
        _ => Err(Error::ProtocolError),
    }
}

/// Reads a reply to a claim.
pub fn claim_outcome(response: &ClaimOrRefreshNeuronFromAccountResponse) -> (outcome: Result<
    u64,
    Error,
>)
    ensures
        outcome == spec_claim_outcome(*response),
{
    match &response.result {
        Some(Result_1::NeuronId(claimed)) => Ok(claimed.id),
        Some(Result_1::Error(_)) => Err(Error::RemoteRejection),
        None => Err(Error::ProtocolError),
    }
}

/// The request that lists every neuron the caller may read.
pub fn list_neurons() -> (request: ListNeurons)
    ensures
        request.neuron_ids@ == Seq::<u64>::empty(),
        request.include_neurons_readable_by_caller,
{
    ListNeurons { neuron_ids: Vec::new(), include_neurons_readable_by_caller: true }
}

/// The request that carries `command` to the neuron `id`.
pub fn manage_neuron(id: u64, command: Command) -> (request: ManageNeuron)
    ensures
        request.id is None,
        request.command == Some(command),
        request.neuron_id_or_subaccount == Some(NeuronIdOrSubaccount::NeuronId(NeuronId { id })),
{
    ManageNeuron {
        id: None,
        command: Some(command),
        neuron_id_or_subaccount: Some(NeuronIdOrSubaccount::NeuronId(NeuronId { id })),
    }
}

/// The request that claims the neuron which `controller` funded under
/// `memo`.
pub fn claim_neuron(controller: Option<Principal>, memo: u64) -> (request:
    ClaimOrRefreshNeuronFromAccount)
    ensures
        request.controller == controller,
        request.memo == memo,
{
    ClaimOrRefreshNeuronFromAccount { controller, memo }
}

/// The command that pays a whole neuron out to `to`.
pub fn disburse(to: &crate::account::AccountIdentifier) -> (command: Command)
    ensures
        command matches Command::Disburse(d) && (d.amount is None && (d.to_account matches Some(a)
            && a.hash@ == to@)),
{
    let mut hash: Vec<u8> = Vec::new();
    crate::bytes::append_bytes(&mut hash, to.hash.as_slice());
    assert(hash@ =~= to@);
    Command::Disburse(Disburse { to_account: Some(AccountIdentifier { hash }), amount: None })
}

/// The command that splits `amount_e8s` off a neuron.
pub fn split(amount_e8s: u64) -> (command: Command)
    ensures
        command == Command::Split(Split { amount_e8s }),
{
    Command::Split(Split { amount_e8s })
}

/// The command that starts a neuron dissolving.
pub fn start_dissolving() -> (command: Command)
    ensures
        command == Command::Configure(Configure { operation: Some(Operation::StartDissolving) }),
{
    Command::Configure(Configure { operation: Some(Operation::StartDissolving) })
}

/// The command that lengthens a neuron's dissolve delay.
pub fn increase_neuron_delay(additional_dissolve_delay_seconds: u32) -> (command: Command)
    ensures
        command == Command::Configure(
            Configure {
                operation: Some(
                    Operation::IncreaseDissolveDelay(
                        IncreaseDissolveDelay { additional_dissolve_delay_seconds },
                    ),
                ),
            },
        ),
{
    Command::Configure(
        Configure {
            operation: Some(
                Operation::IncreaseDissolveDelay(
                    IncreaseDissolveDelay { additional_dissolve_delay_seconds },
                ),
            ),
        },
    )
}

/// The command that makes `key` a hotkey of a neuron.
pub fn add_hotkey(key: Principal) -> (command: Command)
    ensures
        command == Command::Configure(
            Configure { operation: Some(Operation::AddHotKey(AddHotKey { new_hot_key: Some(key) })) },
        ),
{
    Command::Configure(
        Configure { operation: Some(Operation::AddHotKey(AddHotKey { new_hot_key: Some(key) })) },
    )
}

/// The command that lets a neuron stake its maturity by itself.
pub fn enable_auto_merge_maturity() -> (command: Command)
    ensures
        command == Command::Configure(
            Configure {
                operation: Some(
                    Operation::ChangeAutoStakeMaturity(
                        ChangeAutoStakeMaturity { requested_setting_for_auto_stake_maturity: true },
                    ),
                ),
            },
        ),
{
    Command::Configure(
        Configure {
            operation: Some(
                Operation::ChangeAutoStakeMaturity(
                    ChangeAutoStakeMaturity { requested_setting_for_auto_stake_maturity: true },
                ),
            ),
        },
    )
}

/// The default account of a service: where a neuron of that service is
/// funded, or paid out to.
pub fn account_id(canister_id: &Principal) -> (account: crate::account::AccountIdentifier)
    ensures
        account@ == spec_derive_account_id(canister_id@, None),
{
    derive_account_id(canister_id, None)
}

} // verus!
