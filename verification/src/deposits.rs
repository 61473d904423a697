use crate::account::{derive_account_id, spec_derive_account_id, AccountIdentifier};
use crate::governance::generated::DissolveState;
use crate::principal::Principal;
use vstd::prelude::*;

verus! {

/// The argument of the deposits service's listing of neurons: nothing.
#[derive(Clone, Copy, Debug, PartialEq)]
pub struct ListNeuronsToDisburseArgs {}

/// The argument of the deposits service's refresh: nothing.
#[derive(Clone, Copy, Debug, PartialEq)]
pub struct RefreshNeuronsAndApplyInterestArgs {}

/// A neuron as the deposits service tracks it.
#[derive(Clone, Copy, Debug, PartialEq)]
pub struct Neuron {
    pub id: u64,
    pub account_id: AccountIdentifier,
    pub dissolve_state: Option<DissolveState>,
    pub cached_neuron_stake_e8s: u64,
    pub staked_maturity_e8s_equivalent: Option<u64>,
}

/// One split that the deposits service asks for after it has applied
/// interest: take `amount` out of `source_neuron` into a new neuron. With
/// `replace_existing` the new neuron takes the source's place among the
/// staking neurons and the source is dissolved; without it the new neuron
/// is dissolved.
#[derive(Clone, Copy, Debug, PartialEq, Eq, Structural)]
pub struct SplitInstruction {
    pub source_neuron: u64,
    pub amount: u64,
    pub replace_existing: bool,
}

/// A tracked neuron is due when its countdown ended at or before `now`.
pub open spec fn spec_is_due(neuron: Neuron, now: u64) -> bool {
    match neuron.dissolve_state {
        Some(DissolveState::WhenDissolvedTimestampSeconds(dissolved_at)) => dissolved_at <= now,
        _ => false,
    }
}

/// The identifiers of the tracked neurons that are due, in the order of the
/// listing.
pub open spec fn spec_neurons_to_disburse(neurons: Seq<Neuron>, now: u64) -> Seq<u64> {
    neurons.filter(|n: Neuron| spec_is_due(n, now)).map_values(|n: Neuron| n.id)
}

/// The instruction that a triple of the refresh reply spells.
pub open spec fn spec_instruction(raw: (u64, u64, bool)) -> SplitInstruction {
    SplitInstruction { source_neuron: raw.0, amount: raw.1, replace_existing: raw.2 }
}

/// Listing one more tracked neuron adds its identifier to the selection if
/// it is due, and changes nothing otherwise.
pub proof fn lemma_neurons_to_disburse_push(neurons: Seq<Neuron>, last: Neuron, now: u64)
    ensures
        spec_neurons_to_disburse(neurons.push(last), now) == if spec_is_due(last, now) {
            spec_neurons_to_disburse(neurons, now).push(last.id)
        } else {
            spec_neurons_to_disburse(neurons, now)
        },
{
    reveal(Seq::filter);
    let due = |n: Neuron| spec_is_due(n, now);
    assert(neurons.push(last).drop_last() =~= neurons);
    assert(neurons.push(last).last() == last);
    if spec_is_due(last, now) {
        assert(neurons.push(last).filter(due) == neurons.filter(due).push(last));
        assert(spec_neurons_to_disburse(neurons.push(last), now) =~= spec_neurons_to_disburse(
            neurons,
            now,
        ).push(last.id));
    } else {
        assert(neurons.push(last).filter(due) == neurons.filter(due));
    }
}

/// Selects, from the deposits service's listing, the neurons whose
/// countdown has ended.
pub fn list_neurons_to_disburse(neurons: &Vec<Neuron>, now: u64) -> (ids: Vec<u64>)
    ensures
        ids@ == spec_neurons_to_disburse(neurons@, now),
{
    let mut ids: Vec<u64> = Vec::new();
    let mut i: usize = 0;
    proof {
        reveal(Seq::filter);
        assert(neurons@.subrange(0, 0) =~= Seq::<Neuron>::empty());
        assert(spec_neurons_to_disburse(Seq::<Neuron>::empty(), now) =~= Seq::<u64>::empty());
    }
    while i < neurons.len()
        invariant
            i <= neurons@.len(),
            ids@ == spec_neurons_to_disburse(neurons@.subrange(0, i as int), now),
        decreases neurons@.len() - i,
    {
        let neuron = neurons[i];
        proof {
            lemma_neurons_to_disburse_push(neurons@.subrange(0, i as int), neuron, now);
            assert(neurons@.subrange(0, i as int).push(neuron) =~= neurons@.subrange(
                0,
                i as int + 1,
            ));
        }
        match neuron.dissolve_state {
            Some(DissolveState::WhenDissolvedTimestampSeconds(dissolved_at)) => {
                if dissolved_at <= now {
                    ids.push(neuron.id);
                }
            },
            _ => {},
        }
        i = i + 1;
    }
    assert(neurons@.subrange(0, i as int) =~= neurons@);
    ids
}

/// Reads the reply to a refresh: one instruction per triple of source
/// neuron, amount and replacement flag, in the same order.
pub fn refresh_neurons_and_apply_interest(reply: &Vec<(u64, u64, bool)>) -> (instructions: Vec<
    SplitInstruction,
>)
    ensures
        instructions@ == reply@.map_values(|raw: (u64, u64, bool)| spec_instruction(raw)),
{
    let mut instructions: Vec<SplitInstruction> = Vec::new();
    let mut i: usize = 0;
    while i < reply.len()
        invariant
            i <= reply@.len(),
            instructions@ == reply@.subrange(0, i as int).map_values(
                |raw: (u64, u64, bool)| spec_instruction(raw),
            ),
        decreases reply@.len() - i,
    {
        let raw = reply[i];
        instructions.push(
            SplitInstruction { source_neuron: raw.0, amount: raw.1, replace_existing: raw.2 },
        );
        i = i + 1;
        assert(instructions@ =~= reply@.subrange(0, i as int).map_values(
            |raw: (u64, u64, bool)| spec_instruction(raw),
        ));
    }
    assert(reply@.subrange(0, i as int) =~= reply@);
    instructions
}

/// The deposits service's own account: where disbursed neurons are paid
/// out to.
pub fn account_id(canister_id: &Principal) -> (account: AccountIdentifier)
    ensures
        account@ == spec_derive_account_id(canister_id@, None),
{
    derive_account_id(canister_id, None)
}

} // verus!
