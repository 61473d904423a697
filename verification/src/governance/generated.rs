use crate::principal::Principal;
use vstd::prelude::*;

verus! {

/// The identifier that the governance service gives a neuron when it is claimed.
#[derive(Clone, Copy, Debug, PartialEq)]
pub struct NeuronId {
    pub id: u64,
}

/// The neurons that a neuron follows on one topic.
#[derive(Debug, PartialEq)]
pub struct Followees {
    pub followees: Vec<NeuronId>,
}

/// A ledger account as the governance service spells it: the bytes of its hash.
#[derive(Debug, PartialEq)]
pub struct AccountIdentifier {
    pub hash: Vec<u8>,
}

/// The ledger transfer that funded a neuron.
#[derive(Debug, PartialEq)]
pub struct NeuronStakeTransfer {
    pub to_subaccount: Vec<u8>,
    pub neuron_stake_e8s: u64,
    pub from: Option<Principal>,
    pub memo: u64,
    pub from_subaccount: Vec<u8>,
    pub transfer_timestamp: u64,
    pub block_height: u64,
}

/// A refusal by the governance service, with its code and its words.
#[derive(Debug, PartialEq)]
pub struct GovernanceError {
    pub error_message: String,
    pub error_type: i32,
}

/// The public name and description of a known neuron.
#[derive(Debug, PartialEq)]
pub struct KnownNeuronData {
    pub name: String,
    pub description: Option<String>,
}

/// Asks to spawn a new neuron from maturity.
#[derive(Clone, Copy, Debug, PartialEq)]
pub struct Spawn {
    pub percentage_to_spawn: Option<u32>,
    pub new_controller: Option<Principal>,
    pub nonce: Option<u64>,
}

/// Asks to split the given amount off a neuron into a new one.
#[derive(Clone, Copy, Debug, PartialEq)]
pub struct Split {
    pub amount_e8s: u64,
}

/// Asks a neuron to follow others on a topic.
#[derive(Debug, PartialEq)]
pub struct Follow {
    pub topic: i32,
    pub followees: Vec<NeuronId>,
}

/// Asks to claim the neuron that a controller funded under a memo.
#[derive(Clone, Copy, Debug, PartialEq)]
pub struct ClaimOrRefreshNeuronFromAccount {
    pub controller: Option<Principal>,
    pub memo: u64,
}

/// How a neuron to claim or refresh is pointed at.
#[derive(Debug, PartialEq)]
pub enum By {
    NeuronIdOrSubaccount,
    MemoAndController(ClaimOrRefreshNeuronFromAccount),
    Memo(u64),
}

/// Asks to claim or refresh a neuron.
#[derive(Debug, PartialEq)]
pub struct ClaimOrRefresh {
    pub by: Option<By>,
}

/// Takes a hotkey away from a neuron.
#[derive(Clone, Copy, Debug, PartialEq)]
pub struct RemoveHotKey {
    pub hot_key_to_remove: Option<Principal>,
}

/// Authorises a further principal to issue limited commands on a neuron.
#[derive(Clone, Copy, Debug, PartialEq)]
pub struct AddHotKey {
    pub new_hot_key: Option<Principal>,
}

/// Switches the automatic staking of maturity on or off.
#[derive(Clone, Copy, Debug, PartialEq)]
pub struct ChangeAutoStakeMaturity {
    pub requested_setting_for_auto_stake_maturity: bool,
}

/// Lengthens the dissolve delay of a neuron.
#[derive(Clone, Copy, Debug, PartialEq)]
pub struct IncreaseDissolveDelay {
    pub additional_dissolve_delay_seconds: u32,
}

/// Sets the moment at which a neuron is dissolved.
#[derive(Clone, Copy, Debug, PartialEq)]
pub struct SetDissolveTimestamp {
    pub dissolve_timestamp_seconds: u64,
}

/// What a configure command changes on a neuron.
#[derive(Clone, Copy, Debug, PartialEq)]
pub enum Operation {
    RemoveHotKey(RemoveHotKey),
    AddHotKey(AddHotKey),
    ChangeAutoStakeMaturity(ChangeAutoStakeMaturity),
    StopDissolving,
    StartDissolving,
    IncreaseDissolveDelay(IncreaseDissolveDelay),
    JoinCommunityFund,
    LeaveCommunityFund,
    SetDissolveTimestamp(SetDissolveTimestamp),
}

/// A change of a neuron's configuration.
#[derive(Clone, Copy, Debug, PartialEq)]
pub struct Configure {
    pub operation: Option<Operation>,
}

/// A vote on a proposal.
#[derive(Clone, Copy, Debug, PartialEq)]
pub struct RegisterVote {
    pub vote: i32,
    pub proposal: Option<NeuronId>,
}

/// Asks to merge another neuron into this one.
#[derive(Clone, Copy, Debug, PartialEq)]
pub struct Merge {
    pub source_neuron_id: Option<NeuronId>,
}

/// Asks to disburse part of a neuron into a new neuron.
#[derive(Clone, Copy, Debug, PartialEq)]
pub struct DisburseToNeuron {
    pub dissolve_delay_seconds: u64,
    pub kyc_verified: bool,
    pub amount_e8s: u64,
    pub new_controller: Option<Principal>,
    pub nonce: u64,
}

/// Asks to stake a share of the maturity.
#[derive(Clone, Copy, Debug, PartialEq)]
pub struct StakeMaturity {
    pub percentage_to_stake: Option<u32>,
}

/// Asks to merge a share of the maturity into the stake.
#[derive(Clone, Copy, Debug, PartialEq)]
pub struct MergeMaturity {
    pub percentage_to_merge: u32,
}

/// An amount in e8s.
#[derive(Clone, Copy, Debug, PartialEq)]
pub struct Amount {
    pub e8s: u64,
}

/// Asks to pay a dissolved neuron out to an account; no amount means all of it.
#[derive(Debug, PartialEq)]
pub struct Disburse {
    pub to_account: Option<AccountIdentifier>,
    pub amount: Option<Amount>,
}

/// What a manage-neuron request asks for.
#[derive(Debug, PartialEq)]
pub enum Command {
    Spawn(Spawn),
    Split(Split),
    Follow(Follow),
    ClaimOrRefresh(ClaimOrRefresh),
    Configure(Configure),
    RegisterVote(RegisterVote),
    Merge(Merge),
    DisburseToNeuron(DisburseToNeuron),
    StakeMaturity(StakeMaturity),
    MergeMaturity(MergeMaturity),
    Disburse(Disburse),
}

/// Points at a neuron by its identifier or by its subaccount.
#[derive(Debug, PartialEq)]
pub enum NeuronIdOrSubaccount {
    Subaccount(Vec<u8>),
    NeuronId(NeuronId),
}

/// A request to the governance service about one neuron.
#[derive(Debug, PartialEq)]
pub struct ManageNeuron {
    pub id: Option<NeuronId>,
    pub command: Option<Command>,
    pub neuron_id_or_subaccount: Option<NeuronIdOrSubaccount>,
}

/// A vote that a neuron has cast.
#[derive(Clone, Copy, Debug, PartialEq)]
pub struct BallotInfo {
    pub vote: i32,
    pub proposal_id: Option<NeuronId>,
}

/// Whether a neuron is locked for a delay or counting down to a moment.
#[derive(Clone, Copy, Debug, PartialEq)]
pub enum DissolveState {
    DissolveDelaySeconds(u64),
    WhenDissolvedTimestampSeconds(u64),
}

/// A neuron as the governance service lists it.
#[derive(Debug, PartialEq)]
pub struct Neuron {
    pub id: Option<NeuronId>,
    pub staked_maturity_e8s_equivalent: Option<u64>,
    pub controller: Option<Principal>,
    pub recent_ballots: Vec<BallotInfo>,
    pub kyc_verified: bool,
    pub not_for_profit: bool,
    pub maturity_e8s_equivalent: u64,
    pub cached_neuron_stake_e8s: u64,
    pub created_timestamp_seconds: u64,
    pub auto_stake_maturity: Option<bool>,
    pub aging_since_timestamp_seconds: u64,
    pub hot_keys: Vec<Principal>,
    pub account: Vec<u8>,
    pub joined_community_fund_timestamp_seconds: Option<u64>,
    pub dissolve_state: Option<DissolveState>,
    pub followees: Vec<(i32, Followees)>,
    pub neuron_fees_e8s: u64,
    pub transfer: Option<NeuronStakeTransfer>,
    pub known_neuron_data: Option<KnownNeuronData>,
    pub spawn_at_timestamp_seconds: Option<u64>,
}

/// What a claim returns: a refusal or the neuron's identifier.
#[allow(non_camel_case_types)]
#[derive(Debug, PartialEq)]
pub enum Result_1 {
    Error(GovernanceError),
    NeuronId(NeuronId),
}

/// The reply to a claim.
#[derive(Debug, PartialEq)]
pub struct ClaimOrRefreshNeuronFromAccountResponse {
    pub result: Option<Result_1>,
}

/// The public summary of a neuron.
#[derive(Debug, PartialEq)]
pub struct NeuronInfo {
    pub dissolve_delay_seconds: u64,
    pub recent_ballots: Vec<BallotInfo>,
    pub created_timestamp_seconds: u64,
    pub state: i32,
    pub stake_e8s: u64,
    pub joined_community_fund_timestamp_seconds: Option<u64>,
    pub retrieved_at_timestamp_seconds: u64,
    pub known_neuron_data: Option<KnownNeuronData>,
    pub voting_power: u64,
    pub age_seconds: u64,
}

/// Asks for the neurons with the given identifiers, and for those the caller may read.
#[derive(Debug, PartialEq)]
pub struct ListNeurons {
    pub neuron_ids: Vec<u64>,
    pub include_neurons_readable_by_caller: bool,
}

/// The reply to a listing of neurons.
#[derive(Debug, PartialEq)]
pub struct ListNeuronsResponse {
    pub neuron_infos: Vec<(u64, NeuronInfo)>,
    pub full_neurons: Vec<Neuron>,
}

/// The reply to a command that creates a neuron.
#[derive(Clone, Copy, Debug, PartialEq)]
pub struct SpawnResponse {
    pub created_neuron_id: Option<NeuronId>,
}

/// The reply to a claim-or-refresh command.
#[derive(Clone, Copy, Debug, PartialEq)]
pub struct ClaimOrRefreshResponse {
    pub refreshed_neuron_id: Option<NeuronId>,
}

/// The reply to a proposal.
#[derive(Clone, Copy, Debug, PartialEq)]
pub struct MakeProposalResponse {
    pub proposal_id: Option<NeuronId>,
}

/// The reply to a stake-maturity command.
#[derive(Clone, Copy, Debug, PartialEq)]
pub struct StakeMaturityResponse {
    pub maturity_e8s: u64,
    pub staked_maturity_e8s: u64,
}

/// The reply to a merge-maturity command.
#[derive(Clone, Copy, Debug, PartialEq)]
pub struct MergeMaturityResponse {
    pub merged_maturity_e8s: u64,
    pub new_stake_e8s: u64,
}

/// The reply to a disbursement: the block of the ledger transfer.
#[derive(Clone, Copy, Debug, PartialEq)]
pub struct DisburseResponse {
    pub transfer_block_height: u64,
}

/// What the governance service answers to a manage-neuron request.
#[allow(non_camel_case_types)]
#[derive(Debug, PartialEq)]
pub enum Command_1 {
    Error(GovernanceError),
    Spawn(SpawnResponse),
    Split(SpawnResponse),
    Follow,
    ClaimOrRefresh(ClaimOrRefreshResponse),
    Configure,
    RegisterVote,
    Merge,
    DisburseToNeuron(SpawnResponse),
    MakeProposal(MakeProposalResponse),
    StakeMaturity(StakeMaturityResponse),
    MergeMaturity(MergeMaturityResponse),
    Disburse(DisburseResponse),
}

/// The reply to a manage-neuron request.
#[derive(Debug, PartialEq)]
pub struct ManageNeuronResponse {
    pub command: Option<Command_1>,
}

} // verus!
