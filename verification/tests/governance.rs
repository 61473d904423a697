use staking_jobs::account::derive_account_id;
use staking_jobs::error::Error;
use staking_jobs::governance::generated::{
    AddHotKey, ChangeAutoStakeMaturity, ClaimOrRefreshNeuronFromAccountResponse,
    ClaimOrRefreshResponse, Command, Command_1, Configure, DisburseResponse, DissolveState,
    GovernanceError, IncreaseDissolveDelay, ManageNeuronResponse, Neuron, NeuronId,
    NeuronIdOrSubaccount, Operation, Result_1, SpawnResponse, Split,
};
use staking_jobs::governance::{
    account_id, add_hotkey, claim_neuron, claim_outcome, disburse, enable_auto_merge_maturity,
    increase_neuron_delay, list_neurons, manage_neuron, manage_outcome, neurons_to_disburse,
    split, split_outcome, start_dissolving, ICP_FEE,
};
use staking_jobs::principal::Principal;

fn neuron(id: Option<u64>, dissolve_state: Option<DissolveState>) -> Neuron {
    Neuron {
        id: id.map(|id| NeuronId { id }),
        staked_maturity_e8s_equivalent: None,
        controller: None,
        recent_ballots: vec![],
        kyc_verified: true,
        not_for_profit: false,
        maturity_e8s_equivalent: 0,
        cached_neuron_stake_e8s: 100_000_000,
        created_timestamp_seconds: 0,
        auto_stake_maturity: None,
        aging_since_timestamp_seconds: 0,
        hot_keys: vec![],
        account: vec![],
        joined_community_fund_timestamp_seconds: None,
        dissolve_state,
        followees: vec![],
        neuron_fees_e8s: 0,
        transfer: None,
        known_neuron_data: None,
        spawn_at_timestamp_seconds: None,
    }
}

fn refusal() -> GovernanceError {
    GovernanceError { error_message: String::from("no"), error_type: 3 }
}

#[test]
fn selects_only_neurons_whose_countdown_has_ended() {
    let now = 1_000;
    let neurons = vec![
        neuron(Some(1), Some(DissolveState::WhenDissolvedTimestampSeconds(999))),
        neuron(Some(2), Some(DissolveState::WhenDissolvedTimestampSeconds(1_000))),
        neuron(Some(3), Some(DissolveState::WhenDissolvedTimestampSeconds(1_001))),
        neuron(Some(4), Some(DissolveState::DissolveDelaySeconds(0))),
        neuron(Some(5), None),
        neuron(None, Some(DissolveState::WhenDissolvedTimestampSeconds(1))),
        neuron(Some(7), Some(DissolveState::WhenDissolvedTimestampSeconds(0))),
    ];
    assert_eq!(neurons_to_disburse(&neurons, now), vec![1, 2, 7]);
}

#[test]
fn selection_of_an_empty_listing_is_empty() {
    assert_eq!(neurons_to_disburse(&vec![], 5), Vec::<u64>::new());
}

#[test]
fn locked_neurons_are_never_selected() {
    let neurons = vec![
        neuron(Some(1), Some(DissolveState::DissolveDelaySeconds(1))),
        neuron(Some(2), Some(DissolveState::DissolveDelaySeconds(u64::MAX))),
    ];
    assert_eq!(neurons_to_disburse(&neurons, u64::MAX), Vec::<u64>::new());
}

#[test]
fn selection_is_the_same_on_every_run_and_reads_only_the_dissolve_state() {
    let mut a = neuron(Some(1), Some(DissolveState::WhenDissolvedTimestampSeconds(10)));
    let mut b = neuron(Some(1), Some(DissolveState::WhenDissolvedTimestampSeconds(10)));
    a.cached_neuron_stake_e8s = 5;
    b.cached_neuron_stake_e8s = 6;
    b.kyc_verified = false;
    let first = vec![a];
    let second = vec![b];
    assert_eq!(neurons_to_disburse(&first, 10), neurons_to_disburse(&first, 10));
    assert_eq!(neurons_to_disburse(&first, 10), neurons_to_disburse(&second, 10));
    assert_eq!(neurons_to_disburse(&first, 9), Vec::<u64>::new());
}

#[test]
fn split_reply_names_the_created_neuron() {
    let reply = ManageNeuronResponse {
        command: Some(Command_1::Split(SpawnResponse { created_neuron_id: Some(NeuronId { id: 42 }) })),
    };
    assert_eq!(split_outcome(&reply), Ok(42));
}

#[test]
fn split_reply_of_another_shape_is_a_protocol_error() {
    let missing = ManageNeuronResponse {
        command: Some(Command_1::Split(SpawnResponse { created_neuron_id: None })),
    };
    assert_eq!(split_outcome(&missing), Err(Error::ProtocolError));
    let empty = ManageNeuronResponse { command: None };
    assert_eq!(split_outcome(&empty), Err(Error::ProtocolError));
    let spawn = ManageNeuronResponse {
        command: Some(Command_1::Spawn(SpawnResponse { created_neuron_id: Some(NeuronId { id: 1 }) })),
    };
    assert_eq!(split_outcome(&spawn), Err(Error::ProtocolError));
    let configure = ManageNeuronResponse { command: Some(Command_1::Configure) };
    assert_eq!(split_outcome(&configure), Err(Error::ProtocolError));
}

#[test]
fn refusal_by_the_service_is_a_rejection() {
    let refused = ManageNeuronResponse { command: Some(Command_1::Error(refusal())) };
    assert_eq!(split_outcome(&refused), Err(Error::RemoteRejection));
    assert_eq!(manage_outcome(&refused), Some(Error::RemoteRejection));
}

#[test]
fn any_other_reply_counts_as_done() {
    assert_eq!(manage_outcome(&ManageNeuronResponse { command: None }), None);
    assert_eq!(
        manage_outcome(&ManageNeuronResponse { command: Some(Command_1::Configure) }),
        None
    );
    assert_eq!(
        manage_outcome(&ManageNeuronResponse {
            command: Some(Command_1::Disburse(DisburseResponse { transfer_block_height: 9 }))
        }),
        None
    );
    assert_eq!(
        manage_outcome(&ManageNeuronResponse {
            command: Some(Command_1::ClaimOrRefresh(ClaimOrRefreshResponse {
                refreshed_neuron_id: None
            }))
        }),
        None
    );
}

#[test]
fn claim_reply_is_read_in_each_of_its_shapes() {
    let claimed = ClaimOrRefreshNeuronFromAccountResponse {
        result: Some(Result_1::NeuronId(NeuronId { id: 77 })),
    };
    assert_eq!(claim_outcome(&claimed), Ok(77));
    let refused = ClaimOrRefreshNeuronFromAccountResponse { result: Some(Result_1::Error(refusal())) };
    assert_eq!(claim_outcome(&refused), Err(Error::RemoteRejection));
    let empty = ClaimOrRefreshNeuronFromAccountResponse { result: None };
    assert_eq!(claim_outcome(&empty), Err(Error::ProtocolError));
}

#[test]
fn requests_are_built_as_the_service_expects_them() {
    let listing = list_neurons();
    assert!(listing.neuron_ids.is_empty());
    assert!(listing.include_neurons_readable_by_caller);

    let request = manage_neuron(5, split(123));
    assert_eq!(request.id, None);
    assert_eq!(request.command, Some(Command::Split(Split { amount_e8s: 123 })));
    assert_eq!(
        request.neuron_id_or_subaccount,
        Some(NeuronIdOrSubaccount::NeuronId(NeuronId { id: 5 }))
    );

    let controller = Principal::from_slice(&[1, 2, 3]).unwrap();
    let claim = claim_neuron(Some(controller), 9);
    assert_eq!(claim.controller, Some(controller));
    assert_eq!(claim.memo, 9);
}

#[test]
fn commands_are_built_as_the_service_expects_them() {
    let owner = Principal::from_slice(&[0, 0, 0, 0, 1, 96, 1, 125, 1, 1]).unwrap();
    let to = derive_account_id(&owner, None);
    match disburse(&to) {
        Command::Disburse(d) => {
            assert_eq!(d.amount, None);
            assert_eq!(d.to_account.unwrap().hash, to.hash.to_vec());
        }
        other => panic!("unexpected command: {:?}", other),
    }
    assert_eq!(
        start_dissolving(),
        Command::Configure(Configure { operation: Some(Operation::StartDissolving) })
    );
    assert_eq!(
        increase_neuron_delay(15_778_800),
        Command::Configure(Configure {
            operation: Some(Operation::IncreaseDissolveDelay(IncreaseDissolveDelay {
                additional_dissolve_delay_seconds: 15_778_800
            }))
        })
    );
    assert_eq!(
        add_hotkey(owner),
        Command::Configure(Configure {
            operation: Some(Operation::AddHotKey(AddHotKey { new_hot_key: Some(owner) }))
        })
    );
    assert_eq!(
        enable_auto_merge_maturity(),
        Command::Configure(Configure {
            operation: Some(Operation::ChangeAutoStakeMaturity(ChangeAutoStakeMaturity {
                requested_setting_for_auto_stake_maturity: true
            }))
        })
    );
}

#[test]
fn account_of_a_service_is_its_default_account() {
    let governance = Principal::from_text("rrkah-fqaaa-aaaaa-aaaaq-cai").unwrap();
    assert_eq!(account_id(&governance), derive_account_id(&governance, None));
    assert_eq!(ICP_FEE, 10_000);
}
