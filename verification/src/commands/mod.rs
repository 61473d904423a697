use crate::error::Error;
use vstd::prelude::*;

pub mod daily;
pub mod make_neuron;
pub mod setup;

verus! {

/// The jobs that the operator can ask for.
#[derive(Debug, PartialEq)]
pub enum Command {
    /// Disburse what is due, apply interest, and split off new withdrawal
    /// neurons.
    Daily(daily::Command),
    /// Make the staking neurons and hand them to the deposits service.
    Setup(setup::Command),
    /// Make one neuron.
    MakeNeuron(make_neuron::Command),
}

/// Where a job stands. `Disbursing`, `Refreshing`, `Splitting` and
/// `Replacing` belong to the daily job; `Funding`, `Registering` and
/// `Settling` to the setup.
#[derive(Clone, Copy, Debug, PartialEq, Eq, Structural)]
pub enum Phase {
    Start,
    Disbursing,
    Refreshing,
    Splitting,
    Replacing,
    Checking,
    Funding,
    Registering,
    Settling,
    Done,
    Failed,
}

/// Why and where a job stopped: the error, the phase in which it came, and
/// the neuron that the failing operation was about, if it was about one.
#[derive(Clone, Copy, Debug, PartialEq, Eq, Structural)]
pub struct Failure {
    pub error: Error,
    pub phase: Phase,
    pub neuron: Option<u64>,
}

} // verus!
