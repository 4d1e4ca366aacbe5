use vstd::prelude::*;

verus! {

/// Where the initial states of a run come from.
#[derive(Clone, Copy, Debug, PartialEq, Eq, Structural)]
pub enum InitialStatesPlan {
    /// From the values given on the command line, one state after the other.
    FromArguments,
    /// Sampled at random within the environment's start ranges, from the
    /// given seed.
    Sampled { seed: u64, num_initial_states: u64 },
}

/// Reads the two optional experiment parameters, a seed and a number of
/// initial states. Without them the initial states are the ones given on the
/// command line; with them they are sampled.
pub fn plan_initial_states(experiment_parameters: &Vec<u64>) -> (plan: InitialStatesPlan)
    requires
        experiment_parameters.len() == 0 || experiment_parameters.len() == 2,
    ensures
        experiment_parameters.len() == 0 ==> plan == InitialStatesPlan::FromArguments,
        experiment_parameters.len() == 2 ==> plan == (InitialStatesPlan::Sampled {
            seed: experiment_parameters[0],
            num_initial_states: experiment_parameters[1],
        }),
{
    if experiment_parameters.len() == 0 {
        InitialStatesPlan::FromArguments
    } else {
        InitialStatesPlan::Sampled {
            seed: experiment_parameters[0],
            num_initial_states: experiment_parameters[1],
        }
    }
}

} // verus!
