//! Supervision of the independent child processes the controller runs: their configuration,
//! their bounded quantities, and the classification of each run.

pub mod intent_admission;
pub mod proposal_host;
pub mod candidate_manager;
pub mod candidate_workflow;
pub mod model_policy;
