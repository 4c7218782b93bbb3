use vstd::prelude::*;

use crate::server::error::ServerError;

verus! {

/// A resolved runtime model as the policy check reads it.
#[derive(Debug, PartialEq, Eq)]
pub struct ResolvedRuntimeModelV1 {
    /// Whether the file holds exactly the model's canonical bytes.
    pub canonical: bool,
    pub provider: String,
    pub wire_model: String,
    pub deployment: String,
    /// The most output tokens the model supports.
    pub max_output_tokens: u64,
}

/// A configured model selection.
#[derive(Debug, PartialEq, Eq)]
pub struct ModelSelectionV1 {
    pub provider: String,
    pub model: String,
    pub deployment: String,
    pub adapter_version: String,
}

/// The current-V1 model policy: the resolved model is canonical, is exactly the selected
/// provider, model and deployment, is driven through the native protocol adapter, and supports
/// the configured output-token limit.
pub open spec fn model_policy_holds(
    model: ResolvedRuntimeModelV1,
    selection: ModelSelectionV1,
    max_output_tokens: u64,
) -> bool {
    &&& model.canonical
    &&& model.provider@ == selection.provider@
    &&& model.wire_model@ == selection.model@
    &&& model.deployment@ == selection.deployment@
    &&& selection.adapter_version@ == "native-protocol-v1"@
    &&& max_output_tokens <= model.max_output_tokens
}

/// Whether a resolved model satisfies the configured selection and output-token limit.
pub fn model_policy(model: &ResolvedRuntimeModelV1, selection: &ModelSelectionV1, max_output_tokens: u64) -> (r: bool)
    ensures
        r == model_policy_holds(*model, *selection, max_output_tokens),
{
    let adapter = "native-protocol-v1".to_string();
    model.canonical && model.provider == selection.provider && model.wire_model == selection.model
        && model.deployment == selection.deployment && selection.adapter_version == adapter
        && max_output_tokens <= model.max_output_tokens
}

/// The proposal-step model check: the policy holds, or the step's configuration is refused.
pub fn check_proposal_step_model(
    model: &ResolvedRuntimeModelV1,
    selection: &ModelSelectionV1,
    max_output_tokens: u64,
) -> (r: Result<(), String>)
    ensures
        model_policy_holds(*model, *selection, max_output_tokens) ==> r is Ok,
        !model_policy_holds(*model, *selection, max_output_tokens) ==> (r matches Err(m)
            && m@ == "resolved runtime model changed the configured proposal-step policy"@),
{
    if model_policy(model, selection, max_output_tokens) {
        Ok(())
    } else {
        Err("resolved runtime model changed the configured proposal-step policy".to_owned())
    }
}

/// The Proposal Host model check: the policy holds, or the Host's configuration is refused.
pub fn check_proposal_host_model(
    model: &ResolvedRuntimeModelV1,
    selection: &ModelSelectionV1,
    max_output_tokens: u64,
) -> (r: Result<(), ServerError>)
    ensures
        model_policy_holds(*model, *selection, max_output_tokens) ==> r is Ok,
        !model_policy_holds(*model, *selection, max_output_tokens) ==> (r matches Err(ServerError::Configuration(m))
            && m@ == "resolved runtime model changed the configured Proposal Host policy"@),
{
    if model_policy(model, selection, max_output_tokens) {
        Ok(())
    } else {
        Err(ServerError::Configuration("resolved runtime model changed the configured Proposal Host policy".to_owned()))
    }
}

} // verus!
