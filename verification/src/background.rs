//! Which background tasks the service starts.

use vstd::prelude::*;

verus! {

/// The part of a network's setup that decides the background tasks.
#[derive(Clone, Copy, Debug, PartialEq, Eq, Structural)]
pub struct NetworkSetupConfig {
    /// Whether the network sends blob transactions; unset means no.
    pub enable_sending_blobs: Option<bool>,
}

/// The background tasks to start, beside the gas oracle and the automatic
/// top-up task, which always start.
#[derive(Clone, Copy, Debug, PartialEq, Eq, Structural)]
pub struct BackgroundTaskPlan {
    pub start_blob_gas_oracle: bool,
    pub start_webhook_manager: bool,
}

/// Some network has sending blobs enabled.
pub open spec fn any_blob_network(networks: Seq<NetworkSetupConfig>) -> bool {
    exists|i: int| 0 <= i < networks.len() && #[trigger] networks[i].enable_sending_blobs == Some(true)
}

/// Whether any network has sending blobs enabled (an unset flag counts as
/// disabled).
pub fn has_blob_enabled_networks(networks: &Vec<NetworkSetupConfig>) -> (any: bool)
    ensures
        any == any_blob_network(networks@),
{
    let n = networks.len();
    let mut i: usize = 0;
    while i < n
        invariant
            n == networks@.len(),
            i <= n,
            forall|j: int| 0 <= j < i ==> #[trigger] networks@[j].enable_sending_blobs != Some(true),
        decreases n - i,
    {
        let enabled = match networks[i].enable_sending_blobs {
            Some(flag) => flag,
            None => false,
        };
        if enabled {
            return true;
        }
        i = i + 1;
    }
    false
}

/// The background tasks to start: the blob gas oracle when some network
/// sends blobs, the webhook manager task when a webhook manager is set up.
pub fn plan_background_tasks(networks: &Vec<NetworkSetupConfig>, has_webhook_manager: bool) -> (plan:
    BackgroundTaskPlan)
    ensures
        plan.start_blob_gas_oracle == any_blob_network(networks@),
        plan.start_webhook_manager == has_webhook_manager,
{
    BackgroundTaskPlan {
        start_blob_gas_oracle: has_blob_enabled_networks(networks),
        start_webhook_manager: has_webhook_manager,
    }
}

} // verus!
