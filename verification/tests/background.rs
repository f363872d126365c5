use rrelayer::background::{has_blob_enabled_networks, plan_background_tasks, NetworkSetupConfig};

fn network(flag: Option<bool>) -> NetworkSetupConfig {
    NetworkSetupConfig { enable_sending_blobs: flag }
}

#[test]
fn no_networks_no_blobs() {
    assert!(!has_blob_enabled_networks(&vec![]));
}

#[test]
fn unset_flag_counts_as_disabled() {
    assert!(!has_blob_enabled_networks(&vec![network(None), network(Some(false))]));
}

#[test]
fn one_enabled_network_is_enough() {
    assert!(has_blob_enabled_networks(&vec![network(None), network(Some(true)), network(Some(false))]));
}

#[test]
fn plan_follows_config() {
    let plan = plan_background_tasks(&vec![network(Some(true))], false);
    assert!(plan.start_blob_gas_oracle);
    assert!(!plan.start_webhook_manager);
    let plan = plan_background_tasks(&vec![network(None)], true);
    assert!(!plan.start_blob_gas_oracle);
    assert!(plan.start_webhook_manager);
}
