use std::collections::BTreeSet;

use clickward::deployment::deploy_order;
use clickward::{ClickwardError, ClickwardMetadata, DeployStep, Deployment, KeeperId, ServerId, Step};

fn set(ids: &[u64]) -> BTreeSet<u64> {
    ids.iter().copied().collect()
}

fn deployment(meta: Option<ClickwardMetadata>) -> Deployment {
    Deployment::new_with_default_port_config("/tmp/cw".to_string(), "test_cluster".to_string(), None, meta)
}

fn three_keepers_two_servers() -> Deployment {
    deployment(Some(ClickwardMetadata::new(set(&[1, 2, 3]), set(&[1, 2]))))
}

#[test]
fn add_keeper_orders_save_render_start_then_peers() {
    let mut d = three_keepers_two_servers();
    let steps = d.add_keeper().unwrap();
    assert_eq!(
        steps,
        vec![
            Step::SaveMetadata,
            Step::WriteKeeperConfig(KeeperId(4)),
            Step::StartKeeper(KeeperId(4)),
            Step::WriteKeeperConfig(KeeperId(1)),
            Step::WriteKeeperConfig(KeeperId(2)),
            Step::WriteKeeperConfig(KeeperId(3)),
            Step::WriteServerConfig(ServerId(1)),
            Step::WriteServerConfig(ServerId(2)),
        ]
    );
    let meta = d.meta().as_ref().unwrap();
    assert_eq!(meta.keeper_ids, set(&[1, 2, 3, 4]));
    assert_eq!(meta.max_keeper_id, KeeperId(4));
}

#[test]
fn add_server_renders_all_then_starts_new() {
    let mut d = three_keepers_two_servers();
    let steps = d.add_server().unwrap();
    assert_eq!(
        steps,
        vec![
            Step::SaveMetadata,
            Step::WriteServerConfig(ServerId(1)),
            Step::WriteServerConfig(ServerId(2)),
            Step::WriteServerConfig(ServerId(3)),
            Step::StartServer(ServerId(3)),
        ]
    );
    assert_eq!(d.meta().as_ref().unwrap().server_ids, set(&[1, 2, 3]));
}

#[test]
fn remove_keeper_redistributes_before_stopping() {
    let mut d = three_keepers_two_servers();
    let steps = d.remove_keeper(KeeperId(2)).unwrap();
    assert_eq!(
        steps,
        vec![
            Step::SaveMetadata,
            Step::WriteKeeperConfig(KeeperId(1)),
            Step::WriteKeeperConfig(KeeperId(3)),
            Step::WriteServerConfig(ServerId(1)),
            Step::WriteServerConfig(ServerId(2)),
            Step::StopKeeper(KeeperId(2)),
        ]
    );
    let meta = d.meta().as_ref().unwrap();
    assert_eq!(meta.keeper_ids, set(&[1, 3]));
    assert_eq!(meta.max_keeper_id, KeeperId(3));
}

#[test]
fn remove_unknown_keeper_leaves_deployment_unchanged() {
    let mut d = three_keepers_two_servers();
    let r = d.remove_keeper(KeeperId(7));
    assert_eq!(r, Err(ClickwardError::NoSuchKeeper(KeeperId(7))));
    let meta = d.meta().as_ref().unwrap();
    assert_eq!(meta.keeper_ids, set(&[1, 2, 3]));
    assert_eq!(meta.max_keeper_id, KeeperId(3));
}

#[test]
fn remove_server_redistributes_before_stopping() {
    let mut d = three_keepers_two_servers();
    let steps = d.remove_server(ServerId(1)).unwrap();
    assert_eq!(
        steps,
        vec![Step::SaveMetadata, Step::WriteServerConfig(ServerId(2)), Step::StopServer(ServerId(1))]
    );
    assert_eq!(d.meta().as_ref().unwrap().server_ids, set(&[2]));
}

#[test]
fn remove_unknown_server_is_refused() {
    let mut d = three_keepers_two_servers();
    assert_eq!(d.remove_server(ServerId(5)), Err(ClickwardError::NoSuchReplica(ServerId(5))));
    assert_eq!(d.meta().as_ref().unwrap().server_ids, set(&[1, 2]));
}

#[test]
fn operations_without_metadata_are_refused() {
    let mut d = deployment(None);
    assert_eq!(d.add_keeper(), Err(ClickwardError::NoDeployment));
    assert_eq!(d.add_server(), Err(ClickwardError::NoDeployment));
    assert_eq!(d.remove_keeper(KeeperId(1)), Err(ClickwardError::NoDeployment));
    assert_eq!(d.remove_server(ServerId(1)), Err(ClickwardError::NoDeployment));
    assert!(d.meta().is_none());
    assert!(d.teardown().is_empty());
}

#[test]
fn teardown_stops_keepers_then_servers() {
    let d = three_keepers_two_servers();
    assert_eq!(
        d.teardown(),
        vec![
            Step::StopKeeper(KeeperId(1)),
            Step::StopKeeper(KeeperId(2)),
            Step::StopKeeper(KeeperId(3)),
            Step::StopServer(ServerId(1)),
            Step::StopServer(ServerId(2)),
        ]
    );
}

#[test]
fn generate_three_keepers_two_servers() {
    let mut d = deployment(None);
    let steps = d.generate_config(3, 2);
    let meta = d.meta().as_ref().unwrap();
    assert_eq!(meta.keeper_ids, set(&[1, 2, 3]));
    assert_eq!(meta.server_ids, set(&[1, 2]));
    assert_eq!(meta.max_keeper_id, KeeperId(3));
    assert_eq!(meta.max_server_id, ServerId(2));
    assert_eq!(
        steps,
        vec![
            Step::WriteServerConfig(ServerId(1)),
            Step::WriteServerConfig(ServerId(2)),
            Step::WriteKeeperConfig(KeeperId(1)),
            Step::WriteKeeperConfig(KeeperId(2)),
            Step::WriteKeeperConfig(KeeperId(3)),
            Step::SaveMetadata,
        ]
    );
    let rendered = steps
        .iter()
        .filter(|s| matches!(s, Step::WriteKeeperConfig(_) | Step::WriteServerConfig(_)))
        .count();
    let started = steps
        .iter()
        .filter(|s| matches!(s, Step::StartKeeper(_) | Step::StartServer(_)))
        .count();
    assert_eq!(rendered, 5);
    assert_eq!(started, 0);
}

#[test]
fn generate_replaces_earlier_metadata() {
    let mut d = three_keepers_two_servers();
    d.generate_config(1, 1);
    let meta = d.meta().as_ref().unwrap();
    assert_eq!(meta.keeper_ids, set(&[1]));
    assert_eq!(meta.max_server_id, ServerId(1));
}

#[test]
fn deploy_starts_keepers_before_servers() {
    let names: Vec<String> = ["clickhouse-1", "keeper-2", "clickward-metadata.json", "keeper-1", "clickhouse-2"]
        .iter()
        .map(|s| s.to_string())
        .collect();
    assert_eq!(
        deploy_order(&names),
        vec![
            DeployStep::StartKeeperDir(1),
            DeployStep::StartKeeperDir(3),
            DeployStep::StartServerDir(0),
            DeployStep::StartServerDir(4),
        ]
    );
}

#[test]
fn deploy_of_empty_listing_starts_nothing() {
    assert!(deploy_order(&Vec::new()).is_empty());
    let names = vec!["keepe".to_string(), "click".to_string()];
    assert!(deploy_order(&names).is_empty());
}
