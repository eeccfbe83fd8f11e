use std::collections::BTreeSet;

use clickward::{ClickwardError, ClickwardMetadata, KeeperId, ServerId};

fn set(ids: &[u64]) -> BTreeSet<u64> {
    ids.iter().copied().collect()
}

fn fresh() -> ClickwardMetadata {
    ClickwardMetadata::new(set(&[1, 2, 3]), set(&[1, 2]))
}

#[test]
fn new_takes_watermarks_from_largest_ids() {
    let m = ClickwardMetadata::new(set(&[2, 7, 5]), set(&[4]));
    assert_eq!(m.max_keeper_id, KeeperId(7));
    assert_eq!(m.max_server_id, ServerId(4));
    assert_eq!(m.keeper_ids, set(&[2, 5, 7]));
    assert_eq!(m.server_ids, set(&[4]));
}

#[test]
fn add_keeper_allocates_above_watermark() {
    let mut m = fresh();
    let id = m.add_keeper();
    assert_eq!(id, KeeperId(4));
    assert_eq!(m.max_keeper_id, KeeperId(4));
    assert_eq!(m.keeper_ids, set(&[1, 2, 3, 4]));
    assert_eq!(m.server_ids, set(&[1, 2]));
}

#[test]
fn ids_are_never_reissued_after_removal() {
    let mut m = fresh();
    let mut issued = Vec::new();
    issued.push(m.add_keeper().0);
    m.remove_keeper(KeeperId(4)).unwrap();
    m.remove_keeper(KeeperId(3)).unwrap();
    issued.push(m.add_keeper().0);
    m.remove_keeper(KeeperId(5)).unwrap();
    issued.push(m.add_keeper().0);
    assert_eq!(issued, vec![4, 5, 6]);
    assert_eq!(m.max_keeper_id, KeeperId(6));
    assert_eq!(m.keeper_ids, set(&[1, 2, 6]));

    let mut servers = Vec::new();
    m.remove_server(ServerId(2)).unwrap();
    servers.push(m.add_server().0);
    m.remove_server(ServerId(3)).unwrap();
    servers.push(m.add_server().0);
    assert_eq!(servers, vec![3, 4]);
    assert_eq!(m.max_server_id, ServerId(4));
    assert_eq!(m.server_ids, set(&[1, 4]));
}

#[test]
fn watermarks_never_decrease() {
    let mut m = fresh();
    let mut marks = vec![(m.max_keeper_id.0, m.max_server_id.0)];
    m.add_keeper();
    marks.push((m.max_keeper_id.0, m.max_server_id.0));
    m.remove_keeper(KeeperId(4)).unwrap();
    marks.push((m.max_keeper_id.0, m.max_server_id.0));
    m.add_server();
    marks.push((m.max_keeper_id.0, m.max_server_id.0));
    m.remove_server(ServerId(1)).unwrap();
    marks.push((m.max_keeper_id.0, m.max_server_id.0));
    assert_eq!(marks, vec![(3, 2), (4, 2), (4, 2), (4, 3), (4, 3)]);
}

#[test]
fn remove_unknown_keeper_fails_and_changes_nothing() {
    let mut m = fresh();
    let r = m.remove_keeper(KeeperId(9));
    assert_eq!(r, Err(ClickwardError::NoSuchKeeper(KeeperId(9))));
    assert_eq!(m.keeper_ids, set(&[1, 2, 3]));
    assert_eq!(m.max_keeper_id, KeeperId(3));
}

#[test]
fn remove_keeper_twice_fails_the_second_time() {
    let mut m = fresh();
    assert_eq!(m.remove_keeper(KeeperId(2)), Ok(()));
    assert_eq!(m.remove_keeper(KeeperId(2)), Err(ClickwardError::NoSuchKeeper(KeeperId(2))));
    assert_eq!(m.keeper_ids, set(&[1, 3]));
}

#[test]
fn remove_unknown_server_fails_and_changes_nothing() {
    let mut m = fresh();
    let r = m.remove_server(ServerId(3));
    assert_eq!(r, Err(ClickwardError::NoSuchReplica(ServerId(3))));
    assert_eq!(m.server_ids, set(&[1, 2]));
    assert_eq!(m.max_server_id, ServerId(2));
}

#[test]
fn validate_accepts_reachable_metadata_unchanged() {
    let mut m = fresh();
    m.add_keeper();
    m.remove_keeper(KeeperId(1)).unwrap();
    let v = m.clone().validate().unwrap();
    assert_eq!(v.keeper_ids, m.keeper_ids);
    assert_eq!(v.max_keeper_id, m.max_keeper_id);
    assert_eq!(v.server_ids, m.server_ids);
    assert_eq!(v.max_server_id, m.max_server_id);
}

#[test]
fn validate_accepts_empty_sets() {
    let mut m = ClickwardMetadata::new(set(&[1]), set(&[1]));
    m.remove_keeper(KeeperId(1)).unwrap();
    m.remove_server(ServerId(1)).unwrap();
    let v = m.validate().unwrap();
    assert!(v.keeper_ids.is_empty());
    assert!(v.server_ids.is_empty());
    assert_eq!(v.max_keeper_id, KeeperId(1));
    assert_eq!(v.max_server_id, ServerId(1));
}

#[test]
fn validate_rejects_id_above_watermark() {
    let m = ClickwardMetadata {
        keeper_ids: set(&[1, 5]),
        max_keeper_id: KeeperId(4),
        server_ids: set(&[1]),
        max_server_id: ServerId(1),
    };
    assert!(matches!(m.validate(), Err(ClickwardError::CorruptMetadata)));
}

#[test]
fn validate_rejects_zero_id() {
    let m = ClickwardMetadata {
        keeper_ids: set(&[1]),
        max_keeper_id: KeeperId(1),
        server_ids: set(&[0, 1]),
        max_server_id: ServerId(3),
    };
    assert!(matches!(m.validate(), Err(ClickwardError::CorruptMetadata)));
}

#[test]
fn error_messages() {
    assert_eq!(
        ClickwardError::NoDeployment.message(),
        "No deployment found: Is your path correct?"
    );
    assert_eq!(ClickwardError::NoSuchKeeper(KeeperId(12)).message(), "No such keeper: 12");
    assert_eq!(ClickwardError::NoSuchReplica(ServerId(3)).message(), "No such replica: 3");
    assert!(ClickwardError::CorruptMetadata.message().starts_with("Deployment metadata is corrupt"));
}

#[test]
fn ids_render_in_decimal() {
    assert_eq!(KeeperId(0).to_string(), "0");
    assert_eq!(KeeperId(9).to_string(), "9");
    assert_eq!(KeeperId(10).to_string(), "10");
    assert_eq!(ServerId(20001).to_string(), "20001");
    assert_eq!(ServerId(u64::MAX).to_string(), "18446744073709551615");
    assert_eq!(KeeperId::from(5), KeeperId(5));
    assert_eq!(ServerId::from(6), ServerId(6));
}
