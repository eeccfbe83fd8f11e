use std::collections::BTreeSet;

use clickward::config::{KeeperConfigsForReplica, LogLevel, Macros, RaftServerConfig, RaftServers, RemoteServers, ServerConfig};
use clickward::{BasePorts, ClickwardMetadata, Deployment, DeploymentConfig, KeeperId, ServerId};

fn set(ids: &[u64]) -> BTreeSet<u64> {
    ids.iter().copied().collect()
}

fn deployment() -> Deployment {
    Deployment::new_with_default_port_config("/tmp/cw".to_string(), "oximeter_cluster".to_string(), None, None)
}

#[test]
fn default_config_is_rooted_in_deployment_dir() {
    let c = DeploymentConfig::new_with_default_ports("/tmp/cw".to_string(), "c".to_string(), None);
    assert_eq!(c.path, "/tmp/cw/deployment");
    assert_eq!(c.base_ports, BasePorts::default_ports());
    assert_eq!(c.base_ports.keeper, 20000);
    assert_eq!(c.base_ports.raft, 21000);
    assert_eq!(c.base_ports.clickhouse_tcp, 22000);
    assert_eq!(c.base_ports.clickhouse_http, 23000);
    assert_eq!(c.base_ports.clickhouse_interserver_http, 24000);
    let t = DeploymentConfig::new_with_default_ports("/tmp/cw".to_string(), "c".to_string(), Some("other".to_string()));
    assert_eq!(t.path, "/tmp/cw/other");
    let a = DeploymentConfig::new_with_default_ports("/tmp/cw".to_string(), "c".to_string(), Some("/abs".to_string()));
    assert_eq!(a.path, "/abs");
}

#[test]
fn node_paths() {
    let d = deployment();
    assert_eq!(d.keeper_dir(KeeperId(3)), "/tmp/cw/deployment/keeper-3");
    assert_eq!(d.server_dir(ServerId(12)), "/tmp/cw/deployment/clickhouse-12");
    assert_eq!(d.keeper_config_path(KeeperId(1)), "/tmp/cw/deployment/keeper-1/keeper-config.xml");
    assert_eq!(d.keeper_pidfile(KeeperId(1)), "/tmp/cw/deployment/keeper-1/keeper.pid");
    assert_eq!(d.keeper_logs_dir(KeeperId(1)), "/tmp/cw/deployment/keeper-1/logs");
    assert_eq!(d.server_config_path(ServerId(2)), "/tmp/cw/deployment/clickhouse-2/clickhouse-config.xml");
    assert_eq!(d.server_pidfile(ServerId(2)), "/tmp/cw/deployment/clickhouse-2/clickhouse.pid");
    assert_eq!(d.server_logs_dir(ServerId(2)), "/tmp/cw/deployment/clickhouse-2/logs");
    assert_eq!(d.meta_path(), "/tmp/cw/deployment/clickward-metadata.json");
}

#[test]
fn placement_is_independent_of_membership_and_call_order() {
    let a = deployment();
    let b = Deployment::new_with_default_port_config(
        "/tmp/cw".to_string(),
        "oximeter_cluster".to_string(),
        None,
        Some(ClickwardMetadata::new(set(&[1, 2, 9]), set(&[4]))),
    );
    let first = (b.keeper_port(KeeperId(5)), b.http_port(ServerId(5)), b.keeper_dir(KeeperId(5)));
    let _ = a.server_dir(ServerId(1));
    let second = (a.keeper_port(KeeperId(5)), a.http_port(ServerId(5)), a.keeper_dir(KeeperId(5)));
    assert_eq!(first, second);
    assert_eq!(first.0, 20005);
    assert_eq!(first.1, 23005);
}

#[test]
fn ports_fit_checks_every_member() {
    let d = deployment();
    assert!(d.ports_fit(&set(&[1, 2, 3]), &set(&[1, 2])));
    assert!(d.ports_fit(&set(&[41535]), &set(&[1])));
    assert!(!d.ports_fit(&set(&[1, 44536]), &set(&[1])));
    assert!(!d.ports_fit(&set(&[1]), &set(&[41536])));
}

#[test]
fn keeper_config_values() {
    let d = deployment();
    let c = d.keeper_config(KeeperId(2), &set(&[3, 1, 2]));
    assert_eq!(c.server_id, KeeperId(2));
    assert_eq!(c.tcp_port, 20002);
    assert_eq!(c.listen_host, "::1");
    assert_eq!(c.logger.level, LogLevel::Trace);
    assert_eq!(c.logger.log, "/tmp/cw/deployment/keeper-2/logs/clickhouse-keeper.log");
    assert_eq!(c.logger.errorlog, "/tmp/cw/deployment/keeper-2/logs/clickhouse-keeper.err.log");
    assert_eq!(c.logger.size, "100M");
    assert_eq!(c.logger.count, 1);
    assert_eq!(c.log_storage_path, "/tmp/cw/deployment/keeper-2/coordination/log");
    assert_eq!(c.snapshot_storage_path, "/tmp/cw/deployment/keeper-2/coordination/snapshots");
    assert_eq!(c.coordination_settings.operation_timeout_ms, 10000);
    assert_eq!(c.coordination_settings.session_timeout_ms, 30000);
    let ports: Vec<(u64, u16)> = c.raft_config.servers.iter().map(|s| (s.id.0, s.port)).collect();
    assert_eq!(ports, vec![(1, 21001), (2, 21002), (3, 21003)]);
    assert!(c.raft_config.servers.iter().all(|s| s.hostname == "::1"));
}

#[test]
fn replica_config_values() {
    let d = deployment();
    let c = d.replica_config(ServerId(2), &set(&[1, 2, 3]), &set(&[1, 2]));
    assert_eq!(c.macros.shard, 1);
    assert_eq!(c.macros.replica, ServerId(2));
    assert_eq!(c.macros.cluster, "oximeter_cluster");
    assert_eq!(c.http_port, 23002);
    assert_eq!(c.tcp_port, 22002);
    assert_eq!(c.interserver_http_port, 24002);
    assert_eq!(c.data_path, "/tmp/cw/deployment/clickhouse-2/data");
    assert_eq!(c.logger.log, "/tmp/cw/deployment/clickhouse-2/logs/clickhouse.log");
    assert_eq!(c.logger.errorlog, "/tmp/cw/deployment/clickhouse-2/logs/clickhouse.err.log");
    assert_eq!(c.remote_servers.secret, "some-unique-value");
    assert_eq!(
        c.remote_servers.replicas,
        vec![
            ServerConfig { host: "::1".to_string(), port: 22001 },
            ServerConfig { host: "::1".to_string(), port: 22002 },
        ]
    );
    assert_eq!(
        c.keepers.nodes,
        vec![
            ServerConfig { host: "[::1]".to_string(), port: 20001 },
            ServerConfig { host: "[::1]".to_string(), port: 20002 },
            ServerConfig { host: "[::1]".to_string(), port: 20003 },
        ]
    );
}

#[test]
fn macros_xml() {
    let m = Macros { shard: 1, replica: ServerId(2), cluster: "c".to_string() };
    assert_eq!(
        m.to_xml(),
        "\n    <macros>\n        <shard>1</shard>\n        <replica>2</replica>\n        <cluster>c</cluster>\n    </macros>"
    );
}

#[test]
fn keepers_xml() {
    let k = KeeperConfigsForReplica {
        nodes: vec![
            ServerConfig { host: "[::1]".to_string(), port: 20001 },
            ServerConfig { host: "[::1]".to_string(), port: 20002 },
        ],
    };
    let node = |p: u16| format!("\n        <node>\n            <host>[::1]</host>\n            <port>{p}</port>\n        </node>");
    let expected = format!("    <zookeeper>{}{}\n    </zookeeper>", node(20001), node(20002));
    assert_eq!(k.to_xml(), expected);
    assert_eq!(KeeperConfigsForReplica { nodes: vec![] }.to_xml(), "    <zookeeper>\n    </zookeeper>");
}

#[test]
fn raft_servers_xml() {
    let r = RaftServers {
        servers: vec![RaftServerConfig { id: KeeperId(1), hostname: "::1".to_string(), port: 21001 }],
    };
    assert_eq!(
        r.to_xml(),
        "\n            <server>\n                <id>1</id>\n                <hostname>::1</hostname>\n                <port>21001</port>\n            </server>\n            "
    );
    assert_eq!(RaftServers { servers: vec![] }.to_xml(), "");
}

#[test]
fn remote_servers_xml() {
    let r = RemoteServers {
        cluster: "oximeter_cluster".to_string(),
        secret: "s".to_string(),
        replicas: vec![ServerConfig { host: "::1".to_string(), port: 22001 }],
    };
    let expected = "\n    <remote_servers replace=\"true\">\n        <oximeter_cluster>\n            <secret>s</secret>\n            <shard>\n                <internal_replication>true</internal_replication>\n                <replica>\n                    <host>::1</host>\n                    <port>22001</port>\n                </replica>\n            </shard>\n        </oximeter_cluster>\n    </remote_servers>\n        ";
    assert_eq!(r.to_xml(), expected);
}

#[test]
fn keeper_config_xml() {
    let d = deployment();
    let xml = d.keeper_config(KeeperId(1), &set(&[1])).to_xml();
    assert!(xml.starts_with("\n<clickhouse>\n\n    <logger>\n        <level>trace</level>\n"));
    assert!(xml.contains("        <tcp_port>20001</tcp_port>\n        <server_id>1</server_id>\n"));
    assert!(xml.contains("<log_storage_path>/tmp/cw/deployment/keeper-1/coordination/log</log_storage_path>"));
    assert!(xml.contains("            <raft_logs_level>trace</raft_logs_level>\n"));
    assert!(xml.contains("<port>21001</port>"));
    assert!(xml.ends_with("    </keeper_server>\n\n</clickhouse>\n"));
}

#[test]
fn replica_config_xml() {
    let d = deployment();
    let xml = d.replica_config(ServerId(1), &set(&[1]), &set(&[1])).to_xml();
    assert!(xml.contains("    <path>/tmp/cw/deployment/clickhouse-1/data</path>\n"));
    assert!(xml.contains("<user_files_path>/tmp/cw/deployment/clickhouse-1/data/user_files</user_files_path>"));
    assert!(xml.contains("<format_schema_path>/tmp/cw/deployment/clickhouse-1/data/format_schemas</format_schema_path>"));
    assert!(xml.contains("    <display_name>oximeter_cluster-1</display_name>\n"));
    assert!(xml.contains("    <http_port>23001</http_port>\n    <tcp_port>22001</tcp_port>\n    <interserver_http_port>24001</interserver_http_port>\n"));
    assert!(xml.contains("<replica>1</replica>"));
    assert!(xml.contains("<port>20001</port>"));
    assert!(xml.ends_with("</asynchronous_metric_log>\n\n</clickhouse>\n"));
}

#[test]
fn log_level_names() {
    assert_eq!(LogLevel::Trace.as_str(), "trace");
    assert_eq!(LogLevel::Debug.as_str(), "debug");
}
