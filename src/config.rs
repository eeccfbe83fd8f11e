//! Per-node configuration values and their rendering as ClickHouse XML.

use vstd::prelude::*;
use vstd::string::StringExecFns;
use crate::ids::{KeeperId, ServerId};
use crate::text::{decimal, join_path, joined_path, push_decimal};

verus! {

/// Subdirectory of a server's data path for user files.
pub const USER_FILES_DIR: &'static str = "user_files";

/// Subdirectory of a server's data path for format schemas.
pub const FORMAT_SCHEMAS_DIR: &'static str = "format_schemas";

pub const ZOOKEEPER_OPEN: &'static str = "    <zookeeper>";

pub const ZOOKEEPER_CLOSE: &'static str = "\n    </zookeeper>";

pub const LOGGER_BEFORE_LEVEL: &'static str = "
    <logger>
        <level>";

pub const LOGGER_BEFORE_LOG: &'static str = "</level>
        <log>";

pub const LOGGER_BEFORE_ERRORLOG: &'static str = "</log>
        <errorlog>";

pub const LOGGER_BEFORE_SIZE: &'static str = "</errorlog>
        <size>";

pub const LOGGER_BEFORE_COUNT: &'static str = "</size>
        <count>";

pub const LOGGER_END: &'static str = "</count>
    </logger>
";
pub const MACROS_BEFORE_SHARD: &'static str = "
    <macros>
        <shard>";

pub const MACROS_BEFORE_REPLICA: &'static str = "</shard>
        <replica>";

pub const MACROS_BEFORE_CLUSTER: &'static str = "</replica>
        <cluster>";

pub const MACROS_END: &'static str = "</cluster>
    </macros>";
pub const REMOTE_SERVERS_BEFORE_CLUSTER: &'static str = "
    <remote_servers replace=\"true\">
        <";

pub const REMOTE_SERVERS_BEFORE_SECRET: &'static str = ">
            <secret>";

pub const REMOTE_SERVERS_END: &'static str = "</secret>
            <shard>
                <internal_replication>true</internal_replication>";
pub const REMOTE_REPLICA_BEFORE_HOST: &'static str = "
                <replica>
                    <host>";

pub const REMOTE_REPLICA_BEFORE_PORT: &'static str = "</host>
                    <port>";

pub const REMOTE_REPLICA_END: &'static str = "</port>
                </replica>";
pub const REMOTE_SERVERS_CLOSE_BEFORE_CLUSTER: &'static str = "
            </shard>
        </";

pub const REMOTE_SERVERS_CLOSE_END: &'static str = ">
    </remote_servers>
        ";
pub const KEEPER_NODE_BEFORE_HOST: &'static str = "
        <node>
            <host>";

pub const KEEPER_NODE_BEFORE_PORT: &'static str = "</host>
            <port>";

pub const KEEPER_NODE_END: &'static str = "</port>
        </node>";
pub const RAFT_SERVER_BEFORE_ID: &'static str = "
            <server>
                <id>";

pub const RAFT_SERVER_BEFORE_HOSTNAME: &'static str = "</id>
                <hostname>";

pub const RAFT_SERVER_BEFORE_PORT: &'static str = "</hostname>
                <port>";

pub const RAFT_SERVER_END: &'static str = "</port>
            </server>
            ";
pub const REPLICA_BEFORE_LOGGER: &'static str = "
<clickhouse>
";

pub const REPLICA_BEFORE_DATA_PATH: &'static str = "
    <path>";

pub const REPLICA_BEFORE_USER_FILES_PATH: &'static str = "</path>

    <profiles>
        <default>
            <opentelemetry_start_trace_probability>1</opentelemetry_start_trace_probability>
            <load_balancing>random</load_balancing>
        </default>

    </profiles>

    <users>
        <default>
            <password></password>
            <networks>
                <ip>::/0</ip>
            </networks>
            <profile>default</profile>
            <quota>default</quota>
        </default>
    </users>

    <quotas>
        <default>
            <interval>
                <duration>3600</duration>
                <queries>0</queries>
                <errors>0</errors>
                <result_rows>0</result_rows>
                <read_rows>0</read_rows>
                <execution_time>0</execution_time>
            </interval>
        </default>
    </quotas>

    <user_files_path>";

pub const REPLICA_BEFORE_FORMAT_SCHEMA_PATH: &'static str = "</user_files_path>
    <default_profile>default</default_profile>
    <format_schema_path>";

pub const REPLICA_BEFORE_CLUSTER: &'static str = "</format_schema_path>
    <display_name>";

pub const REPLICA_BEFORE_ID: &'static str = "-";

pub const REPLICA_BEFORE_LISTEN_HOST: &'static str = "</display_name>
    <listen_host>";

pub const REPLICA_BEFORE_HTTP_PORT: &'static str = "</listen_host>
    <http_port>";

pub const REPLICA_BEFORE_TCP_PORT: &'static str = "</http_port>
    <tcp_port>";

pub const REPLICA_BEFORE_INTERSERVER_HTTP_PORT: &'static str = "</tcp_port>
    <interserver_http_port>";

pub const REPLICA_BEFORE_MACROS: &'static str = "</interserver_http_port>
    <interserver_http_host>::1</interserver_http_host>
    <distributed_ddl>
        <!-- Cleanup settings (active tasks will not be removed) -->

        <!-- Controls task TTL (default 1 week) -->
        <task_max_lifetime>604800</task_max_lifetime>

        <!-- Controls how often cleanup should be performed (in seconds) -->
        <cleanup_delay_period>60</cleanup_delay_period>

        <!-- Controls how many tasks could be in the queue -->
        <max_tasks_in_queue>1000</max_tasks_in_queue>
     </distributed_ddl>
";

pub const REPLICA_BEFORE_REMOTE_SERVERS: &'static str = "
";

pub const REPLICA_BEFORE_KEEPERS: &'static str = "
";

pub const REPLICA_END: &'static str = "

    <!-- 
        In newer versions of ClickHouse this table is created automatically.
        We should remove this block once we update to a newer version of 
        ClickHouse that does not need the system.opentelemetry_span_log
        table to be created via the config.xml file
    -->
    <opentelemetry_span_log>
        <engine>
            engine MergeTree
            partition by toYYYYMM(finish_date)
            order by (finish_date, finish_time_us, trace_id)
        </engine>
        <database>system</database>
        <table>opentelemetry_span_log</table>
        <flush_interval_milliseconds>7500</flush_interval_milliseconds>
    </opentelemetry_span_log>

    <metric_log>
        <database>system</database>
        <table>metric_log</table>
        <flush_interval_milliseconds>7500</flush_interval_milliseconds>
        <collect_interval_milliseconds>1000</collect_interval_milliseconds>
        <max_size_rows>1048576</max_size_rows>
        <reserved_size_rows>8192</reserved_size_rows>
        <buffer_size_rows_flush_threshold>524288</buffer_size_rows_flush_threshold>
        <flush_on_crash>false</flush_on_crash>
    </metric_log>

    <asynchronous_metric_log>
        <database>system</database>
        <table>asynchronous_metric_log</table>
        <flush_interval_milliseconds>7500</flush_interval_milliseconds>
        <collect_interval_milliseconds>1000</collect_interval_milliseconds>
        <max_size_rows>1048576</max_size_rows>
        <reserved_size_rows>8192</reserved_size_rows>
        <buffer_size_rows_flush_threshold>524288</buffer_size_rows_flush_threshold>
        <flush_on_crash>false</flush_on_crash>
    </asynchronous_metric_log>

</clickhouse>
";
pub const KEEPER_BEFORE_LOGGER: &'static str = "
<clickhouse>
";

pub const KEEPER_BEFORE_LISTEN_HOST: &'static str = "
    <listen_host>";

pub const KEEPER_BEFORE_TCP_PORT: &'static str = "</listen_host>
    <keeper_server>
        <enable_reconfiguration>false</enable_reconfiguration>
        <tcp_port>";

pub const KEEPER_BEFORE_SERVER_ID: &'static str = "</tcp_port>
        <server_id>";

pub const KEEPER_BEFORE_LOG_STORAGE_PATH: &'static str = "</server_id>
        <log_storage_path>";

pub const KEEPER_BEFORE_SNAPSHOT_STORAGE_PATH: &'static str = "</log_storage_path>
        <snapshot_storage_path>";

pub const KEEPER_BEFORE_OPERATION_TIMEOUT_MS: &'static str = "</snapshot_storage_path>
        <coordination_settings>
            <operation_timeout_ms>";

pub const KEEPER_BEFORE_SESSION_TIMEOUT_MS: &'static str = "</operation_timeout_ms>
            <session_timeout_ms>";

pub const KEEPER_BEFORE_RAFT_LOGS_LEVEL: &'static str = "</session_timeout_ms>
            <raft_logs_level>";

pub const KEEPER_BEFORE_RAFT_SERVERS: &'static str = "</raft_logs_level>
        </coordination_settings>
        <raft_configuration>
";

pub const KEEPER_END: &'static str = "
        </raft_configuration>
    </keeper_server>

</clickhouse>
";

/// How much a node logs.
#[derive(Debug, Clone, Copy, PartialEq, Eq, Structural)]
pub enum LogLevel {
    Trace,
    Debug,
}

/// The name ClickHouse uses for a log level.
pub open spec fn level_name(l: LogLevel) -> Seq<char> {
    match l {
        LogLevel::Trace => "trace"@,
        LogLevel::Debug => "debug"@,
    }
}

impl LogLevel {
    /// The name ClickHouse uses for this level.
    pub fn as_str(&self) -> (r: &'static str)
        ensures
            r@ == level_name(*self),
    {
        match self {
            LogLevel::Trace => "trace",
            LogLevel::Debug => "debug",
        }
    }
}

/// Where and how much a node logs.
#[derive(Debug, Clone, PartialEq, Eq)]
pub struct LogConfig {
    pub level: LogLevel,
    pub log: String,
    pub errorlog: String,
    pub size: String,
    pub count: usize,
}

/// The `<logger>` element for `l`.
pub open spec fn log_xml(l: LogConfig) -> Seq<char> {
    LOGGER_BEFORE_LEVEL@
    + level_name(l.level)
    + LOGGER_BEFORE_LOG@
    + l.log@
    + LOGGER_BEFORE_ERRORLOG@
    + l.errorlog@
    + LOGGER_BEFORE_SIZE@
    + l.size@
    + LOGGER_BEFORE_COUNT@
    + decimal(l.count as nat)
    + LOGGER_END@
}

impl LogConfig {
    pub fn to_xml(&self) -> (r: String)
        ensures
            r@ == log_xml(*self),
    {
        let mut s = String::new();
        s.append(LOGGER_BEFORE_LEVEL);
        s.append(self.level.as_str());
        s.append(LOGGER_BEFORE_LOG);
        s.append(self.log.as_str());
        s.append(LOGGER_BEFORE_ERRORLOG);
        s.append(self.errorlog.as_str());
        s.append(LOGGER_BEFORE_SIZE);
        s.append(self.size.as_str());
        s.append(LOGGER_BEFORE_COUNT);
        push_decimal(&mut s, self.count as u64);
        s.append(LOGGER_END);
        assert(s@ =~= log_xml(*self));
        s
    }
}

/// Macros substituted by a clickhouse server into replicated table paths.
#[derive(Debug, Clone, PartialEq, Eq)]
pub struct Macros {
    pub shard: u64,
    pub replica: ServerId,
    pub cluster: String,
}

/// The `<macros>` element for `m`.
pub open spec fn macros_xml(m: Macros) -> Seq<char> {
    MACROS_BEFORE_SHARD@
    + decimal(m.shard as nat)
    + MACROS_BEFORE_REPLICA@
    + decimal(m.replica.0 as nat)
    + MACROS_BEFORE_CLUSTER@
    + m.cluster@
    + MACROS_END@
}

impl Macros {
    pub fn to_xml(&self) -> (r: String)
        ensures
            r@ == macros_xml(*self),
    {
        let mut s = String::new();
        s.append(MACROS_BEFORE_SHARD);
        push_decimal(&mut s, self.shard);
        s.append(MACROS_BEFORE_REPLICA);
        push_decimal(&mut s, self.replica.0);
        s.append(MACROS_BEFORE_CLUSTER);
        s.append(self.cluster.as_str());
        s.append(MACROS_END);
        assert(s@ =~= macros_xml(*self));
        s
    }
}

/// A host and port that a node connects to.
#[derive(Debug, Clone, PartialEq, Eq)]
pub struct ServerConfig {
    pub host: String,
    pub port: u16,
}

/// The replicas of the single shard of a cluster.
#[derive(Debug, Clone, PartialEq, Eq)]
pub struct RemoteServers {
    pub cluster: String,
    pub secret: String,
    pub replicas: Vec<ServerConfig>,
}

/// One `<replica>` element of a shard.
pub open spec fn remote_replica_xml(c: ServerConfig) -> Seq<char> {
    REMOTE_REPLICA_BEFORE_HOST@
    + c.host@
    + REMOTE_REPLICA_BEFORE_PORT@
    + decimal(c.port as nat)
    + REMOTE_REPLICA_END@
}

/// The `<replica>` elements for `rs`, in order.
pub open spec fn remote_replicas_xml(rs: Seq<ServerConfig>) -> Seq<char>
    decreases rs.len(),
{
    if rs.len() == 0 {
        Seq::empty()
    } else {
        remote_replicas_xml(rs.drop_last()) + remote_replica_xml(rs.last())
    }
}

/// The `<remote_servers>` element for `r`.
pub open spec fn remote_servers_xml(r: RemoteServers) -> Seq<char> {
    REMOTE_SERVERS_BEFORE_CLUSTER@
    + r.cluster@
    + REMOTE_SERVERS_BEFORE_SECRET@
    + r.secret@
    + REMOTE_SERVERS_END@
    + remote_replicas_xml(r.replicas@)
    + REMOTE_SERVERS_CLOSE_BEFORE_CLUSTER@
    + r.cluster@
    + REMOTE_SERVERS_CLOSE_END@
}

impl RemoteServers {
    pub fn to_xml(&self) -> (r: String)
        ensures
            r@ == remote_servers_xml(*self),
    {
        let mut s = String::new();
        s.append(REMOTE_SERVERS_BEFORE_CLUSTER);
        s.append(self.cluster.as_str());
        s.append(REMOTE_SERVERS_BEFORE_SECRET);
        s.append(self.secret.as_str());
        s.append(REMOTE_SERVERS_END);
        let ghost head = s@;
        let mut i: usize = 0;
        while i < self.replicas.len()
            invariant
                i <= self.replicas.len(),
                s@ == head + remote_replicas_xml(self.replicas@.take(i as int)),
            decreases self.replicas.len() - i,
        {
            let host = &self.replicas[i].host;
            let port = self.replicas[i].port;
            s.append(REMOTE_REPLICA_BEFORE_HOST);
            s.append(host.as_str());
            s.append(REMOTE_REPLICA_BEFORE_PORT);
            push_decimal(&mut s, port as u64);
            s.append(REMOTE_REPLICA_END);
            assert(self.replicas@.take(i + 1).drop_last() =~= self.replicas@.take(i as int));
            assert(s@ =~= head + remote_replicas_xml(self.replicas@.take(i + 1)));
            i += 1;
        }
        assert(self.replicas@.take(i as int) =~= self.replicas@);
        s.append(REMOTE_SERVERS_CLOSE_BEFORE_CLUSTER);
        s.append(self.cluster.as_str());
        s.append(REMOTE_SERVERS_CLOSE_END);
        assert(s@ =~= remote_servers_xml(*self));
        s
    }
}

/// The keeper nodes a clickhouse server coordinates through.
#[derive(Debug, Clone, PartialEq, Eq)]
pub struct KeeperConfigsForReplica {
    pub nodes: Vec<ServerConfig>,
}

/// One `<node>` element of the `<zookeeper>` section.
pub open spec fn keeper_node_xml(c: ServerConfig) -> Seq<char> {
    KEEPER_NODE_BEFORE_HOST@
    + c.host@
    + KEEPER_NODE_BEFORE_PORT@
    + decimal(c.port as nat)
    + KEEPER_NODE_END@
}

/// The `<node>` elements for `ns`, in order.
pub open spec fn keeper_nodes_xml(ns: Seq<ServerConfig>) -> Seq<char>
    decreases ns.len(),
{
    if ns.len() == 0 {
        Seq::empty()
    } else {
        keeper_nodes_xml(ns.drop_last()) + keeper_node_xml(ns.last())
    }
}

/// The `<zookeeper>` element for `k`.
pub open spec fn keepers_xml(k: KeeperConfigsForReplica) -> Seq<char> {
    ZOOKEEPER_OPEN@ + keeper_nodes_xml(k.nodes@) + ZOOKEEPER_CLOSE@
}

impl KeeperConfigsForReplica {
    pub fn to_xml(&self) -> (r: String)
        ensures
            r@ == keepers_xml(*self),
    {
        let mut s = String::new();
        s.append(ZOOKEEPER_OPEN);
        let ghost head = s@;
        let mut i: usize = 0;
        while i < self.nodes.len()
            invariant
                i <= self.nodes.len(),
                s@ == head + keeper_nodes_xml(self.nodes@.take(i as int)),
            decreases self.nodes.len() - i,
        {
            let host = &self.nodes[i].host;
            let port = self.nodes[i].port;
            s.append(KEEPER_NODE_BEFORE_HOST);
            s.append(host.as_str());
            s.append(KEEPER_NODE_BEFORE_PORT);
            push_decimal(&mut s, port as u64);
            s.append(KEEPER_NODE_END);
            assert(self.nodes@.take(i + 1).drop_last() =~= self.nodes@.take(i as int));
            assert(s@ =~= head + keeper_nodes_xml(self.nodes@.take(i + 1)));
            i += 1;
        }
        assert(self.nodes@.take(i as int) =~= self.nodes@);
        s.append(ZOOKEEPER_CLOSE);
        assert(s@ =~= keepers_xml(*self));
        s
    }
}

/// Timeouts and logging of a keeper's coordination layer.
#[derive(Debug, Clone, PartialEq, Eq)]
pub struct KeeperCoordinationSettings {
    pub operation_timeout_ms: u32,
    pub session_timeout_ms: u32,
    pub raft_logs_level: LogLevel,
}

/// The members of a keeper ensemble.
#[derive(Debug, Clone, PartialEq, Eq)]
pub struct RaftServers {
    pub servers: Vec<RaftServerConfig>,
}

/// One member of a keeper ensemble and where it speaks raft.
#[derive(Debug, Clone, PartialEq, Eq)]
pub struct RaftServerConfig {
    pub id: KeeperId,
    pub hostname: String,
    pub port: u16,
}

/// One `<server>` element of a raft configuration.
pub open spec fn raft_server_xml(c: RaftServerConfig) -> Seq<char> {
    RAFT_SERVER_BEFORE_ID@
    + decimal(c.id.0 as nat)
    + RAFT_SERVER_BEFORE_HOSTNAME@
    + c.hostname@
    + RAFT_SERVER_BEFORE_PORT@
    + decimal(c.port as nat)
    + RAFT_SERVER_END@
}

/// The `<server>` elements for `ss`, in order.
pub open spec fn raft_servers_xml(ss: Seq<RaftServerConfig>) -> Seq<char>
    decreases ss.len(),
{
    if ss.len() == 0 {
        Seq::empty()
    } else {
        raft_servers_xml(ss.drop_last()) + raft_server_xml(ss.last())
    }
}

impl RaftServers {
    pub fn to_xml(&self) -> (r: String)
        ensures
            r@ == raft_servers_xml(self.servers@),
    {
        let mut s = String::new();
        let mut i: usize = 0;
        while i < self.servers.len()
            invariant
                i <= self.servers.len(),
                s@ == raft_servers_xml(self.servers@.take(i as int)),
            decreases self.servers.len() - i,
        {
            let id = self.servers[i].id;
            let hostname = &self.servers[i].hostname;
            let port = self.servers[i].port;
            s.append(RAFT_SERVER_BEFORE_ID);
            push_decimal(&mut s, id.0);
            s.append(RAFT_SERVER_BEFORE_HOSTNAME);
            s.append(hostname.as_str());
            s.append(RAFT_SERVER_BEFORE_PORT);
            push_decimal(&mut s, port as u64);
            s.append(RAFT_SERVER_END);
            assert(self.servers@.take(i + 1).drop_last() =~= self.servers@.take(i as int));
            assert(s@ =~= raft_servers_xml(self.servers@.take(i + 1)));
            i += 1;
        }
        assert(self.servers@.take(i as int) =~= self.servers@);
        s
    }
}

/// Config for an individual clickhouse server.
#[derive(Debug, Clone, PartialEq, Eq)]
pub struct ReplicaConfig {
    pub logger: LogConfig,
    pub macros: Macros,
    pub listen_host: String,
    pub http_port: u16,
    pub tcp_port: u16,
    pub interserver_http_port: u16,
    pub remote_servers: RemoteServers,
    pub keepers: KeeperConfigsForReplica,
    pub data_path: String,
}

/// The configuration file of a clickhouse server.
pub open spec fn replica_xml(c: ReplicaConfig) -> Seq<char> {
    REPLICA_BEFORE_LOGGER@
    + log_xml(c.logger)
    + REPLICA_BEFORE_DATA_PATH@
    + c.data_path@
    + REPLICA_BEFORE_USER_FILES_PATH@
    + joined_path(c.data_path@, USER_FILES_DIR@)
    + REPLICA_BEFORE_FORMAT_SCHEMA_PATH@
    + joined_path(c.data_path@, FORMAT_SCHEMAS_DIR@)
    + REPLICA_BEFORE_CLUSTER@
    + c.macros.cluster@
    + REPLICA_BEFORE_ID@
    + decimal(c.macros.replica.0 as nat)
    + REPLICA_BEFORE_LISTEN_HOST@
    + c.listen_host@
    + REPLICA_BEFORE_HTTP_PORT@
    + decimal(c.http_port as nat)
    + REPLICA_BEFORE_TCP_PORT@
    + decimal(c.tcp_port as nat)
    + REPLICA_BEFORE_INTERSERVER_HTTP_PORT@
    + decimal(c.interserver_http_port as nat)
    + REPLICA_BEFORE_MACROS@
    + macros_xml(c.macros)
    + REPLICA_BEFORE_REMOTE_SERVERS@
    + remote_servers_xml(c.remote_servers)
    + REPLICA_BEFORE_KEEPERS@
    + keepers_xml(c.keepers)
    + REPLICA_END@
}

impl ReplicaConfig {
    pub fn to_xml(&self) -> (r: String)
        ensures
            r@ == replica_xml(*self),
    {
        let mut s = String::new();
        s.append(REPLICA_BEFORE_LOGGER);
        s.append(self.logger.to_xml().as_str());
        s.append(REPLICA_BEFORE_DATA_PATH);
        s.append(self.data_path.as_str());
        s.append(REPLICA_BEFORE_USER_FILES_PATH);
        s.append(join_path(self.data_path.as_str(), USER_FILES_DIR).as_str());
        s.append(REPLICA_BEFORE_FORMAT_SCHEMA_PATH);
        s.append(join_path(self.data_path.as_str(), FORMAT_SCHEMAS_DIR).as_str());
        s.append(REPLICA_BEFORE_CLUSTER);
        s.append(self.macros.cluster.as_str());
        s.append(REPLICA_BEFORE_ID);
        push_decimal(&mut s, self.macros.replica.0);
        s.append(REPLICA_BEFORE_LISTEN_HOST);
        s.append(self.listen_host.as_str());
        s.append(REPLICA_BEFORE_HTTP_PORT);
        push_decimal(&mut s, self.http_port as u64);
        s.append(REPLICA_BEFORE_TCP_PORT);
        push_decimal(&mut s, self.tcp_port as u64);
        s.append(REPLICA_BEFORE_INTERSERVER_HTTP_PORT);
        push_decimal(&mut s, self.interserver_http_port as u64);
        s.append(REPLICA_BEFORE_MACROS);
        s.append(self.macros.to_xml().as_str());
        s.append(REPLICA_BEFORE_REMOTE_SERVERS);
        s.append(self.remote_servers.to_xml().as_str());
        s.append(REPLICA_BEFORE_KEEPERS);
        s.append(self.keepers.to_xml().as_str());
        s.append(REPLICA_END);
        assert(s@ =~= replica_xml(*self));
        s
    }
}

/// Config for an individual clickhouse keeper.
#[derive(Debug, Clone, PartialEq, Eq)]
pub struct KeeperConfig {
    pub logger: LogConfig,
    pub listen_host: String,
    pub tcp_port: u16,
    pub server_id: KeeperId,
    pub log_storage_path: String,
    pub snapshot_storage_path: String,
    pub coordination_settings: KeeperCoordinationSettings,
    pub raft_config: RaftServers,
}

/// The configuration file of a keeper.
pub open spec fn keeper_xml(c: KeeperConfig) -> Seq<char> {
    KEEPER_BEFORE_LOGGER@
    + log_xml(c.logger)
    + KEEPER_BEFORE_LISTEN_HOST@
    + c.listen_host@
    + KEEPER_BEFORE_TCP_PORT@
    + decimal(c.tcp_port as nat)
    + KEEPER_BEFORE_SERVER_ID@
    + decimal(c.server_id.0 as nat)
    + KEEPER_BEFORE_LOG_STORAGE_PATH@
    + c.log_storage_path@
    + KEEPER_BEFORE_SNAPSHOT_STORAGE_PATH@
    + c.snapshot_storage_path@
    + KEEPER_BEFORE_OPERATION_TIMEOUT_MS@
    + decimal(c.coordination_settings.operation_timeout_ms as nat)
    + KEEPER_BEFORE_SESSION_TIMEOUT_MS@
    + decimal(c.coordination_settings.session_timeout_ms as nat)
    + KEEPER_BEFORE_RAFT_LOGS_LEVEL@
    + level_name(c.coordination_settings.raft_logs_level)
    + KEEPER_BEFORE_RAFT_SERVERS@
    + raft_servers_xml(c.raft_config.servers@)
    + KEEPER_END@
}

impl KeeperConfig {
    pub fn to_xml(&self) -> (r: String)
        ensures
            r@ == keeper_xml(*self),
    {
        let mut s = String::new();
        s.append(KEEPER_BEFORE_LOGGER);
        s.append(self.logger.to_xml().as_str());
        s.append(KEEPER_BEFORE_LISTEN_HOST);
        s.append(self.listen_host.as_str());
        s.append(KEEPER_BEFORE_TCP_PORT);
        push_decimal(&mut s, self.tcp_port as u64);
        s.append(KEEPER_BEFORE_SERVER_ID);
        push_decimal(&mut s, self.server_id.0);
        s.append(KEEPER_BEFORE_LOG_STORAGE_PATH);
        s.append(self.log_storage_path.as_str());
        s.append(KEEPER_BEFORE_SNAPSHOT_STORAGE_PATH);
        s.append(self.snapshot_storage_path.as_str());
        s.append(KEEPER_BEFORE_OPERATION_TIMEOUT_MS);
        push_decimal(&mut s, self.coordination_settings.operation_timeout_ms as u64);
        s.append(KEEPER_BEFORE_SESSION_TIMEOUT_MS);
        push_decimal(&mut s, self.coordination_settings.session_timeout_ms as u64);
        s.append(KEEPER_BEFORE_RAFT_LOGS_LEVEL);
        s.append(self.coordination_settings.raft_logs_level.as_str());
        s.append(KEEPER_BEFORE_RAFT_SERVERS);
        s.append(self.raft_config.to_xml().as_str());
        s.append(KEEPER_END);
        assert(s@ =~= keeper_xml(*self));
        s
    }
}

} // verus!
