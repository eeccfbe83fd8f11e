//! A deployment on localhost: where each node lives, the configuration each
//! node is given, and the ordered steps of every cluster operation.
//!
//! Operations do not touch the filesystem or processes themselves. Each one
//! updates the in-memory metadata and returns the steps a driver must carry
//! out, in order, stopping at the first failure. Nothing is rolled back: the
//! metadata is saved first, so a failed step leaves it already advanced.

use std::collections::BTreeSet;
use vstd::prelude::*;
use vstd::string::StringExecFns;
use crate::config::{
    KeeperConfig, KeeperConfigsForReplica, KeeperCoordinationSettings, LogConfig, LogLevel, Macros,
    RaftServerConfig, RaftServers, RemoteServers, ReplicaConfig, ServerConfig,
};
use crate::error::ClickwardError;
use crate::ids::{ids_in_order, sorted_ids, KeeperId, ServerId};
use crate::metadata::{ClickwardMetadata, MembershipOp, Topology};
use crate::text::{chars_of, decimal, join_path, joined_path, push_decimal};

verus! {

/// We put things in a subdirectory of the user path for easy cleanup.
pub const DEPLOYMENT_DIR: &'static str = "deployment";

/// The file where `ClickwardMetadata` lives, directly below the deployment
/// directory.
pub const CLICKWARD_META_FILENAME: &'static str = "clickward-metadata.json";

/// Directory names of keepers start with this.
pub const KEEPER_DIR_WORD: &'static str = "keeper";

/// Directory names of clickhouse servers start with this.
pub const SERVER_DIR_WORD: &'static str = "clickhouse";

pub const KEEPER_DIR_PREFIX: &'static str = "keeper-";

pub const SERVER_DIR_PREFIX: &'static str = "clickhouse-";

pub const KEEPER_CONFIG_FILE: &'static str = "keeper-config.xml";

pub const KEEPER_PID_FILE: &'static str = "keeper.pid";

pub const SERVER_CONFIG_FILE: &'static str = "clickhouse-config.xml";

pub const SERVER_PID_FILE: &'static str = "clickhouse.pid";

pub const LOGS_DIR: &'static str = "logs";

pub const DATA_DIR: &'static str = "data";

pub const COORDINATION_DIR: &'static str = "coordination";

pub const LOG_STORAGE_DIR: &'static str = "log";

pub const SNAPSHOT_STORAGE_DIR: &'static str = "snapshots";

pub const KEEPER_LOG_FILE: &'static str = "clickhouse-keeper.log";

pub const KEEPER_ERROR_LOG_FILE: &'static str = "clickhouse-keeper.err.log";

pub const SERVER_LOG_FILE: &'static str = "clickhouse.log";

pub const SERVER_ERROR_LOG_FILE: &'static str = "clickhouse.err.log";

/// The host every node listens on.
pub const LOCALHOST: &'static str = "::1";

/// The keeper host as clickhouse servers are told it.
pub const BRACKETED_LOCALHOST: &'static str = "[::1]";

/// The secret shared by the servers of a cluster.
pub const CLUSTER_SECRET: &'static str = "some-unique-value";

/// Size at which a node rotates its log.
pub const LOG_SIZE: &'static str = "100M";

pub const LOG_COUNT: usize = 1;

pub const SHARD: u64 = 1;

pub const OPERATION_TIMEOUT_MS: u32 = 10000;

pub const SESSION_TIMEOUT_MS: u32 = 30000;

/// Port allocation used for config generation: a node listens on its kind's
/// base port plus its ID.
#[derive(Debug, Clone, Copy, PartialEq, Eq, Structural)]
pub struct BasePorts {
    pub keeper: u16,
    pub raft: u16,
    pub clickhouse_tcp: u16,
    pub clickhouse_http: u16,
    pub clickhouse_interserver_http: u16,
}

pub const KEEPER_BASE_PORT: u16 = 20000;

pub const RAFT_BASE_PORT: u16 = 21000;

pub const CLICKHOUSE_BASE_TCP_PORT: u16 = 22000;

pub const CLICKHOUSE_BASE_HTTP_PORT: u16 = 23000;

pub const CLICKHOUSE_BASE_INTERSERVER_HTTP_PORT: u16 = 24000;

/// The base ports a deployment uses unless told otherwise.
pub open spec fn default_base_ports() -> BasePorts {
    BasePorts {
        keeper: KEEPER_BASE_PORT,
        raft: RAFT_BASE_PORT,
        clickhouse_tcp: CLICKHOUSE_BASE_TCP_PORT,
        clickhouse_http: CLICKHOUSE_BASE_HTTP_PORT,
        clickhouse_interserver_http: CLICKHOUSE_BASE_INTERSERVER_HTTP_PORT,
    }
}

impl BasePorts {
    /// The base ports a deployment uses unless told otherwise.
    pub fn default_ports() -> (r: BasePorts)
        ensures
            r == default_base_ports(),
    {
        BasePorts {
            keeper: KEEPER_BASE_PORT,
            raft: RAFT_BASE_PORT,
            clickhouse_tcp: CLICKHOUSE_BASE_TCP_PORT,
            clickhouse_http: CLICKHOUSE_BASE_HTTP_PORT,
            clickhouse_interserver_http: CLICKHOUSE_BASE_INTERSERVER_HTTP_PORT,
        }
    }
}

/// A configuration for a given clickward deployment.
pub struct DeploymentConfig {
    pub path: String,
    pub base_ports: BasePorts,
    pub cluster_name: String,
}

impl DeploymentConfig {
    /// A configuration rooted at `target_dir` below `path` (by default
    /// `deployment`), with the default base ports.
    pub fn new_with_default_ports(
        path: String,
        cluster_name: String,
        target_dir: Option<String>,
    ) -> (r: DeploymentConfig)
        ensures
            r.path@ == joined_path(
                path@,
                match target_dir {
                    Some(d) => d@,
                    None => DEPLOYMENT_DIR@,
                },
            ),
            r.base_ports == default_base_ports(),
            r.cluster_name == cluster_name,
    {
        let path = match target_dir {
            Some(d) => join_path(path.as_str(), d.as_str()),
            None => join_path(path.as_str(), DEPLOYMENT_DIR),
        };
        DeploymentConfig { path, base_ports: BasePorts::default_ports(), cluster_name }
    }
}

/// One step of a cluster operation, for a driver to carry out.
#[derive(Debug, Clone, Copy, PartialEq, Eq, Structural)]
pub enum Step {
    /// Persist the deployment's metadata.
    SaveMetadata,
    /// Write this keeper's configuration, rendered from the current metadata.
    WriteKeeperConfig(KeeperId),
    /// Write this server's configuration, rendered from the current metadata.
    WriteServerConfig(ServerId),
    /// Start this keeper from its configuration.
    StartKeeper(KeeperId),
    /// Start this server from its configuration.
    StartServer(ServerId),
    /// Stop this keeper's process.
    StopKeeper(KeeperId),
    /// Stop this server's process and its worker.
    StopServer(ServerId),
}

/// One launch of a deployment from previously generated directories; the
/// index is the directory's position in the listing given.
#[derive(Debug, Clone, Copy, PartialEq, Eq, Structural)]
pub enum DeployStep {
    StartKeeperDir(usize),
    StartServerDir(usize),
}

/// Writes of the keeper configurations of `ids`, in order.
pub open spec fn keeper_writes(ids: Seq<u64>) -> Seq<Step> {
    ids.map_values(|id: u64| Step::WriteKeeperConfig(KeeperId(id)))
}

/// Writes of the server configurations of `ids`, in order.
pub open spec fn server_writes(ids: Seq<u64>) -> Seq<Step> {
    ids.map_values(|id: u64| Step::WriteServerConfig(ServerId(id)))
}

/// Stops of the keepers `ids`, in order.
pub open spec fn keeper_stops(ids: Seq<u64>) -> Seq<Step> {
    ids.map_values(|id: u64| Step::StopKeeper(KeeperId(id)))
}

/// Stops of the servers `ids`, in order.
pub open spec fn server_stops(ids: Seq<u64>) -> Seq<Step> {
    ids.map_values(|id: u64| Step::StopServer(ServerId(id)))
}

/// `1, 2, ..., n`.
pub open spec fn first_ids(n: u64) -> Seq<u64> {
    Seq::new(n as nat, |i: int| (i + 1) as u64)
}

/// The IDs `1..=n`.
pub open spec fn id_range(n: u64) -> Set<u64> {
    Set::new(|id: u64| 1 <= id <= n)
}

/// Adding a keeper to `t`: save, render the new keeper from the grown
/// membership and start it, then re-render every other keeper, then every
/// server.
pub open spec fn add_keeper_plan(t: Topology) -> Seq<Step> {
    let new_id = KeeperId((t.max_keeper_id + 1) as u64);
    seq![Step::SaveMetadata, Step::WriteKeeperConfig(new_id), Step::StartKeeper(new_id)]
        + keeper_writes(sorted_ids(t.keeper_ids)) + server_writes(sorted_ids(t.server_ids))
}

/// Adding a server to `t`: save, render every server of the grown
/// membership, then start the new one.
pub open spec fn add_server_plan(t: Topology) -> Seq<Step> {
    let u = t.apply(MembershipOp::AddServer);
    seq![Step::SaveMetadata] + server_writes(sorted_ids(u.server_ids)) + seq![
        Step::StartServer(ServerId(u.max_server_id)),
    ]
}

/// Removing keeper `id`, leaving `u`: save, render every remaining keeper
/// and every server, then stop the removed keeper.
pub open spec fn remove_keeper_plan(u: Topology, id: KeeperId) -> Seq<Step> {
    seq![Step::SaveMetadata] + keeper_writes(sorted_ids(u.keeper_ids)) + server_writes(
        sorted_ids(u.server_ids),
    ) + seq![Step::StopKeeper(id)]
}

/// Removing server `id`, leaving `u`: save, render every remaining server,
/// then stop the removed one.
pub open spec fn remove_server_plan(u: Topology, id: ServerId) -> Seq<Step> {
    seq![Step::SaveMetadata] + server_writes(sorted_ids(u.server_ids)) + seq![
        Step::StopServer(id),
    ]
}

/// Stopping every node of `t`: keepers, then servers.
pub open spec fn teardown_plan(t: Topology) -> Seq<Step> {
    keeper_stops(sorted_ids(t.keeper_ids)) + server_stops(sorted_ids(t.server_ids))
}

/// Generating a fresh cluster: render every server, then every keeper, then
/// save; nothing is started.
pub open spec fn generate_plan(num_keepers: u64, num_replicas: u64) -> Seq<Step> {
    server_writes(first_ids(num_replicas)) + keeper_writes(first_ids(num_keepers)) + seq![
        Step::SaveMetadata,
    ]
}

/// `s` starts with `p`.
pub open spec fn has_prefix(s: Seq<char>, p: Seq<char>) -> bool {
    s.len() >= p.len() && s.take(p.len() as int) == p
}

/// Launches of the directories among `names` whose name starts with `word`,
/// in listing order.
pub open spec fn dir_launches(names: Seq<Seq<char>>, word: Seq<char>, keeper: bool) -> Seq<
    DeployStep,
>
    decreases names.len(),
{
    if names.len() == 0 {
        Seq::empty()
    } else {
        let i = (names.len() - 1) as usize;
        dir_launches(names.drop_last(), word, keeper) + if has_prefix(names.last(), word) {
            seq![
                if keeper {
                    DeployStep::StartKeeperDir(i)
                } else {
                    DeployStep::StartServerDir(i)
                },
            ]
        } else {
            Seq::empty()
        }
    }
}

/// Deploying from a directory listing: every keeper directory, then every
/// clickhouse directory.
pub open spec fn deploy_plan(names: Seq<Seq<char>>) -> Seq<DeployStep> {
    dir_launches(names, KEEPER_DIR_WORD@, true) + dir_launches(names, SERVER_DIR_WORD@, false)
}

/// `base + id` fits in a port for every ID of `ids`.
pub open spec fn ports_fit(base: u16, ids: Set<u64>) -> bool {
    forall|id: u64| ids.contains(id) ==> base + id <= u16::MAX
}

/// `nodes` lists `ids` in order, each at `host` on `base + id`.
pub open spec fn endpoints_match(nodes: Seq<ServerConfig>, ids: Seq<u64>, host: Seq<char>, base: u16) -> bool {
    &&& nodes.len() == ids.len()
    &&& forall|i: int|
        0 <= i < nodes.len() ==> (#[trigger] nodes[i]).host@ == host && nodes[i].port == base
            + ids[i]
}

/// `servers` lists the keepers `ids` in order, each on `base + id`.
pub open spec fn raft_members_match(servers: Seq<RaftServerConfig>, ids: Seq<u64>, base: u16) -> bool {
    &&& servers.len() == ids.len()
    &&& forall|i: int|
        0 <= i < servers.len() ==> (#[trigger] servers[i]).id == KeeperId(ids[i])
            && servers[i].hostname@ == LOCALHOST@ && servers[i].port == base + ids[i]
}

/// `l` logs at trace level to `log_file` and `error_file` under `logs`.
pub open spec fn logger_matches(l: LogConfig, logs: Seq<char>, log_file: Seq<char>, error_file: Seq<char>) -> bool {
    &&& l.level == LogLevel::Trace
    &&& l.log@ == joined_path(logs, log_file)
    &&& l.errorlog@ == joined_path(logs, error_file)
    &&& l.size@ == LOG_SIZE@
    &&& l.count == LOG_COUNT
}

/// A deployment of clickhouse servers and a keeper ensemble on localhost.
pub struct Deployment {
    pub config: DeploymentConfig,
    pub meta: Option<ClickwardMetadata>,
}

/// Appends a write of each keeper of `ids`.
fn push_keeper_writes(steps: &mut Vec<Step>, ids: &Vec<u64>)
    ensures
        final(steps)@ == old(steps)@ + keeper_writes(ids@),
{
    let ghost start = steps@;
    let mut i: usize = 0;
    while i < ids.len()
        invariant
            i <= ids.len(),
            steps@ == start + keeper_writes(ids@.take(i as int)),
        decreases ids.len() - i,
    {
        steps.push(Step::WriteKeeperConfig(KeeperId(ids[i])));
        assert(steps@ =~= start + keeper_writes(ids@.take(i + 1)));
        i += 1;
    }
    assert(ids@.take(i as int) =~= ids@);
}

/// Appends a write of each server of `ids`.
fn push_server_writes(steps: &mut Vec<Step>, ids: &Vec<u64>)
    ensures
        final(steps)@ == old(steps)@ + server_writes(ids@),
{
    let ghost start = steps@;
    let mut i: usize = 0;
    while i < ids.len()
        invariant
            i <= ids.len(),
            steps@ == start + server_writes(ids@.take(i as int)),
        decreases ids.len() - i,
    {
        steps.push(Step::WriteServerConfig(ServerId(ids[i])));
        assert(steps@ =~= start + server_writes(ids@.take(i + 1)));
        i += 1;
    }
    assert(ids@.take(i as int) =~= ids@);
}

/// Appends a stop of each keeper of `ids`.
fn push_keeper_stops(steps: &mut Vec<Step>, ids: &Vec<u64>)
    ensures
        final(steps)@ == old(steps)@ + keeper_stops(ids@),
{
    let ghost start = steps@;
    let mut i: usize = 0;
    while i < ids.len()
        invariant
            i <= ids.len(),
            steps@ == start + keeper_stops(ids@.take(i as int)),
        decreases ids.len() - i,
    {
        steps.push(Step::StopKeeper(KeeperId(ids[i])));
        assert(steps@ =~= start + keeper_stops(ids@.take(i + 1)));
        i += 1;
    }
    assert(ids@.take(i as int) =~= ids@);
}

/// Appends a stop of each server of `ids`.
fn push_server_stops(steps: &mut Vec<Step>, ids: &Vec<u64>)
    ensures
        final(steps)@ == old(steps)@ + server_stops(ids@),
{
    let ghost start = steps@;
    let mut i: usize = 0;
    while i < ids.len()
        invariant
            i <= ids.len(),
            steps@ == start + server_stops(ids@.take(i as int)),
        decreases ids.len() - i,
    {
        steps.push(Step::StopServer(ServerId(ids[i])));
        assert(steps@ =~= start + server_stops(ids@.take(i + 1)));
        i += 1;
    }
    assert(ids@.take(i as int) =~= ids@);
}

/// `1, 2, ..., n`.
fn count_up(n: u64) -> (r: Vec<u64>)
    ensures
        r@ == first_ids(n),
{
    let mut r: Vec<u64> = Vec::new();
    let mut i: u64 = 0;
    while i < n
        invariant
            i <= n,
            r@ == first_ids(i),
        decreases n - i,
    {
        r.push(i + 1);
        i += 1;
        assert(r@ =~= first_ids(i));
    }
    r
}

/// The set of IDs `1..=n`.
fn id_set(n: u64) -> (r: BTreeSet<u64>)
    ensures
        r@ == id_range(n),
{
    let mut r: BTreeSet<u64> = BTreeSet::new();
    let mut i: u64 = 0;
    while i < n
        invariant
            i <= n,
            r@ == id_range(i),
        decreases n - i,
    {
        r.insert(i + 1);
        i += 1;
        assert(r@ =~= id_range(i));
    }
    r
}

/// Whether `v` starts with `p`.
fn starts_with(v: &Vec<char>, p: &Vec<char>) -> (b: bool)
    ensures
        b == has_prefix(v@, p@),
{
    if v.len() < p.len() {
        return false;
    }
    let mut i: usize = 0;
    while i < p.len()
        invariant
            i <= p.len() <= v.len(),
            forall|j: int| 0 <= j < i ==> v[j] == p[j],
        decreases p.len() - i,
    {
        if v[i] != p[i] {
            assert(v@.take(p.len() as int)[i as int] != p@[i as int]);
            return false;
        }
        i += 1;
    }
    assert(v@.take(p.len() as int) =~= p@);
    true
}

/// The order in which to launch previously generated node directories,
/// given their names as listed: every keeper directory, then every
/// clickhouse directory, each group in listing order.
pub fn deploy_order(names: &Vec<String>) -> (r: Vec<DeployStep>)
    ensures
        r@ == deploy_plan(names@.map_values(|s: String| s@)),
{
    let ghost all = names@.map_values(|s: String| s@);
    let keeper_word = chars_of(KEEPER_DIR_WORD);
    let server_word = chars_of(SERVER_DIR_WORD);
    let mut r: Vec<DeployStep> = Vec::new();
    let mut i: usize = 0;
    while i < names.len()
        invariant
            i <= names.len(),
            all == names@.map_values(|s: String| s@),
            keeper_word@ == KEEPER_DIR_WORD@,
            r@ == dir_launches(all.take(i as int), KEEPER_DIR_WORD@, true),
        decreases names.len() - i,
    {
        let v = chars_of(names[i].as_str());
        assert(all.take(i + 1).drop_last() =~= all.take(i as int));
        if starts_with(&v, &keeper_word) {
            r.push(DeployStep::StartKeeperDir(i));
        }
        i += 1;
        assert(r@ =~= dir_launches(all.take(i as int), KEEPER_DIR_WORD@, true));
    }
    assert(all.take(i as int) =~= all);
    let ghost head = r@;
    let mut i: usize = 0;
    while i < names.len()
        invariant
            i <= names.len(),
            all == names@.map_values(|s: String| s@),
            server_word@ == SERVER_DIR_WORD@,
            r@ == head + dir_launches(all.take(i as int), SERVER_DIR_WORD@, false),
        decreases names.len() - i,
    {
        let v = chars_of(names[i].as_str());
        assert(all.take(i + 1).drop_last() =~= all.take(i as int));
        if starts_with(&v, &server_word) {
            r.push(DeployStep::StartServerDir(i));
        }
        i += 1;
        assert(r@ =~= head + dir_launches(all.take(i as int), SERVER_DIR_WORD@, false));
    }
    assert(all.take(i as int) =~= all);
    r
}

/// Whether `base + id` fits in a port for every ID of `ids`.
fn all_fit(base: u16, ids: &BTreeSet<u64>) -> (b: bool)
    ensures
        b == ports_fit(base, ids@),
{
    let v = ids_in_order(ids);
    let mut i: usize = 0;
    while i < v.len()
        invariant
            i <= v.len(),
            v@.to_set() == ids@,
            forall|j: int| 0 <= j < i ==> base + #[trigger] v[j] <= u16::MAX,
        decreases v.len() - i,
    {
        if v[i] > (u16::MAX - base) as u64 {
            assert(v@.contains(v[i as int]));
            assert(ids@.contains(v[i as int]));
            return false;
        }
        i += 1;
    }
    assert forall|id: u64| ids@.contains(id) implies base + id <= u16::MAX by {
        assert(v@.to_set().contains(id));
        assert(v@.contains(id));
    }
    true
}

/// Each of `ids`, in order, at `host` on `base + id`.
fn endpoints(ids: &BTreeSet<u64>, host: &str, base: u16) -> (r: Vec<ServerConfig>)
    requires
        ports_fit(base, ids@),
    ensures
        endpoints_match(r@, sorted_ids(ids@), host@, base),
{
    let v = ids_in_order(ids);
    let mut r: Vec<ServerConfig> = Vec::new();
    let mut i: usize = 0;
    while i < v.len()
        invariant
            i <= v.len(),
            v@ == sorted_ids(ids@),
            v@.to_set() == ids@,
            ports_fit(base, ids@),
            endpoints_match(r@, v@.take(i as int), host@, base),
        decreases v.len() - i,
    {
        assert(v@.to_set().contains(v[i as int]));
        r.push(ServerConfig { host: String::from_str(host), port: base + v[i] as u16 });
        i += 1;
    }
    assert(v@.take(i as int) =~= v@);
    r
}

impl Deployment {
    /// A deployment with the given configuration and the metadata loaded
    /// from its directory, if any was found.
    pub fn new(config: DeploymentConfig, meta: Option<ClickwardMetadata>) -> (r: Deployment)
        ensures
            r.config == config,
            r.meta == meta,
    {
        Deployment { config, meta }
    }

    /// A deployment rooted at `target_dir` below `path` with the default
    /// base ports.
    pub fn new_with_default_port_config(
        path: String,
        cluster_name: String,
        target_dir: Option<String>,
        meta: Option<ClickwardMetadata>,
    ) -> (r: Deployment)
        ensures
            r.config.path@ == joined_path(
                path@,
                match target_dir {
                    Some(d) => d@,
                    None => DEPLOYMENT_DIR@,
                },
            ),
            r.config.base_ports == default_base_ports(),
            r.config.cluster_name == cluster_name,
            r.meta == meta,
    {
        let config = DeploymentConfig::new_with_default_ports(path, cluster_name, target_dir);
        Deployment::new(config, meta)
    }

    pub fn meta(&self) -> (r: &Option<ClickwardMetadata>)
        ensures
            *r == self.meta,
    {
        &self.meta
    }

    /// Directory of keeper `id`.
    pub open spec fn keeper_dir_spec(&self, id: KeeperId) -> Seq<char> {
        joined_path(self.config.path@, KEEPER_DIR_PREFIX@ + decimal(id.0 as nat))
    }

    /// Directory of clickhouse server `id`.
    pub open spec fn server_dir_spec(&self, id: ServerId) -> Seq<char> {
        joined_path(self.config.path@, SERVER_DIR_PREFIX@ + decimal(id.0 as nat))
    }

    /// The directory of keeper `id`: its configuration, pid file, logs and
    /// raft storage live there.
    pub fn keeper_dir(&self, id: KeeperId) -> (r: String)
        ensures
            r@ == self.keeper_dir_spec(id),
    {
        let mut name = String::new();
        name.append(KEEPER_DIR_PREFIX);
        push_decimal(&mut name, id.0);
        join_path(self.config.path.as_str(), name.as_str())
    }

    /// The directory of clickhouse server `id`: its configuration, pid file,
    /// logs and data live there.
    pub fn server_dir(&self, id: ServerId) -> (r: String)
        ensures
            r@ == self.server_dir_spec(id),
    {
        let mut name = String::new();
        name.append(SERVER_DIR_PREFIX);
        push_decimal(&mut name, id.0);
        join_path(self.config.path.as_str(), name.as_str())
    }

    /// Where the metadata of this deployment is stored.
    pub fn meta_path(&self) -> (r: String)
        ensures
            r@ == joined_path(self.config.path@, CLICKWARD_META_FILENAME@),
    {
        join_path(self.config.path.as_str(), CLICKWARD_META_FILENAME)
    }

    /// The configuration file of keeper `id`.
    pub fn keeper_config_path(&self, id: KeeperId) -> (r: String)
        ensures
            r@ == joined_path(self.keeper_dir_spec(id), KEEPER_CONFIG_FILE@),
    {
        join_path(self.keeper_dir(id).as_str(), KEEPER_CONFIG_FILE)
    }

    /// The pid file of keeper `id`.
    pub fn keeper_pidfile(&self, id: KeeperId) -> (r: String)
        ensures
            r@ == joined_path(self.keeper_dir_spec(id), KEEPER_PID_FILE@),
    {
        join_path(self.keeper_dir(id).as_str(), KEEPER_PID_FILE)
    }

    /// The log directory of keeper `id`.
    pub fn keeper_logs_dir(&self, id: KeeperId) -> (r: String)
        ensures
            r@ == joined_path(self.keeper_dir_spec(id), LOGS_DIR@),
    {
        join_path(self.keeper_dir(id).as_str(), LOGS_DIR)
    }

    /// The configuration file of clickhouse server `id`.
    pub fn server_config_path(&self, id: ServerId) -> (r: String)
        ensures
            r@ == joined_path(self.server_dir_spec(id), SERVER_CONFIG_FILE@),
    {
        join_path(self.server_dir(id).as_str(), SERVER_CONFIG_FILE)
    }

    /// The pid file of clickhouse server `id`.
    pub fn server_pidfile(&self, id: ServerId) -> (r: String)
        ensures
            r@ == joined_path(self.server_dir_spec(id), SERVER_PID_FILE@),
    {
        join_path(self.server_dir(id).as_str(), SERVER_PID_FILE)
    }

    /// The log directory of clickhouse server `id`.
    pub fn server_logs_dir(&self, id: ServerId) -> (r: String)
        ensures
            r@ == joined_path(self.server_dir_spec(id), LOGS_DIR@),
    {
        join_path(self.server_dir(id).as_str(), LOGS_DIR)
    }

    /// The expected clickhouse http port of server `id`.
    pub fn http_port(&self, id: ServerId) -> (r: u16)
        requires
            self.config.base_ports.clickhouse_http + id.0 <= u16::MAX,
        ensures
            r == self.config.base_ports.clickhouse_http + id.0,
    {
        self.config.base_ports.clickhouse_http + id.0 as u16
    }

    /// The expected client port of keeper `id`.
    pub fn keeper_port(&self, id: KeeperId) -> (r: u16)
        requires
            self.config.base_ports.keeper + id.0 <= u16::MAX,
        ensures
            r == self.config.base_ports.keeper + id.0,
    {
        self.config.base_ports.keeper + id.0 as u16
    }

    /// Whether every port of a cluster with these members fits in 16 bits,
    /// which rendering its configuration asks.
    pub fn ports_fit(&self, keeper_ids: &BTreeSet<u64>, server_ids: &BTreeSet<u64>) -> (b: bool)
        ensures
            b == self.ports_fit_spec(keeper_ids@, server_ids@),
    {
        let b = &self.config.base_ports;
        all_fit(b.keeper, keeper_ids) && all_fit(b.raft, keeper_ids) && all_fit(
            b.clickhouse_tcp,
            server_ids,
        ) && all_fit(b.clickhouse_http, server_ids) && all_fit(
            b.clickhouse_interserver_http,
            server_ids,
        )
    }

    /// Every port of a cluster with these members fits in 16 bits.
    pub open spec fn ports_fit_spec(&self, keeper_ids: Set<u64>, server_ids: Set<u64>) -> bool {
        let b = self.config.base_ports;
        &&& ports_fit(b.keeper, keeper_ids)
        &&& ports_fit(b.raft, keeper_ids)
        &&& ports_fit(b.clickhouse_tcp, server_ids)
        &&& ports_fit(b.clickhouse_http, server_ids)
        &&& ports_fit(b.clickhouse_interserver_http, server_ids)
    }

    /// The configuration of keeper `this_keeper` in an ensemble of
    /// `keeper_ids`.
    pub fn keeper_config(&self, this_keeper: KeeperId, keeper_ids: &BTreeSet<u64>) -> (r: KeeperConfig)
        requires
            self.config.base_ports.keeper + this_keeper.0 <= u16::MAX,
            ports_fit(self.config.base_ports.raft, keeper_ids@),
        ensures
            ({
                let dir = self.keeper_dir_spec(this_keeper);
                let coordination = joined_path(dir, COORDINATION_DIR@);
                &&& logger_matches(
                    r.logger,
                    joined_path(dir, LOGS_DIR@),
                    KEEPER_LOG_FILE@,
                    KEEPER_ERROR_LOG_FILE@,
                )
                &&& r.listen_host@ == LOCALHOST@
                &&& r.tcp_port == self.config.base_ports.keeper + this_keeper.0
                &&& r.server_id == this_keeper
                &&& r.log_storage_path@ == joined_path(coordination, LOG_STORAGE_DIR@)
                &&& r.snapshot_storage_path@ == joined_path(coordination, SNAPSHOT_STORAGE_DIR@)
                &&& r.coordination_settings == KeeperCoordinationSettings {
                    operation_timeout_ms: OPERATION_TIMEOUT_MS,
                    session_timeout_ms: SESSION_TIMEOUT_MS,
                    raft_logs_level: LogLevel::Trace,
                }
                &&& raft_members_match(
                    r.raft_config.servers@,
                    sorted_ids(keeper_ids@),
                    self.config.base_ports.raft,
                )
            }),
    {
        let ids = ids_in_order(keeper_ids);
        let raft = self.config.base_ports.raft;
        let mut servers: Vec<RaftServerConfig> = Vec::new();
        let mut i: usize = 0;
        while i < ids.len()
            invariant
                i <= ids.len(),
                ids@ == sorted_ids(keeper_ids@),
                ids@.to_set() == keeper_ids@,
                raft == self.config.base_ports.raft,
                ports_fit(raft, keeper_ids@),
                raft_members_match(servers@, ids@.take(i as int), raft),
            decreases ids.len() - i,
        {
            assert(ids@.to_set().contains(ids[i as int]));
            servers.push(
                RaftServerConfig {
                    id: KeeperId(ids[i]),
                    hostname: String::from_str(LOCALHOST),
                    port: raft + ids[i] as u16,
                },
            );
            i += 1;
        }
        assert(ids@.take(i as int) =~= ids@);
        let dir = self.keeper_dir(this_keeper);
        let logs = join_path(dir.as_str(), LOGS_DIR);
        let coordination = join_path(dir.as_str(), COORDINATION_DIR);
        KeeperConfig {
            logger: LogConfig {
                level: LogLevel::Trace,
                log: join_path(logs.as_str(), KEEPER_LOG_FILE),
                errorlog: join_path(logs.as_str(), KEEPER_ERROR_LOG_FILE),
                size: String::from_str(LOG_SIZE),
                count: LOG_COUNT,
            },
            listen_host: String::from_str(LOCALHOST),
            tcp_port: self.config.base_ports.keeper + this_keeper.0 as u16,
            server_id: this_keeper,
            log_storage_path: join_path(coordination.as_str(), LOG_STORAGE_DIR),
            snapshot_storage_path: join_path(coordination.as_str(), SNAPSHOT_STORAGE_DIR),
            coordination_settings: KeeperCoordinationSettings {
                operation_timeout_ms: OPERATION_TIMEOUT_MS,
                session_timeout_ms: SESSION_TIMEOUT_MS,
                raft_logs_level: LogLevel::Trace,
            },
            raft_config: RaftServers { servers },
        }
    }

    /// The configuration of clickhouse server `id` in a cluster of
    /// `replica_ids` coordinated by `keeper_ids`.
    pub fn replica_config(
        &self,
        id: ServerId,
        keeper_ids: &BTreeSet<u64>,
        replica_ids: &BTreeSet<u64>,
    ) -> (r: ReplicaConfig)
        requires
            self.config.base_ports.clickhouse_http + id.0 <= u16::MAX,
            self.config.base_ports.clickhouse_tcp + id.0 <= u16::MAX,
            self.config.base_ports.clickhouse_interserver_http + id.0 <= u16::MAX,
            ports_fit(self.config.base_ports.clickhouse_tcp, replica_ids@),
            ports_fit(self.config.base_ports.keeper, keeper_ids@),
        ensures
            ({
                let dir = self.server_dir_spec(id);
                let b = self.config.base_ports;
                &&& logger_matches(
                    r.logger,
                    joined_path(dir, LOGS_DIR@),
                    SERVER_LOG_FILE@,
                    SERVER_ERROR_LOG_FILE@,
                )
                &&& r.macros.shard == SHARD
                &&& r.macros.replica == id
                &&& r.macros.cluster@ == self.config.cluster_name@
                &&& r.listen_host@ == LOCALHOST@
                &&& r.http_port == b.clickhouse_http + id.0
                &&& r.tcp_port == b.clickhouse_tcp + id.0
                &&& r.interserver_http_port == b.clickhouse_interserver_http + id.0
                &&& r.remote_servers.cluster@ == self.config.cluster_name@
                &&& r.remote_servers.secret@ == CLUSTER_SECRET@
                &&& endpoints_match(
                    r.remote_servers.replicas@,
                    sorted_ids(replica_ids@),
                    LOCALHOST@,
                    b.clickhouse_tcp,
                )
                &&& endpoints_match(
                    r.keepers.nodes@,
                    sorted_ids(keeper_ids@),
                    BRACKETED_LOCALHOST@,
                    b.keeper,
                )
                &&& r.data_path@ == joined_path(dir, DATA_DIR@)
            }),
    {
        let b = &self.config.base_ports;
        let replicas = endpoints(replica_ids, LOCALHOST, b.clickhouse_tcp);
        let nodes = endpoints(keeper_ids, BRACKETED_LOCALHOST, b.keeper);
        let dir = self.server_dir(id);
        let logs = join_path(dir.as_str(), LOGS_DIR);
        ReplicaConfig {
            logger: LogConfig {
                level: LogLevel::Trace,
                log: join_path(logs.as_str(), SERVER_LOG_FILE),
                errorlog: join_path(logs.as_str(), SERVER_ERROR_LOG_FILE),
                size: String::from_str(LOG_SIZE),
                count: LOG_COUNT,
            },
            macros: Macros { shard: SHARD, replica: id, cluster: self.config.cluster_name.clone() },
            listen_host: String::from_str(LOCALHOST),
            http_port: b.clickhouse_http + id.0 as u16,
            tcp_port: b.clickhouse_tcp + id.0 as u16,
            interserver_http_port: b.clickhouse_interserver_http + id.0 as u16,
            remote_servers: RemoteServers {
                cluster: self.config.cluster_name.clone(),
                secret: String::from_str(CLUSTER_SECRET),
                replicas,
            },
            keepers: KeeperConfigsForReplica { nodes },
            data_path: join_path(dir.as_str(), DATA_DIR),
        }
    }

    /// Adds a keeper: allocates its ID and returns the steps that save the
    /// metadata, render and start the new keeper, then re-render the other
    /// keepers (which reload their configuration) and every server.
    pub fn add_keeper(&mut self) -> (r: Result<Vec<Step>, ClickwardError>)
        requires
            old(self).meta matches Some(m) ==> m@.wf() && m.max_keeper_id.0 < u64::MAX,
        ensures
            final(self).config == old(self).config,
            match old(self).meta {
                None => r == Err::<Vec<Step>, ClickwardError>(ClickwardError::NoDeployment)
                    && final(self).meta is None,
                Some(m) => {
                    &&& r matches Ok(steps) && steps@ == add_keeper_plan(m@)
                    &&& final(self).meta matches Some(n) && n@ == m@.apply(MembershipOp::AddKeeper)
                },
            },
    {
        match &mut self.meta {
            None => Err(ClickwardError::NoDeployment),
            Some(meta) => {
                let others = ids_in_order(&meta.keeper_ids);
                let new_id = meta.add_keeper();
                let servers = ids_in_order(&meta.server_ids);
                let mut steps = vec![
                    Step::SaveMetadata,
                    Step::WriteKeeperConfig(new_id),
                    Step::StartKeeper(new_id),
                ];
                push_keeper_writes(&mut steps, &others);
                push_server_writes(&mut steps, &servers);
                Ok(steps)
            },
        }
    }

    /// Adds a clickhouse server: allocates its ID and returns the steps that
    /// save the metadata, render every server of the grown cluster, then
    /// start the new server.
    pub fn add_server(&mut self) -> (r: Result<Vec<Step>, ClickwardError>)
        requires
            old(self).meta matches Some(m) ==> m@.wf() && m.max_server_id.0 < u64::MAX,
        ensures
            final(self).config == old(self).config,
            match old(self).meta {
                None => r == Err::<Vec<Step>, ClickwardError>(ClickwardError::NoDeployment)
                    && final(self).meta is None,
                Some(m) => {
                    &&& r matches Ok(steps) && steps@ == add_server_plan(m@)
                    &&& final(self).meta matches Some(n) && n@ == m@.apply(MembershipOp::AddServer)
                },
            },
    {
        match &mut self.meta {
            None => Err(ClickwardError::NoDeployment),
            Some(meta) => {
                let new_id = meta.add_server();
                let servers = ids_in_order(&meta.server_ids);
                let mut steps = vec![Step::SaveMetadata];
                push_server_writes(&mut steps, &servers);
                steps.push(Step::StartServer(new_id));
                Ok(steps)
            },
        }
    }

    /// Removes keeper `id`: returns the steps that save the metadata,
    /// re-render every remaining keeper and every server, then stop the
    /// removed keeper. An unknown keeper is refused and nothing changes.
    pub fn remove_keeper(&mut self, id: KeeperId) -> (r: Result<Vec<Step>, ClickwardError>)
        ensures
            final(self).config == old(self).config,
            match old(self).meta {
                None => r == Err::<Vec<Step>, ClickwardError>(ClickwardError::NoDeployment)
                    && final(self).meta is None,
                Some(m) => final(self).meta matches Some(n) && if m@.keeper_ids.contains(id.0) {
                    &&& n@ == m@.apply(MembershipOp::RemoveKeeper(id.0))
                    &&& r matches Ok(steps) && steps@ == remove_keeper_plan(n@, id)
                } else {
                    &&& n@ == m@
                    &&& r == Err::<Vec<Step>, ClickwardError>(ClickwardError::NoSuchKeeper(id))
                },
            },
    {
        match &mut self.meta {
            None => Err(ClickwardError::NoDeployment),
            Some(meta) => {
                match meta.remove_keeper(id) {
                    Err(e) => Err(e),
                    Ok(()) => {
                        let keepers = ids_in_order(&meta.keeper_ids);
                        let servers = ids_in_order(&meta.server_ids);
                        let mut steps = vec![Step::SaveMetadata];
                        push_keeper_writes(&mut steps, &keepers);
                        push_server_writes(&mut steps, &servers);
                        steps.push(Step::StopKeeper(id));
                        Ok(steps)
                    },
                }
            },
        }
    }

    /// Removes clickhouse server `id`: returns the steps that save the
    /// metadata, re-render every remaining server, then stop the removed
    /// one. An unknown server is refused and nothing changes.
    pub fn remove_server(&mut self, id: ServerId) -> (r: Result<Vec<Step>, ClickwardError>)
        ensures
            final(self).config == old(self).config,
            match old(self).meta {
                None => r == Err::<Vec<Step>, ClickwardError>(ClickwardError::NoDeployment)
                    && final(self).meta is None,
                Some(m) => final(self).meta matches Some(n) && if m@.server_ids.contains(id.0) {
                    &&& n@ == m@.apply(MembershipOp::RemoveServer(id.0))
                    &&& r matches Ok(steps) && steps@ == remove_server_plan(n@, id)
                } else {
                    &&& n@ == m@
                    &&& r == Err::<Vec<Step>, ClickwardError>(ClickwardError::NoSuchReplica(id))
                },
            },
    {
        match &mut self.meta {
            None => Err(ClickwardError::NoDeployment),
            Some(meta) => {
                match meta.remove_server(id) {
                    Err(e) => Err(e),
                    Ok(()) => {
                        let servers = ids_in_order(&meta.server_ids);
                        let mut steps = vec![Step::SaveMetadata];
                        push_server_writes(&mut steps, &servers);
                        steps.push(Step::StopServer(id));
                        Ok(steps)
                    },
                }
            },
        }
    }

    /// The stops that tear the deployment down: every keeper, then every
    /// server. A driver attempts each one even when an earlier one fails.
    pub fn teardown(&self) -> (r: Vec<Step>)
        ensures
            match self.meta {
                None => r@ == Seq::<Step>::empty(),
                Some(m) => r@ == teardown_plan(m@),
            },
    {
        let mut steps: Vec<Step> = Vec::new();
        match &self.meta {
            None => {},
            Some(meta) => {
                let keepers = ids_in_order(&meta.keeper_ids);
                let servers = ids_in_order(&meta.server_ids);
                push_keeper_stops(&mut steps, &keepers);
                push_server_stops(&mut steps, &servers);
                assert(steps@ =~= teardown_plan(meta@));
            },
        }
        steps
    }

    /// Generates a fresh cluster of keepers `1..=num_keepers` and servers
    /// `1..=num_replicas`: sets the metadata and returns the steps that
    /// render every server, then every keeper, then save the metadata.
    /// Nothing is started.
    pub fn generate_config(&mut self, num_keepers: u64, num_replicas: u64) -> (r: Vec<Step>)
        requires
            num_keepers >= 1,
            num_replicas >= 1,
        ensures
            final(self).config == old(self).config,
            final(self).meta matches Some(m) && m@ == (Topology {
                keeper_ids: id_range(num_keepers),
                max_keeper_id: num_keepers,
                server_ids: id_range(num_replicas),
                max_server_id: num_replicas,
            }),
            r@ == generate_plan(num_keepers, num_replicas),
    {
        let keeper_ids = id_set(num_keepers);
        let replica_ids = id_set(num_replicas);
        assert(keeper_ids@.contains(num_keepers));
        assert(replica_ids@.contains(num_replicas));
        let mut steps: Vec<Step> = Vec::new();
        push_server_writes(&mut steps, &count_up(num_replicas));
        push_keeper_writes(&mut steps, &count_up(num_keepers));
        steps.push(Step::SaveMetadata);
        let meta = ClickwardMetadata::new(keeper_ids, replica_ids);
        self.meta = Some(meta);
        assert(steps@ =~= generate_plan(num_keepers, num_replicas));
        steps
    }
}

/// Placement depends only on a node's kind, its ID and the deployment's
/// configuration: two deployments with the same configuration put every
/// node in the same directory and on the same ports, whatever metadata
/// either holds.
pub proof fn lemma_placement_deterministic(a: Deployment, b: Deployment, k: KeeperId, s: ServerId)
    requires
        a.config == b.config,
    ensures
        a.keeper_dir_spec(k) == b.keeper_dir_spec(k),
        a.server_dir_spec(s) == b.server_dir_spec(s),
        a.config.base_ports == b.config.base_ports,
{
}

} // verus!
