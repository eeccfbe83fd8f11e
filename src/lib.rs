//! Topology bookkeeping, configuration projection and reconfiguration
//! planning for a local ClickHouse deployment: a keeper ensemble plus a set
//! of replicated clickhouse servers, all on localhost.
//!
//! The library decides; the caller performs. Every reconfiguration is
//! returned as an ordered list of steps (persist, render, start, stop) that
//! a driver executes one by one, stopping at the first failure.


pub mod config;
pub mod deployment;
pub mod error;
pub mod ids;
pub mod keeper;
pub mod metadata;
pub mod text;

pub use deployment::{BasePorts, DeployStep, Deployment, DeploymentConfig, Step};
pub use error::ClickwardError;
pub use ids::{KeeperId, ServerId};
pub use keeper::{KeeperConfig, KeeperError};
pub use metadata::ClickwardMetadata;

