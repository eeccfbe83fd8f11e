//! The ways an operation on a deployment can fail.

use vstd::prelude::*;
use vstd::string::StringExecFns;
use crate::ids::{KeeperId, ServerId};
use crate::text::{decimal, push_decimal};

verus! {

/// Why an operation on a deployment's metadata was refused.
#[derive(Debug, Clone, Copy, PartialEq, Eq, Structural)]
pub enum ClickwardError {
    /// No metadata has been generated for the deployment yet.
    NoDeployment,
    /// The keeper is not part of the cluster.
    NoSuchKeeper(KeeperId),
    /// The clickhouse server is not part of the cluster.
    NoSuchReplica(ServerId),
    /// The stored metadata breaks the ID bookkeeping rules.
    CorruptMetadata,
}

/// The text shown to an operator for `e`.
pub open spec fn error_message(e: ClickwardError) -> Seq<char> {
    match e {
        ClickwardError::NoDeployment => MISSING_META@,
        ClickwardError::NoSuchKeeper(id) => NO_SUCH_KEEPER@ + decimal(id.0 as nat),
        ClickwardError::NoSuchReplica(id) => NO_SUCH_REPLICA@ + decimal(id.0 as nat),
        ClickwardError::CorruptMetadata => CORRUPT_META@,
    }
}

pub const MISSING_META: &'static str = "No deployment found: Is your path correct?";

pub const NO_SUCH_KEEPER: &'static str = "No such keeper: ";

pub const NO_SUCH_REPLICA: &'static str = "No such replica: ";

pub const CORRUPT_META: &'static str = "Deployment metadata is corrupt: an ID is zero or above its watermark";

impl ClickwardError {
    /// The text shown to an operator for this error.
    pub fn message(&self) -> (r: String)
        ensures
            r@ == error_message(*self),
    {
        let mut s = String::new();
        match self {
            ClickwardError::NoDeployment => s.append(MISSING_META),
            ClickwardError::NoSuchKeeper(id) => {
                s.append(NO_SUCH_KEEPER);
                push_decimal(&mut s, id.0);
            },
            ClickwardError::NoSuchReplica(id) => {
                s.append(NO_SUCH_REPLICA);
                push_decimal(&mut s, id.0);
            },
            ClickwardError::CorruptMetadata => s.append(CORRUPT_META),
        }
        assert(s@ =~= error_message(*self));
        s
    }
}

} // verus!
