//! The durable record of which node identities exist, and the rules that
//! keep identities from ever being handed out twice.

use std::collections::BTreeSet;
use vstd::prelude::*;
use crate::error::ClickwardError;
use crate::ids::{ids_in_order, is_max, strictly_increasing, KeeperId, ServerId};

verus! {

/// What `ClickwardMetadata` records, as mathematical values.
pub struct Topology {
    pub keeper_ids: Set<u64>,
    pub max_keeper_id: u64,
    pub server_ids: Set<u64>,
    pub max_server_id: u64,
}

/// Every ID in `ids` is positive and no larger than the watermark `max`.
pub open spec fn ids_within(ids: Set<u64>, max: u64) -> bool {
    forall|id: u64| ids.contains(id) ==> 0 < id <= max
}

/// One membership change, as a caller requests it.
pub enum MembershipOp {
    AddKeeper,
    RemoveKeeper(u64),
    AddServer,
    RemoveServer(u64),
}

impl Topology {
    /// Live IDs are positive and never above their kind's watermark.
    pub open spec fn wf(self) -> bool {
        ids_within(self.keeper_ids, self.max_keeper_id) && ids_within(
            self.server_ids,
            self.max_server_id,
        )
    }

    /// The topology after `op`; removing an absent ID changes nothing.
    pub open spec fn apply(self, op: MembershipOp) -> Topology {
        match op {
            MembershipOp::AddKeeper => Topology {
                keeper_ids: self.keeper_ids.insert((self.max_keeper_id + 1) as u64),
                max_keeper_id: (self.max_keeper_id + 1) as u64,
                ..self
            },
            MembershipOp::RemoveKeeper(id) => Topology { keeper_ids: self.keeper_ids.remove(id), ..self },
            MembershipOp::AddServer => Topology {
                server_ids: self.server_ids.insert((self.max_server_id + 1) as u64),
                max_server_id: (self.max_server_id + 1) as u64,
                ..self
            },
            MembershipOp::RemoveServer(id) => Topology { server_ids: self.server_ids.remove(id), ..self },
        }
    }
}

/// The topology after each of `ops` in turn, starting from `t`.
pub open spec fn run(t: Topology, ops: Seq<MembershipOp>) -> Topology
    decreases ops.len(),
{
    if ops.len() == 0 {
        t
    } else {
        run(t, ops.drop_last()).apply(ops.last())
    }
}

/// The keeper IDs that `ops` allocate, in the order they are handed out.
pub open spec fn issued_keeper_ids(t: Topology, ops: Seq<MembershipOp>) -> Seq<u64>
    decreases ops.len(),
{
    if ops.len() == 0 {
        Seq::empty()
    } else {
        let before = issued_keeper_ids(t, ops.drop_last());
        if ops.last() is AddKeeper {
            before.push((run(t, ops.drop_last()).max_keeper_id + 1) as u64)
        } else {
            before
        }
    }
}

/// The clickhouse server IDs that `ops` allocate, in the order they are
/// handed out.
pub open spec fn issued_server_ids(t: Topology, ops: Seq<MembershipOp>) -> Seq<u64>
    decreases ops.len(),
{
    if ops.len() == 0 {
        Seq::empty()
    } else {
        let before = issued_server_ids(t, ops.drop_last());
        if ops.last() is AddServer {
            before.push((run(t, ops.drop_last()).max_server_id + 1) as u64)
        } else {
            before
        }
    }
}

/// How many keepers `ops` add.
pub open spec fn keeper_adds(ops: Seq<MembershipOp>) -> nat
    decreases ops.len(),
{
    if ops.len() == 0 {
        0
    } else {
        keeper_adds(ops.drop_last()) + if ops.last() is AddKeeper {
            1nat
        } else {
            0nat
        }
    }
}

/// How many clickhouse servers `ops` add.
pub open spec fn server_adds(ops: Seq<MembershipOp>) -> nat
    decreases ops.len(),
{
    if ops.len() == 0 {
        0
    } else {
        server_adds(ops.drop_last()) + if ops.last() is AddServer {
            1nat
        } else {
            0nat
        }
    }
}

/// Each addition in `ops` finds its kind's watermark below `u64::MAX`.
pub open spec fn has_room(t: Topology, ops: Seq<MembershipOp>) -> bool {
    t.max_keeper_id + keeper_adds(ops) <= u64::MAX && t.max_server_id + server_adds(ops)
        <= u64::MAX
}

proof fn lemma_adds_prefix(ops: Seq<MembershipOp>, j: int)
    requires
        0 <= j <= ops.len(),
    ensures
        keeper_adds(ops.take(j)) <= keeper_adds(ops),
        server_adds(ops.take(j)) <= server_adds(ops),
    decreases ops.len() - j,
{
    if j == ops.len() {
        assert(ops.take(j) =~= ops);
    } else {
        assert(ops.take(j + 1).drop_last() =~= ops.take(j));
        lemma_adds_prefix(ops, j + 1);
    }
}

proof fn lemma_run_bounds(t: Topology, ops: Seq<MembershipOp>)
    requires
        t.wf(),
        has_room(t, ops),
    ensures
        run(t, ops).wf(),
        run(t, ops).max_keeper_id == t.max_keeper_id + keeper_adds(ops),
        run(t, ops).max_server_id == t.max_server_id + server_adds(ops),
        strictly_increasing(issued_keeper_ids(t, ops)),
        strictly_increasing(issued_server_ids(t, ops)),
        forall|i: int|
            0 <= i < issued_keeper_ids(t, ops).len() ==> t.max_keeper_id < #[trigger] issued_keeper_ids(
                t,
                ops,
            )[i] <= run(t, ops).max_keeper_id,
        forall|i: int|
            0 <= i < issued_server_ids(t, ops).len() ==> t.max_server_id < #[trigger] issued_server_ids(
                t,
                ops,
            )[i] <= run(t, ops).max_server_id,
    decreases ops.len(),
{
    if ops.len() > 0 {
        let pre = ops.drop_last();
        lemma_run_bounds(t, pre);
        let p = run(t, pre);
        let q = run(t, ops);
        assert(q == p.apply(ops.last()));
        assert(q.wf());
    }
}

proof fn lemma_watermarks_step(t: Topology, ops: Seq<MembershipOp>, j: int)
    requires
        t.wf(),
        has_room(t, ops),
        0 < j <= ops.len(),
    ensures
        run(t, ops.take(j - 1)).max_keeper_id <= run(t, ops.take(j)).max_keeper_id,
        run(t, ops.take(j - 1)).max_server_id <= run(t, ops.take(j)).max_server_id,
{
    let pre = ops.take(j - 1);
    assert(ops.take(j).drop_last() =~= pre);
    lemma_adds_prefix(ops, j);
    lemma_adds_prefix(ops, j - 1);
    lemma_run_bounds(t, pre);
    lemma_run_bounds(t, ops.take(j));
}

/// No identity is ever handed out twice: along any sequence of additions and
/// removals in which each addition finds room below `u64::MAX`, each kind's
/// allocated IDs strictly increase and all lie above every ID live at the
/// start, the topology stays well formed, and neither watermark ever
/// decreases.
pub proof fn lemma_ids_never_reused(t: Topology, ops: Seq<MembershipOp>)
    requires
        t.wf(),
        has_room(t, ops),
    ensures
        run(t, ops).wf(),
        strictly_increasing(issued_keeper_ids(t, ops)),
        strictly_increasing(issued_server_ids(t, ops)),
        forall|i: int|
            0 <= i < issued_keeper_ids(t, ops).len() ==> t.max_keeper_id
                < #[trigger] issued_keeper_ids(t, ops)[i],
        forall|i: int|
            0 <= i < issued_server_ids(t, ops).len() ==> t.max_server_id
                < #[trigger] issued_server_ids(t, ops)[i],
        forall|i: int, x: u64|
            0 <= i < issued_keeper_ids(t, ops).len() && #[trigger] t.keeper_ids.contains(x) ==> x
                < #[trigger] issued_keeper_ids(t, ops)[i],
        forall|i: int, x: u64|
            0 <= i < issued_server_ids(t, ops).len() && #[trigger] t.server_ids.contains(x) ==> x
                < #[trigger] issued_server_ids(t, ops)[i],
        forall|i: int, j: int|
            #![trigger run(t, ops.take(i)), run(t, ops.take(j))]
            0 <= i <= j <= ops.len() ==> run(t, ops.take(i)).max_keeper_id <= run(
                t,
                ops.take(j),
            ).max_keeper_id && run(t, ops.take(i)).max_server_id <= run(
                t,
                ops.take(j),
            ).max_server_id,
{
    lemma_run_bounds(t, ops);
    assert forall|i: int, j: int|
        #![trigger run(t, ops.take(i)), run(t, ops.take(j))]
        0 <= i <= j <= ops.len() implies run(t, ops.take(i)).max_keeper_id <= run(
            t,
            ops.take(j),
        ).max_keeper_id && run(t, ops.take(i)).max_server_id <= run(
            t,
            ops.take(j),
        ).max_server_id by {
        lemma_watermarks_between(t, ops, i, j);
    }
}

proof fn lemma_watermarks_between(t: Topology, ops: Seq<MembershipOp>, i: int, j: int)
    requires
        t.wf(),
        has_room(t, ops),
        0 <= i <= j <= ops.len(),
    ensures
        run(t, ops.take(i)).max_keeper_id <= run(t, ops.take(j)).max_keeper_id,
        run(t, ops.take(i)).max_server_id <= run(t, ops.take(j)).max_server_id,
    decreases j - i,
{
    if i < j {
        lemma_watermarks_between(t, ops, i, j - 1);
        lemma_watermarks_step(t, ops, j);
    }
}

/// What checking a record read back from storage gives: the record itself
/// when it keeps the ID rules, nothing otherwise.
pub open spec fn validated(t: Topology) -> Option<Topology> {
    if t.wf() {
        Some(t)
    } else {
        None
    }
}

/// Reading back what was saved gives the same topology: every topology
/// reachable by additions and removals, empty sets included, passes the
/// check on load unchanged.
pub proof fn lemma_reachable_topology_validates(t: Topology, ops: Seq<MembershipOp>)
    requires
        t.wf(),
        has_room(t, ops),
    ensures
        validated(run(t, ops)) == Some(run(t, ops)),
{
    lemma_run_bounds(t, ops);
}

/// Metadata stored for use by clickward: the live IDs of each kind and the
/// largest ID ever allocated for each kind. IDs are never reused.
#[derive(Debug, Clone)]
pub struct ClickwardMetadata {
    /// IDs of keepers that are currently part of the cluster.
    pub keeper_ids: BTreeSet<u64>,
    /// The maximum allocated keeper ID so far.
    pub max_keeper_id: KeeperId,
    /// IDs of clickhouse servers that are currently part of the cluster.
    pub server_ids: BTreeSet<u64>,
    /// The maximum allocated clickhouse server ID so far.
    pub max_server_id: ServerId,
}

impl View for ClickwardMetadata {
    type V = Topology;

    open spec fn view(&self) -> Topology {
        Topology {
            keeper_ids: self.keeper_ids@,
            max_keeper_id: self.max_keeper_id.0,
            server_ids: self.server_ids@,
            max_server_id: self.max_server_id.0,
        }
    }
}

/// The largest element of `ids`, or `None` when it is empty.
fn last_id(ids: &BTreeSet<u64>) -> (r: Option<u64>)
    ensures
        match r {
            None => ids@.is_empty(),
            Some(m) => is_max(ids@, m),
        },
{
    let v = ids_in_order(ids);
    if v.len() == 0 {
        assert(ids@ =~= Set::<u64>::empty()) by {
            assert forall|x: u64| !ids@.contains(x) by {
                if ids@.contains(x) {
                    assert(v@.to_set().contains(x));
                }
            }
        }
        None
    } else {
        let m = v[v.len() - 1];
        assert(v@.contains(m));
        assert(ids@.contains(m));
        assert forall|x: u64| ids@.contains(x) implies x <= m by {
            assert(v@.to_set().contains(x));
            let j = choose|j: int| 0 <= j < v.len() && v[j] == x;
            if j < v.len() - 1 {
                assert(v[j] < v[v.len() - 1]);
            }
        }
        Some(m)
    }
}

/// Whether every ID in `ids` is positive and at most `max`.
fn check_ids_within(ids: &BTreeSet<u64>, max: u64) -> (b: bool)
    ensures
        b == ids_within(ids@, max),
{
    let v = ids_in_order(ids);
    let mut i: usize = 0;
    while i < v.len()
        invariant
            i <= v.len(),
            v@.to_set() == ids@,
            forall|j: int| 0 <= j < i ==> 0 < #[trigger] v[j] <= max,
        decreases v.len() - i,
    {
        if v[i] == 0 || v[i] > max {
            assert(v@.contains(v[i as int]));
            assert(ids@.contains(v[i as int]));
            return false;
        }
        i += 1;
    }
    assert forall|id: u64| ids@.contains(id) implies 0 < id <= max by {
        assert(v@.to_set().contains(id));
        assert(v@.contains(id));
    }
    true
}

impl ClickwardMetadata {
    /// Metadata for a freshly generated cluster: the watermarks are the
    /// largest IDs given.
    pub fn new(keeper_ids: BTreeSet<u64>, replica_ids: BTreeSet<u64>) -> (r: ClickwardMetadata)
        requires
            !keeper_ids@.is_empty(),
            !replica_ids@.is_empty(),
            forall|id: u64| keeper_ids@.contains(id) ==> id > 0,
            forall|id: u64| replica_ids@.contains(id) ==> id > 0,
        ensures
            r.keeper_ids@ == keeper_ids@,
            r.server_ids@ == replica_ids@,
            is_max(keeper_ids@, r.max_keeper_id.0),
            is_max(replica_ids@, r.max_server_id.0),
            r@.wf(),
    {
        let max_keeper_id = last_id(&keeper_ids).unwrap();
        let max_replica_id = last_id(&replica_ids).unwrap();
        ClickwardMetadata {
            keeper_ids,
            max_keeper_id: KeeperId(max_keeper_id),
            server_ids: replica_ids,
            max_server_id: ServerId(max_replica_id),
        }
    }

    /// Allocates the next keeper ID, one above the watermark, and makes it
    /// live.
    pub fn add_keeper(&mut self) -> (id: KeeperId)
        requires
            old(self)@.wf(),
            old(self).max_keeper_id.0 < u64::MAX,
        ensures
            id.0 == old(self).max_keeper_id.0 + 1,
            !old(self)@.keeper_ids.contains(id.0),
            final(self)@ == old(self)@.apply(MembershipOp::AddKeeper),
            final(self)@.wf(),
    {
        self.max_keeper_id = KeeperId(self.max_keeper_id.0 + 1);
        self.keeper_ids.insert(self.max_keeper_id.0);
        self.max_keeper_id
    }

    /// Takes a keeper out of the live set; its ID stays allocated.
    pub fn remove_keeper(&mut self, id: KeeperId) -> (r: Result<(), ClickwardError>)
        ensures
            r is Ok <==> old(self)@.keeper_ids.contains(id.0),
            r is Err ==> r == Err::<(), ClickwardError>(ClickwardError::NoSuchKeeper(id)),
            final(self)@ == old(self)@.apply(MembershipOp::RemoveKeeper(id.0)),
            r is Err ==> final(self)@ == old(self)@,
            old(self)@.wf() ==> final(self)@.wf(),
    {
        let was_removed = self.keeper_ids.remove(&id.0);
        if !was_removed {
            assert(self.keeper_ids@ =~= old(self).keeper_ids@);
            return Err(ClickwardError::NoSuchKeeper(id));
        }
        Ok(())
    }

    /// Allocates the next clickhouse server ID, one above the watermark, and
    /// makes it live.
    pub fn add_server(&mut self) -> (id: ServerId)
        requires
            old(self)@.wf(),
            old(self).max_server_id.0 < u64::MAX,
        ensures
            id.0 == old(self).max_server_id.0 + 1,
            !old(self)@.server_ids.contains(id.0),
            final(self)@ == old(self)@.apply(MembershipOp::AddServer),
            final(self)@.wf(),
    {
        self.max_server_id = ServerId(self.max_server_id.0 + 1);
        self.server_ids.insert(self.max_server_id.0);
        self.max_server_id
    }

    /// Takes a clickhouse server out of the live set; its ID stays
    /// allocated.
    pub fn remove_server(&mut self, id: ServerId) -> (r: Result<(), ClickwardError>)
        ensures
            r is Ok <==> old(self)@.server_ids.contains(id.0),
            r is Err ==> r == Err::<(), ClickwardError>(ClickwardError::NoSuchReplica(id)),
            final(self)@ == old(self)@.apply(MembershipOp::RemoveServer(id.0)),
            r is Err ==> final(self)@ == old(self)@,
            old(self)@.wf() ==> final(self)@.wf(),
    {
        let was_removed = self.server_ids.remove(&id.0);
        if !was_removed {
            assert(self.server_ids@ =~= old(self).server_ids@);
            return Err(ClickwardError::NoSuchReplica(id));
        }
        Ok(())
    }

    /// Accepts metadata read back from storage when it keeps the ID rules,
    /// and reports it as corrupt otherwise.
    pub fn validate(self) -> (r: Result<ClickwardMetadata, ClickwardError>)
        ensures
            r is Ok <==> validated(self@) is Some,
            r matches Ok(m) ==> validated(self@) == Some(m@),
            r is Err ==> r == Err::<ClickwardMetadata, ClickwardError>(
                ClickwardError::CorruptMetadata,
            ),
    {
        if check_ids_within(&self.keeper_ids, self.max_keeper_id.0) && check_ids_within(
            &self.server_ids,
            self.max_server_id.0,
        ) {
            Ok(self)
        } else {
            Err(ClickwardError::CorruptMetadata)
        }
    }
}

} // verus!
