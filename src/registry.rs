//! The registry of live sessions, keyed by the transport endpoint of each
//! connection. Callers share one registry behind a lock held only across a
//! single insert, remove or count.
use vstd::prelude::*;

use std::collections::HashMap;

use crate::shard::ShardInfo;

verus! {

broadcast use vstd::std_specs::hash::group_hash_axioms;

/// What the server knows of one live connection.
#[derive(Debug, Clone)]
pub struct ConnectionInfo {
    pub session_id: String,
    pub shard: Option<ShardInfo>,
}

/// Live connections, one entry per open session.
pub struct SessionRegistry {
    sessions: HashMap<u64, ConnectionInfo>,
}

impl View for SessionRegistry {
    type V = Map<u64, ConnectionInfo>;

    closed spec fn view(&self) -> Map<u64, ConnectionInfo> {
        self.sessions@
    }
}

impl SessionRegistry {
    pub fn new() -> (r: SessionRegistry)
        ensures
            r@ == Map::<u64, ConnectionInfo>::empty(),
    {
        SessionRegistry { sessions: HashMap::new() }
    }

    /// Records the connection at `endpoint`.
    pub fn insert(&mut self, endpoint: u64, info: ConnectionInfo)
        ensures
            final(self)@ == old(self)@.insert(endpoint, info),
    {
        self.sessions.insert(endpoint, info);
    }

    /// Forgets the connection at `endpoint`; tells whether it was there.
    pub fn remove(&mut self, endpoint: u64) -> (r: bool)
        ensures
            final(self)@ == old(self)@.remove(endpoint),
            r == old(self)@.contains_key(endpoint),
    {
        self.sessions.remove(&endpoint).is_some()
    }

    pub fn contains(&self, endpoint: u64) -> (r: bool)
        ensures
            r == self@.contains_key(endpoint),
    {
        self.sessions.contains_key(&endpoint)
    }

    pub fn get(&self, endpoint: u64) -> (r: Option<&ConnectionInfo>)
        ensures
            match r {
                Some(info) => self@.contains_key(endpoint) && self@[endpoint] == *info,
                None => !self@.contains_key(endpoint),
            },
    {
        self.sessions.get(&endpoint)
    }

    /// The number of live connections.
    pub fn len(&self) -> (r: usize)
        ensures
            r == self@.len(),
    {
        self.sessions.len()
    }
}

/// One mutation of the registry, as performed under its lock.
pub enum RegistryOp {
    Connect(u64, ConnectionInfo),
    Disconnect(u64),
}

/// The registry after `ops`, applied in order to `start`.
pub open spec fn replay(start: Map<u64, ConnectionInfo>, ops: Seq<RegistryOp>) -> Map<u64, ConnectionInfo>
    decreases ops.len(),
{
    if ops.len() == 0 {
        start
    } else {
        let m = replay(start, ops.drop_last());
        match ops.last() {
            RegistryOp::Connect(k, info) => m.insert(k, info),
            RegistryOp::Disconnect(k) => m.remove(k),
        }
    }
}

/// Every connect is of an endpoint with no live entry, and every disconnect
/// removes a live one: each connection is inserted once and removed at most once.
pub open spec fn well_formed_history(ops: Seq<RegistryOp>) -> bool
    decreases ops.len(),
{
    ops.len() == 0 || {
        &&& well_formed_history(ops.drop_last())
        &&& match ops.last() {
            RegistryOp::Connect(k, _) => !replay(Map::empty(), ops.drop_last()).contains_key(k),
            RegistryOp::Disconnect(k) => replay(Map::empty(), ops.drop_last()).contains_key(k),
        }
    }
}

pub open spec fn connects(ops: Seq<RegistryOp>) -> nat
    decreases ops.len(),
{
    if ops.len() == 0 {
        0
    } else {
        connects(ops.drop_last()) + if ops.last() is Connect { 1nat } else { 0nat }
    }
}

pub open spec fn disconnects(ops: Seq<RegistryOp>) -> nat
    decreases ops.len(),
{
    if ops.len() == 0 {
        0
    } else {
        disconnects(ops.drop_last()) + if ops.last() is Disconnect { 1nat } else { 0nat }
    }
}

/// The endpoint an operation is about.
pub open spec fn op_endpoint(op: RegistryOp) -> u64 {
    match op {
        RegistryOp::Connect(k, _) => k,
        RegistryOp::Disconnect(k) => k,
    }
}

/// Some connect of `k` in `ops` is followed by no disconnect of `k`.
pub open spec fn still_connected(ops: Seq<RegistryOp>, k: u64) -> bool {
    exists|i: int|
        0 <= i < ops.len() && ops[i] is Connect && op_endpoint(ops[i]) == k && forall|j: int|
            i < j < ops.len() ==> !(#[trigger] ops[j] is Disconnect && op_endpoint(ops[j]) == k)
}

/// After any sequence of connects and disconnects, the registry holds exactly
/// the endpoints that connected and have not disconnected since.
pub proof fn lemma_live_endpoints(ops: Seq<RegistryOp>)
    ensures
        forall|k: u64| #[trigger] replay(Map::empty(), ops).contains_key(k) <==> still_connected(ops, k),
    decreases ops.len(),
{
    if ops.len() > 0 {
        let prev = ops.drop_last();
        let n = ops.len() - 1;
        lemma_live_endpoints(prev);
        let last = ops.last();
        let k0 = op_endpoint(last);
        let m = replay(Map::<u64, ConnectionInfo>::empty(), prev);
        assert(replay(Map::empty(), ops) == match last {
            RegistryOp::Connect(k, info) => m.insert(k, info),
            RegistryOp::Disconnect(k) => m.remove(k),
        });
        assert forall|k: u64| #[trigger] replay(Map::empty(), ops).contains_key(k) <==> still_connected(ops, k) by {
            assert(m.contains_key(k) <==> still_connected(prev, k));
            if k == k0 {
                if last is Connect {
                    assert(forall|j: int| n < j < ops.len() ==> !(#[trigger] ops[j] is Disconnect && op_endpoint(ops[j]) == k));
                    assert(still_connected(ops, k));
                } else {
                    if still_connected(ops, k) {
                        let i = choose|i: int|
                            0 <= i < ops.len() && ops[i] is Connect && op_endpoint(ops[i]) == k && forall|j: int|
                                i < j < ops.len() ==> !(#[trigger] ops[j] is Disconnect && op_endpoint(ops[j]) == k);
                        assert(i < n);
                        assert(ops[n] is Disconnect && op_endpoint(ops[n]) == k);
                    }
                }
            } else {
                if still_connected(prev, k) {
                    let i = choose|i: int|
                        0 <= i < prev.len() && prev[i] is Connect && op_endpoint(prev[i]) == k && forall|j: int|
                            i < j < prev.len() ==> !(#[trigger] prev[j] is Disconnect && op_endpoint(prev[j]) == k);
                    assert(ops[i] == prev[i]);
                    assert forall|j: int| i < j < ops.len() implies !(#[trigger] ops[j] is Disconnect && op_endpoint(ops[j]) == k) by {
                        if j < n {
                            assert(ops[j] == prev[j]);
                        }
                    }
                    assert(still_connected(ops, k));
                }
                if still_connected(ops, k) {
                    let i = choose|i: int|
                        0 <= i < ops.len() && ops[i] is Connect && op_endpoint(ops[i]) == k && forall|j: int|
                            i < j < ops.len() ==> !(#[trigger] ops[j] is Disconnect && op_endpoint(ops[j]) == k);
                    assert(i < n);
                    assert(prev[i] == ops[i]);
                    assert forall|j: int| i < j < prev.len() implies !(#[trigger] prev[j] is Disconnect && op_endpoint(prev[j]) == k) by {
                        assert(ops[j] == prev[j]);
                    }
                    assert(still_connected(prev, k));
                }
            }
        }
    }
}

/// Whatever the interleaving of N connects and M disconnects, once all of
/// them have been applied the registry holds exactly N - M live connections.
pub proof fn lemma_live_count(ops: Seq<RegistryOp>)
    requires
        well_formed_history(ops),
    ensures
        disconnects(ops) <= connects(ops),
        replay(Map::empty(), ops).len() == connects(ops) - disconnects(ops),
        replay(Map::empty(), ops).dom().finite(),
    decreases ops.len(),
{
    if ops.len() > 0 {
        let prev = ops.drop_last();
        lemma_live_count(prev);
        let m = replay(Map::<u64, ConnectionInfo>::empty(), prev);
        match ops.last() {
            RegistryOp::Connect(k, info) => {
                assert(m.insert(k, info).dom() =~= m.dom().insert(k));
            },
            RegistryOp::Disconnect(k) => {
                assert(m.remove(k).dom() =~= m.dom().remove(k));
            },
        }
    }
}

} // verus!
