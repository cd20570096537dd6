//! The in-memory model of the node cluster: node identities, addresses,
//! directed peer edges, and the per-node startup facts (self-check passed,
//! identity resolved). Also the two topology builders: explicit adjacency
//! and randomized k-regular sampling.

use vstd::prelude::*;

use rand::Rng;

use crate::text::{account_reply_matches, addr_matches};

verus! {

/// Largest supported cluster: node `id` listens on port `PORT_BASE + id`,
/// which must stay a valid TCP port.
pub const MAX_NODES: usize = 62535;

/// A configuration rejected before any process is spawned.
#[derive(Clone, Copy, Debug, PartialEq, Eq, Structural)]
pub enum ConfigError {
    /// More sealers than nodes.
    TooManySealers,
    /// More nodes than `MAX_NODES`.
    TooManyNodes,
    /// The persisted address list does not have one address per node.
    AddressCountMismatch,
    /// Random topology with `peer_count` larger than `node_count - 1`.
    TooManyPeers,
    /// Explicit topology without a row for every node.
    AdjacencyTooShort,
    /// Explicit topology naming a peer id outside the cluster.
    BadPeerId,
}

/// A second identity resolution was attempted on one node.
#[derive(Clone, Copy, Debug, PartialEq, Eq, Structural)]
pub enum IdentityError {
    AlreadyResolved,
}

/// One supervised node: stable id, expected wallet address, outgoing peer
/// edges, and the startup facts established so far.
pub struct Node {
    /// Stable 0-based index, equal to the node's position in the cluster.
    pub id: usize,
    /// Expected wallet address, externally generated.
    pub address: String,
    /// Outgoing peer edges, as ids into the cluster's node list.
    pub peers: Vec<usize>,
    /// Whether the process was spawned and its startup self-check passed.
    pub started: bool,
    /// Identity handle (connection descriptor), present only after one
    /// successful resolution.
    pub enode: Option<String>,
}

/// The ordered node list (index = id) and the sealer prefix.
pub struct Cluster {
    pub nodes: Vec<Node>,
    /// The first `sealer_count` nodes are authorized to produce blocks.
    pub sealer_count: usize,
}

impl Cluster {
    pub open spec fn len(&self) -> int {
        self.nodes@.len() as int
    }

    /// Structural invariant of the cluster model.
    pub open spec fn wf(&self) -> bool {
        &&& self.nodes@.len() <= MAX_NODES
        &&& self.sealer_count <= self.nodes@.len()
        &&& forall|i: int| 0 <= i < self.len() ==> (#[trigger] self.nodes@[i]).id == i
        &&& forall|i: int, j: int|
            0 <= i < self.len() && 0 <= j < self.nodes@[i].peers@.len()
                ==> (#[trigger] self.nodes@[i].peers@[j]) < self.nodes@.len()
        &&& forall|i: int|
            0 <= i < self.len() && (#[trigger] self.nodes@[i]).enode is Some
                ==> self.nodes@[i].started
    }

    /// Whether no topology has been built yet.
    pub open spec fn no_edges(&self) -> bool {
        forall|i: int| 0 <= i < self.len() ==> (#[trigger] self.nodes@[i]).peers@.len() == 0
    }

    /// Whether every node's identity handle is resolved.
    pub open spec fn all_resolved(&self) -> bool {
        forall|i: int| 0 <= i < self.len() ==> (#[trigger] self.nodes@[i]).enode is Some
    }

    /// Whether every node below `m` has a resolved identity handle.
    pub open spec fn resolved_below(&self, m: int) -> bool {
        forall|j: int| 0 <= j < m ==> (#[trigger] self.nodes@[j]).enode is Some
    }

    /// Whether no node at or above `m` has been started.
    pub open spec fn unstarted_from(&self, m: int) -> bool {
        forall|j: int| m <= j < self.len() ==> !(#[trigger] self.nodes@[j]).started
    }

    /// Builds the cluster from the persisted address list, ordered as the
    /// nodes were created. No process has run: no edges, nothing started.
    pub fn new(addresses: Vec<String>, sealer_count: usize) -> (r: Result<Cluster, ConfigError>)
        ensures
            match r {
                Ok(c) => {
                    &&& sealer_count <= addresses@.len() <= MAX_NODES
                    &&& c.wf()
                    &&& c.no_edges()
                    &&& c.sealer_count == sealer_count
                    &&& c.nodes@.len() == addresses@.len()
                    &&& forall|i: int|
                        0 <= i < addresses@.len() ==> (#[trigger] c.nodes@[i]).address
                            == addresses@[i] && c.nodes@[i].enode is None
                            && !c.nodes@[i].started
                },
                Err(ConfigError::TooManyNodes) => addresses@.len() > MAX_NODES,
                Err(ConfigError::TooManySealers) => addresses@.len() <= MAX_NODES && sealer_count
                    > addresses@.len(),
                Err(_) => false,
            },
    {
        if addresses.len() > MAX_NODES {
            return Err(ConfigError::TooManyNodes);
        }
        if sealer_count > addresses.len() {
            return Err(ConfigError::TooManySealers);
        }
        let mut nodes: Vec<Node> = Vec::new();
        let mut i: usize = 0;
        let len = addresses.len();
        while i < len
            invariant
                0 <= i <= len,
                len == addresses@.len(),
                nodes@.len() == i,
                forall|j: int|
                    0 <= j < i ==> (#[trigger] nodes@[j]).id == j && nodes@[j].peers@.len() == 0
                        && nodes@[j].enode is None && !nodes@[j].started && nodes@[j].address
                        == addresses@[j],
            decreases len - i,
        {
            let address = addresses[i].clone();
            nodes.push(Node { id: i, address, peers: Vec::new(), started: false, enode: None });
            i = i + 1;
        }
        Ok(Cluster { nodes, sealer_count })
    }

    /// Records that node `id`'s startup self-check passed: the reply to the
    /// primary-account query matched the expected address up to letter case.
    /// A mismatch is a fatal invariant violation and changes nothing.
    pub fn self_check(&mut self, id: usize, resp: &str) -> (r: bool)
        requires
            old(self).wf(),
            id < old(self).len(),
        ensures
            final(self).wf(),
            r == account_reply_matches(resp@, old(self).nodes@[id as int].address@),
            r ==> final(self).nodes@ == old(self).nodes@.update(
                id as int,
                (Node {
                    started: true,
                    ..old(self).nodes@[id as int]
                }),
            ),
            !r ==> *final(self) == *old(self),
            final(self).sealer_count == old(self).sealer_count,
    {
        let ok = addr_matches(resp, self.nodes[id].address.as_str());
        if ok {
            let mut node = self.nodes.remove(id);
            node.started = true;
            self.nodes.insert(id, node);
            proof {
                assert(self.nodes@ =~= old(self).nodes@.update(
                    id as int,
                    (Node {
                        started: true,
                        ..old(self).nodes@[id as int]
                    }),
                ));
            }
        }
        ok
    }

    /// Stores node `id`'s identity handle. Exactly one resolution is
    /// permitted per node: a second attempt fails fatally and changes
    /// nothing.
    pub fn resolve_identity(&mut self, id: usize, enode: String) -> (r: Result<
        (),
        IdentityError,
    >)
        requires
            old(self).wf(),
            id < old(self).len(),
            old(self).nodes@[id as int].started,
        ensures
            final(self).wf(),
            r is Ok <==> old(self).nodes@[id as int].enode is None,
            r is Ok ==> final(self).nodes@ == old(self).nodes@.update(
                id as int,
                (Node {
                    enode: Some(enode),
                    ..old(self).nodes@[id as int]
                }),
            ),
            r is Err ==> *final(self) == *old(self) && r == Result::<(), IdentityError>::Err(
                IdentityError::AlreadyResolved,
            ),
            final(self).sealer_count == old(self).sealer_count,
    {
        if self.nodes[id].enode.is_some() {
            return Err(IdentityError::AlreadyResolved);
        }
        let mut node = self.nodes.remove(id);
        node.enode = Some(enode);
        self.nodes.insert(id, node);
        proof {
            assert(self.nodes@ =~= old(self).nodes@.update(
                id as int,
                (Node {
                    enode: Some(enode),
                    ..old(self).nodes@[id as int]
                }),
            ));
        }
        Ok(())
    }
}

// ---------------------------------------------------------------------------
// Topology builders
// ---------------------------------------------------------------------------

/// Relies on `rand::Rng::gen_range` over `rand::thread_rng`: a uniform value
/// in `0..=hi`. The range is never empty, so the call cannot panic; nothing
/// more than the bound can be promised of a random value.
#[verifier::external_body]
fn rand_upto(hi: usize) -> (r: usize)
    ensures
        r <= hi,
{
    rand::thread_rng().gen_range(0..=hi)
}

/// The candidate pool for node `cur`: all ids except `cur`, in order.
pub open spec fn pool_init_val(cur: int, j: int) -> int {
    if j < cur {
        j
    } else {
        j + 1
    }
}

/// Chooses `k` distinct ids uniformly without replacement from
/// `[0, n)` minus `cur`, by a partial in-place shuffle over the
/// `n - 1`-candidate pool. Rejects `k > n - 1` as a configuration error.
pub fn sample(k: usize, n: usize, cur: usize) -> (r: Result<Vec<usize>, ConfigError>)
    requires
        cur < n,
    ensures
        r is Ok <==> k + 1 <= n,
        match r {
            Ok(v) => {
                &&& v@.len() == k
                &&& (forall|a: int, b: int| 0 <= a < b < k ==> v@[a] != v@[b])
                &&& (forall|a: int| 0 <= a < k ==> (#[trigger] v@[a]) < n && v@[a] != cur)
            },
            Err(e) => e == ConfigError::TooManyPeers,
        },
{
    if k > n - 1 {
        return Err(ConfigError::TooManyPeers);
    }
    let mut pool: Vec<usize> = Vec::new();
    let mut j: usize = 0;
    while j < n - 1
        invariant
            cur < n,
            0 <= j <= n - 1,
            pool@.len() == j,
            forall|t: int| 0 <= t < j ==> #[trigger] pool@[t] == pool_init_val(cur as int, t),
        decreases n - 1 - j,
    {
        if j < cur {
            pool.push(j);
        } else {
            pool.push(j + 1);
        }
        j = j + 1;
    }
    let len = pool.len();
    let mut i: usize = k;
    while i < len
        invariant
            cur < n,
            k <= i <= len,
            len == n - 1,
            pool@.len() == len,
            forall|t: int| i <= t < len ==> #[trigger] pool@[t] == pool_init_val(cur as int, t),
            // every chosen slot came from the scanned range, whose values lie
            // strictly below the next candidate
            forall|a: int|
                0 <= a < k ==> (#[trigger] pool@[a]) < pool_init_val(cur as int, i as int),
            forall|a: int| 0 <= a < k ==> (#[trigger] pool@[a]) < n && pool@[a] != cur,
            forall|a: int, b: int| 0 <= a < b < k ==> pool@[a] != pool@[b],
        decreases len - i,
    {
        let r = rand_upto(i);
        if r < k {
            let v = pool[i];
            pool[r] = v;
        }
        i = i + 1;
    }
    let ghost pool_full = pool@;
    pool.truncate(k);
    proof {
        assert(pool@ =~= pool_full.take(k as int));
    }
    Ok(pool)
}

/// Copies a list of ids.
pub(crate) fn clone_ids(src: &Vec<usize>) -> (r: Vec<usize>)
    ensures
        r@ == src@,
{
    let mut out: Vec<usize> = Vec::new();
    let mut i: usize = 0;
    let len = src.len();
    while i < len
        invariant
            0 <= i <= len,
            len == src@.len(),
            out@ == src@.take(i as int),
        decreases len - i,
    {
        let v = src[i];
        out.push(v);
        proof {
            assert(src@.take(i + 1 as int) =~= src@.take(i as int).push(v));
        }
        i = i + 1;
    }
    proof {
        assert(src@.take(len as int) =~= src@);
    }
    out
}

impl Cluster {
    /// Replaces node `id`'s peer list (topology construction only).
    fn set_peers(&mut self, id: usize, peers: Vec<usize>)
        requires
            id < old(self).len(),
        ensures
            final(self).nodes@ == old(self).nodes@.update(
                id as int,
                (Node {
                    peers: peers,
                    ..old(self).nodes@[id as int]
                }),
            ),
            final(self).sealer_count == old(self).sealer_count,
    {
        let mut node = self.nodes.remove(id);
        node.peers = peers;
        self.nodes.insert(id, node);
        proof {
            assert(self.nodes@ =~= old(self).nodes@.update(
                id as int,
                (Node {
                    peers: peers,
                    ..old(self).nodes@[id as int]
                }),
            ));
        }
    }

    /// Randomized k-regular topology: each node receives `k` distinct
    /// outgoing edges sampled uniformly from the other ids. Edges are
    /// directed and not symmetrized.
    pub fn connect_random(&mut self, k: usize) -> (r: Result<(), ConfigError>)
        requires
            old(self).wf(),
            old(self).no_edges(),
        ensures
            final(self).wf(),
            final(self).sealer_count == old(self).sealer_count,
            final(self).len() == old(self).len(),
            r is Ok <==> old(self).len() == 0 || k + 1 <= old(self).len(),
            match r {
                Ok(()) => forall|i: int|
                    0 <= i < final(self).len() ==> {
                        let node = #[trigger] final(self).nodes@[i];
                        &&& node.peers@.len() == k
                        &&& (forall|a: int, b: int|
                            0 <= a < b < k ==> node.peers@[a] != node.peers@[b])
                        &&& (forall|a: int|
                            0 <= a < k ==> (#[trigger] node.peers@[a]) < final(self).len()
                                && node.peers@[a] != i)
                        &&& node.id == old(self).nodes@[i].id
                        &&& node.address == old(self).nodes@[i].address
                        &&& node.started == old(self).nodes@[i].started
                        &&& node.enode == old(self).nodes@[i].enode
                    },
                Err(e) => e == ConfigError::TooManyPeers && *final(self) == *old(self),
            },
    {
        let n = self.nodes.len();
        if n == 0 {
            return Ok(());
        }
        if k > n - 1 {
            return Err(ConfigError::TooManyPeers);
        }
        let mut i: usize = 0;
        while i < n
            invariant
                0 <= i <= n,
                k + 1 <= n,
                self.nodes@.len() == n,
                self.sealer_count == old(self).sealer_count,
                self.wf(),
                forall|j: int|
                    i <= j < n ==> #[trigger] self.nodes@[j] == old(self).nodes@[j],
                forall|j: int|
                    0 <= j < i ==> {
                        let node = #[trigger] self.nodes@[j];
                        &&& node.peers@.len() == k
                        &&& (forall|a: int, b: int|
                            0 <= a < b < k ==> node.peers@[a] != node.peers@[b])
                        &&& (forall|a: int|
                            0 <= a < k ==> (#[trigger] node.peers@[a]) < n && node.peers@[a]
                                != j)
                        &&& node.id == old(self).nodes@[j].id
                        &&& node.address == old(self).nodes@[j].address
                        &&& node.started == old(self).nodes@[j].started
                        &&& node.enode == old(self).nodes@[j].enode
                    },
            decreases n - i,
        {
            let pids = match sample(k, n, i) {
                Ok(p) => p,
                Err(_) => {
                    proof {
                        assert(false);
                    }
                    Vec::new()
                },
            };
            self.set_peers(i, pids);
            i = i + 1;
        }
        Ok(())
    }

    /// Explicit topology: node `i` receives exactly the ordered peer list
    /// `adjacency[i]`. Rejects a table without a row per node or one naming
    /// an id outside the cluster, before touching anything.
    pub fn connect_explicit(&mut self, adjacency: &Vec<Vec<usize>>) -> (r: Result<
        (),
        ConfigError,
    >)
        requires
            old(self).wf(),
            old(self).no_edges(),
        ensures
            final(self).wf(),
            final(self).sealer_count == old(self).sealer_count,
            final(self).len() == old(self).len(),
            match r {
                Ok(()) => {
                    &&& adjacency@.len() >= old(self).len()
                    &&& (forall|i: int, j: int|
                        0 <= i < old(self).len() && 0 <= j < adjacency@[i]@.len()
                            ==> (#[trigger] adjacency@[i]@[j]) < old(self).len())
                    &&& (forall|i: int|
                        0 <= i < final(self).len() ==> {
                            let node = #[trigger] final(self).nodes@[i];
                            &&& node.peers@ == adjacency@[i]@
                            &&& node.id == old(self).nodes@[i].id
                            &&& node.address == old(self).nodes@[i].address
                            &&& node.started == old(self).nodes@[i].started
                            &&& node.enode == old(self).nodes@[i].enode
                        })
                },
                Err(ConfigError::AdjacencyTooShort) => adjacency@.len() < old(self).len()
                    && *final(self) == *old(self),
                Err(ConfigError::BadPeerId) => {
                    &&& adjacency@.len() >= old(self).len()
                    &&& (exists|i: int, j: int|
                        0 <= i < old(self).len() && 0 <= j < adjacency@[i]@.len()
                            && (#[trigger] adjacency@[i]@[j]) >= old(self).len())
                    &&& *final(self) == *old(self)
                },
                Err(_) => false,
            },
    {
        let n = self.nodes.len();
        if adjacency.len() < n {
            return Err(ConfigError::AdjacencyTooShort);
        }
        let mut i: usize = 0;
        while i < n
            invariant
                0 <= i <= n,
                n <= adjacency@.len(),
                n == self.nodes@.len(),
                *self == *old(self),
                old(self).wf(),
                forall|x: int, y: int|
                    0 <= x < i && 0 <= y < adjacency@[x]@.len() ==> (#[trigger] adjacency@[x]@[y])
                        < n,
            decreases n - i,
        {
            let row = &adjacency[i];
            proof {
                assert(row@ == adjacency@[i as int]@);
            }
            let rlen = row.len();
            let mut j: usize = 0;
            while j < rlen
                invariant
                    0 <= j <= rlen,
                    0 <= i < n <= adjacency@.len(),
                    row@ == adjacency@[i as int]@,
                    rlen == row@.len(),
                    n == self.nodes@.len(),
                    *self == *old(self),
                    old(self).wf(),
                    forall|y: int| 0 <= y < j ==> (#[trigger] row@[y]) < n,
                decreases rlen - j,
            {
                if row[j] >= n {
                    proof {
                        assert(adjacency@[i as int]@[j as int] >= n);
                    }
                    return Err(ConfigError::BadPeerId);
                }
                j = j + 1;
            }
            proof {
                assert forall|y: int| 0 <= y < adjacency@[i as int]@.len() implies (
                #[trigger] adjacency@[i as int]@[y]) < n by {
                    assert(row@[y] < n);
                }
            }
            i = i + 1;
        }
        let mut i: usize = 0;
        while i < n
            invariant
                0 <= i <= n,
                n <= adjacency@.len(),
                self.nodes@.len() == n,
                self.sealer_count == old(self).sealer_count,
                self.wf(),
                forall|x: int, y: int|
                    0 <= x < n && 0 <= y < adjacency@[x]@.len() ==> (#[trigger] adjacency@[x]@[y])
                        < n,
                forall|j: int|
                    i <= j < n ==> #[trigger] self.nodes@[j] == old(self).nodes@[j],
                forall|j: int|
                    0 <= j < i ==> {
                        let node = #[trigger] self.nodes@[j];
                        &&& node.peers@ == adjacency@[j]@
                        &&& node.id == old(self).nodes@[j].id
                        &&& node.address == old(self).nodes@[j].address
                        &&& node.started == old(self).nodes@[j].started
                        &&& node.enode == old(self).nodes@[j].enode
                    },
            decreases n - i,
        {
            let pids = clone_ids(&adjacency[i]);
            self.set_peers(i, pids);
            i = i + 1;
        }
        Ok(())
    }
}

} // verus!
