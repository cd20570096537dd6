//! Plain configuration values for the two phases. The embedding program
//! parses its configuration file and hands these structs in; the library
//! validates them and never touches the file itself.

use vstd::prelude::*;

verus! {

/// Configuration of the one-time initialization phase.
pub struct InitConfig {
    /// Path of the node binary.
    pub geth_dir: String,
    /// Path of the genesis-wizard binary.
    pub puppeth_dir: String,
    /// Directory that holds every node's data directory.
    pub nodes_dir: String,
    pub node_count: usize,
    pub sealer_count: usize,
    /// File the generated address list is persisted to.
    pub accounts_dir: String,
}

/// How the peer topology is built.
pub enum TopologyConfig {
    /// Every node receives `peer_count` outgoing edges sampled uniformly
    /// from the other ids.
    Random { peer_count: usize },
    /// Node `i` receives exactly the ordered peer list `connection[i]`.
    Explicit { connection: Vec<Vec<usize>> },
}

/// Configuration of the transaction load test.
#[derive(Clone, Copy, PartialEq, Eq, Structural, Debug)]
pub struct TestConfig {
    /// Number of trials; each trial submits one transaction per node.
    pub n: usize,
    /// Length of the measurement window in seconds.
    pub period_secs: u64,
}

/// Configuration of the cluster run phase.
pub struct RunConfig {
    /// Path of the node binary.
    pub geth_dir: String,
    /// Directory that holds every node's data directory.
    pub nodes_dir: String,
    /// File the address list is loaded from.
    pub accounts_dir: String,
    pub node_count: usize,
    pub sealer_count: usize,
    pub topology: TopologyConfig,
    /// Whether the remote bring-up stub runs first.
    pub tee: bool,
    /// Present only when the load test is enabled.
    pub test: Option<TestConfig>,
}

/// Configuration of the remote bring-up stub.
pub struct TeeConfig {
    pub node_count: usize,
    pub ip: String,
    pub username: String,
    pub opensgx_dir: String,
}

} // verus!
