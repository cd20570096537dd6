//! The cluster run as a verified state machine. The orchestrator owns the
//! cluster model and decides, one step at a time, which action the embedder
//! performs next: spawn a node, exchange one console command, check the
//! load-test deadline, sleep, or stop. The embedder performs the action and
//! feeds the outcome back as an event.
//!
//! The run follows the node startup sequence: every node is spawned,
//! self-checked and identity-resolved before any peering command is issued;
//! peering precedes mining; mining commands go to sealers only; the optional
//! load test submits ring-ordered transactions under a deadline and reports
//! counter deltas over a constant measurement window.

use vstd::prelude::*;

use crate::cluster::{clone_ids, Cluster, ConfigError, Node, MAX_NODES};
use crate::config::{RunConfig, TestConfig, TopologyConfig};
use crate::text::{
    account_reply_matches, dec_str, dec_val, ipc_path, ipc_path_view, is_count, node_dir,
    node_dir_view, parse_usize, u64_to_string, usize_to_string,
};
use crate::{NETWORK_ID, PORT_BASE};

verus! {

// ---------------------------------------------------------------------------
// Events, actions, errors
// ---------------------------------------------------------------------------

/// What the embedder reports back after performing the previous action.
#[derive(Debug)]
pub enum Event {
    /// The run begins (first step only).
    Start,
    /// The node process was spawned.
    Spawned,
    /// The startup prompt was consumed.
    Prompt,
    /// The trimmed response to the command that was sent.
    Reply(String),
    /// Whether the load-test deadline had passed at the check.
    DeadlineChecked(bool),
    /// The sleep until the deadline finished.
    Slept,
}

/// The measured outcome of the load test.
#[derive(Debug)]
pub struct LoadReport {
    /// Per-node transaction counters before the submission loop.
    pub before: Vec<usize>,
    /// Per-node transaction counters after the measurement window.
    pub after: Vec<usize>,
    /// Per-node counter deltas.
    pub deltas: Vec<usize>,
    /// Sum of the deltas.
    pub total: usize,
}

/// What the embedder must perform next.
#[derive(Debug)]
pub enum Action {
    /// Spawn node `id` with the arguments of [`Orchestrator::node_args`],
    /// then report [`Event::Spawned`].
    Spawn { id: usize },
    /// Consume node `id`'s startup prompt, then report [`Event::Prompt`].
    AwaitPrompt { id: usize },
    /// Send `cmd` to node `id` and report the trimmed response: the
    /// startup self-check query for the primary account.
    QueryAccount { id: usize, cmd: String },
    /// Send `cmd` to node `id` and report the trimmed response: the
    /// identity-resolution query.
    QueryEnode { id: usize, cmd: String },
    /// Send `cmd` to node `id` and report the response: the peering command
    /// carrying `peer`'s identity handle.
    AddPeer { id: usize, peer: usize, cmd: String },
    /// Send `cmd` to sealer `id` and report the response: start mining.
    StartMining { id: usize, cmd: String },
    /// Send `cmd` to sealer `id` and report the response: one of the three
    /// post-mining diagnostic queries.
    MinerDiag { id: usize, step: usize, cmd: String },
    /// Send `cmd` to node `id` and report the response: the transaction
    /// counter query.
    QueryTxCount { id: usize, cmd: String },
    /// Send `cmd` to node `from` and report the response: submit one
    /// transaction to `to` with the given nonce.
    SendTx { from: usize, to: usize, nonce: usize, cmd: String },
    /// Report whether the load-test deadline has passed.
    CheckDeadline,
    /// Sleep until the deadline, then report [`Event::Slept`].
    SleepUntilDeadline,
    /// No load test: keep the processes alive indefinitely.
    Idle,
    /// The load test finished; its report.
    Report(LoadReport),
}

/// A fatal run failure: the whole orchestration aborts.
#[derive(Clone, Copy, Debug, PartialEq, Eq, Structural)]
pub enum RunError {
    /// The embedder reported an event the current phase cannot accept.
    UnexpectedEvent,
    /// The startup self-check failed: the node's primary account differs
    /// from its expected address.
    AddressMismatch { id: usize },
    /// A transaction counter came back in a shape that is not a count.
    BadTxCount { id: usize },
    /// A node's counter decreased over the measurement window.
    CounterRegressed { id: usize },
    /// The summed deltas exceed the machine's integer range.
    TotalOverflow,
    /// The machine already failed; no further step is accepted.
    Halted,
}

// ---------------------------------------------------------------------------
// Command texts
// ---------------------------------------------------------------------------

/// View of the peering command carrying an identity handle.
pub open spec fn add_peer_view(enode: Seq<char>) -> Seq<char> {
    "admin.addPeer(\""@ + enode + "\")"@
}

fn add_peer_cmd(enode: &str) -> (r: String)
    ensures
        r@ == add_peer_view(enode@),
{
    let mut s = String::from_str("admin.addPeer(\"");
    s.append(enode);
    s.append("\")");
    s
}

/// View of the transaction-submission command: a fixed synthetic transfer
/// from `from` to `to` under the given nonce.
pub open spec fn send_tx_view(from: Seq<char>, to: Seq<char>, nonce: nat) -> Seq<char> {
    "eth.sendTransaction({from:\""@ + from + "\", to:\""@ + to + "\", nonce: \""@ + dec_str(nonce)
        + "\", value:web3.toWei(1e+45, \"ether\")})"@
}

fn send_tx_cmd(from: &str, to: &str, nonce: usize) -> (r: String)
    ensures
        r@ == send_tx_view(from@, to@, nonce as nat),
{
    let mut s = String::from_str("eth.sendTransaction({from:\"");
    s.append(from);
    s.append("\", to:\"");
    s.append(to);
    s.append("\", nonce: \"");
    let n = usize_to_string(nonce);
    s.append(n.as_str());
    s.append("\", value:web3.toWei(1e+45, \"ether\")})");
    s
}

/// View of the mining-activation command and the three diagnostic queries
/// that follow it.
pub open spec fn mining_cmd_view(ci: int) -> Seq<char> {
    if ci == 0 {
        "miner.start()"@
    } else if ci == 1 {
        "clique.getSigners()"@
    } else if ci == 2 {
        "eth.accounts[0]"@
    } else {
        "admin.peers"@
    }
}

fn mining_cmd(ci: usize) -> (r: String)
    requires
        ci < 4,
    ensures
        r@ == mining_cmd_view(ci as int),
{
    if ci == 0 {
        String::from_str("miner.start()")
    } else if ci == 1 {
        String::from_str("clique.getSigners()")
    } else if ci == 2 {
        String::from_str("eth.accounts[0]")
    } else {
        String::from_str("admin.peers")
    }
}

/// View of the arguments every node process is spawned with.
pub open spec fn spawn_args_view(nodes_dir: Seq<char>, id: nat, address: Seq<char>) -> Seq<
    Seq<char>,
> {
    seq![
        "--datadir="@ + node_dir_view(nodes_dir, id),
        "--networkid="@ + dec_str(NETWORK_ID as nat),
        "--port="@ + dec_str((PORT_BASE + id) as nat),
        "console"@,
        "--ipcpath="@ + ipc_path_view(id),
        "--unlock="@ + address,
        "--password=password"@,
    ]
}

// ---------------------------------------------------------------------------
// Delta report
// ---------------------------------------------------------------------------

/// Sum of a sequence of counters.
pub open spec fn sum_seq(s: Seq<usize>) -> int
    decreases s.len(),
{
    if s.len() == 0 {
        0
    } else {
        sum_seq(s.drop_last()) + s.last()
    }
}

pub proof fn lemma_sum_seq_prefix(s: Seq<usize>, i: int)
    requires
        0 <= i <= s.len(),
    ensures
        sum_seq(s) >= sum_seq(s.subrange(0, i)) >= 0,
    decreases s.len() - i,
{
    if i == s.len() {
        assert(s.subrange(0, i) =~= s);
        lemma_sum_seq_nonneg(s);
    } else {
        let t = s.subrange(0, i + 1);
        assert(t.drop_last() =~= s.subrange(0, i));
        lemma_sum_seq_prefix(s, i + 1);
        lemma_sum_seq_nonneg(s.subrange(0, i));
    }
}

pub proof fn lemma_sum_seq_nonneg(s: Seq<usize>)
    ensures
        sum_seq(s) >= 0,
    decreases s.len(),
{
    if s.len() > 0 {
        lemma_sum_seq_nonneg(s.drop_last());
    }
}

/// A correct load report over the two counter readings.
pub open spec fn report_ok(before: Seq<usize>, after: Seq<usize>, rep: LoadReport) -> bool {
    &&& rep.before@ == before
    &&& rep.after@ == after
    &&& after.len() == before.len()
    &&& rep.deltas@.len() == before.len()
    &&& (forall|i: int|
        0 <= i < before.len() ==> after[i] >= before[i] && (#[trigger] rep.deltas@[i]) == after[i]
            - before[i])
    &&& rep.total == sum_seq(rep.deltas@)
}

/// Whether a report can be formed at all: no counter went backwards and the
/// total fits the machine's integer range.
pub open spec fn report_feasible(before: Seq<usize>, after: Seq<usize>) -> bool {
    &&& after.len() == before.len()
    &&& (forall|i: int| 0 <= i < before.len() ==> (#[trigger] after[i]) >= before[i])
    &&& sum_seq(Seq::new(before.len(), |i: int| (after[i] - before[i]) as usize)) <= usize::MAX
}

/// Computes the per-node deltas and their total from the two readings.
pub fn make_report(before: &Vec<usize>, after: &Vec<usize>) -> (r: Result<LoadReport, RunError>)
    requires
        before@.len() == after@.len(),
    ensures
        r is Ok <==> report_feasible(before@, after@),
        match r {
            Ok(rep) => report_ok(before@, after@, rep),
            Err(RunError::CounterRegressed { id }) => id < before@.len() && after@[id as int]
                < before@[id as int],
            Err(RunError::TotalOverflow) => sum_seq(
                Seq::new(before@.len(), |i: int| (after@[i] - before@[i]) as usize),
            ) > usize::MAX,
            Err(_) => false,
        },
{
    let ghost dv = Seq::new(before@.len(), |i: int| (after@[i] - before@[i]) as usize);
    let len = before.len();
    let mut deltas: Vec<usize> = Vec::new();
    let mut total: usize = 0;
    let mut i: usize = 0;
    while i < len
        invariant
            0 <= i <= len,
            len == before@.len() == after@.len(),
            deltas@.len() == i,
            forall|j: int| 0 <= j < i ==> (#[trigger] after@[j]) >= before@[j],
            forall|j: int| 0 <= j < i ==> (#[trigger] deltas@[j]) == after@[j] - before@[j],
            deltas@ =~= dv.subrange(0, i as int),
            dv == Seq::new(before@.len(), |j: int| (after@[j] - before@[j]) as usize),
            total == sum_seq(deltas@),
        decreases len - i,
    {
        let b = before[i];
        let a = after[i];
        if a < b {
            return Err(RunError::CounterRegressed { id: i });
        }
        let d = a - b;
        if total > usize::MAX - d {
            proof {
                assert(deltas@.push(d) =~= dv.subrange(0, i + 1));
                assert(sum_seq(dv.subrange(0, i + 1)) == total + d) by {
                    assert(dv.subrange(0, i + 1).drop_last() =~= deltas@);
                }
                lemma_sum_seq_prefix(dv, i + 1);
            }
            return Err(RunError::TotalOverflow);
        }
        deltas.push(d);
        proof {
            assert(deltas@.drop_last() =~= dv.subrange(0, i as int));
            assert(deltas@ =~= dv.subrange(0, i + 1));
        }
        total = total + d;
        i = i + 1;
    }
    proof {
        assert(dv.subrange(0, len as int) =~= dv);
    }
    Ok(LoadReport { before: clone_ids(before), after: clone_ids(after), deltas, total })
}

/// Copies a report (needed because the report is handed out by value).
pub fn clone_report(rep: &LoadReport) -> (r: LoadReport)
    ensures
        r.before@ == rep.before@,
        r.after@ == rep.after@,
        r.deltas@ == rep.deltas@,
        r.total == rep.total,
{
    LoadReport {
        before: clone_ids(&rep.before),
        after: clone_ids(&rep.after),
        deltas: clone_ids(&rep.deltas),
        total: rep.total,
    }
}

// ---------------------------------------------------------------------------
// Phases and transitions
// ---------------------------------------------------------------------------

/// Where the run stands: each phase awaits the event that answers the action
/// it emitted.
#[derive(Clone, Copy, Debug, PartialEq, Eq, Structural)]
pub enum Phase {
    /// Nothing has happened yet.
    Start,
    /// Node `id` is being spawned.
    Spawning { id: usize },
    /// Node `id`'s startup prompt is being consumed.
    Prompting { id: usize },
    /// Node `id`'s startup self-check is in flight.
    Checking { id: usize },
    /// Node `id`'s identity resolution is in flight.
    Resolving { id: usize },
    /// The peering command for edge `id -> peers[id][pi]` is in flight.
    Peering { id: usize, pi: usize },
    /// Mining command `ci` for sealer `id` is in flight.
    Mining { id: usize, ci: usize },
    /// The pre-test counter query for node `id` is in flight.
    CountBefore { id: usize },
    /// The deadline is being checked before trial `trial`.
    DeadlineCheck { trial: usize },
    /// The transaction of trial `trial` from node `id` is in flight.
    Sending { trial: usize, id: usize },
    /// Waiting for the measurement window to elapse.
    Sleeping,
    /// The post-test counter query for node `id` is in flight.
    CountAfter { id: usize },
    /// The load test finished; the report stands.
    Reported,
    /// No load test: the cluster idles indefinitely.
    Idle,
    /// A fatal error occurred; the run is over.
    Failed,
}

/// Whether the `t`-th trial runs or the submission loop is over.
pub open spec fn trial_entry(tn: int, t: int) -> Phase {
    if t < tn {
        Phase::DeadlineCheck { trial: t as usize }
    } else {
        Phase::Sleeping
    }
}

/// First phase after mining: the load test when configured, else idling.
pub open spec fn test_entry(test: Option<TestConfig>, n: int) -> Phase {
    if test is None {
        Phase::Idle
    } else if n > 0 {
        Phase::CountBefore { id: 0 }
    } else {
        trial_entry(test->0.n as int, 0)
    }
}

/// Next mining phase at sealer `s`, or past mining when sealers are done.
pub open spec fn mining_entry(c: Cluster, test: Option<TestConfig>, s: int) -> Phase {
    if s < c.sealer_count {
        Phase::Mining { id: s as usize, ci: 0 }
    } else {
        test_entry(test, c.len())
    }
}

/// Next peering phase at or after edge `(id, pi)`, skipping nodes without
/// remaining edges, or past peering when every edge is realized.
pub open spec fn peering_entry(c: Cluster, test: Option<TestConfig>, id: int, pi: int) -> Phase
    decreases c.len() - id when 0 <= id <= c.len()
{
    if id >= c.len() {
        mining_entry(c, test, 0)
    } else if pi < c.nodes@[id].peers@.len() {
        Phase::Peering { id: id as usize, pi: pi as usize }
    } else {
        peering_entry(c, test, id + 1, 0)
    }
}

/// Next boot phase at node `id`, or past booting when every node is up.
pub open spec fn boot_entry(c: Cluster, test: Option<TestConfig>, id: int) -> Phase {
    if id < c.len() {
        Phase::Spawning { id: id as usize }
    } else {
        peering_entry(c, test, 0, 0)
    }
}

/// Every phase `peering_entry` can land on, with its reach conditions.
proof fn lemma_peering_entry_props(c: Cluster, test: Option<TestConfig>, id: int, pi: int)
    requires
        0 <= id <= c.len(),
        0 <= pi <= usize::MAX,
        c.len() <= usize::MAX,
    ensures
        (peering_entry(c, test, id, pi) matches Phase::Peering { id: i, pi: q } && id <= i
            < c.len() && (q as int) < c.nodes@[i as int].peers@.len()) || peering_entry(
            c,
            test,
            id,
            pi,
        ) == mining_entry(c, test, 0),
    decreases c.len() - id,
{
    if id >= c.len() {
        assert(peering_entry(c, test, id, pi) == mining_entry(c, test, 0));
    } else if pi < c.nodes@[id].peers@.len() {
        assert(peering_entry(c, test, id, pi) == (Phase::Peering {
            id: id as usize,
            pi: pi as usize,
        }));
    } else {
        lemma_peering_entry_props(c, test, id + 1, 0);
        assert(peering_entry(c, test, id, pi) == peering_entry(c, test, id + 1, 0));
    }
}

fn trial_entry_exec(tn: usize, t: usize) -> (p: Phase)
    ensures
        p == trial_entry(tn as int, t as int),
{
    if t < tn {
        Phase::DeadlineCheck { trial: t }
    } else {
        Phase::Sleeping
    }
}

fn test_entry_exec(test: &Option<TestConfig>, n: usize) -> (p: Phase)
    ensures
        p == test_entry(*test, n as int),
{
    match test {
        None => Phase::Idle,
        Some(tc) => {
            if n > 0 {
                Phase::CountBefore { id: 0 }
            } else {
                trial_entry_exec(tc.n, 0)
            }
        },
    }
}

fn mining_entry_exec(c: &Cluster, test: &Option<TestConfig>, s: usize) -> (p: Phase)
    ensures
        p == mining_entry(*c, *test, s as int),
{
    if s < c.sealer_count {
        Phase::Mining { id: s, ci: 0 }
    } else {
        test_entry_exec(test, c.nodes.len())
    }
}

fn peering_entry_exec(c: &Cluster, test: &Option<TestConfig>, id: usize, pi: usize) -> (p: Phase)
    requires
        id <= c.len(),
    ensures
        p == peering_entry(*c, *test, id as int, pi as int),
{
    let n = c.nodes.len();
    let mut i: usize = id;
    let mut q: usize = pi;
    while i < n && q >= c.nodes[i].peers.len()
        invariant
            id <= i <= n,
            n == c.len(),
            peering_entry(*c, *test, id as int, pi as int) == peering_entry(
                *c,
                *test,
                i as int,
                q as int,
            ),
        decreases n - i,
    {
        i = i + 1;
        q = 0;
    }
    if i < n {
        Phase::Peering { id: i, pi: q }
    } else {
        mining_entry_exec(c, test, 0)
    }
}

fn boot_entry_exec(c: &Cluster, test: &Option<TestConfig>, id: usize) -> (p: Phase)
    ensures
        p == boot_entry(*c, *test, id as int),
{
    if id < c.nodes.len() {
        Phase::Spawning { id }
    } else {
        peering_entry_exec(c, test, 0, 0)
    }
}

// ---------------------------------------------------------------------------
// The orchestrator
// ---------------------------------------------------------------------------

/// The run state machine: the cluster model, the run parameters, and the
/// current phase.
pub struct Orchestrator {
    pub cluster: Cluster,
    /// Path of the node binary (used by the embedder to spawn).
    pub geth_dir: String,
    /// Directory that holds every node's data directory.
    pub nodes_dir: String,
    /// Load-test parameters, when the test is enabled.
    pub test: Option<TestConfig>,
    pub phase: Phase,
    /// Per-node counters read before the submission loop.
    pub before: Vec<usize>,
    /// Per-node counters read after the measurement window.
    pub after: Vec<usize>,
    /// The finished report, once the run reaches it.
    pub report: Option<LoadReport>,
}

impl Orchestrator {
    pub open spec fn n(&self) -> int {
        self.cluster.len()
    }

    /// Number of load-test trials (meaningful only when the test is on).
    pub open spec fn tn(&self) -> int {
        self.test->0.n as int
    }

    /// What must hold of the state in each phase.
    pub open spec fn phase_wf(self) -> bool {
        match self.phase {
            Phase::Start => self.cluster.unstarted_from(0) && self.counts_empty(),
            Phase::Spawning { id } => id < self.n() && self.cluster.resolved_below(id as int)
                && self.cluster.unstarted_from(id as int) && self.counts_empty(),
            Phase::Prompting { id } => id < self.n() && self.cluster.resolved_below(id as int)
                && self.cluster.unstarted_from(id as int) && self.counts_empty(),
            Phase::Checking { id } => id < self.n() && self.cluster.resolved_below(id as int)
                && self.cluster.unstarted_from(id as int) && self.counts_empty(),
            Phase::Resolving { id } => id < self.n() && self.cluster.resolved_below(id as int)
                && self.cluster.nodes@[id as int].started && self.cluster.nodes@[id as int].enode
                is None && self.cluster.unstarted_from(id + 1) && self.counts_empty(),
            Phase::Peering { id, pi } => self.cluster.all_resolved() && id < self.n() && (
            pi as int) < self.cluster.nodes@[id as int].peers@.len() && self.counts_empty(),
            Phase::Mining { id, ci } => self.cluster.all_resolved() && id
                < self.cluster.sealer_count && ci < 4 && self.counts_empty(),
            Phase::CountBefore { id } => self.cluster.all_resolved() && self.test is Some && id
                < self.n() && self.before@.len() == id && self.after@.len() == 0,
            Phase::DeadlineCheck { trial } => self.cluster.all_resolved() && self.test is Some
                && self.before@.len() == self.n() && self.after@.len() == 0 && trial < self.tn(),
            Phase::Sending { trial, id } => self.cluster.all_resolved() && self.test is Some
                && self.before@.len() == self.n() && self.after@.len() == 0 && trial < self.tn()
                && id < self.n(),
            Phase::Sleeping => self.cluster.all_resolved() && self.test is Some
                && self.before@.len() == self.n() && self.after@.len() == 0,
            Phase::CountAfter { id } => self.cluster.all_resolved() && self.test is Some
                && self.before@.len() == self.n() && id < self.n() && self.after@.len() == id,
            Phase::Reported => self.test is Some && self.before@.len() == self.n()
                && self.after@.len() == self.n() && self.report is Some && report_ok(
                self.before@,
                self.after@,
                self.report->0,
            ),
            Phase::Idle => self.test is None,
            Phase::Failed => true,
        }
    }

    pub open spec fn counts_empty(self) -> bool {
        self.before@.len() == 0 && self.after@.len() == 0
    }

    pub open spec fn wf(self) -> bool {
        self.cluster.wf() && self.phase_wf()
    }

    /// The action the current phase has in flight.
    pub open spec fn emits(s: Orchestrator, a: Action) -> bool {
        match s.phase {
            Phase::Start => false,
            Phase::Failed => false,
            Phase::Spawning { id } => a == (Action::Spawn { id }),
            Phase::Prompting { id } => a == (Action::AwaitPrompt { id }),
            Phase::Checking { id } => a matches Action::QueryAccount { id: i, cmd } && i == id
                && cmd@ == "eth.accounts[0]"@,
            Phase::Resolving { id } => a matches Action::QueryEnode { id: i, cmd } && i == id
                && cmd@ == "admin.nodeInfo.enode"@,
            Phase::Peering { id, pi } => a matches Action::AddPeer { id: i, peer, cmd } && i == id
                && peer == s.cluster.nodes@[id as int].peers@[pi as int]
                && s.cluster.nodes@[peer as int].enode is Some && cmd@ == add_peer_view(
                s.cluster.nodes@[peer as int].enode->0@,
            ),
            Phase::Mining { id, ci } => if ci == 0 {
                a matches Action::StartMining { id: i, cmd } && i == id && cmd@ == mining_cmd_view(
                    0,
                )
            } else {
                a matches Action::MinerDiag { id: i, step, cmd } && i == id && step == ci && cmd@
                    == mining_cmd_view(ci as int)
            },
            Phase::CountBefore { id } => a matches Action::QueryTxCount { id: i, cmd } && i == id
                && cmd@ == "eth.getTransactionCount(eth.accounts[0])"@,
            Phase::CountAfter { id } => a matches Action::QueryTxCount { id: i, cmd } && i == id
                && cmd@ == "eth.getTransactionCount(eth.accounts[0])"@,
            Phase::DeadlineCheck { .. } => a == Action::CheckDeadline,
            Phase::Sending { trial, id } => a matches Action::SendTx { from, to, nonce, cmd }
                && from == id && nonce == trial && to as int == (id + 1) % s.n() && cmd@
                == send_tx_view(
                s.cluster.nodes@[id as int].address@,
                s.cluster.nodes@[(id + 1) % s.n()].address@,
                trial as nat,
            ),
            Phase::Sleeping => a == Action::SleepUntilDeadline,
            Phase::Idle => a == Action::Idle,
            Phase::Reported => a matches Action::Report(rep) && s.report is Some && rep.before@
                == s.before@ && rep.after@ == s.after@ && rep.deltas@ == s.report->0.deltas@
                && rep.total == s.report->0.total,
        }
    }

    /// On which events the current phase makes progress: the event kind the
    /// phase awaits and, where the payload is inspected, a payload that
    /// passes its check.
    pub open spec fn step_enabled(self, ev: Event) -> bool {
        match self.phase {
            Phase::Start => ev is Start,
            Phase::Failed => false,
            Phase::Spawning { .. } => ev is Spawned,
            Phase::Prompting { .. } => ev is Prompt,
            Phase::Checking { id } => ev matches Event::Reply(resp) && account_reply_matches(
                resp@,
                self.cluster.nodes@[id as int].address@,
            ),
            Phase::Resolving { .. } => ev is Reply,
            Phase::Peering { .. } => ev is Reply,
            Phase::Mining { .. } => ev is Reply,
            Phase::CountBefore { .. } => ev matches Event::Reply(resp) && is_count(resp@),
            Phase::DeadlineCheck { .. } => ev is DeadlineChecked,
            Phase::Sending { .. } => ev is Reply,
            Phase::Sleeping => ev is Slept,
            Phase::CountAfter { id } => ev matches Event::Reply(resp) && is_count(resp@) && (id + 1
                == self.n() ==> report_feasible(
                self.before@,
                self.after@.push(dec_val(resp@) as usize),
            )),
            Phase::Reported => true,
            Phase::Idle => true,
        }
    }

    /// Which fatal error a non-progressing step reports.
    pub open spec fn err_rel(pre: Orchestrator, ev: Event, e: RunError) -> bool {
        match pre.phase {
            Phase::Failed => e == RunError::Halted,
            Phase::Checking { id } => if ev is Reply {
                e == (RunError::AddressMismatch { id })
            } else {
                e == RunError::UnexpectedEvent
            },
            Phase::CountBefore { id } => if ev is Reply {
                e == (RunError::BadTxCount { id })
            } else {
                e == RunError::UnexpectedEvent
            },
            Phase::CountAfter { id } => if !(ev is Reply) {
                e == RunError::UnexpectedEvent
            } else if !is_count(ev->Reply_0@) {
                e == (RunError::BadTxCount { id })
            } else {
                ||| (e matches RunError::CounterRegressed { id: i } && i < pre.n()
                    && pre.after@.push(dec_val(ev->Reply_0@) as usize)[i as int]
                    < pre.before@[i as int])
                ||| e == RunError::TotalOverflow
            },
            _ => e == RunError::UnexpectedEvent,
        }
    }

    /// How one progressing step changes the state and what it emits.
    pub open spec fn step_ok_rel(pre: Orchestrator, ev: Event, post: Orchestrator, a: Action) -> bool {
        &&& Self::emits(post, a)
        &&& post.geth_dir == pre.geth_dir
        &&& post.nodes_dir == pre.nodes_dir
        &&& post.test == pre.test
        &&& match pre.phase {
            Phase::Start => post.cluster == pre.cluster && post.before == pre.before && post.after
                == pre.after && post.report == pre.report && post.phase == boot_entry(
                pre.cluster,
                pre.test,
                0,
            ),
            Phase::Spawning { id } => post == (Orchestrator {
                phase: Phase::Prompting { id },
                ..pre
            }),
            Phase::Prompting { id } => post == (Orchestrator {
                phase: Phase::Checking { id },
                ..pre
            }),
            Phase::Checking { id } => {
                &&& ev matches Event::Reply(resp)
                &&& post == (Orchestrator {
                    phase: Phase::Resolving { id },
                    cluster: post.cluster,
                    ..pre
                })
                &&& post.cluster.sealer_count == pre.cluster.sealer_count
                &&& post.cluster.nodes@ == pre.cluster.nodes@.update(
                    id as int,
                    (Node { started: true, ..pre.cluster.nodes@[id as int] }),
                )
            },
            Phase::Resolving { id } => {
                &&& ev matches Event::Reply(enode) && post.cluster.nodes@
                    == pre.cluster.nodes@.update(
                    id as int,
                    (Node { enode: Some(enode), ..pre.cluster.nodes@[id as int] }),
                )
                &&& post == (Orchestrator {
                    phase: boot_entry(post.cluster, pre.test, id + 1),
                    cluster: post.cluster,
                    ..pre
                })
                &&& post.cluster.sealer_count == pre.cluster.sealer_count
            },
            Phase::Peering { id, pi } => post == (Orchestrator {
                phase: peering_entry(pre.cluster, pre.test, id as int, pi + 1),
                ..pre
            }),
            Phase::Mining { id, ci } => post == (Orchestrator {
                phase: if ci + 1 < 4 {
                    Phase::Mining { id, ci: (ci + 1) as usize }
                } else {
                    mining_entry(pre.cluster, pre.test, id + 1)
                },
                ..pre
            }),
            Phase::CountBefore { id } => ev matches Event::Reply(resp) && post == (Orchestrator {
                phase: if id + 1 < pre.n() {
                    Phase::CountBefore { id: (id + 1) as usize }
                } else {
                    trial_entry(pre.tn(), 0)
                },
                before: post.before,
                ..pre
            }) && post.before@ == pre.before@.push(dec_val(resp@) as usize),
            Phase::DeadlineCheck { trial } => ev matches Event::DeadlineChecked(expired) && post
                == (Orchestrator {
                phase: if expired {
                    Phase::Sleeping
                } else if pre.n() > 0 {
                    Phase::Sending { trial, id: 0 }
                } else {
                    trial_entry(pre.tn(), trial + 1)
                },
                ..pre
            }),
            Phase::Sending { trial, id } => post == (Orchestrator {
                phase: if id + 1 < pre.n() {
                    Phase::Sending { trial, id: (id + 1) as usize }
                } else {
                    trial_entry(pre.tn(), trial + 1)
                },
                ..pre
            }),
            Phase::Sleeping => if pre.n() > 0 {
                post == (Orchestrator { phase: Phase::CountAfter { id: 0 }, ..pre })
            } else {
                post == (Orchestrator { phase: Phase::Reported, report: post.report, ..pre })
                    && post.report is Some && report_ok(pre.before@, pre.after@, post.report->0)
            },
            Phase::CountAfter { id } => ev matches Event::Reply(resp) && {
                let v = dec_val(resp@) as usize;
                if id + 1 < pre.n() {
                    post == (Orchestrator {
                        phase: Phase::CountAfter { id: (id + 1) as usize },
                        after: post.after,
                        ..pre
                    }) && post.after@ == pre.after@.push(v)
                } else {
                    post == (Orchestrator {
                        phase: Phase::Reported,
                        after: post.after,
                        report: post.report,
                        ..pre
                    }) && post.after@ == pre.after@.push(v) && post.report is Some && report_ok(
                        pre.before@,
                        post.after@,
                        post.report->0,
                    )
                }
            },
            Phase::Reported => post == pre,
            Phase::Idle => post == pre,
            Phase::Failed => false,
        }
    }

    /// The size constraints a run configuration must meet.
    pub open spec fn sizes_ok(cfg: RunConfig, addresses: Seq<String>) -> bool {
        &&& addresses.len() == cfg.node_count
        &&& cfg.node_count <= MAX_NODES
        &&& cfg.sealer_count <= cfg.node_count
    }

    /// Whether the configured topology can be realized on `n` nodes.
    pub open spec fn topology_ok(t: TopologyConfig, n: int) -> bool {
        match t {
            TopologyConfig::Random { peer_count } => n == 0 || peer_count + 1 <= n,
            TopologyConfig::Explicit { connection } => connection@.len() >= n && (forall|
                i: int,
                j: int,
            |
                0 <= i < n && 0 <= j < connection@[i]@.len() ==> (#[trigger] connection@[i]@[j])
                    < n),
        }
    }

    pub open spec fn config_ok(cfg: RunConfig, addresses: Seq<String>) -> bool {
        Self::sizes_ok(cfg, addresses) && Self::topology_ok(cfg.topology, cfg.node_count as int)
    }

    /// Builds the run state machine: the cluster from the persisted address
    /// list (which must hold one address per node, in creation order), the
    /// topology from the configuration, and the load-test parameters.
    /// Every configuration error is rejected before any process could spawn.
    pub fn new(cfg: RunConfig, addresses: Vec<String>) -> (r: Result<Orchestrator, ConfigError>)
        ensures
            r is Ok <==> Self::config_ok(cfg, addresses@),
            match r {
                Ok(o) => {
                    &&& o.wf()
                    &&& o.phase == Phase::Start
                    &&& o.geth_dir == cfg.geth_dir
                    &&& o.nodes_dir == cfg.nodes_dir
                    &&& o.test == cfg.test
                    &&& o.cluster.sealer_count == cfg.sealer_count
                    &&& o.n() == cfg.node_count
                    &&& o.report is None
                    &&& (forall|i: int|
                        0 <= i < o.n() ==> (#[trigger] o.cluster.nodes@[i]).address
                            == addresses@[i] && o.cluster.nodes@[i].enode is None
                            && !o.cluster.nodes@[i].started)
                    &&& (cfg.topology matches TopologyConfig::Explicit { connection }
                        ==> (forall|i: int|
                        0 <= i < o.n() ==> (#[trigger] o.cluster.nodes@[i]).peers@
                            == connection@[i]@))
                    &&& (cfg.topology matches TopologyConfig::Random { peer_count }
                        ==> (forall|i: int|
                        0 <= i < o.n() ==> {
                            let peers = (#[trigger] o.cluster.nodes@[i]).peers@;
                            &&& peers.len() == peer_count
                            &&& (forall|a: int, b: int|
                                0 <= a < b < peers.len() ==> peers[a] != peers[b])
                            &&& (forall|a: int|
                                0 <= a < peers.len() ==> (#[trigger] peers[a]) < o.n()
                                    && peers[a] != i)
                        }))
                },
                Err(ConfigError::AddressCountMismatch) => addresses@.len() != cfg.node_count,
                Err(ConfigError::TooManyNodes) => addresses@.len() == cfg.node_count
                    && cfg.node_count > MAX_NODES,
                Err(ConfigError::TooManySealers) => addresses@.len() == cfg.node_count
                    && cfg.node_count <= MAX_NODES && cfg.sealer_count > cfg.node_count,
                Err(ConfigError::TooManyPeers) => Self::sizes_ok(cfg, addresses@) && (
                cfg.topology matches TopologyConfig::Random { peer_count } && cfg.node_count > 0
                    && peer_count + 1 > cfg.node_count),
                Err(ConfigError::AdjacencyTooShort) => Self::sizes_ok(cfg, addresses@) && (
                cfg.topology matches TopologyConfig::Explicit { connection } && connection@.len()
                    < cfg.node_count),
                Err(ConfigError::BadPeerId) => Self::sizes_ok(cfg, addresses@)
                    && !Self::topology_ok(cfg.topology, cfg.node_count as int),
            },
    {
        if addresses.len() != cfg.node_count {
            return Err(ConfigError::AddressCountMismatch);
        }
        let mut cluster = match Cluster::new(addresses, cfg.sealer_count) {
            Ok(c) => c,
            Err(e) => {
                return Err(e);
            },
        };
        match &cfg.topology {
            TopologyConfig::Random { peer_count } => {
                match cluster.connect_random(*peer_count) {
                    Ok(()) => {},
                    Err(e) => {
                        return Err(e);
                    },
                }
            },
            TopologyConfig::Explicit { connection } => {
                match cluster.connect_explicit(connection) {
                    Ok(()) => {},
                    Err(e) => {
                        return Err(e);
                    },
                }
            },
        }
        Ok(
            Orchestrator {
                cluster,
                geth_dir: cfg.geth_dir,
                nodes_dir: cfg.nodes_dir,
                test: cfg.test,
                phase: Phase::Start,
                before: Vec::new(),
                after: Vec::new(),
                report: None,
            },
        )
    }

    /// Arguments node `id` is spawned with: data directory keyed by id, the
    /// fixed network id, listening port `PORT_BASE + id`, console mode, IPC
    /// path keyed by id, and the unlocked pre-generated address with the
    /// fixed password.
    pub fn node_args(&self, id: usize) -> (r: Vec<String>)
        requires
            self.wf(),
            id < self.n(),
        ensures
            r.deep_view() == spawn_args_view(
                self.nodes_dir@,
                id as nat,
                self.cluster.nodes@[id as int].address@,
            ),
    {
        let mut args: Vec<String> = Vec::new();
        let mut a0 = String::from_str("--datadir=");
        let nd = node_dir(self.nodes_dir.as_str(), id);
        a0.append(nd.as_str());
        args.push(a0);
        let mut a1 = String::from_str("--networkid=");
        let nid = u64_to_string(NETWORK_ID);
        a1.append(nid.as_str());
        args.push(a1);
        let mut a2 = String::from_str("--port=");
        let port = usize_to_string(PORT_BASE + id);
        a2.append(port.as_str());
        args.push(a2);
        args.push(String::from_str("console"));
        let mut a4 = String::from_str("--ipcpath=");
        let ipc = ipc_path(id);
        a4.append(ipc.as_str());
        args.push(a4);
        let mut a5 = String::from_str("--unlock=");
        a5.append(self.cluster.nodes[id].address.as_str());
        args.push(a5);
        args.push(String::from_str("--password=password"));
        proof {
            assert(args.deep_view() =~~= spawn_args_view(
                self.nodes_dir@,
                id as nat,
                self.cluster.nodes@[id as int].address@,
            ));
        }
        args
    }

    /// Records a fatal failure; every later step reports `Halted`.
    fn fail(&mut self, e: RunError) -> (r: Result<Action, RunError>)
        ensures
            *final(self) == (Orchestrator { phase: Phase::Failed, ..*old(self) }),
            r == Result::<Action, RunError>::Err(e),
    {
        self.phase = Phase::Failed;
        Err(e)
    }

    /// Rebuilds the action the current phase has in flight.
    fn emit(&self) -> (a: Action)
        requires
            self.wf(),
            !(self.phase is Start),
            !(self.phase is Failed),
        ensures
            Self::emits(*self, a),
    {
        match self.phase {
            Phase::Start => {
                proof {
                    assert(false);
                }
                Action::Idle
            },
            Phase::Failed => {
                proof {
                    assert(false);
                }
                Action::Idle
            },
            Phase::Spawning { id } => Action::Spawn { id },
            Phase::Prompting { id } => Action::AwaitPrompt { id },
            Phase::Checking { id } => Action::QueryAccount {
                id,
                cmd: String::from_str("eth.accounts[0]"),
            },
            Phase::Resolving { id } => Action::QueryEnode {
                id,
                cmd: String::from_str("admin.nodeInfo.enode"),
            },
            Phase::Peering { id, pi } => {
                let peer = self.cluster.nodes[id].peers[pi];
                let cmd = add_peer_cmd(self.cluster.nodes[peer].enode.as_ref().unwrap().as_str());
                Action::AddPeer { id, peer, cmd }
            },
            Phase::Mining { id, ci } => {
                if ci == 0 {
                    Action::StartMining { id, cmd: mining_cmd(0) }
                } else {
                    Action::MinerDiag { id, step: ci, cmd: mining_cmd(ci) }
                }
            },
            Phase::CountBefore { id } => Action::QueryTxCount {
                id,
                cmd: String::from_str("eth.getTransactionCount(eth.accounts[0])"),
            },
            Phase::CountAfter { id } => Action::QueryTxCount {
                id,
                cmd: String::from_str("eth.getTransactionCount(eth.accounts[0])"),
            },
            Phase::DeadlineCheck { .. } => Action::CheckDeadline,
            Phase::Sending { trial, id } => {
                let n = self.cluster.nodes.len();
                let to = (id + 1) % n;
                let cmd = send_tx_cmd(
                    self.cluster.nodes[id].address.as_str(),
                    self.cluster.nodes[to].address.as_str(),
                    trial,
                );
                Action::SendTx { from: id, to, nonce: trial, cmd }
            },
            Phase::Sleeping => Action::SleepUntilDeadline,
            Phase::Idle => Action::Idle,
            Phase::Reported => {
                let rep = clone_report(self.report.as_ref().unwrap());
                Action::Report(rep)
            },
        }
    }

    /// One step of the run: consumes the event that answers the previous
    /// action, advances the machine, and returns the next action. Fails
    /// fatally — and permanently — on an event the phase cannot accept, a
    /// failed startup self-check, a malformed counter, or an impossible
    /// report.
    pub fn step(&mut self, ev: Event) -> (r: Result<Action, RunError>)
        requires
            old(self).wf(),
        ensures
            final(self).wf(),
            r is Ok <==> old(self).step_enabled(ev),
            (r matches Err(e) ==> *final(self) == (Orchestrator {
                phase: Phase::Failed,
                ..*old(self)
            }) && Self::err_rel(*old(self), ev, e)),
            (r matches Ok(a) ==> Self::step_ok_rel(*old(self), ev, *final(self), a)),
            (r matches Ok(Action::StartMining { id, cmd }) ==> id
                < final(self).cluster.sealer_count),
            (r matches Ok(Action::AddPeer { id, peer, cmd }) ==> id < final(self).n() && peer
                < final(self).n() && final(self).cluster.nodes@[peer as int].enode is Some && cmd@
                == add_peer_view(final(self).cluster.nodes@[peer as int].enode->0@)),
            (r matches Ok(Action::SendTx { from, to, nonce, cmd }) ==> from < final(self).n()
                && to as int == (from + 1) % final(self).n() && final(self).test is Some && nonce
                < final(self).test->0.n),
            // a failed self-check aborts before the node's identity resolution
            (old(self).phase matches Phase::Checking { id } ==> (r is Err
                ==> final(self).cluster.nodes@[id as int].enode is None)),
    {
        match self.phase {
            Phase::Failed => {
                return self.fail(RunError::Halted);
            },
            Phase::Start => {
                match ev {
                    Event::Start => {},
                    _ => {
                        return self.fail(RunError::UnexpectedEvent);
                    },
                }
                let p = boot_entry_exec(&self.cluster, &self.test, 0);
                proof {
                    lemma_peering_entry_props(self.cluster, self.test, 0, 0);
                }
                self.phase = p;
            },
            Phase::Spawning { id } => {
                match ev {
                    Event::Spawned => {},
                    _ => {
                        return self.fail(RunError::UnexpectedEvent);
                    },
                }
                self.phase = Phase::Prompting { id };
            },
            Phase::Prompting { id } => {
                match ev {
                    Event::Prompt => {},
                    _ => {
                        return self.fail(RunError::UnexpectedEvent);
                    },
                }
                self.phase = Phase::Checking { id };
            },
            Phase::Checking { id } => {
                let resp = match ev {
                    Event::Reply(s) => s,
                    _ => {
                        return self.fail(RunError::UnexpectedEvent);
                    },
                };
                let ok = self.cluster.self_check(id, resp.as_str());
                if !ok {
                    return self.fail(RunError::AddressMismatch { id });
                }
                self.phase = Phase::Resolving { id };
            },
            Phase::Resolving { id } => {
                let enode = match ev {
                    Event::Reply(s) => s,
                    _ => {
                        return self.fail(RunError::UnexpectedEvent);
                    },
                };
                match self.cluster.resolve_identity(id, enode) {
                    Ok(()) => {},
                    Err(_) => {
                        proof {
                            assert(false);
                        }
                        return self.fail(RunError::UnexpectedEvent);
                    },
                }
                let p = boot_entry_exec(&self.cluster, &self.test, id + 1);
                proof {
                    lemma_peering_entry_props(self.cluster, self.test, 0, 0);
                }
                self.phase = p;
            },
            Phase::Peering { id, pi } => {
                match ev {
                    Event::Reply(_) => {},
                    _ => {
                        return self.fail(RunError::UnexpectedEvent);
                    },
                }
                // reading the peer-list length shows `pi + 1` cannot overflow
                let plen = self.cluster.nodes[id].peers.len();
                proof {
                    assert(pi < plen);
                }
                let p = peering_entry_exec(&self.cluster, &self.test, id, pi + 1);
                proof {
                    lemma_peering_entry_props(self.cluster, self.test, id as int, pi + 1);
                }
                self.phase = p;
            },
            Phase::Mining { id, ci } => {
                match ev {
                    Event::Reply(_) => {},
                    _ => {
                        return self.fail(RunError::UnexpectedEvent);
                    },
                }
                if ci + 1 < 4 {
                    self.phase = Phase::Mining { id, ci: ci + 1 };
                } else {
                    let p = mining_entry_exec(&self.cluster, &self.test, id + 1);
                    self.phase = p;
                }
            },
            Phase::CountBefore { id } => {
                let resp = match ev {
                    Event::Reply(s) => s,
                    _ => {
                        return self.fail(RunError::UnexpectedEvent);
                    },
                };
                let v = match parse_usize(resp.as_str()) {
                    Some(v) => v,
                    None => {
                        return self.fail(RunError::BadTxCount { id });
                    },
                };
                self.before.push(v);
                let n = self.cluster.nodes.len();
                if id + 1 < n {
                    self.phase = Phase::CountBefore { id: id + 1 };
                } else {
                    let tn = match &self.test {
                        Some(tc) => tc.n,
                        None => {
                            proof {
                                assert(false);
                            }
                            0
                        },
                    };
                    let p = trial_entry_exec(tn, 0);
                    self.phase = p;
                }
            },
            Phase::DeadlineCheck { trial } => {
                let expired = match ev {
                    Event::DeadlineChecked(b) => b,
                    _ => {
                        return self.fail(RunError::UnexpectedEvent);
                    },
                };
                if expired {
                    self.phase = Phase::Sleeping;
                } else {
                    let n = self.cluster.nodes.len();
                    if n > 0 {
                        self.phase = Phase::Sending { trial, id: 0 };
                    } else {
                        let tn = match &self.test {
                            Some(tc) => tc.n,
                            None => {
                                proof {
                                    assert(false);
                                }
                                0
                            },
                        };
                        let p = trial_entry_exec(tn, trial + 1);
                        self.phase = p;
                    }
                }
            },
            Phase::Sending { trial, id } => {
                match ev {
                    Event::Reply(_) => {},
                    _ => {
                        return self.fail(RunError::UnexpectedEvent);
                    },
                }
                let n = self.cluster.nodes.len();
                if id + 1 < n {
                    self.phase = Phase::Sending { trial, id: id + 1 };
                } else {
                    let tn = match &self.test {
                        Some(tc) => tc.n,
                        None => {
                            proof {
                                assert(false);
                            }
                            0
                        },
                    };
                    let p = trial_entry_exec(tn, trial + 1);
                    self.phase = p;
                }
            },
            Phase::Sleeping => {
                match ev {
                    Event::Slept => {},
                    _ => {
                        return self.fail(RunError::UnexpectedEvent);
                    },
                }
                let n = self.cluster.nodes.len();
                if n > 0 {
                    self.phase = Phase::CountAfter { id: 0 };
                } else {
                    match make_report(&self.before, &self.after) {
                        Ok(rep) => {
                            self.report = Some(rep);
                            self.phase = Phase::Reported;
                        },
                        Err(_) => {
                            proof {
                                assert(false);
                            }
                            return self.fail(RunError::UnexpectedEvent);
                        },
                    }
                }
            },
            Phase::CountAfter { id } => {
                let resp = match ev {
                    Event::Reply(s) => s,
                    _ => {
                        return self.fail(RunError::UnexpectedEvent);
                    },
                };
                let v = match parse_usize(resp.as_str()) {
                    Some(v) => v,
                    None => {
                        return self.fail(RunError::BadTxCount { id });
                    },
                };
                let n = self.cluster.nodes.len();
                if id + 1 < n {
                    self.after.push(v);
                    self.phase = Phase::CountAfter { id: id + 1 };
                } else {
                    let mut new_after = clone_ids(&self.after);
                    new_after.push(v);
                    match make_report(&self.before, &new_after) {
                        Ok(rep) => {
                            self.after = new_after;
                            self.report = Some(rep);
                            self.phase = Phase::Reported;
                        },
                        Err(e) => {
                            return self.fail(e);
                        },
                    }
                }
            },
            Phase::Reported => {},
            Phase::Idle => {},
        }
        Ok(self.emit())
    }
}

/// The peering order law: while any peering command is in flight, every
/// node's identity handle is already resolved — for a directed edge `i -> j`
/// the peering command is issued only after node `j` resolved its identity.
pub proof fn lemma_peering_after_resolution(o: Orchestrator)
    requires
        o.wf(),
        o.phase matches Phase::Peering { .. },
    ensures
        o.cluster.all_resolved(),
{
}

} // verus!
