use node_cluster::cluster::{Cluster, ConfigError, IdentityError};
use node_cluster::config::{RunConfig, TestConfig, TopologyConfig};
use node_cluster::orchestrator::{Action, Event, Orchestrator, Phase, RunError};
use node_cluster::session::{Console, ConsoleInteractor};

fn addr(i: usize) -> String {
    format!("00000000000000000000000000000000000000{:02}", i)
}

fn ring_config(node_count: usize, sealer_count: usize, test: Option<TestConfig>) -> RunConfig {
    let connection = (0..node_count).map(|i| vec![(i + 1) % node_count]).collect();
    RunConfig {
        geth_dir: String::from("/usr/bin/geth"),
        nodes_dir: String::from("nodes"),
        accounts_dir: String::from("accounts.toml"),
        node_count,
        sealer_count,
        topology: TopologyConfig::Explicit { connection },
        tee: false,
        test,
    }
}

fn orchestrator(node_count: usize, sealer_count: usize, test: Option<TestConfig>) -> Orchestrator {
    let addresses = (0..node_count).map(addr).collect();
    Orchestrator::new(ring_config(node_count, sealer_count, test), addresses).unwrap()
}

/// One recorded step of a scripted run.
#[derive(Debug, PartialEq, Eq, Clone)]
enum Log {
    Spawn(usize),
    Prompt(usize),
    Account(usize),
    Enode(usize),
    AddPeer(usize, usize),
    Mine(usize),
    Diag(usize, usize),
    Count(usize),
    Deadline,
    Sleep,
    SendTx(usize, usize, usize),
    Idle,
    Report(Vec<usize>, Vec<usize>, Vec<usize>, usize),
}

/// Drives the orchestrator against scripted node consoles. Every command-mode
/// exchange travels through a real `ConsoleInteractor` whose incoming bytes
/// are scripted: the mock session. Returns the log of performed actions.
fn drive(
    orch: &mut Orchestrator,
    node_count: usize,
    tx_count: &dyn Fn(usize, bool) -> String,
    deadline_expires_at: Option<usize>,
    max_steps: usize,
) -> Result<Vec<Log>, RunError> {
    let mut itrs: Vec<ConsoleInteractor> = (0..node_count)
        .map(|i| ConsoleInteractor::new(Console::new(format!("node {}", i))))
        .collect();
    let mut log = Vec::new();
    let mut deadline_checks = 0usize;
    let mut counting_before = true;
    let mut exchange = |itr: &mut ConsoleInteractor, cmd: &str, scripted: &str| -> Event {
        itr.console.feed(format!("{}\n>", scripted).as_bytes());
        let resp = itr.send_with_resp(cmd.as_bytes()).unwrap();
        Event::Reply(resp)
    };
    let mut ev = Event::Start;
    for _ in 0..max_steps {
        let action = orch.step(ev)?;
        ev = match action {
            Action::Spawn { id } => {
                log.push(Log::Spawn(id));
                Event::Spawned
            }
            Action::AwaitPrompt { id } => {
                log.push(Log::Prompt(id));
                Event::Prompt
            }
            Action::QueryAccount { id, cmd } => {
                log.push(Log::Account(id));
                exchange(&mut itrs[id], &cmd, &format!("\"0x{}\"", addr(id)))
            }
            Action::QueryEnode { id, cmd } => {
                log.push(Log::Enode(id));
                exchange(&mut itrs[id], &cmd, &format!("\"enode://node{}@127.0.0.1\"", id))
            }
            Action::AddPeer { id, peer, cmd } => {
                assert_eq!(cmd, format!("admin.addPeer(\"enode://node{}@127.0.0.1\")", peer));
                log.push(Log::AddPeer(id, peer));
                exchange(&mut itrs[id], &cmd, "true")
            }
            Action::StartMining { id, cmd } => {
                assert_eq!(cmd, "miner.start()");
                log.push(Log::Mine(id));
                exchange(&mut itrs[id], &cmd, "null")
            }
            Action::MinerDiag { id, step, cmd } => {
                log.push(Log::Diag(id, step));
                exchange(&mut itrs[id], &cmd, "{}")
            }
            Action::QueryTxCount { id, cmd } => {
                log.push(Log::Count(id));
                let scripted = tx_count(id, counting_before);
                if id + 1 == node_count && counting_before {
                    counting_before = false;
                }
                exchange(&mut itrs[id], &cmd, &scripted)
            }
            Action::CheckDeadline => {
                log.push(Log::Deadline);
                deadline_checks += 1;
                let expired = deadline_expires_at.map_or(false, |at| deadline_checks > at);
                Event::DeadlineChecked(expired)
            }
            Action::SleepUntilDeadline => {
                log.push(Log::Sleep);
                Event::Slept
            }
            Action::SendTx { from, to, nonce, cmd } => {
                assert!(cmd.contains(&format!("from:\"{}\"", addr(from))));
                assert!(cmd.contains(&format!("to:\"{}\"", addr(to))));
                assert!(cmd.contains(&format!("nonce: \"{}\"", nonce)));
                log.push(Log::SendTx(from, to, nonce));
                exchange(&mut itrs[from], &cmd, "\"0xdeadbeef\"")
            }
            Action::Idle => {
                log.push(Log::Idle);
                return Ok(log);
            }
            Action::Report(rep) => {
                log.push(Log::Report(rep.before, rep.after, rep.deltas, rep.total));
                return Ok(log);
            }
        };
    }
    panic!("run did not finish within {} steps", max_steps);
}

#[test]
fn startup_self_check_mismatch_is_fatal_before_resolution() {
    let mut orch = orchestrator(1, 1, None);
    assert!(matches!(orch.step(Event::Start).unwrap(), Action::Spawn { id: 0 }));
    assert!(matches!(orch.step(Event::Spawned).unwrap(), Action::AwaitPrompt { id: 0 }));
    assert!(matches!(orch.step(Event::Prompt).unwrap(), Action::QueryAccount { id: 0, .. }));
    let r = orch.step(Event::Reply(String::from("0xffffffff")));
    assert_eq!(r.err().unwrap(), RunError::AddressMismatch { id: 0 });
    // the failure came before identity resolution, and it is permanent
    assert!(orch.cluster.nodes[0].enode.is_none());
    assert_eq!(orch.step(Event::Start).err().unwrap(), RunError::Halted);
}

#[test]
fn self_check_accepts_case_insensitive_address() {
    let addresses = vec![String::from("aBcD"), String::from("FFFF")];
    let mut c = Cluster::new(addresses, 1).unwrap();
    assert!(c.self_check(0, "0xAbCd"));
    assert!(c.nodes[0].started);
    assert!(!c.self_check(1, "0xAAAA"));
    assert!(!c.nodes[1].started);
}

#[test]
fn double_identity_resolution_is_fatal() {
    let mut c = Cluster::new(vec![String::from("aa")], 1).unwrap();
    assert!(c.self_check(0, "0xAA"));
    c.resolve_identity(0, String::from("enode://x")).unwrap();
    assert_eq!(
        c.resolve_identity(0, String::from("enode://y")),
        Err(IdentityError::AlreadyResolved)
    );
    assert_eq!(c.nodes[0].enode.as_deref(), Some("enode://x"));
}

#[test]
fn peering_waits_for_every_identity() {
    // mock-session run over two nodes in a ring: no peering command may be
    // issued before both identities are resolved
    let mut orch = orchestrator(2, 1, None);
    let log = drive(&mut orch, 2, &|_, _| String::from("0"), None, 1000).unwrap();
    let last_enode = log
        .iter()
        .enumerate()
        .filter(|(_, l)| matches!(l, Log::Enode(_)))
        .map(|(i, _)| i)
        .max()
        .unwrap();
    let first_add_peer = log
        .iter()
        .enumerate()
        .filter(|(_, l)| matches!(l, Log::AddPeer(_, _)))
        .map(|(i, _)| i)
        .min()
        .unwrap();
    assert!(
        first_add_peer > last_enode,
        "peering began at step {} before the last identity resolution at step {}",
        first_add_peer,
        last_enode
    );
    assert_eq!(
        log.iter().filter(|l| matches!(l, Log::AddPeer(_, _))).count(),
        2
    );
}

#[test]
fn end_to_end_ring_of_four() {
    // 4 nodes, 2 sealers, ring topology: each peer list has length 1 with the
    // next id, and mining commands go to the sealers only
    let mut orch = orchestrator(4, 2, None);
    let log = drive(&mut orch, 4, &|_, _| String::from("0"), None, 1000).unwrap();
    for i in 0..4 {
        assert_eq!(orch.cluster.nodes[i].peers, vec![(i + 1) % 4]);
        assert!(orch.cluster.nodes[i].enode.is_some());
    }
    let mined: Vec<usize> = log
        .iter()
        .filter_map(|l| if let Log::Mine(id) = l { Some(*id) } else { None })
        .collect();
    assert_eq!(mined, vec![0, 1]);
    for l in &log {
        if let Log::Diag(id, _) = l {
            assert!(*id < 2);
        }
    }
    assert_eq!(log.last().unwrap(), &Log::Idle);
    let add_peers: Vec<(usize, usize)> = log
        .iter()
        .filter_map(|l| if let Log::AddPeer(i, j) = l { Some((*i, *j)) } else { None })
        .collect();
    assert_eq!(add_peers, vec![(0, 1), (1, 2), (2, 3), (3, 0)]);
}

#[test]
fn load_test_submits_ring_ordered_transactions() {
    // 4 nodes, n = 2 trials, deadline never reached: exactly 8 transactions
    // in ring order with nonces 0 then 1
    let test = Some(TestConfig { n: 2, period_secs: 1 });
    let mut orch = orchestrator(4, 1, test);
    let counts = |_id: usize, before: bool| String::from(if before { "3" } else { "5" });
    let log = drive(&mut orch, 4, &counts, None, 1000).unwrap();
    let txs: Vec<(usize, usize, usize)> = log
        .iter()
        .filter_map(|l| if let Log::SendTx(f, t, n) = l { Some((*f, *t, *n)) } else { None })
        .collect();
    assert_eq!(
        txs,
        vec![
            (0, 1, 0),
            (1, 2, 0),
            (2, 3, 0),
            (3, 0, 0),
            (0, 1, 1),
            (1, 2, 1),
            (2, 3, 1),
            (3, 0, 1),
        ]
    );
    match log.last().unwrap() {
        Log::Report(before, after, deltas, total) => {
            assert_eq!(before, &vec![3, 3, 3, 3]);
            assert_eq!(after, &vec![5, 5, 5, 5]);
            assert_eq!(deltas, &vec![2, 2, 2, 2]);
            assert_eq!(*total, 8);
        }
        other => panic!("expected a report, got {:?}", other),
    }
}

#[test]
fn load_test_with_expired_deadline_still_reports() {
    // the deadline expires at the first check: zero trials run, but the
    // counters are still read on both sides and reported as zero deltas
    let test = Some(TestConfig { n: 2, period_secs: 0 });
    let mut orch = orchestrator(4, 1, test);
    let counts = |_id: usize, _before: bool| String::from("7");
    let log = drive(&mut orch, 4, &counts, Some(0), 1000).unwrap();
    assert!(log.iter().all(|l| !matches!(l, Log::SendTx(_, _, _))));
    assert_eq!(log.iter().filter(|l| matches!(l, Log::Count(_))).count(), 8);
    match log.last().unwrap() {
        Log::Report(before, after, deltas, total) => {
            assert_eq!(before, &vec![7, 7, 7, 7]);
            assert_eq!(after, &vec![7, 7, 7, 7]);
            assert_eq!(deltas, &vec![0, 0, 0, 0]);
            assert_eq!(*total, 0);
        }
        other => panic!("expected a report, got {:?}", other),
    }
}

#[test]
fn malformed_counter_is_fatal() {
    let test = Some(TestConfig { n: 1, period_secs: 1 });
    let mut orch = orchestrator(1, 1, test);
    let r = drive(&mut orch, 1, &|_, _| String::from("not a number"), None, 1000);
    assert_eq!(r.err().unwrap(), RunError::BadTxCount { id: 0 });
    assert!(matches!(orch.phase, Phase::Failed));
}

#[test]
fn regressed_counter_is_fatal() {
    let test = Some(TestConfig { n: 1, period_secs: 1 });
    let mut orch = orchestrator(2, 1, test);
    let counts = |_id: usize, before: bool| String::from(if before { "9" } else { "4" });
    let r = drive(&mut orch, 2, &counts, None, 1000);
    assert_eq!(r.err().unwrap(), RunError::CounterRegressed { id: 0 });
}

#[test]
fn terminal_phases_repeat_their_action() {
    // without a load test the run idles for any further event
    let mut orch = orchestrator(1, 1, None);
    drive(&mut orch, 1, &|_, _| String::from("0"), None, 1000).unwrap();
    assert!(matches!(orch.step(Event::Prompt).unwrap(), Action::Idle));
    assert!(matches!(orch.step(Event::Start).unwrap(), Action::Idle));
    // with a load test the finished report stands for any further event
    let mut orch = orchestrator(1, 1, Some(TestConfig { n: 1, period_secs: 1 }));
    drive(&mut orch, 1, &|_, _| String::from("2"), None, 1000).unwrap();
    match orch.step(Event::Start).unwrap() {
        Action::Report(rep) => {
            assert_eq!(rep.before, vec![2]);
            assert_eq!(rep.after, vec![2]);
            assert_eq!(rep.deltas, vec![0]);
            assert_eq!(rep.total, 0);
        }
        other => panic!("expected the report again, got {:?}", other),
    }
}

#[test]
fn mining_diagnostics_follow_activation() {
    let mut orch = orchestrator(2, 2, None);
    let log = drive(&mut orch, 2, &|_, _| String::from("0"), None, 1000).unwrap();
    let mining: Vec<&Log> = log
        .iter()
        .filter(|l| matches!(l, Log::Mine(_) | Log::Diag(_, _)))
        .collect();
    assert_eq!(
        mining,
        vec![
            &Log::Mine(0),
            &Log::Diag(0, 1),
            &Log::Diag(0, 2),
            &Log::Diag(0, 3),
            &Log::Mine(1),
            &Log::Diag(1, 1),
            &Log::Diag(1, 2),
            &Log::Diag(1, 3),
        ]
    );
}

#[test]
fn unexpected_event_is_fatal() {
    let mut orch = orchestrator(1, 1, None);
    assert_eq!(orch.step(Event::Slept).err().unwrap(), RunError::UnexpectedEvent);
}

#[test]
fn new_rejects_wrong_address_count() {
    let addresses = vec![addr(0)];
    assert_eq!(
        Orchestrator::new(ring_config(2, 1, None), addresses).err().unwrap(),
        ConfigError::AddressCountMismatch
    );
}

#[test]
fn new_rejects_random_topology_with_too_many_peers() {
    let cfg = RunConfig {
        topology: TopologyConfig::Random { peer_count: 3 },
        ..ring_config(3, 1, None)
    };
    let addresses = (0..3).map(addr).collect();
    assert_eq!(
        Orchestrator::new(cfg, addresses).err().unwrap(),
        ConfigError::TooManyPeers
    );
}

#[test]
fn node_arguments_follow_the_conventions() {
    let orch = orchestrator(2, 1, None);
    let args = orch.node_args(1);
    assert_eq!(
        args,
        vec![
            String::from("--datadir=nodes/node1/data"),
            String::from("--networkid=666"),
            String::from("--port=3001"),
            String::from("console"),
            String::from("--ipcpath=geth1.ipc"),
            format!("--unlock={}", addr(1)),
            String::from("--password=password"),
        ]
    );
}
