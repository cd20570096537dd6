//! The one-time initialization phase: per-node account creation, the genesis
//! wizard transcript, and the per-node init invocations. The library computes
//! every argument list and the full wizard script, and extracts the created
//! address from the account-creation output; spawning the processes is the
//! embedder's job.

use vstd::prelude::*;

use crate::config::InitConfig;
use crate::cluster::ConfigError;
use crate::text::{dec_str, node_dir, node_dir_view, u64_to_string};
use crate::{NETWORK, NETWORK_ID};

verus! {

/// Everything the initialization run needs beyond the processes themselves.
pub struct NodeInitializer {
    pub geth_dir: String,
    pub puppeth_dir: String,
    pub nodes_dir: String,
    pub node_count: usize,
    pub sealer_count: usize,
    /// File the created address list is persisted to.
    pub out: String,
}

/// The computed plan of the genesis and init steps: the wizard transcript and
/// one init invocation per node.
pub struct InitPlan {
    /// Answers sent to the wizard, in order, one per prompt.
    pub wizard_script: Vec<String>,
    /// Where the wizard leaves the genesis file.
    pub genesis_path: String,
    /// Arguments of the per-node init invocation, in node order.
    pub init_args: Vec<Vec<String>>,
}

/// View of the genesis file path: `<nodes_dir>/<network>.json`.
pub open spec fn genesis_path_view(nodes_dir: Seq<char>) -> Seq<char> {
    nodes_dir + "/"@ + NETWORK@ + ".json"@
}

/// The full wizard transcript: network name; on prior state an edit/delete
/// selection; configure network / new genesis / variant; the sealer
/// addresses, blank-terminated; the prefunded addresses, blank-terminated;
/// two confirmations; the network id; manage genesis / export; the output
/// directory; a trailing blank line.
pub open spec fn wizard_script_view(
    nodes_dir: Seq<char>,
    sealer_count: int,
    node_count: int,
    prior_state: bool,
    accounts: Seq<Seq<char>>,
) -> Seq<Seq<char>> {
    seq![NETWORK@] + (if prior_state {
        seq!["2"@, "3"@]
    } else {
        Seq::<Seq<char>>::empty()
    }) + seq!["2"@, "1"@, "2"@, ""@] + accounts.subrange(0, sealer_count) + seq![""@]
        + accounts.subrange(0, node_count) + seq![""@] + seq![""@] + seq![
        dec_str(NETWORK_ID as nat),
    ] + seq!["2"@, "2"@] + seq![nodes_dir] + seq![""@]
}

/// The three arguments of one account-creation invocation.
pub open spec fn account_args_ok(nodes_dir: Seq<char>, id: nat, args: Seq<String>) -> bool {
    &&& args.len() == 3
    &&& args[0]@ == "--datadir="@ + node_dir_view(nodes_dir, id)
    &&& args[1]@ == "account"@
    &&& args[2]@ == "new"@
}

/// The three arguments of one init invocation.
pub open spec fn init_args_ok(
    nodes_dir: Seq<char>,
    id: nat,
    genesis: Seq<char>,
    args: Seq<String>,
) -> bool {
    &&& args.len() == 3
    &&& args[0]@ == "--datadir="@ + node_dir_view(nodes_dir, id)
    &&& args[1]@ == "init"@
    &&& args[2]@ == genesis
}

impl NodeInitializer {
    /// Takes the initialization section of the configuration over, rejecting
    /// one with more sealers than nodes.
    pub fn new_with_cfg_file(cfg: &InitConfig) -> (r: Result<NodeInitializer, ConfigError>)
        ensures
            r is Ok <==> cfg.sealer_count <= cfg.node_count,
            match r {
                Ok(ni) => {
                    &&& ni.geth_dir == cfg.geth_dir
                    &&& ni.puppeth_dir == cfg.puppeth_dir
                    &&& ni.nodes_dir == cfg.nodes_dir
                    &&& ni.node_count == cfg.node_count
                    &&& ni.sealer_count == cfg.sealer_count
                    &&& ni.out == cfg.accounts_dir
                },
                Err(e) => e == ConfigError::TooManySealers,
            },
    {
        if cfg.sealer_count > cfg.node_count {
            return Err(ConfigError::TooManySealers);
        }
        Ok(
            NodeInitializer {
                geth_dir: cfg.geth_dir.clone(),
                puppeth_dir: cfg.puppeth_dir.clone(),
                nodes_dir: cfg.nodes_dir.clone(),
                node_count: cfg.node_count,
                sealer_count: cfg.sealer_count,
                out: cfg.accounts_dir.clone(),
            },
        )
    }

    /// Arguments of the account-creation invocation for node `id`.
    pub fn create_account_args(&self, id: usize) -> (r: Vec<String>)
        ensures
            account_args_ok(self.nodes_dir@, id as nat, r@),
    {
        let mut datadir = String::from_str("--datadir=");
        let dir = node_dir(self.nodes_dir.as_str(), id);
        datadir.append(dir.as_str());
        let mut args: Vec<String> = Vec::new();
        args.push(datadir);
        args.push(String::from_str("account"));
        args.push(String::from_str("new"));
        args
    }

    /// Where the wizard leaves the genesis file.
    pub fn genesis_path(&self) -> (r: String)
        ensures
            r@ == genesis_path_view(self.nodes_dir@),
    {
        let mut p = self.nodes_dir.clone();
        p.append("/");
        p.append(NETWORK);
        p.append(".json");
        p
    }

    /// Arguments of the init invocation for node `id`.
    pub fn init_node_args(&self, id: usize, genesis: &str) -> (r: Vec<String>)
        ensures
            init_args_ok(self.nodes_dir@, id as nat, genesis@, r@),
    {
        let mut datadir = String::from_str("--datadir=");
        let dir = node_dir(self.nodes_dir.as_str(), id);
        datadir.append(dir.as_str());
        let mut args: Vec<String> = Vec::new();
        args.push(datadir);
        args.push(String::from_str("init"));
        args.push(genesis.to_owned());
        args
    }

    /// The ordered list of answers for the genesis wizard, one per prompt.
    pub fn wizard_script(&self, prior_state: bool, accounts: &Vec<String>) -> (r: Vec<String>)
        requires
            accounts@.len() == self.node_count,
            self.sealer_count <= self.node_count,
        ensures
            r.deep_view() == wizard_script_view(
                self.nodes_dir@,
                self.sealer_count as int,
                self.node_count as int,
                prior_state,
                accounts.deep_view(),
            ),
    {
        let ghost accv = accounts.deep_view();
        let mut s: Vec<String> = Vec::new();
        s.push(String::from_str(NETWORK));
        if prior_state {
            s.push(String::from_str("2"));
            s.push(String::from_str("3"));
        }
        s.push(String::from_str("2"));
        s.push(String::from_str("1"));
        s.push(String::from_str("2"));
        s.push(String::from_str(""));
        let ghost head = seq![NETWORK@] + (if prior_state {
            seq!["2"@, "3"@]
        } else {
            Seq::<Seq<char>>::empty()
        }) + seq!["2"@, "1"@, "2"@, ""@];
        proof {
            assert(s.deep_view() =~~= head);
        }
        let mut i: usize = 0;
        while i < self.sealer_count
            invariant
                0 <= i <= self.sealer_count <= self.node_count == accounts@.len(),
                accv == accounts.deep_view(),
                s.deep_view() == head + accv.subrange(0, i as int),
            decreases self.sealer_count - i,
        {
            let ghost pre = s.deep_view();
            let a = accounts[i].clone();
            proof {
                assert(a@ == accv[i as int]);
            }
            s.push(a);
            proof {
                assert(s.deep_view() =~~= pre.push(accv[i as int]));
                assert(pre.push(accv[i as int]) =~~= head + accv.subrange(0, i + 1 as int));
            }
            i = i + 1;
        }
        s.push(String::from_str(""));
        let ghost mid = head + accv.subrange(0, self.sealer_count as int) + seq![""@];
        proof {
            assert(s.deep_view() =~~= mid);
        }
        let mut i: usize = 0;
        while i < self.node_count
            invariant
                0 <= i <= self.node_count == accounts@.len(),
                accv == accounts.deep_view(),
                s.deep_view() == mid + accv.subrange(0, i as int),
            decreases self.node_count - i,
        {
            let ghost pre = s.deep_view();
            let a = accounts[i].clone();
            proof {
                assert(a@ == accv[i as int]);
            }
            s.push(a);
            proof {
                assert(s.deep_view() =~~= pre.push(accv[i as int]));
                assert(pre.push(accv[i as int]) =~~= mid + accv.subrange(0, i + 1 as int));
            }
            i = i + 1;
        }
        s.push(String::from_str(""));
        s.push(String::from_str(""));
        s.push(u64_to_string(NETWORK_ID));
        s.push(String::from_str("2"));
        s.push(String::from_str("2"));
        s.push(self.nodes_dir.clone());
        s.push(String::from_str(""));
        proof {
            assert(s.deep_view() =~~= wizard_script_view(
                self.nodes_dir@,
                self.sealer_count as int,
                self.node_count as int,
                prior_state,
                accv,
            ));
        }
        s
    }

    /// Computes the whole genesis-and-init plan from the created accounts.
    /// Rejects an address list that does not hold one address per node, and
    /// an initializer with more sealers than nodes, before planning anything.
    pub fn do_init_node(&self, accounts: &Vec<String>, prior_state: bool) -> (r: Result<
        InitPlan,
        ConfigError,
    >)
        ensures
            match r {
                Ok(plan) => {
                    &&& accounts@.len() == self.node_count
                    &&& self.sealer_count <= self.node_count
                    &&& plan.wizard_script.deep_view() == wizard_script_view(
                        self.nodes_dir@,
                        self.sealer_count as int,
                        self.node_count as int,
                        prior_state,
                        accounts.deep_view(),
                    )
                    &&& plan.genesis_path@ == genesis_path_view(self.nodes_dir@)
                    &&& plan.init_args@.len() == self.node_count
                    &&& forall|i: int|
                        0 <= i < self.node_count ==> init_args_ok(
                            self.nodes_dir@,
                            i as nat,
                            genesis_path_view(self.nodes_dir@),
                            (#[trigger] plan.init_args@[i])@,
                        )
                },
                Err(ConfigError::TooManySealers) => self.sealer_count > self.node_count,
                Err(ConfigError::AddressCountMismatch) => self.sealer_count <= self.node_count
                    && accounts@.len() != self.node_count,
                Err(_) => false,
            },
    {
        if self.sealer_count > self.node_count {
            return Err(ConfigError::TooManySealers);
        }
        if accounts.len() != self.node_count {
            return Err(ConfigError::AddressCountMismatch);
        }
        let wizard_script = self.wizard_script(prior_state, accounts);
        let genesis_path = self.genesis_path();
        let mut init_args: Vec<Vec<String>> = Vec::new();
        let mut i: usize = 0;
        while i < self.node_count
            invariant
                0 <= i <= self.node_count,
                init_args@.len() == i,
                genesis_path@ == genesis_path_view(self.nodes_dir@),
                forall|j: int|
                    0 <= j < i ==> init_args_ok(
                        self.nodes_dir@,
                        j as nat,
                        genesis_path_view(self.nodes_dir@),
                        (#[trigger] init_args@[j])@,
                    ),
            decreases self.node_count - i,
        {
            let args = self.init_node_args(i, genesis_path.as_str());
            init_args.push(args);
            i = i + 1;
        }
        Ok(InitPlan { wizard_script, genesis_path, init_args })
    }
}

} // verus!
