use node_cluster::cluster::ConfigError;
use node_cluster::config::{InitConfig, TeeConfig};
use node_cluster::init::NodeInitializer;
use node_cluster::tee::TEERunner;

fn cfg() -> InitConfig {
    InitConfig {
        geth_dir: String::from("/usr/bin/geth"),
        puppeth_dir: String::from("/usr/bin/puppeth"),
        nodes_dir: String::from("nodes"),
        node_count: 2,
        sealer_count: 1,
        accounts_dir: String::from("accounts.toml"),
    }
}

#[test]
fn initializer_takes_config_over() {
    let ni = NodeInitializer::new_with_cfg_file(&cfg()).unwrap();
    assert_eq!(ni.geth_dir, "/usr/bin/geth");
    assert_eq!(ni.node_count, 2);
    assert_eq!(ni.out, "accounts.toml");
}

#[test]
fn initializer_rejects_too_many_sealers() {
    let mut c = cfg();
    c.sealer_count = 3;
    assert_eq!(NodeInitializer::new_with_cfg_file(&c).err().unwrap(), ConfigError::TooManySealers);
}

#[test]
fn account_creation_arguments() {
    let ni = NodeInitializer::new_with_cfg_file(&cfg()).unwrap();
    assert_eq!(ni.create_account_args(1), vec!["--datadir=nodes/node1/data", "account", "new"]);
}

#[test]
fn wizard_script_without_prior_state() {
    let ni = NodeInitializer::new_with_cfg_file(&cfg()).unwrap();
    let accounts = vec![String::from("aa"), String::from("bb")];
    let script = ni.wizard_script(false, &accounts);
    let expected = vec![
        "auto_test", // network name
        "2", "1", "2", "", // configure network, new genesis, variant
        "aa", "", // sealers, blank-terminated
        "aa", "bb", "", // prefunded accounts, blank-terminated
        "", // confirmation
        "666", // network id
        "2", "2", // manage genesis, export
        "nodes", // output directory
        "", // trailing blank line
    ];
    assert_eq!(script, expected);
}

#[test]
fn wizard_script_with_prior_state_edits_then_deletes() {
    let ni = NodeInitializer::new_with_cfg_file(&cfg()).unwrap();
    let accounts = vec![String::from("aa"), String::from("bb")];
    let script = ni.wizard_script(true, &accounts);
    assert_eq!(&script[0], "auto_test");
    assert_eq!(&script[1], "2");
    assert_eq!(&script[2], "3");
    assert_eq!(&script[3..], &ni.wizard_script(false, &accounts)[1..]);
}

#[test]
fn init_plan_covers_every_node() {
    let ni = NodeInitializer::new_with_cfg_file(&cfg()).unwrap();
    let accounts = vec![String::from("aa"), String::from("bb")];
    let plan = ni.do_init_node(&accounts, false).unwrap();
    assert_eq!(plan.genesis_path, "nodes/auto_test.json");
    assert_eq!(plan.init_args.len(), 2);
    assert_eq!(
        plan.init_args[0],
        vec!["--datadir=nodes/node0/data", "init", "nodes/auto_test.json"]
    );
    assert_eq!(
        plan.init_args[1],
        vec!["--datadir=nodes/node1/data", "init", "nodes/auto_test.json"]
    );
    assert_eq!(plan.wizard_script, ni.wizard_script(false, &accounts));
}

#[test]
fn init_plan_rejects_wrong_address_count() {
    let ni = NodeInitializer::new_with_cfg_file(&cfg()).unwrap();
    let accounts = vec![String::from("aa")];
    assert_eq!(ni.do_init_node(&accounts, false).err().unwrap(), ConfigError::AddressCountMismatch);
}

#[test]
fn tee_runner_connection_target() {
    let tr = TEERunner::new_with_cfg_file(&TeeConfig {
        node_count: 2,
        ip: String::from("192.168.0.9"),
        username: String::from("sgx"),
        opensgx_dir: String::from("/opt/opensgx"),
    });
    assert_eq!(tr.ssh_args(), vec!["-T", "sgx@192.168.0.9"]);
}
