use node_cluster::cluster::{sample, Cluster, ConfigError};

#[test]
fn test_sample() {
    const N: i32 = 100000;
    let mut cnt = [0; 5];
    for _ in 0..N {
        let res = sample(3, 5, 0).unwrap();
        for x in res {
            cnt[x] += 1;
        }
    }
    println!("{:?}", cnt);
}

#[test]
fn test_sample2() {
    const N: i32 = 100;
    for _ in 0..N {
        let res = sample(6, 24, 14).unwrap();
        println!("{:?}", res);
    }
}

#[test]
fn sample_returns_distinct_valid_ids() {
    for _ in 0..200 {
        let v = sample(3, 5, 0).unwrap();
        assert_eq!(v.len(), 3);
        for (i, a) in v.iter().enumerate() {
            assert!(*a < 5);
            assert_ne!(*a, 0);
            for b in &v[i + 1..] {
                assert_ne!(a, b);
            }
        }
    }
}

#[test]
fn sample_frequencies_roughly_uniform() {
    // each candidate should be selected with frequency close to k/(n-1) = 1/2
    const TRIALS: usize = 40000;
    let mut cnt = [0usize; 9];
    for _ in 0..TRIALS {
        for x in sample(4, 9, 2).unwrap() {
            cnt[x] += 1;
        }
    }
    assert_eq!(cnt[2], 0);
    let expected = TRIALS / 2;
    for (i, c) in cnt.iter().enumerate() {
        if i != 2 {
            assert!(
                (*c as f64) > expected as f64 * 0.9 && (*c as f64) < expected as f64 * 1.1,
                "candidate {} selected {} times, expected about {}",
                i,
                c,
                expected
            );
        }
    }
}

#[test]
fn sample_rejects_too_many_peers() {
    assert_eq!(sample(5, 5, 0), Err(ConfigError::TooManyPeers));
    assert!(sample(4, 5, 0).is_ok());
    assert_eq!(sample(0, 1, 0).unwrap().len(), 0);
}

fn addrs(n: usize) -> Vec<String> {
    (0..n).map(|i| format!("AAA{}", i)).collect()
}

#[test]
fn explicit_topology_round_trip() {
    let mut c = Cluster::new(addrs(4), 2).unwrap();
    let table = vec![vec![1, 2], vec![2], vec![3, 0, 1], vec![]];
    c.connect_explicit(&table).unwrap();
    for i in 0..4 {
        assert_eq!(c.nodes[i].peers, table[i]);
        for p in &c.nodes[i].peers {
            assert!(*p < 4);
        }
    }
}

#[test]
fn explicit_topology_rejects_bad_peer_id() {
    let mut c = Cluster::new(addrs(3), 1).unwrap();
    let table = vec![vec![1], vec![2], vec![7]];
    assert_eq!(c.connect_explicit(&table), Err(ConfigError::BadPeerId));
    // nothing was changed
    for i in 0..3 {
        assert!(c.nodes[i].peers.is_empty());
    }
}

#[test]
fn explicit_topology_rejects_short_table() {
    let mut c = Cluster::new(addrs(3), 1).unwrap();
    let table = vec![vec![1], vec![2]];
    assert_eq!(c.connect_explicit(&table), Err(ConfigError::AdjacencyTooShort));
}

#[test]
fn random_topology_gives_k_distinct_peers() {
    let mut c = Cluster::new(addrs(6), 2).unwrap();
    c.connect_random(3).unwrap();
    for i in 0..6 {
        let peers = &c.nodes[i].peers;
        assert_eq!(peers.len(), 3);
        for (x, a) in peers.iter().enumerate() {
            assert!(*a < 6);
            assert_ne!(*a, i);
            for b in &peers[x + 1..] {
                assert_ne!(a, b);
            }
        }
    }
}

#[test]
fn cluster_new_rejects_too_many_sealers() {
    assert_eq!(Cluster::new(addrs(2), 3).err().unwrap(), ConfigError::TooManySealers);
}
