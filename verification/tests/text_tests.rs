use node_cluster::text::{addr_matches, extract_address, ipc_path, node_dir, parse_usize, u64_to_string, usize_to_string};

#[test]
fn decimal_rendering() {
    assert_eq!(usize_to_string(0), "0");
    assert_eq!(usize_to_string(7), "7");
    assert_eq!(usize_to_string(666), "666");
    assert_eq!(usize_to_string(3001), "3001");
    assert_eq!(u64_to_string(18446744073709551615), "18446744073709551615");
}

#[test]
fn decimal_parsing() {
    assert_eq!(parse_usize("0"), Some(0));
    assert_eq!(parse_usize("123"), Some(123));
    assert_eq!(parse_usize("007"), Some(7));
    assert_eq!(parse_usize(""), None);
    assert_eq!(parse_usize("12a"), None);
    assert_eq!(parse_usize("-3"), None);
    assert_eq!(parse_usize(" 5"), None);
    assert_eq!(parse_usize("99999999999999999999999999"), None);
    assert_eq!(parse_usize("ü"), None);
}

#[test]
fn decimal_round_trip() {
    for n in [0usize, 1, 9, 10, 99, 100, 4096, usize::MAX] {
        assert_eq!(parse_usize(&usize_to_string(n)), Some(n));
    }
}

#[test]
fn address_extraction() {
    let addr = "0123456789abcdef0123456789abcdef01234567";
    let out = format!("\nYour new key was generated\n\nPublic address of the key:   0x{}\n", addr);
    assert_eq!(extract_address(&out).as_deref(), Some(addr));
}

#[test]
fn address_extraction_takes_first_occurrence() {
    let out = "0xAAAAAAAAAAAAAAAAAAAAAAAAAAAAAAAAAAAAAAAA then 0xBBBBBBBBBBBBBBBBBBBBBBBBBBBBBBBBBBBBBBBB";
    assert_eq!(
        extract_address(out).as_deref(),
        Some("AAAAAAAAAAAAAAAAAAAAAAAAAAAAAAAAAAAAAAAA")
    );
}

#[test]
fn address_extraction_failures() {
    assert_eq!(extract_address("no address here"), None);
    assert_eq!(extract_address("0xshort"), None);
    assert_eq!(extract_address(""), None);
}

#[test]
fn path_conventions() {
    assert_eq!(node_dir("nodes", 0), "nodes/node0/data");
    assert_eq!(node_dir("/var/lib/cluster", 17), "/var/lib/cluster/node17/data");
    assert_eq!(ipc_path(3), "geth3.ipc");
}

#[test]
fn address_comparison_is_case_insensitive_after_prefix() {
    assert!(addr_matches("0xAbCdEf", "aBcDeF"));
    assert!(addr_matches("0x1234", "1234"));
    assert!(!addr_matches("0x1234", "1235"));
    assert!(!addr_matches("0x", "a"));
    assert!(!addr_matches("0", ""));
    assert!(addr_matches("zz", ""));
}
