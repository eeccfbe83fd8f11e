use std::collections::BTreeMap;

use clickward::keeper::parse_keeper_config;
use clickward::KeeperError;

fn addrs(m: &BTreeMap<u64, clickward::KeeperConfig>) -> Vec<(u64, String)> {
    m.iter().map(|(k, v)| (*k, v.addr.clone())).collect()
}

#[test]
fn parses_membership_answer() {
    let out = "server.1=127.0.0.1:20001;role=leader\nserver.2=127.0.0.1:20002;role=follower\n";
    let m = parse_keeper_config(out).unwrap();
    assert_eq!(
        addrs(&m),
        vec![(1, "127.0.0.1:20001".to_string()), (2, "127.0.0.1:20002".to_string())]
    );
}

#[test]
fn garbage_answer_is_unexpected() {
    assert!(matches!(parse_keeper_config("garbage\n"), Err(KeeperError::UnexpectedResponse)));
}

#[test]
fn one_bad_line_rejects_the_whole_answer() {
    let out = "server.1=[::1]:21001;participant;1\nserver.x=[::1]:21002;participant;1\n";
    assert!(matches!(parse_keeper_config(out), Err(KeeperError::UnexpectedResponse)));
}

#[test]
fn empty_answer_has_no_members() {
    assert!(parse_keeper_config("").unwrap().is_empty());
}

#[test]
fn line_without_equals_is_unexpected() {
    assert!(matches!(parse_keeper_config("server.1\n"), Err(KeeperError::UnexpectedResponse)));
}

#[test]
fn blank_line_is_unexpected() {
    let out = "server.1=a:1;x\n\nserver.2=b:2;y\n";
    assert!(matches!(parse_keeper_config(out), Err(KeeperError::UnexpectedResponse)));
}

#[test]
fn crlf_lines_and_missing_final_newline() {
    let out = "server.3=[::1]:21003;participant;1\r\nserver.4=[::1]:21004;follower";
    let m = parse_keeper_config(out).unwrap();
    assert_eq!(
        addrs(&m),
        vec![(3, "[::1]:21003".to_string()), (4, "[::1]:21004".to_string())]
    );
}

#[test]
fn address_with_equals_is_unexpected() {
    assert!(matches!(parse_keeper_config("server.7=h:1=extra;r\n"), Err(KeeperError::UnexpectedResponse)));
    assert!(matches!(parse_keeper_config("server.7=h=x:1;r\n"), Err(KeeperError::UnexpectedResponse)));
}

#[test]
fn role_info_may_hold_equals() {
    let m = parse_keeper_config("server.7=h:1;role=leader\n").unwrap();
    assert_eq!(addrs(&m), vec![(7, "h:1".to_string())]);
}

#[test]
fn line_without_port_or_info_is_unexpected() {
    assert!(matches!(parse_keeper_config("server.1=a\n"), Err(KeeperError::UnexpectedResponse)));
    assert!(matches!(parse_keeper_config("server.1=a:1\n"), Err(KeeperError::UnexpectedResponse)));
    assert!(matches!(parse_keeper_config("server.1=a:1;\n"), Err(KeeperError::UnexpectedResponse)));
    assert!(matches!(parse_keeper_config("server.1=a;x\n"), Err(KeeperError::UnexpectedResponse)));
}

#[test]
fn malformed_host_or_port_is_unexpected() {
    assert!(matches!(parse_keeper_config("server.1=:1;x\n"), Err(KeeperError::UnexpectedResponse)));
    assert!(matches!(parse_keeper_config("server.1=a:;x\n"), Err(KeeperError::UnexpectedResponse)));
    assert!(matches!(parse_keeper_config("server.1=a:1x;x\n"), Err(KeeperError::UnexpectedResponse)));
}

#[test]
fn bracketed_ipv6_host_is_read() {
    let m = parse_keeper_config("server.2=[::1]:21002;participant;1\n").unwrap();
    assert_eq!(addrs(&m), vec![(2, "[::1]:21002".to_string())]);
}

#[test]
fn later_line_for_same_id_wins() {
    let m = parse_keeper_config("server.1=a:1;x\nserver.1=b:2;y\n").unwrap();
    assert_eq!(addrs(&m), vec![(1, "b:2".to_string())]);
}

#[test]
fn id_with_plus_sign_is_read() {
    let m = parse_keeper_config("server.+5=a:1;x\n").unwrap();
    assert_eq!(addrs(&m), vec![(5, "a:1".to_string())]);
}

#[test]
fn id_too_large_is_unexpected() {
    let out = "server.18446744073709551616=a:1;x\n";
    assert!(matches!(parse_keeper_config(out), Err(KeeperError::UnexpectedResponse)));
    let m = parse_keeper_config("server.18446744073709551615=a:1;x\n").unwrap();
    assert_eq!(addrs(&m), vec![(u64::MAX, "a:1".to_string())]);
}

#[test]
fn empty_id_is_unexpected() {
    assert!(matches!(parse_keeper_config("server.=a:1;x\n"), Err(KeeperError::UnexpectedResponse)));
}
