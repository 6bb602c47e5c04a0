use speedtest::ranking::pick_fastest;

#[test]
fn fastest_of_reachable_servers() {
    assert_eq!(pick_fastest(&[Some(900), Some(300), Some(500)]), Some(1));
}

#[test]
fn first_of_equal_latencies() {
    assert_eq!(pick_fastest(&[Some(400), Some(300), Some(300)]), Some(1));
}

#[test]
fn unreachable_servers_rank_last() {
    assert_eq!(pick_fastest(&[None, Some(u64::MAX), None]), Some(1));
    assert_eq!(pick_fastest(&[None, None]), Some(0));
}

#[test]
fn no_server_no_pick() {
    assert_eq!(pick_fastest(&[]), None);
}
