use overpass::discovery::{NodeAddr, NodeDiscovery};

fn addr(last: u8, port: u16) -> NodeAddr {
    let mut ip = [0u8; 16];
    ip[15] = last;
    NodeAddr { ip, port }
}

#[test]
fn add_then_get_gives_fresh_node() {
    let mut d = NodeDiscovery::new();
    assert!(d.get_node_info(&addr(1, 8000)).is_none());
    d.add_node(addr(1, 8000), 42);
    let info = d.get_node_info(&addr(1, 8000)).unwrap();
    assert!(info.active);
    assert_eq!(info.last_seen, 42);
    assert_eq!(info.reputation, 0);
    assert!(d.get_node_info(&addr(1, 8001)).is_none());
}

#[test]
fn update_keeps_reputation_and_ignores_unknown() {
    let mut d = NodeDiscovery::new();
    d.add_node(addr(1, 1), 1);
    d.update_node(addr(1, 1), 50);
    d.update_node(addr(2, 2), 60);
    assert_eq!(d.get_node_info(&addr(1, 1)).unwrap().last_seen, 50);
    assert!(d.get_node_info(&addr(2, 2)).is_none());
}

#[test]
fn batch_update_and_re_add() {
    let mut d = NodeDiscovery::new();
    d.add_node(addr(1, 1), 1);
    d.add_node(addr(2, 2), 2);
    d.update_nodes_batch(&vec![addr(1, 1), addr(3, 3)], 99);
    assert_eq!(d.get_node_info(&addr(1, 1)).unwrap().last_seen, 99);
    assert_eq!(d.get_node_info(&addr(2, 2)).unwrap().last_seen, 2);
    assert!(d.get_node_info(&addr(3, 3)).is_none());
    d.add_node(addr(2, 2), 7);
    assert_eq!(d.get_node_info(&addr(2, 2)).unwrap().last_seen, 7);
}
