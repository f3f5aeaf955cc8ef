use chiselstore_rpc::pool::{Acquired, Connection, ConnectionPool, Connections, POOL_CAPACITY};

fn put(connections: &mut Connections, addr: &str, conn: u64) -> bool {
    Connection { conn, addr: addr.to_string() }.drop(connections)
}

fn idle(conn: u64, addr: &str) -> Acquired {
    Acquired::Idle(Connection { conn, addr: addr.to_string() })
}

#[test]
fn pool_hands_out_the_oldest() {
    let mut pool = ConnectionPool::new();
    assert_eq!(pool.connection(), None);
    assert!(pool.replenish(5));
    assert!(pool.replenish(3));
    assert!(pool.replenish(4));
    assert_eq!(pool.connection(), Some(5));
    assert_eq!(pool.connection(), Some(3));
    assert!(pool.replenish(5));
    assert_eq!(pool.connection(), Some(4));
    assert_eq!(pool.connection(), Some(5));
    assert_eq!(pool.connection(), None);
}

#[test]
fn pool_is_bounded() {
    let mut pool = ConnectionPool::new();
    for conn in 0..POOL_CAPACITY as u64 {
        assert!(pool.replenish(conn));
    }
    assert!(!pool.replenish(100));
    for conn in 0..POOL_CAPACITY as u64 {
        assert_eq!(pool.connection(), Some(conn));
    }
    assert_eq!(pool.connection(), None);
}

#[test]
fn capacity_is_sixteen() {
    assert_eq!(POOL_CAPACITY, 16);
}

#[test]
fn first_connection_is_dialled() {
    let mut connections = Connections::new();
    assert_eq!(connections.connection("a".to_string()), Acquired::Dial("a".to_string()));
    assert_eq!(connections.connection("a".to_string()), Acquired::Dial("a".to_string()));
}

#[test]
fn put_back_is_reused() {
    let mut connections = Connections::new();
    connections.connection("a".to_string());
    assert!(put(&mut connections, "a", 7));
    assert_eq!(connections.connection("a".to_string()), idle(7, "a"));
    assert_eq!(connections.connection("a".to_string()), Acquired::Dial("a".to_string()));
}

#[test]
fn pools_are_apart() {
    let mut connections = Connections::new();
    connections.connection("a".to_string());
    connections.connection("b".to_string());
    assert!(put(&mut connections, "a", 1));
    assert!(put(&mut connections, "b", 2));
    assert!(put(&mut connections, "a", 3));
    assert_eq!(connections.connection("b".to_string()), idle(2, "b"));
    assert_eq!(connections.connection("b".to_string()), Acquired::Dial("b".to_string()));
    assert_eq!(connections.connection("a".to_string()), idle(1, "a"));
    assert_eq!(connections.connection("a".to_string()), idle(3, "a"));
}

#[test]
fn full_pool_lets_go() {
    let mut connections = Connections::new();
    connections.connection("a".to_string());
    for conn in 0..POOL_CAPACITY as u64 {
        assert!(put(&mut connections, "a", conn));
    }
    assert!(!put(&mut connections, "a", 99));
    assert_eq!(connections.connection("a".to_string()), idle(0, "a"));
    assert!(put(&mut connections, "a", 99));
    for conn in 1..POOL_CAPACITY as u64 {
        assert_eq!(connections.connection("a".to_string()), idle(conn, "a"));
    }
    assert_eq!(connections.connection("a".to_string()), idle(99, "a"));
    assert_eq!(connections.connection("a".to_string()), Acquired::Dial("a".to_string()));
}

#[test]
fn unknown_address_has_no_pool() {
    let mut connections = Connections::new();
    assert!(!put(&mut connections, "a", 1));
    assert_eq!(connections.connection("a".to_string()), Acquired::Dial("a".to_string()));
}

#[test]
fn opened_connections_are_numbered() {
    let mut connections = Connections::new();
    connections.connection("a".to_string());
    let first = connections.open("a".to_string()).unwrap();
    let second = connections.open("b".to_string()).unwrap();
    assert_eq!(first, Connection { conn: 0, addr: "a".to_string() });
    assert_eq!(second, Connection { conn: 1, addr: "b".to_string() });
    assert!(first.drop(&mut connections));
    assert_eq!(connections.open("a".to_string()).unwrap().conn, 2);
    assert_eq!(connections.connection("a".to_string()), idle(0, "a"));
}
