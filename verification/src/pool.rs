//! Pools of idle connections, one for each address.
//!
//! A connection is known here by the number that it is given when it is opened.
//! Whoever opens connections keeps what belongs to each number.
use crossbeam::queue::ArrayQueue;
use vstd::hash_map::StringHashMap;
use vstd::prelude::*;

verus! {

/// How many idle connections a pool keeps at most.
pub const POOL_CAPACITY: usize = 16;

/// `crossbeam::queue::ArrayQueue`, a queue of bounded length.
#[verifier::external_type_specification]
#[verifier::external_body]
#[verifier::reject_recursive_types(T)]
pub struct ExArrayQueue<T>(ArrayQueue<T>);

/// What a queue holds, the oldest first.
pub uninterp spec fn queue_items(queue: ArrayQueue<u64>) -> Seq<u64>;

/// How many items a queue holds at most.
pub uninterp spec fn queue_limit(queue: ArrayQueue<u64>) -> nat;

/// `ArrayQueue::new`: a queue that is empty and holds at most `cap` items. It
/// panics if `cap` is zero, or so large that its buffer cannot be allocated.
#[verifier::external_body]
fn queue_new(cap: usize) -> (queue: ArrayQueue<u64>)
    requires
        0 < cap <= POOL_CAPACITY,
    ensures
        queue_items(queue) == Seq::<u64>::empty(),
        queue_limit(queue) == cap,
{
    ArrayQueue::new(cap)
}

/// `ArrayQueue::push`: appends the item, or hands it back if the queue is full.
/// Through an exclusive reference no other thread pushes or pops meanwhile.
#[verifier::external_body]
fn queue_push(queue: &mut ArrayQueue<u64>, value: u64) -> (result: Result<(), u64>)
    ensures
        queue_limit(*final(queue)) == queue_limit(*old(queue)),
        match result {
            Ok(()) => {
                &&& queue_items(*old(queue)).len() < queue_limit(*old(queue))
                &&& queue_items(*final(queue)) == queue_items(*old(queue)).push(value)
            },
            Err(v) => {
                &&& queue_items(*old(queue)).len() >= queue_limit(*old(queue))
                &&& queue_items(*final(queue)) == queue_items(*old(queue))
                &&& v == value
            },
        },
{
    queue.push(value)
}

/// `ArrayQueue::pop`: removes and returns the oldest item, if there is one.
/// Through an exclusive reference no other thread pushes or pops meanwhile.
#[verifier::external_body]
fn queue_pop(queue: &mut ArrayQueue<u64>) -> (result: Option<u64>)
    ensures
        queue_limit(*final(queue)) == queue_limit(*old(queue)),
        match result {
            Some(v) => {
                &&& queue_items(*old(queue)).len() > 0
                &&& v == queue_items(*old(queue))[0]
                &&& queue_items(*final(queue)) == queue_items(*old(queue)).drop_first()
            },
            None => {
                &&& queue_items(*old(queue)).len() == 0
                &&& queue_items(*final(queue)) == queue_items(*old(queue))
            },
        },
{
    queue.pop()
}

/// The idle connections to one address.
pub struct ConnectionPool {
    connections: ArrayQueue<u64>,
}

impl View for ConnectionPool {
    type V = Seq<u64>;

    /// The idle connections, the one that is idle longest first.
    closed spec fn view(&self) -> Seq<u64> {
        queue_items(self.connections)
    }
}

impl ConnectionPool {
    /// The pool keeps at most [`POOL_CAPACITY`] connections.
    pub closed spec fn wf(&self) -> bool {
        &&& queue_limit(self.connections) == POOL_CAPACITY
        &&& queue_items(self.connections).len() <= POOL_CAPACITY
    }

    /// A well-formed pool is within its bound.
    pub proof fn lemma_bounded(&self)
        requires
            self.wf(),
        ensures
            self@.len() <= POOL_CAPACITY,
            self@.len() <= 16,
    {
    }

    /// Creates a pool without connections.
    pub fn new() -> (pool: Self)
        ensures
            pool.wf(),
            pool@ == Seq::<u64>::empty(),
    {
        ConnectionPool { connections: queue_new(POOL_CAPACITY) }
    }

    /// Takes the connection that is idle longest. `None` asks for a new one to be
    /// opened.
    pub fn connection(&mut self) -> (conn: Option<u64>)
        requires
            old(self).wf(),
        ensures
            final(self).wf(),
            match conn {
                Some(c) => {
                    &&& old(self)@.len() > 0
                    &&& c == old(self)@[0]
                    &&& final(self)@ == old(self)@.drop_first()
                },
                None => old(self)@.len() == 0 && final(self)@ == old(self)@,
            },
    {
        queue_pop(&mut self.connections)
    }

    /// Puts a connection back, unless the pool is full. Returns whether it was
    /// kept.
    pub fn replenish(&mut self, conn: u64) -> (kept: bool)
        requires
            old(self).wf(),
        ensures
            final(self).wf(),
            kept == (old(self)@.len() < POOL_CAPACITY),
            kept == (old(self)@.len() < 16),
            final(self)@ == if kept {
                old(self)@.push(conn)
            } else {
                old(self)@
            },
    {
        queue_push(&mut self.connections, conn).is_ok()
    }
}

/// A connection in use, and the address whose pool it goes back to.
#[derive(Debug, Clone, PartialEq, Eq)]
pub struct Connection {
    pub conn: u64,
    pub addr: String,
}

/// What a request for a connection is answered with.
#[derive(Debug, Clone, PartialEq, Eq)]
pub enum Acquired {
    /// A connection that was idle.
    Idle(Connection),
    /// No connection was idle: one has to be opened to this address.
    Dial(String),
}

/// The idle connections to an address, none where there is no pool yet.
pub open spec fn idle_at(pools: Map<Seq<char>, Seq<u64>>, addr: Seq<char>) -> Seq<u64> {
    if pools.contains_key(addr) {
        pools[addr]
    } else {
        Seq::empty()
    }
}

/// The pools after a connection to `addr` was asked for: the address has a pool,
/// without the connection that was idle longest.
pub open spec fn after_connection(
    pools: Map<Seq<char>, Seq<u64>>,
    addr: Seq<char>,
) -> Map<Seq<char>, Seq<u64>> {
    let idle = idle_at(pools, addr);
    pools.insert(
        addr,
        if idle.len() > 0 {
            idle.drop_first()
        } else {
            idle
        },
    )
}

/// Whether the pool of `addr` takes another connection.
pub open spec fn has_room(pools: Map<Seq<char>, Seq<u64>>, addr: Seq<char>) -> bool {
    pools.contains_key(addr) && pools[addr].len() < POOL_CAPACITY
}

/// The pools after `conn` was put back into the pool of `addr`.
pub open spec fn after_drop(
    pools: Map<Seq<char>, Seq<u64>>,
    addr: Seq<char>,
    conn: u64,
) -> Map<Seq<char>, Seq<u64>> {
    if has_room(pools, addr) {
        pools.insert(addr, pools[addr].push(conn))
    } else {
        pools
    }
}

/// Every pool is within its bound.
pub open spec fn bounded(pools: Map<Seq<char>, Seq<u64>>) -> bool {
    forall|addr: Seq<char>| #[trigger]
        pools.contains_key(addr) ==> pools[addr].len() <= POOL_CAPACITY
}

/// The pools of all addresses.
pub struct Connections {
    index: StringHashMap<usize>,
    pools: Vec<ConnectionPool>,
    opened: u64,
}

impl View for Connections {
    type V = Map<Seq<char>, Seq<u64>>;

    /// The idle connections of each address that has a pool, the one that is idle
    /// longest first.
    closed spec fn view(&self) -> Map<Seq<char>, Seq<u64>> {
        Map::new(
            |addr: Seq<char>| self.index@.contains_key(addr),
            |addr: Seq<char>| self.pools@[self.index@[addr] as int]@,
        )
    }
}

impl Connections {
    /// Each address has a pool of its own, and each pool is well-formed.
    pub closed spec fn wf(&self) -> bool {
        &&& forall|a: Seq<char>| #[trigger]
            self.index@.contains_key(a) ==> self.index@[a] < self.pools@.len()
        &&& forall|a: Seq<char>, b: Seq<char>|
            #![trigger self.index@.contains_key(a), self.index@.contains_key(b)]
            self.index@.contains_key(a) && self.index@.contains_key(b) && self.index@[a]
                == self.index@[b] ==> a == b
        &&& forall|i: int| 0 <= i < self.pools@.len() ==> (#[trigger] self.pools@[i]).wf()
    }

    /// How many connections were opened so far. They have the numbers below.
    pub closed spec fn opened(&self) -> u64 {
        self.opened
    }

    /// Well-formed pools are within their bounds.
    pub proof fn lemma_bounded(&self)
        requires
            self.wf(),
        ensures
            bounded(self@),
    {
        assert forall|addr: Seq<char>| #[trigger] self@.contains_key(addr) implies self@[addr].len()
            <= POOL_CAPACITY by {
            assert(self.index@.contains_key(addr));
            self.pools@[self.index@[addr] as int].lemma_bounded();
        }
    }

    /// Starts without pools.
    pub fn new() -> (connections: Self)
        ensures
            connections.wf(),
            connections@ == Map::<Seq<char>, Seq<u64>>::empty(),
            connections.opened() == 0,
    {
        let connections = Connections { index: StringHashMap::new(), pools: Vec::new(), opened: 0 };
        assert(connections@ =~= Map::<Seq<char>, Seq<u64>>::empty());
        connections
    }

    /// Asks for a connection to `addr`: the one that is idle longest, or else a
    /// new one has to be opened. The address has a pool afterwards.
    pub fn connection(&mut self, addr: String) -> (acquired: Acquired)
        requires
            old(self).wf(),
        ensures
            final(self).wf(),
            final(self)@ == after_connection(old(self)@, addr@),
            final(self).opened() == old(self).opened(),
            match acquired {
                Acquired::Idle(connection) => {
                    &&& idle_at(old(self)@, addr@).len() > 0
                    &&& connection.conn == idle_at(old(self)@, addr@)[0]
                    &&& connection.addr@ == addr@
                },
                Acquired::Dial(to) => idle_at(old(self)@, addr@).len() == 0 && to@ == addr@,
            },
            final(self)@.contains_key(addr@),
            if old(self)@.contains_key(addr@) && old(self)@[addr@].len() > 0 {
                &&& acquired matches Acquired::Idle(connection)
                &&& connection.conn == old(self)@[addr@][0]
                &&& connection.addr@ == addr@
                &&& final(self)@[addr@] == old(self)@[addr@].skip(1)
            } else {
                &&& acquired matches Acquired::Dial(to)
                &&& to@ == addr@
                &&& final(self)@[addr@].len() == 0
            },
            forall|other: Seq<char>|
                other != addr@ ==> (#[trigger] final(self)@.contains_key(other) <==> old(
                    self,
                )@.contains_key(other)),
            forall|other: Seq<char>|
                other != addr@ && #[trigger] old(self)@.contains_key(other) ==> final(self)@[other]
                    == old(self)@[other],
    {
        let known: Option<usize> = match self.index.get(addr.as_str()) {
            Some(i) => Some(*i),
            None => None,
        };
        let i: usize = match known {
            Some(i) => i,
            None => {
                let i: usize = self.pools.len();
                self.pools.push(ConnectionPool::new());
                self.index.insert(addr.clone(), i);
                i
            },
        };
        let conn = self.pools[i].connection();
        assert(self@ =~= after_connection(old(self)@, addr@));
        assert(idle_at(old(self)@, addr@).len() > 0 ==> self@[addr@] =~= old(self)@[addr@].skip(1));
        match conn {
            Some(conn) => Acquired::Idle(Connection { conn, addr }),
            None => Acquired::Dial(addr),
        }
    }

    /// Gives a connection to `addr` that was just opened the next number. `None`
    /// means that all numbers are given away.
    pub fn open(&mut self, addr: String) -> (connection: Option<Connection>)
        requires
            old(self).wf(),
        ensures
            final(self).wf(),
            final(self)@ == old(self)@,
            match connection {
                Some(c) => {
                    &&& c.conn == old(self).opened()
                    &&& c.addr@ == addr@
                    &&& final(self).opened() == old(self).opened() + 1
                },
                None => old(self).opened() == u64::MAX && final(self).opened() == u64::MAX,
            },
    {
        if self.opened == u64::MAX {
            return None;
        }
        let conn: u64 = self.opened;
        self.opened = conn + 1;
        assert(self@ =~= old(self)@);
        Some(Connection { conn, addr })
    }
}

impl Connection {
    /// Ends the use of a connection: it goes back to the pool of its address,
    /// unless that is full. Returns whether it was kept.
    pub fn drop(self, connections: &mut Connections) -> (kept: bool)
        requires
            old(connections).wf(),
        ensures
            final(connections).wf(),
            kept == has_room(old(connections)@, self.addr@),
            final(connections)@ == after_drop(old(connections)@, self.addr@, self.conn),
            final(connections).opened() == old(connections).opened(),
            kept == (old(connections)@.contains_key(self.addr@) && old(
                connections,
            )@[self.addr@].len() < 16),
            kept ==> final(connections)@ == old(connections)@.insert(
                self.addr@,
                old(connections)@[self.addr@].push(self.conn),
            ),
            !kept ==> final(connections)@ == old(connections)@,
    {
        let known: Option<usize> = match connections.index.get(self.addr.as_str()) {
            Some(i) => Some(*i),
            None => None,
        };
        let kept: bool = match known {
            Some(i) => connections.pools[i].replenish(self.conn),
            None => false,
        };
        assert(connections@ =~= after_drop(old(connections)@, self.addr@, self.conn));
        kept
    }
}

} // verus!
