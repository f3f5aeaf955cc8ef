//! What holds of taking connections out of the pools and putting them back.
use vstd::prelude::*;

use crate::pool::{after_connection, after_drop, bounded, has_room, idle_at};

verus! {

/// After a connection to it was asked for, an address has a pool.
pub proof fn law_asked_address_has_pool(pools: Map<Seq<char>, Seq<u64>>, addr: Seq<char>)
    ensures
        after_connection(pools, addr).contains_key(addr),
        forall|a: Seq<char>| #[trigger]
            pools.contains_key(a) ==> after_connection(pools, addr).contains_key(a),
        forall|a: Seq<char>| #[trigger]
            after_connection(pools, addr).contains_key(a) ==> a == addr || pools.contains_key(a),
{
}

/// To ask for a connection takes the one that is idle longest out of the pool and
/// keeps the others in order. Where none is idle, none is afterwards.
pub proof fn law_oldest_is_taken(pools: Map<Seq<char>, Seq<u64>>, addr: Seq<char>)
    ensures
        if pools.contains_key(addr) && pools[addr].len() > 0 {
            seq![pools[addr][0]] + after_connection(pools, addr)[addr] == pools[addr]
        } else {
            after_connection(pools, addr)[addr].len() == 0
        },
{
    if pools.contains_key(addr) && pools[addr].len() > 0 {
        assert(seq![pools[addr][0]] + after_connection(pools, addr)[addr] =~= pools[addr]);
    }
}

/// A connection that is put back is the last in its pool, behind those that were
/// idle before it. Nothing is put back into a pool of sixteen, nor where there is
/// no pool.
pub proof fn law_put_back_at_the_end(pools: Map<Seq<char>, Seq<u64>>, addr: Seq<char>, conn: u64)
    ensures
        if pools.contains_key(addr) && pools[addr].len() < 16 {
            &&& after_drop(pools, addr, conn).dom() == pools.dom()
            &&& after_drop(pools, addr, conn)[addr].last() == conn
            &&& after_drop(pools, addr, conn)[addr].drop_last() == pools[addr]
            &&& after_drop(pools, addr, conn)[addr].len() == pools[addr].len() + 1
        } else {
            after_drop(pools, addr, conn) == pools
        },
{
    if pools.contains_key(addr) && pools[addr].len() < 16 {
        assert(after_drop(pools, addr, conn).dom() =~= pools.dom());
        assert(after_drop(pools, addr, conn)[addr].drop_last() =~= pools[addr]);
    }
}

/// The first connection to an address is reused: after one was asked for, of an
/// address unknown before, and `conn` was put back, `conn` is what the next request
/// takes, and it leaves the pool empty.
pub proof fn law_first_connection_is_reused(
    pools: Map<Seq<char>, Seq<u64>>,
    addr: Seq<char>,
    conn: u64,
)
    requires
        !pools.contains_key(addr),
    ensures
        ({
            let put = after_drop(after_connection(pools, addr), addr, conn);
            &&& put.contains_key(addr)
            &&& put[addr] == seq![conn]
            &&& after_connection(put, addr).contains_key(addr)
            &&& after_connection(put, addr)[addr].len() == 0
        }),
{
    let put = after_drop(after_connection(pools, addr), addr, conn);
    assert(put[addr] =~= seq![conn]);
}

/// The pools stay within their bounds, whatever is taken or put back.
pub proof fn law_bound_kept(pools: Map<Seq<char>, Seq<u64>>, addr: Seq<char>, conn: u64)
    requires
        bounded(pools),
    ensures
        bounded(after_connection(pools, addr)),
        bounded(after_drop(pools, addr, conn)),
{
}

/// To take from the pool of one address, or to put back into it, leaves the
/// others as they are.
pub proof fn law_other_pools_kept(
    pools: Map<Seq<char>, Seq<u64>>,
    addr: Seq<char>,
    conn: u64,
    other: Seq<char>,
)
    requires
        other != addr,
    ensures
        after_connection(pools, addr).contains_key(other) == pools.contains_key(other),
        after_drop(pools, addr, conn).contains_key(other) == pools.contains_key(other),
        idle_at(after_connection(pools, addr), other) == idle_at(pools, other),
        idle_at(after_drop(pools, addr, conn), other) == idle_at(pools, other),
        pools.contains_key(other) ==> after_connection(pools, addr)[other] == pools[other],
        pools.contains_key(other) ==> after_drop(pools, addr, conn)[other] == pools[other],
{
}

/// A connection that is put back into a pool without idle connections is the next
/// to be taken from it, and the pool is then as before.
pub proof fn law_put_back_is_reused(pools: Map<Seq<char>, Seq<u64>>, addr: Seq<char>, conn: u64)
    requires
        pools.contains_key(addr),
        pools[addr].len() == 0,
    ensures
        idle_at(after_drop(pools, addr, conn), addr) == seq![conn],
        after_connection(after_drop(pools, addr, conn), addr) == pools,
{
    let put = after_drop(pools, addr, conn);
    assert(put[addr] =~= seq![conn]);
    assert(put[addr].drop_first() =~= pools[addr]);
    assert(after_connection(put, addr) =~= pools);
}

/// The pools after `n` connections to `addr` were asked for.
pub open spec fn after_connections(
    pools: Map<Seq<char>, Seq<u64>>,
    addr: Seq<char>,
    n: nat,
) -> Map<Seq<char>, Seq<u64>>
    decreases n,
{
    if n == 0 {
        pools
    } else {
        after_connection(after_connections(pools, addr, (n - 1) as nat), addr)
    }
}

/// Connections are taken in the order in which they were put back: after `n` of
/// them the rest is idle, in the same order.
pub proof fn law_taken_in_order(pools: Map<Seq<char>, Seq<u64>>, addr: Seq<char>, n: nat)
    requires
        n <= idle_at(pools, addr).len(),
    ensures
        idle_at(after_connections(pools, addr, n), addr) == idle_at(pools, addr).skip(n as int),
    decreases n,
{
    if n == 0 {
        assert(idle_at(pools, addr).skip(0) =~= idle_at(pools, addr));
    } else {
        law_taken_in_order(pools, addr, (n - 1) as nat);
        assert(idle_at(pools, addr).skip(n - 1).drop_first() =~= idle_at(pools, addr).skip(
            n as int,
        ));
    }
}

/// A connection that is put back comes up once all that were idle before it are
/// taken.
pub proof fn law_put_back_comes_last(pools: Map<Seq<char>, Seq<u64>>, addr: Seq<char>, conn: u64)
    requires
        has_room(pools, addr),
    ensures
        idle_at(
            after_connections(after_drop(pools, addr, conn), addr, pools[addr].len()),
            addr,
        ) == seq![conn],
{
    law_taken_in_order(after_drop(pools, addr, conn), addr, pools[addr].len());
    assert(pools[addr].push(conn).skip(pools[addr].len() as int) =~= seq![conn]);
}

/// The connection is idle in some pool.
pub open spec fn is_idle(pools: Map<Seq<char>, Seq<u64>>, conn: u64) -> bool {
    exists|addr: Seq<char>, i: int|
        pools.contains_key(addr) && 0 <= i < pools[addr].len() && #[trigger] pools[addr][i] == conn
}

/// No connection is idle in two places.
pub open spec fn idle_once(pools: Map<Seq<char>, Seq<u64>>) -> bool {
    forall|a: Seq<char>, i: int, b: Seq<char>, j: int|
        pools.contains_key(a) && pools.contains_key(b) && 0 <= i < pools[a].len() && 0 <= j
            < pools[b].len() && #[trigger] pools[a][i] == #[trigger] pools[b][j] ==> a == b && i
            == j
}

/// A connection that is handed out is idle no longer, so that nobody else is
/// handed it before it is put back.
pub proof fn law_taken_is_not_idle(pools: Map<Seq<char>, Seq<u64>>, addr: Seq<char>)
    requires
        idle_once(pools),
        idle_at(pools, addr).len() > 0,
    ensures
        idle_once(after_connection(pools, addr)),
        !is_idle(after_connection(pools, addr), idle_at(pools, addr)[0]),
{
    let after = after_connection(pools, addr);
    assert forall|a: Seq<char>, i: int, b: Seq<char>, j: int|
        after.contains_key(a) && after.contains_key(b) && 0 <= i < after[a].len() && 0 <= j
            < after[b].len() && #[trigger] after[a][i] == #[trigger] after[b][j] implies a == b && i
        == j by {
        let i0 = if a == addr { i + 1 } else { i };
        let j0 = if b == addr { j + 1 } else { j };
        assert(pools[a][i0] == after[a][i]);
        assert(pools[b][j0] == after[b][j]);
    }
    assert forall|a: Seq<char>, i: int|
        after.contains_key(a) && 0 <= i < after[a].len() implies #[trigger] after[a][i] != idle_at(
        pools,
        addr,
    )[0] by {
        let i0 = if a == addr { i + 1 } else { i };
        assert(pools[a][i0] == after[a][i]);
        assert(pools[addr][0] == idle_at(pools, addr)[0]);
    }
}

/// To put back a connection that is in use makes it idle in one place at most.
pub proof fn law_put_back_once(pools: Map<Seq<char>, Seq<u64>>, addr: Seq<char>, conn: u64)
    requires
        idle_once(pools),
        !is_idle(pools, conn),
    ensures
        idle_once(after_drop(pools, addr, conn)),
{
    let after = after_drop(pools, addr, conn);
    assert forall|a: Seq<char>, i: int, b: Seq<char>, j: int|
        after.contains_key(a) && after.contains_key(b) && 0 <= i < after[a].len() && 0 <= j
            < after[b].len() && #[trigger] after[a][i] == #[trigger] after[b][j] implies a == b && i
        == j by {
        if has_room(pools, addr) {
            let a_new = a == addr && i == pools[addr].len();
            let b_new = b == addr && j == pools[addr].len();
            if !a_new {
                assert(pools[a][i] == after[a][i]);
            }
            if !b_new {
                assert(pools[b][j] == after[b][j]);
            }
        }
    }
}

/// Every idle connection has a number below `n`.
pub open spec fn idle_below(pools: Map<Seq<char>, Seq<u64>>, n: u64) -> bool {
    forall|addr: Seq<char>, i: int|
        pools.contains_key(addr) && 0 <= i < pools[addr].len() ==> #[trigger] pools[addr][i] < n
}

/// As long as only connections with numbers below `opened` are put back, all idle
/// ones have such numbers.
pub proof fn law_idle_below_kept(
    pools: Map<Seq<char>, Seq<u64>>,
    addr: Seq<char>,
    conn: u64,
    opened: u64,
)
    requires
        idle_below(pools, opened),
        conn < opened,
    ensures
        idle_below(after_connection(pools, addr), opened),
        idle_below(after_drop(pools, addr, conn), opened),
{
    let taken = after_connection(pools, addr);
    assert forall|a: Seq<char>, i: int|
        taken.contains_key(a) && 0 <= i < taken[a].len() implies #[trigger] taken[a][i] < opened by {
        let i0 = if a == addr { i + 1 } else { i };
        assert(pools[a][i0] == taken[a][i]);
    }
    let put = after_drop(pools, addr, conn);
    assert forall|a: Seq<char>, i: int|
        put.contains_key(a) && 0 <= i < put[a].len() implies #[trigger] put[a][i] < opened by {
        if put[a].len() == pools[a].len() || i < pools[a].len() {
            assert(pools[a][i] == put[a][i]);
        }
    }
}

/// The number that the next connection is given is not idle, and those that are
/// idle stay below the numbers given away.
pub proof fn law_next_number_is_not_idle(pools: Map<Seq<char>, Seq<u64>>, opened: u64)
    requires
        idle_below(pools, opened),
    ensures
        !is_idle(pools, opened),
        opened < u64::MAX ==> idle_below(pools, (opened + 1) as u64),
{
}

} // verus!
