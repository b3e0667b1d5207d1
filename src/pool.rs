use vstd::prelude::*;

verus! {

/// A connection lent out by a pool. Its identity lives in proofs only: it
/// tells the pool's connections apart.
pub struct Pooled<C> {
    conn: C,
    id: Ghost<nat>,
}

impl<C> Pooled<C> {
    /// The identity of the lent connection.
    pub closed spec fn id(self) -> nat {
        self.id@
    }

    /// The lent connection.
    pub closed spec fn connection(self) -> C {
        self.conn
    }

    /// The connection itself, to talk over.
    pub fn conn(&mut self) -> (r: &mut C)
        ensures
            *r == old(self).connection(),
            final(self).id() == old(self).id(),
            final(self).connection() == *final(r),
    {
        &mut self.conn
    }
}

/// A pool of idle connections. A connection is either idle in the pool or
/// lent to exactly one holder; a holder gives it back after a good exchange
/// and drops it after a failed one.
pub struct ConnectionPool<C> {
    idle: Vec<Pooled<C>>,
    lent: Ghost<Set<nat>>,
    next_id: Ghost<nat>,
}

impl<C> ConnectionPool<C> {
    /// The identities of the idle connections, in pool order.
    pub closed spec fn idle_ids(self) -> Seq<nat> {
        self.idle@.map_values(|p: Pooled<C>| p.id())
    }

    /// The identities of the connections that are lent out.
    pub closed spec fn lent(self) -> Set<nat> {
        self.lent@
    }

    /// How many connections are open: idle ones and lent ones.
    pub open spec fn live(self) -> nat {
        self.idle_ids().len() + self.lent().len()
    }

    /// No identity is idle twice, nor idle and lent at once; every identity
    /// was handed out before.
    pub closed spec fn wf(self) -> bool {
        &&& self.lent@.finite()
        &&& forall|i: int, j: int|
            0 <= i < j < self.idle@.len() ==> self.idle@[i].id() != self.idle@[j].id()
        &&& forall|i: int|
            0 <= i < self.idle@.len() ==> !self.lent@.contains(#[trigger] self.idle@[i].id())
        &&& forall|i: int| 0 <= i < self.idle@.len() ==> #[trigger] self.idle@[i].id() < self.next_id@
        &&& forall|k: nat| #[trigger] self.lent@.contains(k) ==> k < self.next_id@
    }

    /// A checkout took connection `id`: it was not lent before, it is now,
    /// and a new connection was opened only where none was idle.
    pub open spec fn checkout_step(self, next: Self, id: nat) -> bool {
        &&& !self.lent().contains(id)
        &&& next.lent() == self.lent().insert(id)
        &&& next.live() == if self.idle_ids().len() > 0 {
            self.live()
        } else {
            self.lent().len() + 1
        }
    }

    /// A checkin gave back or dropped connection `id`.
    pub open spec fn checkin_step(self, next: Self, id: nat, healthy: bool) -> bool {
        &&& next.lent() == self.lent().remove(id)
        &&& if healthy {
            next.live() == self.live()
        } else {
            next.live() + 1 == self.live()
        }
    }

    /// An empty pool.
    pub fn new() -> (r: Self)
        ensures
            r.wf(),
            r.idle_ids().len() == 0,
            r.lent() == Set::<nat>::empty(),
            r.live() == 0,
    {
        let r = ConnectionPool { idle: Vec::new(), lent: Ghost(Set::empty()), next_id: Ghost(0) };
        assert(r.idle_ids() =~= Seq::<nat>::empty());
        r
    }

    /// How many connections are idle.
    pub fn idle_count(&self) -> (r: usize)
        ensures
            r == self.idle_ids().len(),
    {
        self.idle.len()
    }

    /// Lends a connection: the most recently returned idle one, or else a new
    /// one from `open`. Where `open` fails, its error comes back and the pool
    /// is unchanged.
    pub fn checkout<E, F: FnOnce() -> Result<C, E>>(&mut self, open: F) -> (r: Result<Pooled<C>, E>)
        requires
            old(self).wf(),
            call_requires(open, ()),
        ensures
            final(self).wf(),
            match r {
                Ok(p) => old(self).checkout_step(*final(self), p.id()),
                Err(_) => *final(self) == *old(self) && old(self).idle_ids().len() == 0,
            },
    {
        if self.idle.len() > 0 {
            let ghost before = self.idle@;
            let p = self.idle.pop().unwrap();
            proof {
                assert(self.idle@ =~= before.drop_last());
                assert(p.id() == before[before.len() - 1].id());
                let id = p.id();
                self.lent@ = self.lent@.insert(id);
                assert(self.idle_ids() =~= old(self).idle_ids().drop_last());
                assert forall|i: int| 0 <= i < self.idle@.len() implies !self.lent@.contains(
                    #[trigger] self.idle@[i].id(),
                ) by {
                    assert(self.idle@[i] == before[i]);
                    assert(i < before.len() - 1);
                }
                assert(!old(self).lent@.contains(id));
            }
            Ok(p)
        } else {
            match open() {
                Ok(conn) => {
                    let ghost id = self.next_id@;
                    let p = Pooled { conn, id: Ghost(id) };
                    proof {
                        assert(p.id() == id);
                        self.lent@ = self.lent@.insert(id);
                        self.next_id@ = id + 1;
                        assert(!old(self).lent@.contains(id));
                    }
                    Ok(p)
                },
                Err(e) => Err(e),
            }
        }
    }

    /// Takes back a lent connection: after a good exchange (`healthy`) it
    /// becomes idle; after a failed one it is dropped.
    pub fn checkin(&mut self, p: Pooled<C>, healthy: bool)
        requires
            old(self).wf(),
            old(self).lent().contains(p.id()),
        ensures
            final(self).wf(),
            old(self).checkin_step(*final(self), p.id(), healthy),
            healthy ==> final(self).idle_ids() == old(self).idle_ids().push(p.id()),
            !healthy ==> final(self).idle_ids() == old(self).idle_ids(),
    {
        let ghost id = p.id();
        proof {
            self.lent@ = self.lent@.remove(id);
        }
        if healthy {
            self.idle.push(p);
            proof {
                assert(self.idle_ids() =~= old(self).idle_ids().push(id));
                assert forall|i: int, j: int|
                    0 <= i < j < self.idle@.len() implies self.idle@[i].id()
                    != self.idle@[j].id() by {
                    if j == self.idle@.len() - 1 {
                        assert(self.idle@[i] == old(self).idle@[i]);
                        assert(!old(self).lent@.contains(old(self).idle@[i].id()));
                    } else {
                        assert(self.idle@[i] == old(self).idle@[i]);
                        assert(self.idle@[j] == old(self).idle@[j]);
                    }
                }
                assert forall|i: int| 0 <= i < self.idle@.len() implies #[trigger] self.idle@[i].id()
                    < self.next_id@ by {
                    if i < old(self).idle@.len() {
                        assert(self.idle@[i] == old(self).idle@[i]);
                    }
                }
                assert forall|i: int| 0 <= i < self.idle@.len() implies !self.lent@.contains(
                    #[trigger] self.idle@[i].id(),
                ) by {
                    if i < old(self).idle@.len() {
                        assert(self.idle@[i] == old(self).idle@[i]);
                    }
                }
            }
        }
    }
}

/// A checkout never lends a connection that is already lent, and where fewer
/// than `n` connections are lent and at most `n` are open, at most `n` are
/// open after it.
pub proof fn lemma_checkout_within_bound<C>(
    before: ConnectionPool<C>,
    after: ConnectionPool<C>,
    id: nat,
    n: nat,
)
    requires
        before.wf(),
        before.checkout_step(after, id),
        before.lent().len() < n,
        before.live() <= n,
    ensures
        !before.lent().contains(id),
        after.live() <= n,
{
}

/// A checkin never opens a connection: the count of open ones does not grow.
pub proof fn lemma_checkin_within_bound<C>(
    before: ConnectionPool<C>,
    after: ConnectionPool<C>,
    id: nat,
    healthy: bool,
    n: nat,
)
    requires
        before.wf(),
        before.checkin_step(after, id, healthy),
        before.live() <= n,
    ensures
        after.live() <= n,
{
}

} // verus!
