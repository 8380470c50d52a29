//! The decisions of the pool worker: which idle connection goes to which
//! waiter, when to connect, health-check and close, and how long to sleep.
//!
//! The worker task owns the channels, the futures and the clock; it hands
//! every event to a [`PoolState`] and performs the action it gets back.
//! Times are milliseconds since the worker started.
use std::collections::VecDeque;
use vstd::prelude::*;

verus! {

/// Idle connections are health-checked after half a minute.
pub const HALF_MINUTE: u64 = 30000;

/// A connection held by the pool, with when it was last checked and when
/// it was made.
#[derive(Debug)]
pub struct Pooled<C> {
    pub conn: C,
    pub healthc_at: u64,
    pub created_at: u64,
}

/// The connection was last checked more than half a minute before `now`.
pub open spec fn should_healthcheck<C>(p: Pooled<C>, now: u64) -> bool {
    now > p.healthc_at + HALF_MINUTE
}

/// How long until connection `p` is half a minute old (zero once it is).
pub open spec fn until_due<C>(p: Pooled<C>, now: u64) -> int {
    let elapsed: int = if now >= p.created_at { now - p.created_at } else { 0 };
    if elapsed >= HALF_MINUTE { 0 } else { HALF_MINUTE - elapsed }
}

/// The least of half a minute and `until_due` over `s`.
pub open spec fn next_sleep<C>(s: Seq<Pooled<C>>, now: u64) -> int
    decreases s.len(),
{
    if s.len() == 0 {
        HALF_MINUTE as int
    } else {
        let rest = next_sleep(s.drop_last(), now);
        let d = until_due(s.last(), now);
        if d < rest { d } else { rest }
    }
}

/// The position, counted from the back, of the last connection that is
/// due for a health check.
pub open spec fn due_from_back<C>(s: Seq<Pooled<C>>, now: u64) -> Option<int>
    decreases s.len(),
{
    if s.len() == 0 {
        None
    } else if should_healthcheck(s.last(), now) {
        Some(0)
    } else {
        match due_from_back(s.drop_last(), now) {
            Some(i) => Some(i + 1),
            None => None,
        }
    }
}

/// A sleep checks only connections whose last check is stale.  The
/// connection that [`PoolState::on_sleep`] takes out of the idle list `s`
/// for a check (the one at `s.len() - 1 - i` when [`due_from_back`] gives
/// `Some(i)`) was last checked more than half a minute (30000 ms) before
/// `now`, however old the connection itself is, and it is the last such
/// connection in the list; when every idle connection was checked at most
/// half a minute ago, none is taken out.
pub proof fn law_sleep_checks_stale<C>(s: Seq<Pooled<C>>, now: u64)
    ensures
        due_from_back(s, now) matches Some(i) ==> {
            &&& 0 <= i < s.len()
            &&& now > s[s.len() - 1 - i].healthc_at + 30000
            &&& forall|j: int| s.len() - 1 - i < j < s.len() ==> now <= #[trigger] s[j].healthc_at + 30000
        },
        due_from_back(s, now) is None <==> forall|j: int|
            0 <= j < s.len() ==> now <= #[trigger] s[j].healthc_at + 30000,
    decreases s.len(),
{
    if s.len() > 0 {
        law_sleep_checks_stale(s.drop_last(), now);
        assert forall|j: int| 0 <= j < s.len() - 1 implies #[trigger] s[j] == s.drop_last()[j] by {}
    }
}

/// `s` after `VecDeque::swap_remove_back(i)`: element `i` is replaced by
/// the last one, which leaves.
pub open spec fn swap_remove_back<T>(s: Seq<T>, i: int) -> Seq<T> {
    if i == s.len() - 1 {
        s.drop_last()
    } else {
        s.drop_last().update(i, s.last())
    }
}

/// A connection to hand to a waiter.  If the waiter is gone, the caller
/// gives the connection back with [`PoolState::undelivered`], telling
/// where it goes.
#[derive(Debug)]
pub struct Delivery<C, W> {
    pub waiter: W,
    pub conn: Pooled<C>,
    /// A connection that is not taken goes back to the front of the idle
    /// list, checked now; otherwise to its back, with the check time it
    /// had.
    pub back_to_front: bool,
}

/// What the worker does after an event.
#[derive(Debug)]
pub enum PoolAction<C, W> {
    /// Nothing more.
    Nothing,
    /// Hand a connection to a waiter.
    Deliver(Delivery<C, W>),
    /// Open a new connection, then report it with
    /// [`PoolState::on_connected`].
    Connect,
    /// Health-check this connection, then report with
    /// [`PoolState::on_healthcheck`].
    Healthcheck(Pooled<C>),
    /// Shut this connection down, then report with [`PoolState::on_closed`].
    Close(Pooled<C>),
    /// Drop this connection.
    Drop(Pooled<C>),
}

/// The connections that an action hands out to a waiter: one for a
/// delivery, none otherwise.
pub open spec fn lent_by<C, W>(a: PoolAction<C, W>) -> int {
    if a is Deliver { 1 } else { 0 }
}

/// The count of connections handed out once one of them is given back
/// (a connection given back when none is counted leaves the count at
/// zero).
pub open spec fn given_back(lent: nat) -> nat {
    if lent > 0 { (lent - 1) as nat } else { 0 }
}

/// The bookkeeping of a pool of connections `C` and waiters `W`.
pub struct PoolState<C, W> {
    max_conn: usize,
    actives: usize,
    /// New and released connections are pushed back; acquired ones are
    /// popped from the front.
    conns: VecDeque<Pooled<C>>,
    queue: VecDeque<W>,
    connecting: bool,
    healthcheck: bool,
    closing: bool,
    /// The connections handed out to waiters and not yet given back.
    lent: Ghost<nat>,
}

impl<C, W> PoolState<C, W> {
    pub closed spec fn spec_max_conn(&self) -> nat {
        self.max_conn as nat
    }

    /// Connections opened and not yet closed.
    pub closed spec fn spec_actives(&self) -> nat {
        self.actives as nat
    }

    /// Idle connections, front first.
    pub closed spec fn spec_conns(&self) -> Seq<Pooled<C>> {
        self.conns@
    }

    /// Waiters, first come first.
    pub closed spec fn spec_queue(&self) -> Seq<W> {
        self.queue@
    }

    /// A connection is being opened.
    pub closed spec fn spec_connecting(&self) -> bool {
        self.connecting
    }

    /// A connection is being health-checked.
    pub closed spec fn spec_healthcheck(&self) -> bool {
        self.healthcheck
    }

    /// A connection is being closed.
    pub closed spec fn spec_closing(&self) -> bool {
        self.closing
    }

    /// The open connections the worker holds itself: the idle ones, the
    /// one being checked and the one being closed.
    pub open spec fn spec_held(&self) -> nat {
        self.spec_conns().len() + (if self.spec_healthcheck() { 1nat } else { 0nat }) + (
        if self.spec_closing() { 1nat } else { 0nat })
    }

    /// The connections handed out to waiters and not yet given back: each
    /// event below changes this number exactly by the connections it hands
    /// out or takes back.
    pub closed spec fn spec_lent(&self) -> nat {
        self.lent@
    }

    /// Every open connection is accounted for, and the pool never has more
    /// connections open, or being opened, than it may: the open
    /// connections are exactly the idle ones, those handed out, the one
    /// being checked and the one being closed.
    pub open spec fn inv(&self) -> bool {
        &&& self.spec_actives() + (if self.spec_connecting() { 1nat } else { 0nat })
            <= self.spec_max_conn()
        &&& self.spec_actives() == self.spec_held() + self.spec_lent()
    }

    /// An empty pool of at most `max_conn` connections.
    pub fn new(max_conn: usize) -> (r: PoolState<C, W>)
        ensures
            r.spec_max_conn() == max_conn,
            r.spec_actives() == 0,
            r.inv(),
            r.spec_conns() == Seq::<Pooled<C>>::empty(),
            r.spec_queue() == Seq::<W>::empty(),
            !r.spec_connecting(),
            !r.spec_healthcheck(),
            !r.spec_closing(),
            r.spec_lent() == 0,
    {
        PoolState {
            max_conn,
            actives: 0,
            conns: VecDeque::new(),
            queue: VecDeque::new(),
            connecting: false,
            healthcheck: false,
            closing: false,
            lent: Ghost(0),
        }
    }

    /// The number of idle connections.
    pub fn idle(&self) -> (r: usize)
        ensures
            r == self.spec_conns().len(),
    {
        self.conns.len()
    }

    /// The number of waiters.
    pub fn waiting(&self) -> (r: usize)
        ensures
            r == self.spec_queue().len(),
    {
        self.queue.len()
    }

    /// The number of open connections.
    pub fn actives(&self) -> (r: usize)
        ensures
            r == self.spec_actives(),
    {
        self.actives
    }

    /// Whether a connection is being health-checked.
    pub fn healthchecking(&self) -> (r: bool)
        ensures
            r == self.spec_healthcheck(),
    {
        self.healthcheck
    }

    /// Whether a connection is being closed.
    pub fn closing(&self) -> (r: bool)
        ensures
            r == self.spec_closing(),
    {
        self.closing
    }

    /// Starts connecting unless a connection is being opened already or
    /// the pool is full.
    fn maybe_connect(&mut self) -> (r: PoolAction<C, W>)
        ensures
            final(self).spec_lent() == old(self).spec_lent(),
            old(self).inv() ==> final(self).inv(),
            final(self).spec_conns() == old(self).spec_conns(),
            final(self).spec_queue() == old(self).spec_queue(),
            final(self).spec_actives() == old(self).spec_actives(),
            final(self).spec_max_conn() == old(self).spec_max_conn(),
            final(self).spec_healthcheck() == old(self).spec_healthcheck(),
            final(self).spec_closing() == old(self).spec_closing(),
            if !old(self).spec_connecting() && old(self).spec_actives() < old(self).spec_max_conn() {
                r is Connect && final(self).spec_connecting()
            } else {
                r is Nothing && final(self).spec_connecting() == old(self).spec_connecting()
            },
    {
        if !self.connecting && self.actives < self.max_conn {
            self.connecting = true;
            PoolAction::Connect
        } else {
            PoolAction::Nothing
        }
    }

    /// A connection became idle (checked at `hc`): the first waiter gets
    /// it, or it joins the back of the idle list.
    fn connection_idle(&mut self, conn: C, created_at: u64, hc: u64) -> (r: PoolAction<C, W>)
        ensures
            final(self).spec_lent() == old(self).spec_lent() + lent_by(r),
            final(self).spec_held() + final(self).spec_lent() == old(self).spec_held()
                + old(self).spec_lent() + 1,
            final(self).spec_actives() == old(self).spec_actives(),
            final(self).spec_max_conn() == old(self).spec_max_conn(),
            final(self).spec_connecting() == old(self).spec_connecting(),
            final(self).spec_healthcheck() == old(self).spec_healthcheck(),
            final(self).spec_closing() == old(self).spec_closing(),
            if old(self).spec_queue().len() > 0 {
                &&& r matches PoolAction::Deliver(d) && d.waiter == old(self).spec_queue()[0]
                    && d.conn == (Pooled { conn, healthc_at: hc, created_at }) && !d.back_to_front
                &&& final(self).spec_queue() == old(self).spec_queue().drop_first()
                &&& final(self).spec_conns() == old(self).spec_conns()
            } else {
                &&& r is Nothing
                &&& final(self).spec_queue() == old(self).spec_queue()
                &&& final(self).spec_conns() == old(self).spec_conns().push(
                    Pooled { conn, healthc_at: hc, created_at },
                )
            },
    {
        let p = Pooled { conn, healthc_at: hc, created_at };
        match self.queue.pop_front() {
            Some(waiter) => {
                self.lent = Ghost(self.lent@ + 1);
                PoolAction::Deliver(Delivery { waiter, conn: p, back_to_front: false })
            },
            None => {
                self.conns.push_back(p);
                PoolAction::Nothing
            },
        }
    }

    /// A waiter asks for a connection: the front idle one goes to it; with
    /// none idle it waits, and a connection is opened if the pool may.
    pub fn on_acquire(&mut self, waiter: W) -> (r: PoolAction<C, W>)
        ensures
            final(self).spec_lent() == old(self).spec_lent() + lent_by(r),
            old(self).inv() ==> final(self).inv(),
            final(self).spec_actives() == old(self).spec_actives(),
            final(self).spec_max_conn() == old(self).spec_max_conn(),
            final(self).spec_healthcheck() == old(self).spec_healthcheck(),
            final(self).spec_closing() == old(self).spec_closing(),
            if old(self).spec_conns().len() > 0 {
                &&& r matches PoolAction::Deliver(d) && d.waiter == waiter && d.conn == old(self).spec_conns()[0] && d.back_to_front
                &&& final(self).spec_conns() == old(self).spec_conns().drop_first()
                &&& final(self).spec_queue() == old(self).spec_queue()
                &&& final(self).spec_connecting() == old(self).spec_connecting()
            } else {
                &&& final(self).spec_conns() == old(self).spec_conns()
                &&& final(self).spec_queue() == old(self).spec_queue().push(waiter)
                &&& if !old(self).spec_connecting() && old(self).spec_actives() < old(self).spec_max_conn() {
                    r is Connect && final(self).spec_connecting()
                } else {
                    r is Nothing && final(self).spec_connecting() == old(self).spec_connecting()
                }
            },
    {
        match self.conns.pop_front() {
            Some(p) => {
                self.lent = Ghost(self.lent@ + 1);
                PoolAction::Deliver(Delivery { waiter, conn: p, back_to_front: true })
            },
            None => {
                self.queue.push_back(waiter);
                self.maybe_connect()
            },
        }
    }

    /// One step of serving the waiters after the events of a round: the
    /// first waiter gets the front idle connection; with none idle, a
    /// connection is opened if the pool may, and serving stops.  The
    /// caller repeats while it gets deliveries.
    pub fn drain_step(&mut self) -> (r: PoolAction<C, W>)
        ensures
            final(self).spec_lent() == old(self).spec_lent() + lent_by(r),
            old(self).inv() ==> final(self).inv(),
            final(self).spec_actives() == old(self).spec_actives(),
            final(self).spec_max_conn() == old(self).spec_max_conn(),
            final(self).spec_healthcheck() == old(self).spec_healthcheck(),
            final(self).spec_closing() == old(self).spec_closing(),
            if old(self).spec_queue().len() == 0 {
                &&& r is Nothing
                &&& final(self).spec_conns() == old(self).spec_conns()
                &&& final(self).spec_queue() == old(self).spec_queue()
                &&& final(self).spec_connecting() == old(self).spec_connecting()
            } else if old(self).spec_conns().len() > 0 {
                &&& r matches PoolAction::Deliver(d) && d.waiter == old(self).spec_queue()[0]
                    && d.conn == old(self).spec_conns()[0] && d.back_to_front
                &&& final(self).spec_conns() == old(self).spec_conns().drop_first()
                &&& final(self).spec_queue() == old(self).spec_queue().drop_first()
                &&& final(self).spec_connecting() == old(self).spec_connecting()
            } else {
                &&& final(self).spec_conns() == old(self).spec_conns()
                &&& final(self).spec_queue() == old(self).spec_queue()
                &&& if !old(self).spec_connecting() && old(self).spec_actives() < old(self).spec_max_conn() {
                    r is Connect && final(self).spec_connecting()
                } else {
                    r is Nothing && final(self).spec_connecting() == old(self).spec_connecting()
                }
            },
    {
        if self.queue.len() == 0 {
            return PoolAction::Nothing;
        }
        match self.conns.pop_front() {
            Some(p) => match self.queue.pop_front() {
                Some(waiter) => {
                    self.lent = Ghost(self.lent@ + 1);
                    PoolAction::Deliver(Delivery { waiter, conn: p, back_to_front: true })
                },
                None => PoolAction::Nothing,
            },
            None => self.maybe_connect(),
        }
    }

    /// A waiter was gone when a connection was handed to it: the
    /// connection goes back to the idle list as the delivery said.
    pub fn undelivered(&mut self, conn: C, created_at: u64, healthc_at: u64, back_to_front: bool, now: u64)
        ensures
            final(self).spec_lent() == given_back(old(self).spec_lent()),
            old(self).inv() && old(self).spec_lent() > 0 ==> final(self).inv(),
            final(self).spec_actives() == old(self).spec_actives(),
            final(self).spec_max_conn() == old(self).spec_max_conn(),
            final(self).spec_connecting() == old(self).spec_connecting(),
            final(self).spec_healthcheck() == old(self).spec_healthcheck(),
            final(self).spec_closing() == old(self).spec_closing(),
            final(self).spec_queue() == old(self).spec_queue(),
            final(self).spec_conns() == (if back_to_front {
                seq![Pooled { conn, healthc_at: now, created_at }] + old(self).spec_conns()
            } else {
                old(self).spec_conns().push(Pooled { conn, healthc_at, created_at })
            }),
    {
        self.lent = Ghost(given_back(self.lent@));
        if back_to_front {
            self.conns.push_front(Pooled { conn, healthc_at: now, created_at });
        } else {
            self.conns.push_back(Pooled { conn, healthc_at, created_at });
        }
    }

    /// A connection came back from its user.  It is health-checked at
    /// once if no check is running; otherwise it becomes idle with the
    /// check time of the worker's start.
    pub fn on_release(&mut self, conn: C, created_at: u64, now: u64) -> (r: PoolAction<C, W>)
        ensures
            final(self).spec_lent() == given_back(old(self).spec_lent()) + lent_by(r),
            old(self).inv() && old(self).spec_lent() > 0 ==> final(self).inv(),
            final(self).spec_actives() == old(self).spec_actives(),
            final(self).spec_max_conn() == old(self).spec_max_conn(),
            final(self).spec_connecting() == old(self).spec_connecting(),
            final(self).spec_closing() == old(self).spec_closing(),
            final(self).spec_healthcheck(),
            if !old(self).spec_healthcheck() {
                &&& r matches PoolAction::Healthcheck(p) && p == (Pooled {
                    conn,
                    healthc_at: now,
                    created_at,
                })
                &&& final(self).spec_conns() == old(self).spec_conns()
                &&& final(self).spec_queue() == old(self).spec_queue()
            } else if old(self).spec_queue().len() > 0 {
                &&& r matches PoolAction::Deliver(d) && d.waiter == old(self).spec_queue()[0]
                    && d.conn == (Pooled { conn, healthc_at: 0, created_at }) && !d.back_to_front
                &&& final(self).spec_queue() == old(self).spec_queue().drop_first()
                &&& final(self).spec_conns() == old(self).spec_conns()
            } else {
                &&& r is Nothing
                &&& final(self).spec_queue() == old(self).spec_queue()
                &&& final(self).spec_conns() == old(self).spec_conns().push(
                    Pooled { conn, healthc_at: 0, created_at },
                )
            },
    {
        self.lent = Ghost(given_back(self.lent@));
        if !self.healthcheck {
            self.healthcheck = true;
            PoolAction::Healthcheck(Pooled { conn, healthc_at: now, created_at })
        } else {
            self.connection_idle(conn, created_at, 0)
        }
    }

    /// A new connection is open: it counts as active and becomes idle.
    /// (A failed connect is not handled: the worker stops.)
    pub fn on_connected(&mut self, conn: C, now: u64) -> (r: PoolAction<C, W>)
        requires
            old(self).spec_connecting(),
            old(self).spec_actives() < usize::MAX,
        ensures
            final(self).spec_lent() == old(self).spec_lent() + lent_by(r),
            old(self).inv() ==> final(self).inv(),
            final(self).spec_actives() == old(self).spec_actives() + 1,
            final(self).spec_max_conn() == old(self).spec_max_conn(),
            !final(self).spec_connecting(),
            final(self).spec_healthcheck() == old(self).spec_healthcheck(),
            final(self).spec_closing() == old(self).spec_closing(),
            if old(self).spec_queue().len() > 0 {
                &&& r matches PoolAction::Deliver(d) && d.waiter == old(self).spec_queue()[0]
                    && d.conn == (Pooled { conn, healthc_at: now, created_at: now })
                    && !d.back_to_front
                &&& final(self).spec_queue() == old(self).spec_queue().drop_first()
                &&& final(self).spec_conns() == old(self).spec_conns()
            } else {
                &&& r is Nothing
                &&& final(self).spec_queue() == old(self).spec_queue()
                &&& final(self).spec_conns() == old(self).spec_conns().push(
                    Pooled { conn, healthc_at: now, created_at: now },
                )
            },
    {
        self.connecting = false;
        self.actives = self.actives + 1;
        self.connection_idle(conn, now, now)
    }

    /// A health check ended.  A healthy connection becomes idle, checked
    /// now; an unhealthy one is closed, or dropped when another close is
    /// running.  Returns what to do and how long to sleep until the next
    /// check.
    pub fn on_healthcheck(&mut self, p: Pooled<C>, healthy: bool, now: u64) -> (r: (PoolAction<C, W>, u64))
        requires
            old(self).spec_healthcheck(),
            !healthy && old(self).spec_closing() ==> old(self).spec_actives() > 0,
        ensures
            final(self).spec_lent() == old(self).spec_lent() + lent_by(r.0),
            old(self).inv() ==> final(self).inv(),
            !final(self).spec_healthcheck(),
            final(self).spec_actives() == (if !healthy && old(self).spec_closing() {
                (old(self).spec_actives() - 1) as nat
            } else {
                old(self).spec_actives()
            }),
            final(self).spec_max_conn() == old(self).spec_max_conn(),
            final(self).spec_connecting() == old(self).spec_connecting(),
            r.1 == next_sleep(final(self).spec_conns(), now),
            if healthy {
                &&& final(self).spec_closing() == old(self).spec_closing()
                &&& if old(self).spec_queue().len() > 0 {
                    &&& r.0 matches PoolAction::Deliver(d) && d.waiter == old(self).spec_queue()[0]
                        && d.conn == (Pooled { conn: p.conn, healthc_at: now, created_at: p.created_at })
                        && !d.back_to_front
                    &&& final(self).spec_queue() == old(self).spec_queue().drop_first()
                    &&& final(self).spec_conns() == old(self).spec_conns()
                } else {
                    &&& r.0 is Nothing
                    &&& final(self).spec_queue() == old(self).spec_queue()
                    &&& final(self).spec_conns() == old(self).spec_conns().push(
                        Pooled { conn: p.conn, healthc_at: now, created_at: p.created_at },
                    )
                }
            } else {
                &&& final(self).spec_queue() == old(self).spec_queue()
                &&& final(self).spec_conns() == old(self).spec_conns()
                &&& final(self).spec_closing()
                &&& if old(self).spec_closing() {
                    r.0 matches PoolAction::Drop(q) && q == p
                } else {
                    r.0 matches PoolAction::Close(q) && q == p
                }
            },
    {
        self.healthcheck = false;
        let action = if healthy {
            self.connection_idle(p.conn, p.created_at, now)
        } else if self.closing {
            self.actives = self.actives - 1;
            PoolAction::Drop(p)
        } else {
            self.closing = true;
            PoolAction::Close(p)
        };
        let sleep = self.sleep_time(now);
        (action, sleep)
    }

    /// A connection was shut down.
    pub fn on_closed(&mut self)
        requires
            old(self).spec_closing(),
            old(self).spec_actives() > 0,
        ensures
            final(self).spec_lent() == old(self).spec_lent(),
            old(self).inv() ==> final(self).inv(),
            !final(self).spec_closing(),
            final(self).spec_actives() == old(self).spec_actives() - 1,
            final(self).spec_max_conn() == old(self).spec_max_conn(),
            final(self).spec_connecting() == old(self).spec_connecting(),
            final(self).spec_healthcheck() == old(self).spec_healthcheck(),
            final(self).spec_conns() == old(self).spec_conns(),
            final(self).spec_queue() == old(self).spec_queue(),
    {
        self.closing = false;
        self.actives = self.actives - 1;
    }

    /// How long until the next health check is due: half a minute at
    /// most, less for connections that near half a minute of age.
    pub fn sleep_time(&self, now: u64) -> (r: u64)
        ensures
            r == next_sleep(self.spec_conns(), now),
    {
        let mut least: u64 = HALF_MINUTE;
        let mut i: usize = 0;
        let n = self.conns.len();
        while i < n
            invariant
                n == self.conns@.len(),
                i <= n,
                least == next_sleep(self.conns@.take(i as int), now),
            decreases n - i,
        {
            let p = &self.conns[i];
            let elapsed: u64 = if now >= p.created_at { now - p.created_at } else { 0 };
            let d: u64 = if elapsed >= HALF_MINUTE { 0 } else { HALF_MINUTE - elapsed };
            proof {
                assert(self.conns@.take(i + 1).drop_last() =~= self.conns@.take(i as int));
                assert(self.conns@.take(i + 1).last() == self.conns@[i as int]);
            }
            if d < least {
                least = d;
            }
            i = i + 1;
        }
        assert(self.conns@.take(n as int) =~= self.conns@);
        least
    }

    /// The sleep ended: the last idle connection due for a check is taken
    /// out (by `swap_remove_back`, the back connection taking its place)
    /// and checked, or put back at the end when a check is running.  Returns what to
    /// do and how long to sleep next.
    pub fn on_sleep(&mut self, now: u64) -> (r: (PoolAction<C, W>, u64))
        ensures
            final(self).spec_lent() == old(self).spec_lent() + lent_by(r.0),
            old(self).inv() ==> final(self).inv(),
            final(self).spec_actives() == old(self).spec_actives(),
            final(self).spec_max_conn() == old(self).spec_max_conn(),
            final(self).spec_connecting() == old(self).spec_connecting(),
            final(self).spec_closing() == old(self).spec_closing(),
            final(self).spec_queue() == old(self).spec_queue(),
            match due_from_back(old(self).spec_conns(), now) {
                Some(i) => {
                    let s = old(self).spec_conns();
                    let j = s.len() - 1 - i;
                    let rest = swap_remove_back(s, j);
                    &&& r.1 == next_sleep(rest, now)
                    &&& final(self).spec_healthcheck()
                    &&& if old(self).spec_healthcheck() {
                        r.0 is Nothing && final(self).spec_conns() == rest.push(s[j])
                    } else {
                        r.0 matches PoolAction::Healthcheck(p) && p == s[j] && final(self).spec_conns() == rest
                    }
                },
                None => {
                    &&& r.0 is Nothing
                    &&& r.1 == next_sleep(old(self).spec_conns(), now)
                    &&& final(self).spec_conns() == old(self).spec_conns()
                    &&& final(self).spec_healthcheck() == old(self).spec_healthcheck()
                },
            },
    {
        let n = self.conns.len();
        let mut k: usize = 0;
        let mut found: Option<usize> = None;
        assert(self.conns@.take(n as int) =~= self.conns@);
        while found.is_none() && k < n
            invariant
                n == self.conns@.len(),
                k <= n,
                found matches Some(i) ==> i < n && due_from_back(self.conns@, now) == Some(i as int),
                found is None ==> due_from_back(self.conns@, now) == (match due_from_back(
                    self.conns@.take(n - k),
                    now,
                ) {
                    Some(j) => Some(j + k),
                    None => None,
                }),
            decreases n - k, (if found is None { 1int } else { 0int }),
        {
            let p = &self.conns[n - 1 - k];
            proof {
                assert(self.conns@.take(n - k).last() == self.conns@[n - 1 - k]);
                assert(self.conns@.take(n - k).drop_last() =~= self.conns@.take(n - k - 1));
            }
            if now > p.healthc_at && now - p.healthc_at > HALF_MINUTE {
                found = Some(k);
            } else {
                k = k + 1;
            }
        }
        proof {
            if found is None {
                assert(self.conns@.take(0) =~= Seq::<Pooled<C>>::empty());
            }
        }
        match found {
            Some(k) => {
                let ghost s = self.conns@;
                let i = n - 1 - k;
                let last = match self.conns.pop_back() {
                    Some(last) => last,
                    None => return (PoolAction::Nothing, self.sleep_time(now)),
                };
                let taken = if i < self.conns.len() {
                    match self.conns.remove(i) {
                        Some(t) => {
                            self.conns.insert(i, last);
                            t
                        },
                        None => return (PoolAction::Nothing, self.sleep_time(now)),
                    }
                } else {
                    last
                };
                assert(self.conns@ =~= swap_remove_back(s, i as int));
                let sleep = self.sleep_time(now);
                if !self.healthcheck {
                    self.healthcheck = true;
                    (PoolAction::Healthcheck(taken), sleep)
                } else {
                    self.conns.push_back(taken);
                    (PoolAction::Nothing, sleep)
                }
            },
            None => (PoolAction::Nothing, self.sleep_time(now)),
        }
    }
}

} // verus!
