//! The smoke behind the funnel. Every fourth column the engine passes, a new
//! puff appears at the funnel; at every such step each earlier puff is wiped,
//! drifts up and to the right by an amount that depends on its age, and is
//! drawn again one stage older. The puffs alternate between two kinds.

use vstd::prelude::*;
use crate::art::{smoke_eraser, smoke_eraser_spec, smoke_shape, smoke_shape_spec};
use crate::num::{fits, rem_t};
use crate::text::{op, DrawOp};

verus! {

/// The number of stages in the life of a puff.
pub const SMOKEPTNS: i32 = 16;

/// How many puffs the engine can leave behind in one run.
pub const SMOKE_CAPACITY: usize = 1000;

/// How far a puff at stage `p` rises at the next step.
pub open spec fn smoke_dy_spec(p: int) -> int {
    seq![2i32, 1, 1, 1, 0, 0, 0, 0, 0, 0, 0, 0, 0, 0, 0, 0][p] as int
}

/// How far a puff at stage `p` drifts right at the next step.
pub open spec fn smoke_dx_spec(p: int) -> int {
    seq![-2i32, -1i32, 0, 1, 1, 1, 1, 1, 2, 2, 2, 2, 2, 3, 3, 3][p] as int
}

/// How far a puff at stage `p` rises at the next step.
pub fn smoke_dy(p: i32) -> (d: i32)
    requires
        0 <= p < SMOKEPTNS,
    ensures
        d == smoke_dy_spec(p as int),
{
    let table: [i32; 16] = [2, 1, 1, 1, 0, 0, 0, 0, 0, 0, 0, 0, 0, 0, 0, 0];
    proof {
        assert(table@ =~= seq![2i32, 1, 1, 1, 0, 0, 0, 0, 0, 0, 0, 0, 0, 0, 0, 0]);
    }
    table[p as usize]
}

/// How far a puff at stage `p` drifts right at the next step.
pub fn smoke_dx(p: i32) -> (d: i32)
    requires
        0 <= p < SMOKEPTNS,
    ensures
        d == smoke_dx_spec(p as int),
{
    let table: [i32; 16] = [-2, -1, 0, 1, 1, 1, 1, 1, 2, 2, 2, 2, 2, 3, 3, 3];
    proof {
        assert(table@ =~= seq![-2i32, -1i32, 0, 1, 1, 1, 1, 1, 2, 2, 2, 2, 2, 3, 3, 3]);
    }
    table[p as usize]
}

/// One puff of smoke: where it is, its stage, and which of the two kinds it is.
#[derive(Clone, Copy, Debug, PartialEq, Eq)]
pub struct Puff {
    pub y: i32,
    pub x: i32,
    pub ptrn: i32,
    pub kind: i32,
}

/// The puff one step later: it moved by the drift of its current stage and is
/// one stage older, except that the last stage lasts for ever.
pub open spec fn advanced(p: Puff) -> Puff {
    Puff {
        y: (p.y - smoke_dy_spec(p.ptrn as int)) as i32,
        x: (p.x + smoke_dx_spec(p.ptrn as int)) as i32,
        ptrn: (if p.ptrn < SMOKEPTNS - 1 { p.ptrn + 1 } else { p.ptrn as int }) as i32,
        kind: p.kind,
    }
}

/// The puff can move one step without its coordinates leaving `i32`.
pub open spec fn can_advance(p: Puff) -> bool {
    &&& fits(p.y - smoke_dy_spec(p.ptrn as int))
    &&& fits(p.x + smoke_dx_spec(p.ptrn as int))
}

/// The blanks that wipe the puff where it is now.
pub open spec fn erase_op(p: Puff) -> DrawOp {
    op(p.y as int, p.x as int, smoke_eraser_spec(p.ptrn as int))
}

/// The puff drawn where it is now.
pub open spec fn show_op(p: Puff) -> DrawOp {
    op(p.y as int, p.x as int, smoke_shape_spec(p.kind as int, p.ptrn as int))
}

/// A list of puffs as the engine leaves them: at most `SMOKE_CAPACITY`, each
/// at a stage of its life, and the `i`-th of kind `i % 2`.
pub open spec fn puffs_wf(s: Seq<Puff>) -> bool {
    &&& s.len() <= SMOKE_CAPACITY
    &&& forall|i: int|
        0 <= i < s.len() ==> {
            &&& 0 <= #[trigger] s[i].ptrn < SMOKEPTNS
            &&& s[i].kind == i % 2
        }
}

/// A new puff is due when the funnel stands at a column divisible by four.
pub open spec fn puff_due(x: int) -> bool {
    rem_t(x, 4) == 0
}

/// The puffs after the funnel passed column `x` at row `y`: when a puff is
/// due, all puffs move one step and the new puff is kept if there is room.
pub open spec fn smoke_after(s: Seq<Puff>, y: int, x: int) -> Seq<Puff> {
    if puff_due(x) && s.len() < SMOKE_CAPACITY {
        s.map_values(|p: Puff| advanced(p)).push(
            Puff { y: y as i32, x: x as i32, ptrn: 0, kind: (s.len() % 2) as i32 },
        )
    } else if puff_due(x) {
        s.map_values(|p: Puff| advanced(p))
    } else {
        s
    }
}

/// What is drawn when the funnel passes column `x` at row `y`: nothing, or,
/// when a puff is due, each puff wiped and drawn again one step later, in
/// order, and then the new puff at the funnel.
pub open spec fn smoke_ops(s: Seq<Puff>, y: int, x: int) -> Seq<DrawOp> {
    if puff_due(x) {
        Seq::new(
            2 * s.len() + 1,
            |k: int|
                if k == 2 * s.len() {
                    op(y, x, smoke_shape_spec((s.len() % 2) as int, 0))
                } else if k % 2 == 0 {
                    erase_op(s[k / 2])
                } else {
                    show_op(advanced(s[k / 2]))
                },
        )
    } else {
        Seq::empty()
    }
}

/// The smoke can follow the funnel to column `x` with every coordinate
/// within `i32`: when a puff is due, every puff can move.
pub open spec fn smoke_ready(s: Seq<Puff>, x: int) -> bool {
    puff_due(x) ==> forall|i: int| 0 <= i < s.len() ==> can_advance(#[trigger] s[i])
}

/// The puff one step later.
pub fn advance(p: Puff) -> (q: Puff)
    requires
        0 <= p.ptrn < SMOKEPTNS,
        can_advance(p),
    ensures
        q == advanced(p),
{
    Puff {
        y: p.y - smoke_dy(p.ptrn),
        x: p.x + smoke_dx(p.ptrn),
        ptrn: p.ptrn + if p.ptrn < SMOKEPTNS - 1 { 1 } else { 0 },
        kind: p.kind,
    }
}

/// All the smoke the engine has left behind.
pub struct Smoke {
    puffs: Vec<Puff>,
}

impl View for Smoke {
    type V = Seq<Puff>;

    closed spec fn view(&self) -> Seq<Puff> {
        self.puffs@
    }
}

impl Smoke {
    /// The smoke is always as the engine leaves it.
    #[verifier::type_invariant]
    spec fn inv(self) -> bool {
        puffs_wf(self.puffs@)
    }

    /// No smoke yet.
    pub fn new() -> (s: Smoke)
        ensures
            s@ == Seq::<Puff>::empty(),
    {
        Smoke { puffs: Vec::new() }
    }

    /// How many puffs there are; never more than `SMOKE_CAPACITY`.
    pub fn len(&self) -> (n: usize)
        ensures
            n == self@.len(),
            puffs_wf(self@),
    {
        proof {
            use_type_invariant(self);
        }
        self.puffs.len()
    }

    /// The `i`-th puff, the oldest first.
    pub fn puff(&self, i: usize) -> (p: Puff)
        requires
            i < self@.len(),
        ensures
            p == self@[i as int],
            puffs_wf(self@),
    {
        proof {
            use_type_invariant(self);
        }
        self.puffs[i]
    }

    /// Whether the smoke can follow the funnel to column `x` (see
    /// `smoke_ready`).
    pub fn ready(&self, x: i32) -> (b: bool)
        ensures
            b == smoke_ready(self@, x as int),
    {
        proof {
            use_type_invariant(self);
        }
        if x % 4 != 0 {
            return true;
        }
        let n = self.puffs.len();
        let mut i: usize = 0;
        while i < n
            invariant
                n == self@.len(),
                i <= n,
                puffs_wf(self@),
                puff_due(x as int),
                forall|j: int| 0 <= j < i ==> can_advance(#[trigger] self@[j]),
            decreases n - i,
        {
            let p = self.puffs[i];
            assert(p == self@[i as int]);
            assert(0 <= self@[i as int].ptrn < SMOKEPTNS);
            let py = p.y as i64;
            let px = p.x as i64;
            let dy = smoke_dy(p.ptrn) as i64;
            let dx = smoke_dx(p.ptrn) as i64;
            if py - dy < i32::MIN as i64 || px + dx > i32::MAX as i64 || px + dx < i32::MIN as i64
                || py - dy > i32::MAX as i64 {
                return false;
            }
            i = i + 1;
        }
        true
    }

    /// The funnel passes column `x` at row `y`: when a puff is due, every puff
    /// is wiped, moved and drawn one stage older, and a new puff is drawn at
    /// the funnel and kept while there is room for it; the ops go to the end
    /// of `frame`.
    pub fn add_smoke(&mut self, frame: &mut Vec<DrawOp>, y: i32, x: i32)
        requires
            smoke_ready(old(self)@, x as int),
        ensures
            puffs_wf(final(self)@),
            final(self)@ == smoke_after(old(self)@, y as int, x as int),
            final(frame)@ == old(frame)@ + smoke_ops(old(self)@, y as int, x as int),
    {
        proof {
            use_type_invariant(&*self);
        }
        if x % 4 != 0 {
            proof {
                assert(smoke_ops(old(self)@, y as int, x as int) =~= Seq::empty());
                assert(old(frame)@ + Seq::<DrawOp>::empty() =~= old(frame)@);
            }
            return;
        }
        let mut puffs: Vec<Puff> = Vec::new();
        std::mem::swap(&mut puffs, &mut self.puffs);
        let ghost start = puffs@;
        let ghost frame0 = frame@;
        let n = puffs.len();
        let mut i: usize = 0;
        while i < n
            invariant
                n == start.len(),
                puffs_wf(start),
                smoke_ready(start, x as int),
                puff_due(x as int),
                i <= n,
                puffs@.len() == n,
                forall|j: int| 0 <= j < i ==> #[trigger] puffs@[j] == advanced(start[j]),
                forall|j: int| i <= j < n ==> #[trigger] puffs@[j] == start[j],
                frame@ == frame0 + smoke_ops(start, y as int, x as int).subrange(0, 2 * i),
            decreases n - i,
        {
            let p = puffs[i];
            assert(p == start[i as int]);
            assert(can_advance(start[i as int]));
            frame.push(DrawOp { y: p.y, x: p.x, text: smoke_eraser(p.ptrn as usize) });
            let q = advance(p);
            puffs.set(i, q);
            frame.push(DrawOp { y: q.y, x: q.x, text: smoke_shape(q.kind as usize, q.ptrn as usize) });
            proof {
                let ops = smoke_ops(start, y as int, x as int);
                assert(ops[2 * i as int] == erase_op(start[i as int]));
                assert(ops[2 * i + 1] == show_op(advanced(start[i as int])));
                assert(ops.subrange(0, 2 * (i + 1)) =~= ops.subrange(0, 2 * i).push(ops[2 * i as int]).push(ops[2 * i + 1]));
            }
            i = i + 1;
        }
        let kind = (n % 2) as i32;
        frame.push(DrawOp { y, x, text: smoke_shape(kind as usize, 0) });
        if n < SMOKE_CAPACITY {
            puffs.push(Puff { y, x, ptrn: 0, kind });
        }
        proof {
            let ops = smoke_ops(start, y as int, x as int);
            assert(ops.subrange(0, 2 * n + 1) =~= ops.subrange(0, 2 * n as int).push(ops[2 * n as int]));
            assert(ops.subrange(0, 2 * n + 1) =~= ops);
            assert(puffs@ =~= smoke_after(start, y as int, x as int));
            lemma_smoke_step(start, y as int, x as int);
        }
        self.puffs = puffs;
    }
}

/// One step of the smoke as the funnel passes column `x` at row `y`:
/// a puff is added exactly when one is due and there is room, and it starts
/// at the funnel, at
/// the first stage, of the kind that alternates with the one before; every
/// earlier puff keeps its kind, never sinks, and grows one stage older at each
/// step until its last stage, which it keeps. The smoke stays as the engine
/// leaves it.
pub proof fn lemma_smoke_step(s: Seq<Puff>, y: int, x: int)
    requires
        puffs_wf(s),
        smoke_ready(s, x),
        fits(y),
        fits(x),
    ensures
        smoke_after(s, y, x).len() == s.len() + (if puff_due(x) && s.len() < SMOKE_CAPACITY {
            1int
        } else {
            0
        }),
        puffs_wf(smoke_after(s, y, x)),
        puff_due(x) && s.len() < SMOKE_CAPACITY ==> smoke_after(s, y, x)[s.len() as int] == (Puff {
            y: y as i32,
            x: x as i32,
            ptrn: 0,
            kind: (s.len() % 2) as i32,
        }),
        forall|i: int|
            0 <= i < s.len() ==> {
                let p = s[i];
                let q = #[trigger] smoke_after(s, y, x)[i];
                &&& q.kind == p.kind
                &&& q.y <= p.y
                &&& p.ptrn <= q.ptrn
                &&& p.ptrn == SMOKEPTNS - 1 ==> q.ptrn == p.ptrn
                &&& puff_due(x) && p.ptrn < SMOKEPTNS - 1 ==> q.ptrn == p.ptrn + 1
                &&& !puff_due(x) ==> q == p
            },
{
    let t = smoke_after(s, y, x);
    if puff_due(x) {
        assert forall|i: int| 0 <= i < t.len() implies {
            &&& 0 <= #[trigger] t[i].ptrn < SMOKEPTNS
            &&& t[i].kind == i % 2
        } by {
            if i < s.len() {
                assert(can_advance(s[i]));
            }
        }
        assert forall|i: int| 0 <= i < s.len() implies {
            let p = s[i];
            let q = #[trigger] t[i];
            &&& q.kind == p.kind
            &&& q.y <= p.y
            &&& p.ptrn <= q.ptrn
            &&& p.ptrn == SMOKEPTNS - 1 ==> q.ptrn == p.ptrn
            &&& puff_due(x) && p.ptrn < SMOKEPTNS - 1 ==> q.ptrn == p.ptrn + 1
            &&& !puff_due(x) ==> q == p
        } by {
            assert(can_advance(s[i]));
        }
    }
}

/// The puff `m` steps later.
pub open spec fn advanced_n(p: Puff, m: nat) -> Puff
    decreases m,
{
    if m == 0 {
        p
    } else {
        advanced(advanced_n(p, (m - 1) as nat))
    }
}

/// How many rows a puff has risen `m` steps after it appeared: two, then one
/// at each of the next three steps, then no more.
pub open spec fn rise(m: int) -> int {
    if m <= 0 {
        0
    } else if m == 1 {
        2
    } else if m == 2 {
        3
    } else if m == 3 {
        4
    } else {
        5
    }
}

/// How many columns a puff has drifted right `m` steps after it appeared.
pub open spec fn drift(m: nat) -> int
    decreases m,
{
    if m == 0 {
        0
    } else {
        drift((m - 1) as nat) + smoke_dx_spec(if m - 1 < 15 { m - 1 } else { 15 })
    }
}

/// The path of a puff, for as long as it stays within `i32`: `m` steps
/// after it appeared at `(y, x)` it has risen `rise(m)` rows (never more than
/// five) and drifted `drift(m)` columns (three to the left at most, then
/// right: one column a step from the fourth step, two from the ninth, three
/// from the fourteenth),
/// and it is at stage `min(m, 15)`. From its fifteenth step on it is a single
/// blank, wiped by a single blank, that stays on its row and moves three
/// columns right at every step.
pub proof fn lemma_puff_path(p: Puff, m: nat)
    requires
        p.ptrn == 0,
        forall|j: nat| j < m ==> can_advance(#[trigger] advanced_n(p, j)),
    ensures
        advanced_n(p, m).y == p.y - rise(m as int),
        advanced_n(p, m).x == p.x + drift(m),
        advanced_n(p, m).ptrn == if m < 15 { m as int } else { 15 },
        advanced_n(p, m).kind == p.kind,
        -3 <= drift(m) <= 3 * m,
        drift(m) == if m == 0 {
            0
        } else if m == 1 {
            -2
        } else if m <= 3 {
            -3
        } else if m <= 8 {
            m - 6
        } else if m <= 13 {
            2 * m - 14
        } else {
            3 * m - 27
        },
        m >= 15 ==> {
            &&& smoke_shape_spec(0, advanced_n(p, m).ptrn as int) == " "
            &&& smoke_shape_spec(1, advanced_n(p, m).ptrn as int) == " "
            &&& smoke_eraser_spec(advanced_n(p, m).ptrn as int) == " "
            &&& (can_advance(advanced_n(p, m)) ==> advanced(advanced_n(p, m)) == (Puff {
                y: advanced_n(p, m).y,
                x: (advanced_n(p, m).x + 3) as i32,
                ptrn: 15,
                kind: p.kind,
            }))
        },
    decreases m,
{
    if m > 0 {
        assert forall|j: nat| j < (m - 1) as nat implies can_advance(#[trigger] advanced_n(p, j)) by {
            assert(j < m);
        }
        lemma_puff_path(p, (m - 1) as nat);
        assert(can_advance(advanced_n(p, (m - 1) as nat)));
        if m == 2 {
            assert(drift(0) == 0);
            assert(drift(1) == -2);
        }
    }
}

/// The smoke after the funnel passed the points `steps` (row, column), one
/// after the other.
pub open spec fn smoke_run(s: Seq<Puff>, steps: Seq<(int, int)>) -> Seq<Puff>
    decreases steps.len(),
{
    if steps.len() == 0 {
        s
    } else {
        smoke_run(smoke_after(s, steps[0].0, steps[0].1), steps.drop_first())
    }
}

/// How many of the points `steps` have a puff due.
pub open spec fn dues(steps: Seq<(int, int)>) -> nat
    decreases steps.len(),
{
    if steps.len() == 0 {
        0
    } else {
        (if puff_due(steps[0].1) { 1nat } else { 0nat }) + dues(steps.drop_first())
    }
}

/// The smoke can follow the funnel through all the points `steps` without a
/// panic.
pub open spec fn run_ready(s: Seq<Puff>, steps: Seq<(int, int)>) -> bool
    decreases steps.len(),
{
    steps.len() == 0 || {
        &&& fits(steps[0].0)
        &&& fits(steps[0].1)
        &&& smoke_ready(s, steps[0].1)
        &&& run_ready(smoke_after(s, steps[0].0, steps[0].1), steps.drop_first())
    }
}

/// One step more, counted first or last, is the same.
proof fn lemma_advanced_n_first(p: Puff, m: nat)
    ensures
        advanced_n(advanced(p), m) == advanced_n(p, m + 1),
    decreases m,
{
    assert(advanced_n(p, m + 1) == advanced(advanced_n(p, m)));
    if m > 0 {
        lemma_advanced_n_first(p, (m - 1) as nat);
    } else {
        assert(advanced_n(p, 0) == p);
    }
}

/// Over any run of the funnel, each puff that was there at the start has
/// moved exactly one step for each point that had a puff due, and at most
/// one new puff was added for each such point; the smoke stays as the engine
/// leaves it.
pub proof fn lemma_smoke_run(s: Seq<Puff>, steps: Seq<(int, int)>)
    requires
        puffs_wf(s),
        run_ready(s, steps),
    ensures
        puffs_wf(smoke_run(s, steps)),
        s.len() <= smoke_run(s, steps).len() <= s.len() + dues(steps),
        forall|i: int|
            0 <= i < s.len() ==> #[trigger] smoke_run(s, steps)[i] == advanced_n(s[i], dues(steps)),
        forall|i: int, j: nat|
            0 <= i < s.len() && j < dues(steps) ==> can_advance(#[trigger] advanced_n(s[i], j)),
    decreases steps.len(),
{
    if steps.len() > 0 {
        let (y, x) = steps[0];
        let t = smoke_after(s, y, x);
        lemma_smoke_step(s, y, x);
        lemma_smoke_run(t, steps.drop_first());
        let k = dues(steps.drop_first());
        assert forall|i: int| 0 <= i < s.len() implies #[trigger] smoke_run(s, steps)[i]
            == advanced_n(s[i], dues(steps)) by {
            if puff_due(x) {
                assert(t[i] == advanced(s[i]));
                lemma_advanced_n_first(s[i], k);
            } else {
                assert(t[i] == s[i]);
            }
        }
        assert forall|i: int, j: nat| 0 <= i < s.len() && j < dues(steps) implies can_advance(
            #[trigger] advanced_n(s[i], j),
        ) by {
            if puff_due(x) {
                assert(t[i] == advanced(s[i]));
                if j == 0 {
                    assert(can_advance(s[i]));
                } else {
                    lemma_advanced_n_first(s[i], (j - 1) as nat);
                    assert(can_advance(advanced_n(t[i], (j - 1) as nat)));
                }
            } else {
                assert(t[i] == s[i]);
            }
        }
    }
}

/// The history of one puff, while no puff leaves `i32`: it appears at the
/// funnel at `(y0, x0)`; after the funnel has passed `m` more points with a
/// puff due it stands `rise(m)` rows higher and `drift(m)` columns further
/// right, at stage `min(m, 15)`. At the next point with a puff due it is
/// wiped there, by blanks exactly as wide as its picture, and drawn again
/// `rise(m + 1)` rows above where it appeared.
pub proof fn lemma_puff_history(
    s: Seq<Puff>,
    y0: int,
    x0: int,
    steps: Seq<(int, int)>,
    y: int,
    x: int,
)
    requires
        puffs_wf(s),
        s.len() < SMOKE_CAPACITY,
        fits(y0),
        fits(x0),
        puff_due(x0),
        smoke_ready(s, x0),
        run_ready(smoke_after(s, y0, x0), steps),
        puff_due(x),
        smoke_ready(smoke_run(smoke_after(s, y0, x0), steps), x),
    ensures
        ({
            let m = dues(steps);
            let t = smoke_run(smoke_after(s, y0, x0), steps);
            let q = t[s.len() as int];
            let ops = smoke_ops(t, y, x);
            &&& q.y == y0 - rise(m as int)
            &&& q.x == x0 + drift(m)
            &&& q.ptrn == if m < 15 { m as int } else { 15 }
            &&& q.kind == s.len() % 2
            &&& ops[2 * s.len() as int] == erase_op(q)
            &&& ops[2 * s.len() as int].text@.len() == show_op(q).text@.len()
            &&& ops[2 * s.len() as int + 1] == show_op(advanced(q))
            &&& ops[2 * s.len() as int + 1].y == y0 - rise(m as int + 1)
        }),
{
    let m = dues(steps);
    lemma_smoke_step(s, y0, x0);
    let t0 = smoke_after(s, y0, x0);
    let p = t0[s.len() as int];
    assert(p == Puff { y: y0 as i32, x: x0 as i32, ptrn: 0, kind: (s.len() % 2) as i32 });
    lemma_smoke_run(t0, steps);
    let t = smoke_run(t0, steps);
    assert(t[s.len() as int] == advanced_n(p, m));
    assert forall|j: nat| j < m + 1 implies can_advance(#[trigger] advanced_n(p, j)) by {
        if j < m {
            assert(can_advance(advanced_n(t0[s.len() as int], j)));
        } else {
            assert(can_advance(t[s.len() as int]));
        }
    }
    lemma_puff_path(p, m + 1);
    lemma_puff_path(p, m);
    assert(advanced_n(p, m + 1) == advanced(advanced_n(p, m)));
    crate::art::lemma_eraser_fits_puff();
}

/// Each step wipes every puff exactly where, and exactly as wide as, it was
/// drawn the step before, and then draws it where the smoke now holds it; the
/// new puff, when there is room to keep it, is drawn where the smoke holds it
/// too. So after every step each puff in the smoke is what was last drawn of
/// it.
pub proof fn lemma_smoke_redraw(s: Seq<Puff>, y: int, x: int)
    requires
        puffs_wf(s),
        puff_due(x),
        smoke_ready(s, x),
        fits(y),
        fits(x),
    ensures
        ({
            let ops = smoke_ops(s, y, x);
            let t = smoke_after(s, y, x);
            &&& ops.len() == 2 * s.len() + 1
            &&& forall|i: int|
                0 <= i < s.len() ==> {
                    &&& (#[trigger] ops[2 * i]).y == s[i].y
                    &&& ops[2 * i].x == s[i].x
                    &&& ops[2 * i].text@.len() == smoke_shape_spec(
                        s[i].kind as int,
                        s[i].ptrn as int,
                    )@.len()
                    &&& ops[2 * i + 1].y == t[i].y
                    &&& ops[2 * i + 1].x == t[i].x
                    &&& ops[2 * i + 1].text == smoke_shape_spec(t[i].kind as int, t[i].ptrn as int)
                }
            &&& forall|i: int, j: int|
                0 <= i < s.len() && 0 <= j < ops[2 * i].text@.len() ==> #[trigger] ops[2
                    * i].text@[j] == ' '
            &&& ops[2 * s.len() as int].y == y
            &&& ops[2 * s.len() as int].x == x
            &&& ops[2 * s.len() as int].text == smoke_shape_spec((s.len() % 2) as int, 0)
            &&& s.len() < SMOKE_CAPACITY ==> ops[2 * s.len() as int] == show_op(
                t[s.len() as int],
            )
        }),
{
    lemma_smoke_step(s, y, x);
    crate::art::lemma_eraser_fits_puff();
    let ops = smoke_ops(s, y, x);
    let t = smoke_after(s, y, x);
    assert forall|i: int| 0 <= i < s.len() implies {
        &&& (#[trigger] ops[2 * i]).y == s[i].y
        &&& ops[2 * i].x == s[i].x
        &&& ops[2 * i].text@.len() == smoke_shape_spec(s[i].kind as int, s[i].ptrn as int)@.len()
        &&& ops[2 * i + 1].y == t[i].y
        &&& ops[2 * i + 1].x == t[i].x
        &&& ops[2 * i + 1].text == smoke_shape_spec(t[i].kind as int, t[i].ptrn as int)
    } by {
        assert(ops[2 * i] == erase_op(s[(2 * i) / 2]));
        assert((2 * i) / 2 == i);
        assert((2 * i + 1) / 2 == i);
        assert(0 <= s[i].ptrn < 16 && 0 <= s[i].kind < 2);
    }
    assert forall|i: int, j: int|
        0 <= i < s.len() && 0 <= j < ops[2 * i].text@.len() implies #[trigger] ops[2
            * i].text@[j] == ' ' by {
        assert((2 * i) / 2 == i);
        assert(ops[2 * i] == erase_op(s[i]));
        assert(0 <= s[i].ptrn < 16);
    }
}

/// Smoke moves only when the funnel stands at a column divisible by four: at
/// any other column nothing is drawn and every puff stays as it is; at such a
/// column every puff is wiped and redrawn and one more puff is drawn.
pub proof fn lemma_smoke_only_every_fourth_column(s: Seq<Puff>, y: int, x: int)
    ensures
        x % 4 != 0 ==> smoke_ops(s, y, x) == Seq::<DrawOp>::empty() && smoke_after(s, y, x) == s,
        x % 4 == 0 ==> smoke_ops(s, y, x).len() == 2 * s.len() + 1,
        x % 4 == 0 ==> smoke_after(s, y, x).len() == if s.len() < SMOKE_CAPACITY {
            s.len() + 1
        } else {
            s.len() + 0
        },
{
    crate::num::lemma_rem_t_zero(x, 4);
}

} // verus!
