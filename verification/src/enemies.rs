//! The pool of enemies: falling, and leaving by the bottom edge.

use vstd::prelude::*;
use crate::shape::Shape;
use crate::units::{distance, fits, travel};

verus! {

/// Whether the enemy can fall for `dt` ticks and still have a `y` that can be
/// stored.
pub open spec fn can_advance(e: Shape, dt: u32) -> bool {
    fits(e.y + travel(e.speed, dt))
}

/// The enemy after it has fallen for `dt` ticks: `y` grows by `speed * dt`,
/// nothing else changes.
pub open spec fn advanced(e: Shape, dt: u32) -> Shape {
    Shape { y: (e.y + travel(e.speed, dt)) as i32, ..e }
}

/// Whether every enemy of the pool can fall for `dt` ticks.
pub open spec fn all_can_advance(pool: Seq<Shape>, dt: u32) -> bool {
    forall|i: int| 0 <= i < pool.len() ==> can_advance(#[trigger] pool[i], dt)
}

/// The pool after each of its enemies has fallen for `dt` ticks.
pub open spec fn advanced_all(pool: Seq<Shape>, dt: u32) -> Seq<Shape> {
    Seq::new(pool.len(), |i: int| advanced(pool[i], dt))
}

/// Whether the enemy is still above the line where enemies leave the pool:
/// `y < screen_height + size`.
pub open spec fn retained(e: Shape, screen_height: i32) -> bool {
    e.y < screen_height + e.size
}

/// The enemies of the pool that are retained, in their order.
pub open spec fn culled(pool: Seq<Shape>, screen_height: i32) -> Seq<Shape> {
    pool.filter(|e: Shape| retained(e, screen_height))
}

/// Tells whether every enemy of the pool can fall for `dt` ticks.
pub fn advanceable(pool: &Vec<Shape>, dt: u32) -> (ok: bool)
    ensures
        ok == all_can_advance(pool@, dt),
{
    let n: usize = pool.len();
    let mut i: usize = 0;
    while i < n
        invariant
            n == pool.len(),
            i <= n,
            forall|j: int| 0 <= j < i ==> can_advance(#[trigger] pool[j], dt),
        decreases n - i,
    {
        let y: i64 = pool[i].y as i64 + distance(pool[i].speed, dt);
        if y < i32::MIN as i64 || y > i32::MAX as i64 {
            return false;
        }
        i = i + 1;
    }
    true
}

/// Lets every enemy fall for `dt` ticks: `y` grows by exactly `speed * dt`.
pub fn advance_enemies(pool: &mut Vec<Shape>, dt: u32)
    requires
        all_can_advance(old(pool)@, dt),
    ensures
        final(pool)@ == advanced_all(old(pool)@, dt),
{
    let n: usize = pool.len();
    let mut i: usize = 0;
    while i < n
        invariant
            n == pool.len(),
            n == old(pool).len(),
            i <= n,
            all_can_advance(old(pool)@, dt),
            forall|j: int| 0 <= j < i ==> pool[j] == advanced(#[trigger] old(pool)[j], dt),
            forall|j: int| i <= j < n ==> pool[j] == #[trigger] old(pool)[j],
        decreases n - i,
    {
        let y: i64 = pool[i].y as i64 + distance(pool[i].speed, dt);
        pool[i].y = y as i32;
        i = i + 1;
    }
    assert(pool@ =~= advanced_all(old(pool)@, dt));
}

/// Tells whether the enemy stays in the pool.
pub fn is_retained(e: &Shape, screen_height: i32) -> (keep: bool)
    ensures
        keep == retained(*e, screen_height),
{
    (e.y as i64) < screen_height as i64 + e.size as i64
}

/// Removes the enemies that have passed the bottom edge: an enemy leaves the
/// pool if and only if `y >= screen_height + size`. Those that stay keep
/// their order.
pub fn cull_enemies(pool: &mut Vec<Shape>, screen_height: i32)
    ensures
        final(pool)@ == culled(old(pool)@, screen_height),
        forall|i: int| 0 <= i < final(pool)@.len() ==> retained(#[trigger] final(pool)@[i], screen_height),
{
    let n: usize = pool.len();
    let mut kept: Vec<Shape> = Vec::new();
    let mut i: usize = 0;
    while i < n
        invariant
            n == pool.len(),
            pool@ == old(pool)@,
            i <= n,
            kept@ == culled(pool@.take(i as int), screen_height),
        decreases n - i,
    {
        let e: Shape = pool[i];
        proof {
            assert(pool@.take(i + 1) =~= pool@.take(i as int).push(e));
            pool@.take(i as int).lemma_filter_push(e, |e: Shape| retained(e, screen_height));
        }
        if is_retained(&e, screen_height) {
            kept.push(e);
        }
        i = i + 1;
    }
    proof {
        assert(pool@.take(n as int) =~= pool@);
        lemma_culled_are_retained(pool@, screen_height);
    }
    *pool = kept;
}

/// Every enemy of a culled pool is retained.
pub proof fn lemma_culled_are_retained(pool: Seq<Shape>, screen_height: i32)
    ensures
        forall|i: int|
            0 <= i < culled(pool, screen_height).len() ==> retained(
                #[trigger] culled(pool, screen_height)[i],
                screen_height,
            ),
{
    let keep = |e: Shape| retained(e, screen_height);
    assert forall|i: int| 0 <= i < pool.filter(keep).len() implies keep(
        #[trigger] pool.filter(keep)[i],
    ) by {
        pool.lemma_filter_pred(keep, i);
    }
}

/// Culling changes nothing in a pool whose enemies are all retained.
pub proof fn lemma_cull_keeps_retained_pool(pool: Seq<Shape>, screen_height: i32)
    requires
        forall|i: int| 0 <= i < pool.len() ==> retained(#[trigger] pool[i], screen_height),
    ensures
        culled(pool, screen_height) == pool,
    decreases pool.len(),
{
    reveal(Seq::filter);
    if pool.len() > 0 {
        lemma_cull_keeps_retained_pool(pool.drop_last(), screen_height);
        assert(retained(pool.last(), screen_height));
        assert(pool.drop_last().push(pool.last()) =~= pool);
    }
}

/// Culling is idempotent: culling a pool that has just been culled changes
/// nothing.
pub proof fn lemma_cull_idempotent(pool: Seq<Shape>, screen_height: i32)
    ensures
        culled(culled(pool, screen_height), screen_height) == culled(pool, screen_height),
{
    lemma_culled_are_retained(pool, screen_height);
    lemma_cull_keeps_retained_pool(culled(pool, screen_height), screen_height);
}

/// Culling removes exactly the enemies that are not retained: a shape is in
/// the culled pool if and only if it was in the pool and is retained.
pub proof fn lemma_cull_removes_exactly(pool: Seq<Shape>, screen_height: i32, e: Shape)
    ensures
        culled(pool, screen_height).contains(e) <==> pool.contains(e) && retained(e, screen_height),
    decreases pool.len(),
{
    reveal(Seq::filter);
    let keep = |e: Shape| retained(e, screen_height);
    if pool.len() == 0 {
        assert(!pool.contains(e));
        assert(!pool.filter(keep).contains(e));
    } else {
        let rest = pool.drop_last();
        let last = pool.last();
        lemma_cull_removes_exactly(rest, screen_height, e);
        assert(rest.push(last) =~= pool);
        if pool.contains(e) {
            let i = choose|i: int| 0 <= i < pool.len() && pool[i] == e;
            if i < rest.len() {
                assert(rest[i] == e);
            }
        }
        if rest.contains(e) {
            let i = choose|i: int| 0 <= i < rest.len() && rest[i] == e;
            assert(pool[i] == e);
        }
        assert(pool[pool.len() - 1] == last);
        let sub = rest.filter(keep);
        if keep(last) {
            assert(pool.filter(keep) == sub.push(last));
            if sub.contains(e) {
                let i = choose|i: int| 0 <= i < sub.len() && sub[i] == e;
                assert(sub.push(last)[i] == e);
            }
            assert(sub.push(last)[sub.len() as int] == last);
            if sub.push(last).contains(e) {
                let i = choose|i: int| 0 <= i < sub.push(last).len() && sub.push(last)[i] == e;
                if i < sub.len() {
                    assert(sub[i] == e);
                }
            }
        }
    }
}

/// An enemy never rises: after falling for any time, a well-formed enemy is
/// at least as low as before.
pub proof fn lemma_advance_never_rises(e: Shape, dt: u32)
    requires
        e.wf(),
        can_advance(e, dt),
    ensures
        advanced(e, dt).y >= e.y,
        advanced(e, dt).y == e.y + e.speed * dt,
{
    assert(e.speed * dt >= 0) by (nonlinear_arith)
        requires
            e.speed > 0,
            dt >= 0,
    ;
}

} // verus!
