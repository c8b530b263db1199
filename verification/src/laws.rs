//! Protocol-wide laws, proved over the spec models of the dispatcher and the
//! card state machine.

use vstd::prelude::*;

use crate::camera::{scan_cards, scan_from, tick_model, Camera, RayCollider};
use crate::card::Card;
use crate::events::{DispatchReport, HoverEvent, RayOutcome};
use crate::geometry::{
    in_coord, pos_settled, shrink1, Vec3, DELTA_MAX, PROGRESS_DONE, RETURN_RATE,
};

verus! {

/// A whole run of simulation ticks, each fed the backend's answers for the
/// ray of that tick.
pub open spec fn run_ticks(cam: Camera, cards: Seq<Card>, rays: Seq<Seq<RayCollider>>) -> (
    Camera,
    Seq<Card>,
)
    decreases rays.len(),
{
    if rays.len() == 0 {
        (cam, cards)
    } else {
        let stepped = tick_model(cam, cards, rays[0]);
        run_ticks(stepped.0, stepped.1, rays.drop_first())
    }
}

/// Idle stability: with no pointer event pending, any run of ticks —
/// whatever the scene looks like — changes nothing at all: no card's hover,
/// held state, position or rotation moves, and the dispatcher stays
/// quiescent.
pub proof fn lemma_idle_ticks_stable(cam: Camera, cards: Seq<Card>, rays: Seq<Seq<RayCollider>>)
    requires
        !cam.query_mouse,
    ensures
        run_ticks(cam, cards, rays) == (cam, cards),
    decreases rays.len(),
{
    if rays.len() > 0 {
        lemma_idle_ticks_stable(cam, cards, rays.drop_first());
    }
}

/// Non-cumulative tilt: while not held, the geometric response recomputes
/// the rotation from the absolute pointer offset, so hitting the same point
/// twice in immediate succession leaves the card exactly as the first hit
/// did.
pub proof fn lemma_hover_tilt_idempotent(c: Card, hit: Vec3)
    requires
        !c.held,
    ensures
        c.hit_response_model(hit).hit_response_model(hit) == c.hit_response_model(hit),
{
}

/// Drag deltas are frame-to-frame: while held, consecutive hits at `p1` then
/// `p2` translate the card by exactly the lateral part of `p2 - p1`, and a
/// third hit at `p2` again translates it by zero.
pub proof fn lemma_drag_delta(c: Card, p1: Vec3, p2: Vec3)
    requires
        c.wf(),
        c.held,
        in_coord(p1),
        in_coord(p2),
        pos_settled(c.position),
    ensures
        ({
            let c1 = c.hit_response_model(p1);
            let c2 = c1.hit_response_model(p2);
            let c3 = c2.hit_response_model(p2);
            &&& c2.position.x - c1.position.x == p2.x - p1.x
            &&& c2.position.y - c1.position.y == p2.y - p1.y
            &&& c2.position.z == c1.position.z
            &&& c3.position == c2.position
        }),
{
}

/// Enter/exit pairing: one reconciliation fires exactly one enter event when
/// and only when the hit flag went up on an unhovered card, exactly one exit
/// event when and only when it stayed down on a hovered card, and nothing
/// otherwise; the hit flag is cleared in every case.
pub proof fn lemma_enter_exit_pairing(c: Card)
    ensures
        (c.reconcile_model().1 == Option::Some(HoverEvent::Entered) <==> (c.mouse_input_received
            && !c.mouse_over)),
        (c.reconcile_model().1 == Option::Some(HoverEvent::Exited) <==> (!c.mouse_input_received
            && c.mouse_over)),
        !c.reconcile_model().0.mouse_input_received,
{
}

/// No double fire on repeated hits: a card hit again right after the tick
/// that made it hovered reports no event from the next reconciliation.
pub proof fn lemma_no_double_enter(c: Card, hit: Vec3)
    requires
        c.mouse_input_received,
        c.accepts_input,
    ensures
        ({
            let c1 = c.reconcile_model().0;
            let c1h = c1.try_mouse_input_model(hit);
            c1h.reconcile_model().1 is None
        }),
{
}

/// No double fire on repeated misses: a card left unhit for a second tick in
/// a row reports no event from the second reconciliation.
pub proof fn lemma_no_double_exit(c: Card)
    requires
        !c.mouse_input_received,
    ensures
        c.reconcile_model().0.reconcile_model().1 is None,
{
}

/// Skipping decliners: the exclusion loop passes transparently over a run of
/// entries whose owners all decline.
proof fn lemma_scan_skips_decliners(ray: Seq<RayCollider>, cards: Seq<Card>, i: int, m: int)
    requires
        0 <= i <= m <= ray.len(),
        forall|k: int|
            i <= k < m ==> ((#[trigger] ray[k].owner) matches Option::Some(ci)
                && !cards[ci as int].accepts_input),
    ensures
        scan_from(ray, cards, i) == scan_from(ray, cards, m),
    decreases m - i,
{
    if i < m {
        lemma_scan_skips_decliners(ray, cards, i + 1, m);
    }
}

/// Exclusion-loop termination and count: with the first `n - 1` colliders
/// along the ray owned by declining cards and the `n`-th owned by an
/// accepting card, one dispatch cycle issues exactly `n` backend queries,
/// delivers the hit to that card, and touches no other card.
pub proof fn lemma_exclusion_loop(ray: Seq<RayCollider>, cards: Seq<Card>, n: int, target: usize)
    requires
        0 < n <= ray.len(),
        ray.len() < usize::MAX,
        forall|i: int|
            0 <= i < n - 1 ==> ((#[trigger] ray[i].owner) matches Option::Some(ci)
                && !cards[ci as int].accepts_input),
        ray[n - 1].owner == Option::Some(target),
        target < cards.len(),
        cards[target as int].accepts_input,
    ensures
        scan_from(ray, cards, 0) == (DispatchReport {
            queries: n as usize,
            outcome: RayOutcome::Delivered { card: target },
        }),
        scan_cards(ray, cards) == cards.update(
            target as int,
            cards[target as int].try_mouse_input_model(ray[n - 1].position),
        ),
{
    lemma_scan_skips_decliners(ray, cards, 0, n - 1);
}

/// While the return animation runs, any frame with a positive delta strictly
/// shrinks every nonzero rotation component toward rest and never moves one
/// past it, so the rotation's magnitude strictly decreases until it is
/// exactly zero.
pub proof fn lemma_return_rotation_decreases(c: Card, delta_ms: i64)
    requires
        c.wf(),
        c.return_progress is Some,
        1 <= delta_ms <= DELTA_MAX,
    ensures
        ({
            let c2 = c.anim_model(delta_ms);
            &&& c.rotation.x > 0 ==> 0 <= c2.rotation.x < c.rotation.x
            &&& c.rotation.x < 0 ==> c.rotation.x < c2.rotation.x <= 0
            &&& c.rotation.y > 0 ==> 0 <= c2.rotation.y < c.rotation.y
            &&& c.rotation.y < 0 ==> c.rotation.y < c2.rotation.y <= 0
            &&& c.rotation.z > 0 ==> 0 <= c2.rotation.z < c.rotation.z
            &&& c.rotation.z < 0 ==> c.rotation.z < c2.rotation.z <= 0
            &&& c.rotation == Vec3::spec_zero() ==> c2.rotation == Vec3::spec_zero()
        }),
{
    let p = c.return_progress->0;
    let p2: int = if p + delta_ms * RETURN_RATE >= PROGRESS_DONE {
        PROGRESS_DONE as int
    } else {
        p + delta_ms * RETURN_RATE
    };
    let keep = PROGRESS_DONE - p2;
    assert(0 <= keep <= 996);
    lemma_shrink_strict(c.rotation.x as int, keep);
    lemma_shrink_strict(c.rotation.y as int, keep);
    lemma_shrink_strict(c.rotation.z as int, keep);
}

/// Keeping at most 996 thousandths of a component moves it strictly toward
/// zero without crossing it.
proof fn lemma_shrink_strict(v: int, keep: int)
    requires
        0 <= keep <= 996,
    ensures
        v > 0 ==> 0 <= shrink1(v, keep) < v,
        v < 0 ==> v < shrink1(v, keep) <= 0,
        v == 0 ==> shrink1(v, keep) == 0,
{
    if v > 0 {
        lemma_scaled_fraction_below(v, keep);
    } else if v < 0 {
        lemma_scaled_fraction_below(-v, keep);
    }
}

/// For positive `v`, `v * keep / 1000` with `keep` at most 996 stays in
/// `[0, v)`.
proof fn lemma_scaled_fraction_below(v: int, keep: int)
    requires
        v > 0,
        0 <= keep <= 996,
    ensures
        0 <= (v * keep) / 1000 < v,
{
    assert(0 <= v * keep <= v * 996) by (nonlinear_arith)
        requires
            v > 0,
            0 <= keep <= 996,
    ;
    assert((v * 996) / 1000 < v) by (nonlinear_arith)
        requires
            v > 0,
    ;
    assert((v * keep) / 1000 <= (v * 996) / 1000) by (nonlinear_arith)
        requires
            0 <= v * keep <= v * 996,
    ;
    assert(0 <= (v * keep) / 1000) by (nonlinear_arith)
        requires
            0 <= v * keep,
    ;
}

/// Once the advanced progress reaches the end of its ramp, the interpolated
/// rotation is exactly rest and the animation is gone: the return completes
/// within a bounded number of frames.
pub proof fn lemma_return_completes(c: Card, delta_ms: i64)
    requires
        c.wf(),
        0 <= delta_ms <= DELTA_MAX,
        c.return_progress matches Option::Some(p) && p + delta_ms * RETURN_RATE >= PROGRESS_DONE,
    ensures
        c.anim_model(delta_ms).rotation == Vec3::spec_zero(),
        c.anim_model(delta_ms).return_progress is None,
{
}

} // verus!
