//! The Ray Dispatcher: buffers pointer input and resolves one ray per tick.
//!
//! [`Camera::unhandled_input`] coalesces pointer events, keeping only the
//! latest. [`Camera::physics_process`] runs once per simulation tick: if a
//! pointer event is pending it walks the colliders along the ray —
//! excluding each one that declines — until the first responsive card claims
//! the hit or the ray runs out, then broadcasts the tick-complete
//! notification to every card so it can reconcile its hover state.

use vstd::prelude::*;

use crate::card::Card;
use crate::events::{DispatchReport, HoverEvent, InputEvent, MouseEvent, RayOutcome};
use crate::geometry::{in_coord, pos_settled, Vec3};

verus! {

/// One answer of the collision backend along the ray: a collider handle, the
/// index of its owning card (or none, for scenery that merely blocks), and
/// the world-space hit point and normal.
#[derive(Clone, Copy, PartialEq, Eq, Debug)]
pub struct RayCollider {
    pub collider: u64,
    pub owner: Option<usize>,
    pub position: Vec3,
    pub normal: Vec3,
}

/// The collision backend's successive answers for one ray, nearest first.
///
/// The backend is queried with a growing exclusion set: every collider whose
/// owner has declined is excluded from the next query, so the k-th query of
/// one dispatch cycle returns the k-th entry here, and the query after the
/// last entry reports no hit. The owner index is the scene's back-reference
/// from a collider to its card; the dispatcher only reads it.
#[derive(PartialEq, Eq, Debug)]
pub struct RayPath {
    pub colliders: Vec<RayCollider>,
}

/// What one dispatch tick did to the cards, and which hover transitions the
/// tick-complete broadcast produced, per card.
#[derive(PartialEq, Eq, Debug)]
pub struct TickOutcome {
    /// `None` when no pointer event was pending, so no ray was cast.
    pub report: Option<DispatchReport>,
    /// One entry per card, in card order; empty when no ray was cast.
    pub hover_events: Vec<Option<HoverEvent>>,
}

/// Every owner index along the ray resolves to a card, and every hit point
/// is within coordinate bounds.
pub open spec fn ray_wf(ray: Seq<RayCollider>, n_cards: nat) -> bool {
    &&& ray.len() < usize::MAX
    &&& forall|i: int| 0 <= i < ray.len() ==> in_coord(#[trigger] ray[i].position)
    &&& forall|i: int|
        0 <= i < ray.len() ==> ((#[trigger] ray[i].owner) matches Option::Some(ci) ==> ci
            < n_cards)
}

/// The outcome of the exclusion loop from entry `i` on: the first entry
/// whose owner accepts is delivered to, an ownerless entry blocks the ray,
/// and entries whose owners decline are excluded and skipped. `queries`
/// counts every query of the whole cycle, the final empty one included.
pub open spec fn scan_from(ray: Seq<RayCollider>, cards: Seq<Card>, i: int) -> DispatchReport
    decreases ray.len() - i,
{
    if i < 0 || i >= ray.len() {
        DispatchReport { queries: (ray.len() + 1) as usize, outcome: RayOutcome::Miss }
    } else {
        match ray[i].owner {
            Option::None => DispatchReport {
                queries: (i + 1) as usize,
                outcome: RayOutcome::Blocked { collider: ray[i].collider },
            },
            Option::Some(ci) => if cards[ci as int].accepts_input {
                DispatchReport {
                    queries: (i + 1) as usize,
                    outcome: RayOutcome::Delivered { card: ci },
                }
            } else {
                scan_from(ray, cards, i + 1)
            },
        }
    }
}

/// The cards after one dispatch cycle: exactly the card the cycle delivered
/// to receives the hit; every other card is untouched.
pub open spec fn scan_cards(ray: Seq<RayCollider>, cards: Seq<Card>) -> Seq<Card> {
    let rep = scan_from(ray, cards, 0);
    match rep.outcome {
        RayOutcome::Delivered { card } => cards.update(
            card as int,
            cards[card as int].try_mouse_input_model(ray[rep.queries - 1].position),
        ),
        _ => cards,
    }
}

/// Where the exclusion loop stops: the query count is bounded by the entry
/// count plus the final empty query, a delivery happens at an accepting
/// owner, a block at an ownerless entry, and a miss only after every entry
/// was excluded.
pub proof fn lemma_scan_from_ok(ray: Seq<RayCollider>, cards: Seq<Card>, i: int)
    requires
        0 <= i <= ray.len(),
        ray.len() < usize::MAX,
    ensures
        ({
            let rep = scan_from(ray, cards, i);
            &&& i + 1 <= rep.queries <= ray.len() + 1
            &&& (rep.outcome matches RayOutcome::Delivered { card } ==> {
                &&& i <= rep.queries - 1 < ray.len()
                &&& ray[rep.queries - 1].owner == Option::Some(card)
                &&& cards[card as int].accepts_input
            })
            &&& (rep.outcome matches RayOutcome::Blocked { collider } ==> {
                &&& i <= rep.queries - 1 < ray.len()
                &&& ray[rep.queries - 1].owner is None
                &&& collider == ray[rep.queries - 1].collider
            })
            &&& (rep.outcome is Miss ==> rep.queries == ray.len() + 1)
        }),
    decreases ray.len() - i,
{
    if i < ray.len() {
        match ray[i].owner {
            Option::None => {},
            Option::Some(ci) => {
                if !cards[ci as int].accepts_input {
                    lemma_scan_from_ok(ray, cards, i + 1);
                }
            },
        }
    }
}

/// Every card after its per-tick reconciliation.
pub open spec fn reconcile_all(cards: Seq<Card>) -> Seq<Card> {
    cards.map_values(|c: Card| c.reconcile_model().0)
}

/// The hover transition each card reports from its reconciliation.
pub open spec fn reconcile_events(cards: Seq<Card>) -> Seq<Option<HoverEvent>> {
    cards.map_values(|c: Card| c.reconcile_model().1)
}

/// One whole simulation tick: nothing happens without a pending pointer
/// event; otherwise the ray is dispatched, the pending flag cleared, and
/// every card reconciled by the tick-complete broadcast.
pub open spec fn tick_model(cam: Camera, cards: Seq<Card>, ray: Seq<RayCollider>) -> (
    Camera,
    Seq<Card>,
) {
    if !cam.query_mouse {
        (cam, cards)
    } else {
        (Camera { query_mouse: false, ..cam }, reconcile_all(scan_cards(ray, cards)))
    }
}

/// The dispatcher. It owns the pointer buffer; the scene it queries enters
/// as a [`RayPath`] per tick.
#[derive(Clone, Copy, PartialEq, Eq, Debug)]
pub struct Camera {
    /// A pointer event is pending and the next tick must cast a ray.
    pub query_mouse: bool,
    /// The most recent pointer event; newer events overwrite older ones.
    pub mouse_event: Option<MouseEvent>,
    /// The physics layers the picking ray queries.
    pub sprite_layers: u32,
    /// Passed to the cards as the camera reference of hit notifications.
    pub instance_id: u64,
}

impl Camera {
    /// A pending query always has the event that caused it.
    pub open spec fn wf(self) -> bool {
        self.query_mouse ==> self.mouse_event is Some
    }

    /// The freshly constructed dispatcher: nothing pending.
    pub open spec fn init_model(sprite_layers: u32, instance_id: u64) -> Camera {
        Camera { query_mouse: false, mouse_event: Option::None, sprite_layers, instance_id }
    }

    /// Constructs a dispatcher with nothing pending.
    pub fn init(sprite_layers: u32, instance_id: u64) -> (cam: Camera)
        ensures
            cam == Camera::init_model(sprite_layers, instance_id),
            cam.wf(),
    {
        Camera { query_mouse: false, mouse_event: Option::None, sprite_layers, instance_id }
    }

    /// What buffering an input event does: a pointer event replaces the
    /// pending one and marks a query; anything else is ignored. At most one
    /// event is ever buffered — motion between ticks is coalesced.
    pub open spec fn buffer_model(self, event: InputEvent) -> Camera {
        match event {
            InputEvent::Mouse { event: e } => Camera {
                query_mouse: true,
                mouse_event: Option::Some(e),
                ..self
            },
            InputEvent::Other => self,
        }
    }

    /// Buffers one raw input event; see [`Camera::buffer_model`]. Pure
    /// buffering: no ray is cast here.
    pub fn unhandled_input(&mut self, event: InputEvent)
        requires
            old(self).wf(),
        ensures
            *final(self) == old(self).buffer_model(event),
            final(self).wf(),
    {
        match event {
            InputEvent::Mouse { event: e } => {
                self.query_mouse = true;
                self.mouse_event = Option::Some(e);
            },
            InputEvent::Other => {},
        }
    }

    /// Runs the exclusion loop of one dispatch cycle over the backend's
    /// answers: each entry is resolved to its owning card and offered the
    /// hit; a decliner is excluded and the next query made; an ownerless
    /// collider blocks the ray. Exactly the delivered-to card changes.
    pub fn check_sprite_input(&self, cards: &mut Vec<Card>, ray: &RayPath) -> (report:
        DispatchReport)
        requires
            self.mouse_event is Some,
            ray_wf(ray.colliders@, old(cards)@.len() as nat),
            forall|j: int| 0 <= j < old(cards)@.len() ==> (#[trigger] old(cards)@[j]).wf(),
            forall|i: int|
                0 <= i < ray.colliders@.len() ==> ((#[trigger] ray.colliders@[i]).owner matches
                    Option::Some(ci) ==> old(cards)@[ci as int].hit_ok(
                    ray.colliders@[i].position,
                )),
        ensures
            report == scan_from(ray.colliders@, old(cards)@, 0),
            final(cards)@ == scan_cards(ray.colliders@, old(cards)@),
            final(cards)@.len() == old(cards)@.len(),
            forall|j: int| 0 <= j < final(cards)@.len() ==> (#[trigger] final(cards)@[j]).wf(),
    {
        let event = self.mouse_event.unwrap();
        let ghost cards0 = cards@;
        let n = ray.colliders.len();
        let mut i: usize = 0;
        while i < n
            invariant
                i <= n,
                n == ray.colliders@.len(),
                n < usize::MAX,
                cards0 == old(cards)@,
                cards@ == cards0,
                ray_wf(ray.colliders@, cards0.len() as nat),
                forall|j: int| 0 <= j < cards0.len() ==> (#[trigger] cards0[j]).wf(),
                forall|k: int|
                    0 <= k < ray.colliders@.len() ==> ((#[trigger] ray.colliders@[k]).owner
                        matches Option::Some(ci) ==> cards0[ci as int].hit_ok(
                        ray.colliders@[k].position,
                    )),
                scan_from(ray.colliders@, cards0, 0) == scan_from(ray.colliders@, cards0, i as int),
            decreases n - i,
        {
            let entry = ray.colliders[i];
            match entry.owner {
                Option::None => {
                    // something non-interactive blocks the ray: the cycle
                    // ends with no card notified
                    return DispatchReport {
                        queries: i + 1,
                        outcome: RayOutcome::Blocked { collider: entry.collider },
                    };
                },
                Option::Some(ci) => {
                    let mut card = cards[ci];
                    let accepted = card.try_mouse_input(
                        self.instance_id,
                        event,
                        entry.position,
                        entry.normal,
                    );
                    cards[ci] = card;
                    if accepted {
                        proof {
                            assert(cards@ =~= cards0.update(
                                ci as int,
                                cards0[ci as int].try_mouse_input_model(entry.position),
                            ));
                        }
                        return DispatchReport {
                            queries: i + 1,
                            outcome: RayOutcome::Delivered { card: ci },
                        };
                    }
                    // declined: this collider joins the exclusion set and
                    // the ray is queried again
                    proof {
                        assert(cards@ =~= cards0);
                    }
                },
            }
            i = i + 1;
        }
        DispatchReport { queries: n + 1, outcome: RayOutcome::Miss }
    }

    /// One simulation tick. With no pointer event pending this does nothing
    /// at all — no ray, no broadcast. Otherwise it dispatches the ray, clears
    /// the pending flag, and broadcasts tick-complete to every card, in card
    /// order, collecting each card's hover transition.
    pub fn physics_process(&mut self, cards: &mut Vec<Card>, ray: &RayPath) -> (tick: TickOutcome)
        requires
            old(self).wf(),
            ray_wf(ray.colliders@, old(cards)@.len() as nat),
            forall|j: int|
                0 <= j < old(cards)@.len() ==> (#[trigger] old(cards)@[j]).wf() && pos_settled(
                    old(cards)@[j].position,
                ),
        ensures
            *final(self) == tick_model(*old(self), old(cards)@, ray.colliders@).0,
            final(cards)@ == tick_model(*old(self), old(cards)@, ray.colliders@).1,
            final(self).wf(),
            forall|j: int| 0 <= j < final(cards)@.len() ==> (#[trigger] final(cards)@[j]).wf(),
            !old(self).query_mouse ==> tick.report is None && tick.hover_events@.len() == 0,
            old(self).query_mouse ==> {
                &&& tick.report == Option::Some(scan_from(ray.colliders@, old(cards)@, 0))
                &&& tick.hover_events@ == reconcile_events(
                    scan_cards(ray.colliders@, old(cards)@),
                )
            },
    {
        if !self.query_mouse {
            return TickOutcome { report: Option::None, hover_events: Vec::new() };
        }
        proof {
            // settled positions give every potential delivery its headroom
            assert forall|k: int|
                0 <= k < ray.colliders@.len() implies ((#[trigger] ray.colliders@[k]).owner
                matches Option::Some(ci) ==> cards@[ci as int].hit_ok(
                ray.colliders@[k].position,
            )) by {}
        }
        let report = self.check_sprite_input(cards, ray);
        self.query_mouse = false;
        let ghost mid = cards@;
        proof {
            // after the dispatch every card is still well-formed with room
            // for the hover lift or drop of its reconciliation
            lemma_scan_from_ok(ray.colliders@, old(cards)@, 0);
            let rep = scan_from(ray.colliders@, old(cards)@, 0);
            match rep.outcome {
                RayOutcome::Delivered { card } => {
                    old(cards)@[card as int].lemma_hit_keeps_room(
                        ray.colliders@[rep.queries - 1].position,
                    );
                },
                _ => {},
            }
            assert forall|k: int|
                0 <= k < mid.len() implies (#[trigger] mid[k]).wf() && mid[k].reconcile_ok() by {}
        }
        let mut hover_events: Vec<Option<HoverEvent>> = Vec::new();
        let mut j: usize = 0;
        while j < cards.len()
            invariant
                j <= cards@.len(),
                mid == scan_cards(ray.colliders@, old(cards)@),
                cards@.len() == mid.len(),
                hover_events@.len() == j,
                forall|k: int| 0 <= k < j ==> (#[trigger] cards@[k]) == mid[k].reconcile_model().0,
                forall|k: int|
                    0 <= k < j ==> (#[trigger] hover_events@[k]) == mid[k].reconcile_model().1,
                forall|k: int| j <= k < mid.len() ==> (#[trigger] cards@[k]) == mid[k],
                forall|k: int|
                    0 <= k < mid.len() ==> (#[trigger] mid[k]).wf() && mid[k].reconcile_ok(),
                forall|k: int| 0 <= k < j ==> (#[trigger] cards@[k]).wf(),
            decreases cards@.len() - j,
        {
            let mut card = cards[j];
            let ev = card.on_3d_mouse_ray_processed();
            cards[j] = card;
            hover_events.push(ev);
            j = j + 1;
        }
        proof {
            assert(cards@ =~= reconcile_all(mid));
            assert(hover_events@ =~= reconcile_events(mid));
        }
        TickOutcome { report: Option::Some(report), hover_events }
    }
}

} // verus!
