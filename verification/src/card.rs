//! The Interactive Object: one pickable card's hover/press/drag/reset state
//! machine.
//!
//! A card is notified of ray hits by the dispatcher ([`Card::try_mouse_input`]),
//! of button events by the input layer ([`Card::input`]), of tick boundaries by
//! the tick-complete broadcast ([`Card::on_3d_mouse_ray_processed`]), and of
//! frame time by the presentation phase ([`Card::process`]). Every transition
//! has a spec-level model function, and each executable method's contract says
//! it computes exactly that model.

use vstd::prelude::*;

use crate::events::{HoverEvent, InputEvent, MouseEvent, PointerButton};
use crate::geometry::{
    drag_tilt, drag_translation, hover_tilt, in_coord, in_pos, in_rot, pos_roomy,
    pos_settled, shrink3, shrink_toward_zero, translated, Vec3, DELTA_MAX, DRAG_SCALE,
    HOVER_DRAW, POS_MAX, PROGRESS_DONE, PUSH_SCALE, RETURN_RATE,
};

verus! {

/// One pickable object and all the state its protocol touches.
#[derive(Clone, Copy, PartialEq, Eq, Debug)]
pub struct Card {
    /// Set by the dispatcher when this card is handed a hit during the
    /// current cycle; cleared exactly once per tick by the reconciliation.
    pub mouse_input_received: bool,
    /// True iff the card was hit on the most recently completed tick.
    /// Changes only at tick-boundary reconciliation, never mid-tick.
    pub mouse_over: bool,
    /// True while the primary button is down and was pressed while hovered.
    pub held: bool,
    /// The hit point of the most recent accepted hit, for drag deltas.
    pub previous_position: Vec3,
    /// The card's translation in the scene.
    pub position: Vec3,
    /// The card's rotation.
    pub rotation: Vec3,
    /// Present only while the return-to-rest animation is running.
    pub return_progress: Option<i64>,
    /// The acceptance predicate of the hit-delivery protocol. Cards accept
    /// every hit by default; a card made non-responsive declines, which makes
    /// it transparent to picking.
    pub accepts_input: bool,
}

impl Card {
    /// Well-formedness: every stored quantity within its fixed-point bounds.
    pub open spec fn wf(self) -> bool {
        &&& in_pos(self.position)
        &&& in_rot(self.rotation)
        &&& in_coord(self.previous_position)
        &&& match self.return_progress {
            Option::Some(p) => 0 <= p <= PROGRESS_DONE,
            Option::None => true,
        }
    }

    /// The freshly constructed card: idle, at rest, accepting hits.
    pub open spec fn init_model() -> Card {
        Card {
            mouse_input_received: false,
            mouse_over: false,
            held: false,
            previous_position: Vec3::spec_zero(),
            position: Vec3::spec_zero(),
            rotation: Vec3::spec_zero(),
            return_progress: Option::None,
            accepts_input: true,
        }
    }

    /// Constructs a card in its rest state.
    pub fn init() -> (c: Card)
        ensures
            c == Card::init_model(),
            c.wf(),
    {
        Card {
            mouse_input_received: false,
            mouse_over: false,
            held: false,
            previous_position: Vec3::zero(),
            position: Vec3::zero(),
            rotation: Vec3::zero(),
            return_progress: Option::None,
            accepts_input: true,
        }
    }

    /// What a button or other input event does to the card.
    ///
    /// A left press while hovered grabs the card; if a return animation is
    /// running it is cancelled and the rotation snaps to rest. A left release
    /// always lets go, hovered or not, so a drag also ends off-object.
    /// Everything else is ignored.
    pub open spec fn input_model(self, event: InputEvent) -> Card {
        match event {
            InputEvent::Mouse {
                event: MouseEvent::Button { button: PointerButton::Left, pressed, position: _ },
            } => {
                if pressed {
                    if self.mouse_over {
                        Card {
                            held: true,
                            rotation: if self.return_progress is Some {
                                Vec3::spec_zero()
                            } else {
                                self.rotation
                            },
                            return_progress: Option::None,
                            ..self
                        }
                    } else {
                        self
                    }
                } else {
                    Card { held: false, ..self }
                }
            },
            _ => self,
        }
    }

    /// Reacts to a raw input event; see [`Card::input_model`].
    pub fn input(&mut self, event: InputEvent)
        requires
            old(self).wf(),
        ensures
            *final(self) == old(self).input_model(event),
            final(self).wf(),
    {
        match event {
            InputEvent::Mouse {
                event: MouseEvent::Button { button: PointerButton::Left, pressed, position: _ },
            } => {
                if pressed {
                    if self.mouse_over {
                        self.held = true;
                        if self.return_progress.is_some() {
                            self.rotation = Vec3::zero();
                        }
                        self.return_progress = Option::None;
                    }
                } else {
                    self.held = false;
                }
            },
            _ => {},
        }
    }

    /// The geometric response to one accepted hit.
    ///
    /// While held, the card translates laterally by the frame-to-frame hit
    /// delta and tilts with the horizontal motion; otherwise it leans toward
    /// the pointer, recomputed from the absolute offset each time. The stored
    /// previous hit position is updated unconditionally, so drag deltas are
    /// always frame-to-frame, never cumulative.
    pub open spec fn hit_response_model(self, hit: Vec3) -> Card {
        let moved = if self.held {
            Card {
                position: translated(self.position, drag_translation(self.previous_position, hit)),
                rotation: drag_tilt(self.previous_position, hit),
                ..self
            }
        } else {
            Card { rotation: hover_tilt(self.position, hit), ..self }
        };
        Card { previous_position: hit, ..moved }
    }

    /// Headroom for one drag step: while held, the translated position must
    /// still fit the stored-position bounds.
    pub open spec fn hit_ok(self, hit: Vec3) -> bool {
        self.held ==> {
            &&& -POS_MAX <= self.position.x + hit.x - self.previous_position.x <= POS_MAX
            &&& -POS_MAX <= self.position.y + hit.y - self.previous_position.y <= POS_MAX
        }
    }

    /// Applies the geometric response to a hit notification; see
    /// [`Card::hit_response_model`]. The camera reference, originating event
    /// and hit normal are the notification payload and do not influence the
    /// response.
    pub fn on_input_event(&mut self, _camera: u64, _event: MouseEvent, input_position: Vec3, _normal: Vec3)
        requires
            old(self).wf(),
            in_coord(input_position),
            old(self).hit_ok(input_position),
        ensures
            *final(self) == old(self).hit_response_model(input_position),
            final(self).wf(),
    {
        if self.held {
            let dx = input_position.x - self.previous_position.x;
            let dy = input_position.y - self.previous_position.y;
            self.position = Vec3 {
                x: self.position.x + dx,
                y: self.position.y + dy,
                z: self.position.z,
            };
            self.rotation = Vec3 { x: 0, y: 0, z: -dx * DRAG_SCALE };
        } else {
            let rx = input_position.x - self.position.x;
            let ry = input_position.y - self.position.y;
            self.rotation = Vec3 { x: -ry * PUSH_SCALE, y: rx * PUSH_SCALE, z: 0 };
        }
        self.previous_position = input_position;
    }

    /// What a hit delivery does: a declining card is left untouched; an
    /// accepting card records the hit for this tick and runs its geometric
    /// response.
    pub open spec fn try_mouse_input_model(self, hit: Vec3) -> Card {
        if self.accepts_input {
            (Card { mouse_input_received: true, ..self }).hit_response_model(hit)
        } else {
            self
        }
    }

    /// Receives a hit from the dispatcher. Returns whether the card accepted
    /// it; a declined hit leaves the card untouched and tells the dispatcher
    /// to keep searching along the ray. On acceptance the input notification
    /// (camera reference, originating event, hit point and normal) is passed
    /// to the card's own geometric response.
    pub fn try_mouse_input(&mut self, camera: u64, event: MouseEvent, input_position: Vec3, normal: Vec3) -> (accepted: bool)
        requires
            old(self).wf(),
            in_coord(input_position),
            old(self).hit_ok(input_position),
        ensures
            accepted == old(self).accepts_input,
            *final(self) == old(self).try_mouse_input_model(input_position),
            final(self).wf(),
    {
        if !self.accepts_input {
            return false;
        }
        self.mouse_input_received = true;
        self.on_input_event(camera, event, input_position, normal);
        true
    }

    /// The enter response: lift along the facing axis by the hover offset.
    pub open spec fn enter_model(self) -> Card {
        Card {
            position: Vec3 {
                x: self.position.x,
                y: self.position.y,
                z: (self.position.z + HOVER_DRAW) as i64,
            },
            ..self
        }
    }

    /// Applies the enter response; see [`Card::enter_model`].
    pub fn on_mouse_entered(&mut self)
        requires
            old(self).wf(),
            old(self).position.z + HOVER_DRAW <= POS_MAX,
        ensures
            *final(self) == old(self).enter_model(),
            final(self).wf(),
    {
        self.position = Vec3 {
            x: self.position.x,
            y: self.position.y,
            z: self.position.z + HOVER_DRAW,
        };
    }

    /// The exit response: drop back by the hover offset and, if the rotation
    /// is not at rest, start the return-to-rest animation.
    pub open spec fn exit_model(self) -> Card {
        let dropped = Card {
            position: Vec3 {
                x: self.position.x,
                y: self.position.y,
                z: (self.position.z - HOVER_DRAW) as i64,
            },
            ..self
        };
        if self.rotation == Vec3::spec_zero() {
            dropped
        } else {
            Card { return_progress: Option::Some(0i64), ..dropped }
        }
    }

    /// Applies the exit response; see [`Card::exit_model`].
    pub fn on_mouse_exited(&mut self)
        requires
            old(self).wf(),
            -POS_MAX <= old(self).position.z - HOVER_DRAW,
        ensures
            *final(self) == old(self).exit_model(),
            final(self).wf(),
    {
        self.position = Vec3 {
            x: self.position.x,
            y: self.position.y,
            z: self.position.z - HOVER_DRAW,
        };
        let rest = Vec3::zero();
        if !(self.rotation == rest) {
            self.return_progress = Option::Some(0i64);
        }
    }

    /// The per-tick reconciliation. A hit while not yet hovered enters:
    /// hover is set, any running return animation is cancelled, the enter
    /// response applies, and exactly one enter event fires. No hit while
    /// hovered exits likewise. Otherwise nothing fires. The hit flag is
    /// cleared in every case.
    pub open spec fn reconcile_model(self) -> (Card, Option<HoverEvent>) {
        if self.mouse_input_received && !self.mouse_over {
            let entered = (Card { mouse_over: true, return_progress: Option::None, ..self }).enter_model();
            (Card { mouse_input_received: false, ..entered }, Option::Some(HoverEvent::Entered))
        } else if !self.mouse_input_received && self.mouse_over {
            let exited = (Card { mouse_over: false, ..self }).exit_model();
            (Card { mouse_input_received: false, ..exited }, Option::Some(HoverEvent::Exited))
        } else {
            (Card { mouse_input_received: false, ..self }, Option::None)
        }
    }

    /// Headroom for the reconciliation: room for the hover lift on an enter
    /// and for the drop on an exit.
    pub open spec fn reconcile_ok(self) -> bool {
        &&& self.mouse_input_received && !self.mouse_over ==> self.position.z + HOVER_DRAW
            <= POS_MAX
        &&& !self.mouse_input_received && self.mouse_over ==> -POS_MAX <= self.position.z
            - HOVER_DRAW
    }

    /// Reconciles hover state at the tick-complete broadcast and reports the
    /// hover transition, if any; see [`Card::reconcile_model`].
    pub fn on_3d_mouse_ray_processed(&mut self) -> (hover: Option<HoverEvent>)
        requires
            old(self).wf(),
            old(self).reconcile_ok(),
        ensures
            *final(self) == old(self).reconcile_model().0,
            hover == old(self).reconcile_model().1,
            final(self).wf(),
    {
        let hover: Option<HoverEvent> = if self.mouse_input_received {
            if !self.mouse_over {
                self.mouse_over = true;
                self.return_progress = Option::None;
                self.on_mouse_entered();
                Option::Some(HoverEvent::Entered)
            } else {
                Option::None
            }
        } else if self.mouse_over {
            self.mouse_over = false;
            self.on_mouse_exited();
            Option::Some(HoverEvent::Exited)
        } else {
            Option::None
        };
        self.mouse_input_received = false;
        hover
    }

    /// A hit delivered to a card whose translation is settled keeps every
    /// stored quantity well-formed and leaves room for the hover lift or
    /// drop of the following reconciliation.
    pub proof fn lemma_hit_keeps_room(self, hit: Vec3)
        requires
            self.wf(),
            in_coord(hit),
            pos_settled(self.position),
        ensures
            self.try_mouse_input_model(hit).wf(),
            pos_roomy(self.try_mouse_input_model(hit).position),
    {
    }

    /// The presentation-phase animation step. While the return animation is
    /// running, its progress advances by the frame delta times the animation
    /// rate (saturating at `PROGRESS_DONE`), the rotation interpolates
    /// linearly toward rest with the new progress as the factor, and the
    /// animation ends the moment the interpolated rotation is exactly rest.
    pub open spec fn anim_model(self, delta_ms: i64) -> Card {
        match self.return_progress {
            Option::None => self,
            Option::Some(p) => {
                let p2: i64 = if p + delta_ms * RETURN_RATE >= PROGRESS_DONE {
                    PROGRESS_DONE
                } else {
                    (p + delta_ms * RETURN_RATE) as i64
                };
                let shrunk = shrink3(self.rotation, PROGRESS_DONE - p2);
                Card {
                    rotation: shrunk,
                    return_progress: if shrunk == Vec3::spec_zero() {
                        Option::None
                    } else {
                        Option::Some(p2)
                    },
                    ..self
                }
            },
        }
    }

    /// Advances the return-to-rest animation by one frame of `delta_ms`
    /// milliseconds; see [`Card::anim_model`].
    pub fn process(&mut self, delta_ms: i64)
        requires
            old(self).wf(),
            0 <= delta_ms <= DELTA_MAX,
        ensures
            *final(self) == old(self).anim_model(delta_ms),
            final(self).wf(),
    {
        match self.return_progress {
            Option::None => {},
            Option::Some(p) => {
                let advanced = p + delta_ms * RETURN_RATE;
                let p2 = if advanced >= PROGRESS_DONE {
                    PROGRESS_DONE
                } else {
                    advanced
                };
                let keep = PROGRESS_DONE - p2;
                let shrunk = Vec3 {
                    x: shrink_toward_zero(self.rotation.x, keep),
                    y: shrink_toward_zero(self.rotation.y, keep),
                    z: shrink_toward_zero(self.rotation.z, keep),
                };
                self.rotation = shrunk;
                self.return_progress = if shrunk.x == 0 && shrunk.y == 0 && shrunk.z == 0 {
                    Option::None
                } else {
                    Option::Some(p2)
                };
            },
        }
    }
}

} // verus!
