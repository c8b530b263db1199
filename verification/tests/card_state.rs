//! Card-local behavior: tilt, drag, button handling, reconciliation and the
//! return-to-rest animation.

use card_picking::card::Card;
use card_picking::events::{HoverEvent, InputEvent, MouseEvent, PointerButton};
use card_picking::geometry::{Vec2, Vec3};

fn motion(x: i64, y: i64) -> MouseEvent {
    MouseEvent::Motion { position: Vec2 { x, y } }
}

fn left_button(pressed: bool) -> InputEvent {
    InputEvent::Mouse {
        event: MouseEvent::Button {
            button: PointerButton::Left,
            pressed,
            position: Vec2 { x: 0, y: 0 },
        },
    }
}

fn hit(card: &mut Card, x: i64, y: i64, z: i64) -> bool {
    card.try_mouse_input(0, motion(0, 0), Vec3 { x, y, z }, Vec3 { x: 0, y: 0, z: 1000 })
}

#[test]
fn init_is_at_rest() {
    let c = Card::init();
    assert!(!c.mouse_input_received);
    assert!(!c.mouse_over);
    assert!(!c.held);
    assert!(c.accepts_input);
    assert_eq!(c.position, Vec3 { x: 0, y: 0, z: 0 });
    assert_eq!(c.rotation, Vec3 { x: 0, y: 0, z: 0 });
    assert_eq!(c.previous_position, Vec3 { x: 0, y: 0, z: 0 });
    assert_eq!(c.return_progress, None);
}

#[test]
fn hover_tilt_exact_value() {
    let mut c = Card::init();
    assert!(hit(&mut c, 1000, 2000, 0));
    // 0.15 rad per unit of offset: (-2 * 0.15, 1 * 0.15, 0) rad
    assert_eq!(c.rotation, Vec3 { x: -300_000, y: 150_000, z: 0 });
    assert_eq!(c.position, Vec3 { x: 0, y: 0, z: 0 });
    assert_eq!(c.previous_position, Vec3 { x: 1000, y: 2000, z: 0 });
    assert!(c.mouse_input_received);
}

#[test]
fn hover_tilt_is_idempotent() {
    let mut c = Card::init();
    assert!(hit(&mut c, 1000, 2000, 0));
    let first = c;
    assert!(hit(&mut c, 1000, 2000, 0));
    assert_eq!(c, first);
}

#[test]
fn declined_hit_changes_nothing() {
    let mut c = Card::init();
    c.accepts_input = false;
    let before = c;
    assert!(!hit(&mut c, 1000, 2000, 0));
    assert_eq!(c, before);
}

#[test]
fn drag_translates_by_frame_delta() {
    let mut c = Card::init();
    c.held = true;
    c.previous_position = Vec3 { x: 1000, y: 0, z: 0 };
    assert!(hit(&mut c, 3000, 500, 250));
    // lateral translation by the delta (2000, 500), depth ignored
    assert_eq!(c.position, Vec3 { x: 2000, y: 500, z: 0 });
    // drag tilt: -2 units of horizontal motion * 1.2 rad
    assert_eq!(c.rotation, Vec3 { x: 0, y: 0, z: -2_400_000 });
    assert_eq!(c.previous_position, Vec3 { x: 3000, y: 500, z: 250 });
    // a repeated hit at the same point moves nothing
    let frozen = c.position;
    assert!(hit(&mut c, 3000, 500, 250));
    assert_eq!(c.position, frozen);
    assert_eq!(c.rotation, Vec3 { x: 0, y: 0, z: 0 });
}

#[test]
fn press_grabs_only_while_hovered() {
    let mut c = Card::init();
    c.input(left_button(true));
    assert!(!c.held);
    c.mouse_over = true;
    c.input(left_button(true));
    assert!(c.held);
}

#[test]
fn release_lets_go_even_off_object() {
    let mut c = Card::init();
    c.held = true;
    c.mouse_over = false;
    c.input(left_button(false));
    assert!(!c.held);
}

#[test]
fn press_cancels_return_animation() {
    let mut c = Card::init();
    c.mouse_over = true;
    c.rotation = Vec3 { x: 0, y: 5000, z: 0 };
    c.return_progress = Some(500);
    c.input(left_button(true));
    assert!(c.held);
    assert_eq!(c.rotation, Vec3 { x: 0, y: 0, z: 0 });
    assert_eq!(c.return_progress, None);
}

#[test]
fn non_left_buttons_and_other_input_are_ignored() {
    let mut c = Card::init();
    c.mouse_over = true;
    let before = c;
    c.input(InputEvent::Mouse {
        event: MouseEvent::Button {
            button: PointerButton::Other,
            pressed: true,
            position: Vec2 { x: 0, y: 0 },
        },
    });
    assert_eq!(c, before);
    c.input(InputEvent::Other);
    assert_eq!(c, before);
}

#[test]
fn reconcile_fires_enter_then_nothing_then_exit_then_nothing() {
    let mut c = Card::init();
    assert!(hit(&mut c, 0, 0, 0));
    // first tick with a hit: enter, lifted by the hover offset
    assert_eq!(c.on_3d_mouse_ray_processed(), Some(HoverEvent::Entered));
    assert!(c.mouse_over);
    assert!(!c.mouse_input_received);
    assert_eq!(c.position.z, 100);
    // hit again: still hovered, no second enter
    assert!(hit(&mut c, 0, 0, 0));
    assert_eq!(c.on_3d_mouse_ray_processed(), None);
    assert_eq!(c.position.z, 100);
    // no hit: exit, dropped back
    assert_eq!(c.on_3d_mouse_ray_processed(), Some(HoverEvent::Exited));
    assert!(!c.mouse_over);
    assert_eq!(c.position.z, 0);
    // still no hit: no second exit
    assert_eq!(c.on_3d_mouse_ray_processed(), None);
    assert_eq!(c.position.z, 0);
}

#[test]
fn exit_with_rotation_starts_return_animation() {
    let mut c = Card::init();
    c.mouse_over = true;
    c.rotation = Vec3 { x: 0, y: 300_000, z: 0 };
    assert_eq!(c.on_3d_mouse_ray_processed(), Some(HoverEvent::Exited));
    assert_eq!(c.return_progress, Some(0));
    // the rotation is not snapped; the animation brings it to rest
    assert_eq!(c.rotation, Vec3 { x: 0, y: 300_000, z: 0 });
}

#[test]
fn exit_at_rest_starts_no_animation() {
    let mut c = Card::init();
    c.mouse_over = true;
    assert_eq!(c.on_3d_mouse_ray_processed(), Some(HoverEvent::Exited));
    assert_eq!(c.return_progress, None);
}

#[test]
fn entering_cancels_return_animation() {
    let mut c = Card::init();
    c.rotation = Vec3 { x: 0, y: 5000, z: 0 };
    c.return_progress = Some(400);
    assert!(hit(&mut c, 0, 0, 0));
    assert_eq!(c.on_3d_mouse_ray_processed(), Some(HoverEvent::Entered));
    assert_eq!(c.return_progress, None);
}

#[test]
fn process_without_animation_changes_nothing() {
    let mut c = Card::init();
    c.rotation = Vec3 { x: 1, y: 2, z: 3 };
    let before = c;
    c.process(16);
    assert_eq!(c, before);
}

#[test]
fn return_animation_converges_to_exact_rest() {
    // starting rotation (0, 0.3, 0) radians, rate 4.0 per second, repeated
    // frames of a sixtieth of a second (16 ms in whole milliseconds)
    let mut c = Card::init();
    c.rotation = Vec3 { x: 0, y: 300_000, z: 0 };
    c.return_progress = Some(0);
    let mut last = 300_000;
    let mut frames = 0;
    while c.return_progress.is_some() {
        c.process(16);
        frames += 1;
        assert!(frames <= 20, "the return animation must finish in bounded frames");
        if c.return_progress.is_some() {
            assert!(
                0 < c.rotation.y && c.rotation.y < last,
                "rotation magnitude must strictly decrease"
            );
            last = c.rotation.y;
        }
    }
    assert_eq!(c.rotation, Vec3 { x: 0, y: 0, z: 0 });
    assert_eq!(c.return_progress, None);
    // progress advances 16 ms * 4 per ms = 64 per frame; the interpolated
    // rotation underflows to exact rest on the fifteenth frame
    assert_eq!(frames, 15);
}

#[test]
fn return_animation_first_frame_exact_value() {
    let mut c = Card::init();
    c.rotation = Vec3 { x: 0, y: 300_000, z: 0 };
    c.return_progress = Some(0);
    c.process(16);
    // progress 64 of 1000: keep 936 thousandths of the rotation
    assert_eq!(c.rotation, Vec3 { x: 0, y: 280_800, z: 0 });
    assert_eq!(c.return_progress, Some(64));
}
