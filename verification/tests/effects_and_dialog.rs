use card_test::color::MilliColor;
use card_test::effects::{
    camera_shake, effect_for_event, nudge_camera, random_nudge, shake_offset, EffectPlan, BOOM_MS,
    SHAKE_MS, SHAKE_RANGE, SHAKE_TIMES,
};
use card_test::geom::MilliVec3;
use card_test::popup::{popup_plan, ButtonRole, UiVal};
use card_test::tween::{Ease, EffectEvent};

#[test]
fn a_boom_grows_a_yellowing_circle() {
    let plan = effect_for_event(EffectEvent::Boom, None).expect("a boom always plays");
    match plan {
        EffectPlan::Boom(b) => {
            assert_eq!(b.spawn_pos, MilliVec3 { x: 0, y: 0, z: 1000 });
            assert_eq!(b.duration_ms, BOOM_MS);
            assert_eq!(b.ease, Ease::QuadraticOut);
            assert_eq!(b.scale_from, MilliVec3 { x: 1000, y: 1000, z: 0 });
            assert_eq!(b.scale_to, MilliVec3 { x: 15000, y: 15000, z: 0 });
            assert_eq!(b.color_from, MilliColor { red: 1000, green: 1000, blue: 1000, alpha: 1000 });
            assert_eq!(b.color_to, MilliColor { red: 1000, green: 1000, blue: 0, alpha: 1000 });
        }
        EffectPlan::Shake(_) => panic!("a boom is not a shake"),
    }
}

#[test]
fn the_first_shark_does_nothing() {
    let cam = MilliVec3 { x: 0, y: 0, z: 25000 };
    assert!(effect_for_event(EffectEvent::Shark, Some(cam)).is_none());
}

#[test]
fn the_second_shark_shakes_the_camera() {
    let cam = MilliVec3 { x: 100, y: -100, z: 25000 };
    assert!(effect_for_event(EffectEvent::Shark2, None).is_none());
    let plan = effect_for_event(EffectEvent::Shark2, Some(cam)).expect("with a camera, it shakes");
    match plan {
        EffectPlan::Shake(k) => {
            assert_eq!(k.times, SHAKE_TIMES);
            assert_eq!(k.step.duration_ms, SHAKE_MS);
            assert_eq!(k.step.ease, Ease::ExponentialOut);
            assert_eq!(k.step.from, cam);
            assert_eq!(k.step.to.z, cam.z);
            assert!(-SHAKE_RANGE <= k.step.to.x && k.step.to.x <= SHAKE_RANGE);
            assert!(-SHAKE_RANGE <= k.step.to.y && k.step.to.y <= SHAKE_RANGE);
        }
        EffectPlan::Boom(_) => panic!("a shark is not a boom"),
    }
}

#[test]
fn shake_offsets_stay_in_range() {
    for _ in 0..64 {
        let (dx, dy) = shake_offset();
        assert!(-SHAKE_RANGE <= dx && dx <= SHAKE_RANGE);
        assert!(-SHAKE_RANGE <= dy && dy <= SHAKE_RANGE);
    }
}

#[test]
fn a_shake_aims_at_its_offset() {
    let cam = MilliVec3 { x: 4, y: 5, z: 25000 };
    let k = camera_shake(cam, -3000, 2000);
    assert_eq!(k.step.from, cam);
    assert_eq!(k.step.to, MilliVec3 { x: -3000, y: 2000, z: 25000 });
}

#[test]
fn nudges_move_the_camera_in_its_plane() {
    let mut cam = MilliVec3 { x: 10, y: 20, z: 25000 };
    nudge_camera(&mut cam, 300, -400);
    assert_eq!(cam, MilliVec3 { x: 310, y: -380, z: 25000 });

    let before = cam;
    random_nudge(&mut cam);
    assert_eq!(cam.z, before.z);
    assert!((cam.x - before.x).abs() <= SHAKE_RANGE);
    assert!((cam.y - before.y).abs() <= SHAKE_RANGE);
}

#[test]
fn the_dialog_offers_confirm_and_cancel() {
    let plan = popup_plan(String::from("take the field?"));
    assert_eq!(plan.title, "take the field?");
    assert_eq!(plan.title_font_px, 33);
    assert_eq!(plan.overlay.width, UiVal::Pct(100));
    assert_eq!(plan.overlay.height, UiVal::Pct(100));
    assert_eq!(plan.panel.width, UiVal::Px(500));
    assert_eq!(plan.panel.height, UiVal::Px(100));
    assert_eq!(plan.panel_background, MilliColor { red: 1000, green: 1000, blue: 1000, alpha: 600 });
    assert_eq!(plan.panel_corner_px, 10);

    assert_eq!(plan.buttons.len(), 2);
    let confirm = plan.buttons[0];
    assert_eq!(confirm.role, ButtonRole::Confirm);
    assert_eq!(confirm.size.width, UiVal::Px(80));
    assert_eq!(confirm.size.height, UiVal::Px(40));
    assert_eq!(confirm.background, MilliColor { red: 0, green: 100, blue: 100, alpha: 1000 });
    assert_eq!(confirm.label_color, MilliColor { red: 900, green: 900, blue: 0, alpha: 1000 });

    let cancel = plan.buttons[1];
    assert_eq!(cancel.role, ButtonRole::Cancel);
    assert_eq!(cancel.background, MilliColor { red: 1000, green: 0, blue: 0, alpha: 1000 });
    assert_eq!(cancel.label_color, MilliColor { red: 900, green: 900, blue: 900, alpha: 1000 });
}
