//! The effects a finished placement fires.
//!
//! A boom grows a glowing circle over the board; a camera shake hops the
//! camera toward a random offset a few times.  The shake offset is the one
//! place this crate draws randomness; everything after the draw is an exact
//! function of it.

use vstd::prelude::*;

use rand::Rng;

use crate::color::MilliColor;
use crate::geom::MilliVec3;
use crate::tween::{Ease, EffectEvent, TweenStep};

verus! {

/// How far, at most, a shake offset goes on each axis, in milli-units.
pub const SHAKE_RANGE: i64 = 5000;

/// How long one shake hop runs.
pub const SHAKE_MS: u64 = 100;

/// How many times the shake hop repeats.
pub const SHAKE_TIMES: u32 = 7;

/// How long the boom circle grows.
pub const BOOM_MS: u64 = 10000;

/// The boom: a sprite spawned over the board that grows and yellows.
#[derive(Clone, Copy, Debug, PartialEq, Eq, Structural)]
pub struct BoomPlan {
    pub spawn_pos: MilliVec3,
    pub duration_ms: u64,
    pub ease: Ease,
    pub scale_from: MilliVec3,
    pub scale_to: MilliVec3,
    pub color_from: MilliColor,
    pub color_to: MilliColor,
}

/// The camera shake: one quick hop, repeated.
#[derive(Clone, Copy, Debug, PartialEq, Eq, Structural)]
pub struct ShakePlan {
    pub times: u32,
    pub step: TweenStep,
}

/// What an effect event makes the host do.
#[derive(Clone, Copy, Debug, PartialEq, Eq, Structural)]
pub enum EffectPlan {
    Boom(BoomPlan),
    Shake(ShakePlan),
}

/// The one boom there is: a unit circle just over the board grows fifteenfold
/// and fades from white to yellow.
pub open spec fn boom_plan() -> BoomPlan {
    BoomPlan {
        spawn_pos: MilliVec3 { x: 0, y: 0, z: 1000 },
        duration_ms: BOOM_MS,
        ease: Ease::QuadraticOut,
        scale_from: MilliVec3 { x: 1000, y: 1000, z: 0 },
        scale_to: MilliVec3 { x: 15000, y: 15000, z: 0 },
        color_from: MilliColor { red: 1000, green: 1000, blue: 1000, alpha: 1000 },
        color_to: MilliColor { red: 1000, green: 1000, blue: 0, alpha: 1000 },
    }
}

/// A camera shake from the camera's place toward some offset within the
/// shake range, at the camera's own depth.
pub open spec fn is_camera_shake(k: ShakePlan, cam: MilliVec3) -> bool {
    &&& k.times == SHAKE_TIMES
    &&& k.step.duration_ms == SHAKE_MS
    &&& k.step.ease == Ease::ExponentialOut
    &&& k.step.from == cam
    &&& k.step.to.z == cam.z
    &&& -SHAKE_RANGE <= k.step.to.x <= SHAKE_RANGE
    &&& -SHAKE_RANGE <= k.step.to.y <= SHAKE_RANGE
}

/// Relies on rand::Rng::gen_range on a thread-local generator, over the
/// inclusive range `lo..=hi`: for a non-empty range, the sample lies in it.
#[verifier::external_body]
fn gen_range_i64(lo: i64, hi: i64) -> (r: i64)
    requires
        lo <= hi,
    ensures
        lo <= r <= hi,
{
    rand::thread_rng().gen_range(lo..=hi)
}

/// Draws one shake offset: random on both axes, within the shake range.
pub fn shake_offset() -> (r: (i64, i64))
    ensures
        -SHAKE_RANGE <= r.0 <= SHAKE_RANGE,
        -SHAKE_RANGE <= r.1 <= SHAKE_RANGE,
{
    (gen_range_i64(-SHAKE_RANGE, SHAKE_RANGE), gen_range_i64(-SHAKE_RANGE, SHAKE_RANGE))
}

/// The shake aimed at the offset `(dx, dy)`: seven quick hops from the
/// camera's place toward it, keeping the camera's depth.
pub fn camera_shake(cam: MilliVec3, dx: i64, dy: i64) -> (k: ShakePlan)
    ensures
        k.times == SHAKE_TIMES,
        k.step == (TweenStep {
            duration_ms: SHAKE_MS,
            ease: Ease::ExponentialOut,
            from: cam,
            to: MilliVec3 { x: dx, y: dy, z: cam.z },
        }),
{
    ShakePlan {
        times: SHAKE_TIMES,
        step: TweenStep {
            duration_ms: SHAKE_MS,
            ease: Ease::ExponentialOut,
            from: cam,
            to: MilliVec3 { x: dx, y: dy, z: cam.z },
        },
    }
}

/// Handles one effect event.  A boom always gets the boom plan; the second
/// shark gets a camera shake when there is a camera, toward a fresh random
/// offset; the first shark names no effect and is dropped.
pub fn effect_for_event(ev: EffectEvent, camera: Option<MilliVec3>) -> (r: Option<EffectPlan>)
    ensures
        (r is Some) <==> (ev is Boom || (ev is Shark2 && camera is Some)),
        ev is Boom ==> (r matches Some(EffectPlan::Boom(b)) && b == boom_plan()),
        ev is Shark2 ==> (camera matches Some(cam) ==> (r matches Some(EffectPlan::Shake(k))
            && is_camera_shake(k, cam))),
{
    match ev {
        EffectEvent::Boom => Some(
            EffectPlan::Boom(
                BoomPlan {
                    spawn_pos: MilliVec3 { x: 0, y: 0, z: 1000 },
                    duration_ms: BOOM_MS,
                    ease: Ease::QuadraticOut,
                    scale_from: MilliVec3 { x: 1000, y: 1000, z: 0 },
                    scale_to: MilliVec3 { x: 15000, y: 15000, z: 0 },
                    color_from: MilliColor { red: 1000, green: 1000, blue: 1000, alpha: 1000 },
                    color_to: MilliColor { red: 1000, green: 1000, blue: 0, alpha: 1000 },
                },
            ),
        ),
        EffectEvent::Shark => None,
        EffectEvent::Shark2 => match camera {
            Some(cam) => {
                let (dx, dy) = shake_offset();
                Some(EffectPlan::Shake(camera_shake(cam, dx, dy)))
            },
            None => None,
        },
    }
}

/// Hops the camera by `(dx, dy)` in its own plane.
pub fn nudge_camera(cam: &mut MilliVec3, dx: i64, dy: i64)
    requires
        i64::MIN <= old(cam).x + dx <= i64::MAX,
        i64::MIN <= old(cam).y + dy <= i64::MAX,
    ensures
        *final(cam) == (MilliVec3 {
            x: (old(cam).x + dx) as i64,
            y: (old(cam).y + dy) as i64,
            z: old(cam).z,
        }),
{
    cam.x = cam.x + dx;
    cam.y = cam.y + dy;
}

/// Hops the camera by a fresh random offset in its own plane: each axis
/// moves by at most the shake range.
pub fn random_nudge(cam: &mut MilliVec3)
    requires
        old(cam).x + SHAKE_RANGE <= i64::MAX,
        i64::MIN <= old(cam).x - SHAKE_RANGE,
        old(cam).y + SHAKE_RANGE <= i64::MAX,
        i64::MIN <= old(cam).y - SHAKE_RANGE,
    ensures
        final(cam).z == old(cam).z,
        -SHAKE_RANGE <= final(cam).x - old(cam).x <= SHAKE_RANGE,
        -SHAKE_RANGE <= final(cam).y - old(cam).y <= SHAKE_RANGE,
{
    let (dx, dy) = shake_offset();
    nudge_camera(cam, dx, dy);
}

} // verus!
