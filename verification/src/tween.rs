//! Value-level animation plans.
//!
//! A tween is a timed interpolation of a translation; a plan is a sequence of
//! tweens, optionally cleaned up once finished, followed by a burst of effect
//! events fired in parallel.  The host replays a plan on its own scheduler;
//! this crate only decides what the plan is.

use vstd::prelude::*;

use crate::geom::MilliVec3;

verus! {

/// The easing curve of one tween.
#[derive(Clone, Copy, Debug, PartialEq, Eq, Structural)]
pub enum Ease {
    ExponentialOut,
    QuadraticOut,
}

/// Tags of the effect events a finished placement fires.
#[derive(Clone, Copy, Debug, PartialEq, Eq, Structural)]
pub enum EffectEvent {
    Boom,
    Shark,
    Shark2,
}

/// One timed interpolation of a translation.
#[derive(Clone, Copy, Debug, PartialEq, Eq, Structural)]
pub struct TweenStep {
    pub duration_ms: u64,
    pub ease: Ease,
    pub from: MilliVec3,
    pub to: MilliVec3,
}

/// A sequence of tweens, run one after the other, then a burst of events.
#[derive(Clone, Debug)]
pub struct TweenPlan {
    pub steps: Vec<TweenStep>,
    /// Whether the finished animation tears its tween entities down.
    pub clear_on_finish: bool,
    /// Events fired in parallel once the last step ends.
    pub events: Vec<EffectEvent>,
}

impl TweenPlan {
    /// A plan of a single tween, with no cleanup and no events.
    pub fn single(duration_ms: u64, ease: Ease, from: MilliVec3, to: MilliVec3) -> (r: TweenPlan)
        ensures
            r.steps@ =~= seq![(TweenStep { duration_ms, ease, from, to })],
            !r.clear_on_finish,
            r.events@ =~= Seq::<EffectEvent>::empty(),
    {
        let mut steps: Vec<TweenStep> = Vec::new();
        steps.push(TweenStep { duration_ms, ease, from, to });
        TweenPlan { steps, clear_on_finish: false, events: Vec::new() }
    }
}

} // verus!
