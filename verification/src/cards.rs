//! The life cycle of a playing card.
//!
//! A card is free, dragged, or settled.  Hovering a free card dips it toward
//! the table; dragging follows the pointer on the card plane; dropping it on
//! a zone raises a confirmation dialog; confirming settles the card onto the
//! zone through a three-leg animation, cancelling leaves everything as it
//! was.  Each pointer handler is a pure decision: it updates the plain card
//! state and hands back the animation plan the host should run.

use vstd::prelude::*;

use crate::card_mesh::{card_mesh_list, is_card_mesh, CardMeshList};
use crate::cases::CaseZone;
use crate::geom::{Axis, MilliVec3, Pose, Rot8, MAX_EXTENT};
use crate::tween::{Ease, EffectEvent, TweenPlan, TweenStep};

verus! {

/// How long the hover, leave and return tweens run.
pub const HOVER_MS: u64 = 1100;

/// How long the first two legs of the placement animation run.
pub const PLACE_GATHER_MS: u64 = 1000;

/// How long the final descent of the placement animation runs.
pub const PLACE_DROP_MS: u64 = 600;

/// The table height a hovered card dips to, in milli-units.
pub const HOVER_Y: i64 = -2000;

/// How far the placement animation lifts the card, in milli-units.
pub const LIFT_Z: i64 = 3000;

/// Where a reset card goes back to, in milli-units.
pub const RESET_Y: i64 = -4000;

/// The depth of the card plane a reset card goes back to, in milli-units.
pub const RESET_Z: i64 = 18000;

/// The home transform of a card: where a released card returns to.
#[derive(Clone, Copy, Debug, PartialEq, Eq, Structural)]
pub struct Card {
    pub trans: Pose,
}

/// Everything the handlers read or write about one card.
#[derive(Clone, Copy, Debug, PartialEq, Eq, Structural)]
pub struct CardState {
    /// The home transform.
    pub home: Card,
    /// The current translation of the card in the world.
    pub pos: MilliVec3,
    /// The card follows the pointer.
    pub dragging: bool,
    /// The card has been placed on a zone and no longer reacts.
    pub setted: bool,
    /// The card face lets pointer rays pass through it, so that a drop can
    /// reach the zone underneath.
    pub pick_through: bool,
}

/// A placement waiting in the confirmation dialog: where the card's home was
/// when it was dropped, and the center of the zone it was dropped on.
#[derive(Clone, Copy, Debug, PartialEq, Eq, Structural)]
pub struct PendingPlacement {
    pub start: Pose,
    pub target: MilliVec3,
}

/// One card together with the dialog that may be waiting on it.
#[derive(Clone, Copy, Debug, PartialEq, Eq, Structural)]
pub struct Session {
    pub state: CardState,
    pub pending: Option<PendingPlacement>,
}

/// What the pointer or the host can do to a card.
#[derive(Clone, Copy, Debug, PartialEq, Eq, Structural)]
pub enum CardEvent {
    /// The pointer entered the card.
    Over,
    /// The pointer left the card.
    Out,
    /// A drag began on the card.
    DragStart,
    /// The drag moved; the pointer ray hits the card plane here.
    Drag { hit_x: i64, hit_y: i64 },
    /// The drag ended.
    DragEnd,
    /// The card was dropped onto a zone.
    Drop { zone: CaseZone },
    /// The dialog's confirm button was clicked.
    Confirm,
    /// The dialog's cancel button was clicked.
    Cancel,
    /// The host put every card back to its starting place.
    Reset,
}

/// What the host must do after a step: run a tween, open or close the dialog.
pub struct StepEffects {
    pub tween: Option<TweenPlan>,
    pub open_dialog: bool,
    pub close_dialog: bool,
}

/// A free card: neither dragged nor settled.
pub open spec fn is_free(s: CardState) -> bool {
    !s.dragging && !s.setted
}

/// A card is never dragged and settled at once.
pub open spec fn card_wf(s: CardState) -> bool {
    !(s.dragging && s.setted)
}

/// A dialog only ever waits on a card that is not settled yet.
pub open spec fn session_wf(s: Session) -> bool {
    &&& card_wf(s.state)
    &&& s.pending is Some ==> !s.state.setted
}

/// Where a hovered card dips to: straight down to the hover height.
pub open spec fn hover_target(pos: MilliVec3) -> MilliVec3 {
    MilliVec3 { x: pos.x, y: HOVER_Y, z: pos.z }
}

/// The single tween that dips a hovered card.
pub open spec fn is_hover_plan(p: TweenPlan, s: CardState) -> bool {
    &&& p.steps@ =~= seq![
        (TweenStep {
            duration_ms: HOVER_MS,
            ease: Ease::ExponentialOut,
            from: s.pos,
            to: hover_target(s.pos),
        }),
    ]
    &&& !p.clear_on_finish
    &&& p.events@ =~= Seq::<EffectEvent>::empty()
}

/// The single tween that sends a card back to its home transform.
pub open spec fn is_return_home_plan(p: TweenPlan, s: CardState) -> bool {
    &&& p.steps@ =~= seq![
        (TweenStep {
            duration_ms: HOVER_MS,
            ease: Ease::ExponentialOut,
            from: s.pos,
            to: s.home.trans.translation,
        }),
    ]
    &&& !p.clear_on_finish
    &&& p.events@ =~= Seq::<EffectEvent>::empty()
}

/// The placement animation: gather the card to the board center at its own
/// depth, lift it, then drop it onto the zone.  The recorded start of the
/// final descent is the first waypoint, whose state the descent reuses.  The
/// finished animation cleans its tweens up and fires its effect events.
pub open spec fn is_place_plan(p: TweenPlan, pd: PendingPlacement) -> bool {
    let start = pd.start.translation;
    let mid = MilliVec3 { x: 0, y: 0, z: start.z };
    let lifted = MilliVec3 { x: 0, y: 0, z: (start.z + LIFT_Z) as i64 };
    &&& p.steps@ =~= seq![
        (TweenStep {
            duration_ms: PLACE_GATHER_MS,
            ease: Ease::ExponentialOut,
            from: start,
            to: mid,
        }),
        (TweenStep {
            duration_ms: PLACE_GATHER_MS,
            ease: Ease::ExponentialOut,
            from: mid,
            to: lifted,
        }),
        (TweenStep {
            duration_ms: PLACE_DROP_MS,
            ease: Ease::ExponentialOut,
            from: mid,
            to: pd.target,
        }),
    ]
    &&& p.clear_on_finish
    &&& p.events@ =~= seq![EffectEvent::Boom, EffectEvent::Shark]
}

/// The card state a reset puts every card into.
pub open spec fn reset_state() -> CardState {
    CardState {
        home: Card {
            trans: Pose {
                translation: MilliVec3 { x: 0, y: RESET_Y, z: RESET_Z },
                rot: Rot8 { axis: Axis::Z, eighth_turns: 0 },
            },
        },
        pos: MilliVec3 { x: 0, y: RESET_Y, z: RESET_Z },
        dragging: false,
        setted: false,
        pick_through: false,
    }
}

/// The whole state machine: the session each event leads to.
pub open spec fn step_state(s: Session, ev: CardEvent) -> Session {
    match ev {
        CardEvent::Over => s,
        CardEvent::Out => s,
        CardEvent::DragStart => Session {
            state: CardState {
                home: s.state.home,
                pos: s.state.pos,
                dragging: if s.state.setted {
                    s.state.dragging
                } else {
                    true
                },
                setted: s.state.setted,
                pick_through: true,
            },
            pending: s.pending,
        },
        CardEvent::Drag { hit_x, hit_y } => Session {
            state: CardState {
                home: s.state.home,
                pos: if s.state.setted {
                    s.state.pos
                } else {
                    MilliVec3 { x: hit_x, y: hit_y, z: s.state.pos.z }
                },
                dragging: s.state.dragging,
                setted: s.state.setted,
                pick_through: s.state.pick_through,
            },
            pending: s.pending,
        },
        CardEvent::DragEnd => Session {
            state: CardState {
                home: s.state.home,
                pos: s.state.pos,
                dragging: if s.state.setted {
                    s.state.dragging
                } else {
                    false
                },
                setted: s.state.setted,
                pick_through: false,
            },
            pending: s.pending,
        },
        CardEvent::Drop { zone } => Session {
            state: s.state,
            pending: if s.state.setted {
                s.pending
            } else {
                Some(PendingPlacement {
                    start: s.state.home.trans,
                    target: zone.transform.translation,
                })
            },
        },
        CardEvent::Confirm => match s.pending {
            Some(pd) => Session {
                state: CardState {
                    home: Card {
                        trans: Pose {
                            translation: pd.target,
                            rot: Rot8 { axis: Axis::Z, eighth_turns: 0 },
                        },
                    },
                    pos: s.state.pos,
                    dragging: s.state.dragging,
                    setted: true,
                    pick_through: false,
                },
                pending: None,
            },
            None => s,
        },
        CardEvent::Cancel => Session { state: s.state, pending: None },
        CardEvent::Reset => Session { state: reset_state(), pending: s.pending },
    }
}

/// A freshly spawned card: at home, free, and picking pointer rays.
pub fn spawn_card(transform: Pose) -> (s: CardState)
    ensures
        s.home.trans == transform,
        s.pos == transform.translation,
        is_free(s),
        !s.pick_through,
        card_wf(s),
{
    CardState {
        home: Card { trans: transform },
        pos: transform.translation,
        dragging: false,
        setted: false,
        pick_through: false,
    }
}

/// Dips a hovered card toward the table; a dragged or settled card is left
/// alone.
pub fn over_card(s: &CardState) -> (r: Option<TweenPlan>)
    ensures
        (r is Some) <==> is_free(*s),
        r matches Some(p) ==> is_hover_plan(p, *s),
{
    if !s.dragging && !s.setted {
        Some(TweenPlan::single(
            HOVER_MS,
            Ease::ExponentialOut,
            s.pos,
            MilliVec3 { x: s.pos.x, y: HOVER_Y, z: s.pos.z },
        ))
    } else {
        None
    }
}

/// Sends a card the pointer left back home; a dragged or settled card is
/// left alone.
pub fn out_card(s: &CardState) -> (r: Option<TweenPlan>)
    ensures
        (r is Some) <==> is_free(*s),
        r matches Some(p) ==> is_return_home_plan(p, *s),
{
    if !s.dragging && !s.setted {
        Some(TweenPlan::single(
            HOVER_MS,
            Ease::ExponentialOut,
            s.pos,
            s.home.trans.translation,
        ))
    } else {
        None
    }
}

/// Begins a drag: the card face stops catching pointer rays, and a card not
/// yet settled starts following the pointer.
pub fn drag_start(s: &mut CardState)
    ensures
        final(s).home == old(s).home,
        final(s).pos == old(s).pos,
        final(s).setted == old(s).setted,
        final(s).pick_through == true,
        final(s).dragging == (if old(s).setted {
            old(s).dragging
        } else {
            true
        }),
{
    s.pick_through = true;
    if !s.setted {
        s.dragging = true;
    }
}

/// Follows the pointer: a card not yet settled moves to where the pointer
/// ray hits the card plane, keeping its depth.
pub fn move_on_drag(s: &mut CardState, hit_x: i64, hit_y: i64)
    ensures
        final(s).home == old(s).home,
        final(s).dragging == old(s).dragging,
        final(s).setted == old(s).setted,
        final(s).pick_through == old(s).pick_through,
        final(s).pos == (if old(s).setted {
            old(s).pos
        } else {
            MilliVec3 { x: hit_x, y: hit_y, z: old(s).pos.z }
        }),
{
    if !s.setted {
        s.pos = MilliVec3 { x: hit_x, y: hit_y, z: s.pos.z };
    }
}

/// Ends a drag: the card face catches pointer rays again, and a card not yet
/// settled stops following the pointer and is sent back home.
pub fn drag_end(s: &mut CardState) -> (r: Option<TweenPlan>)
    ensures
        final(s).home == old(s).home,
        final(s).pos == old(s).pos,
        final(s).setted == old(s).setted,
        final(s).pick_through == false,
        final(s).dragging == (if old(s).setted {
            old(s).dragging
        } else {
            false
        }),
        (r is Some) <==> !old(s).setted,
        r matches Some(p) ==> is_return_home_plan(p, *old(s)),
{
    s.pick_through = false;
    if !s.setted {
        s.dragging = false;
        Some(TweenPlan::single(
            HOVER_MS,
            Ease::ExponentialOut,
            s.pos,
            s.home.trans.translation,
        ))
    } else {
        None
    }
}

/// Handles a drop onto a zone: a card not yet settled gets a placement
/// waiting on the confirmation dialog; a settled card is left alone.
pub fn deal_on_drop(s: &CardState, zone: &CaseZone) -> (r: Option<PendingPlacement>)
    ensures
        (r is Some) <==> !s.setted,
        r matches Some(pd) ==> pd == (PendingPlacement {
            start: s.home.trans,
            target: zone.transform.translation,
        }),
{
    if !s.setted {
        Some(PendingPlacement { start: s.home.trans, target: zone.transform.translation })
    } else {
        None
    }
}

/// Confirms a waiting placement: the zone center becomes the card's new
/// home, the card settles, its face catches pointer rays again, and the
/// placement animation is returned.
pub fn confirm_placement(s: &mut CardState, pd: &PendingPlacement) -> (r: TweenPlan)
    requires
        pd.start.translation.z + LIFT_Z <= i64::MAX,
    ensures
        final(s).home.trans == (Pose {
            translation: pd.target,
            rot: Rot8 { axis: Axis::Z, eighth_turns: 0 },
        }),
        final(s).pos == old(s).pos,
        final(s).dragging == old(s).dragging,
        final(s).setted == true,
        final(s).pick_through == false,
        is_place_plan(r, *pd),
{
    let start = pd.start.translation;
    let mid = MilliVec3 { x: 0, y: 0, z: start.z };
    let lifted = MilliVec3 { x: 0, y: 0, z: start.z + LIFT_Z };

    let mut steps: Vec<TweenStep> = Vec::new();
    steps.push(TweenStep {
        duration_ms: PLACE_GATHER_MS,
        ease: Ease::ExponentialOut,
        from: start,
        to: mid,
    });
    steps.push(TweenStep {
        duration_ms: PLACE_GATHER_MS,
        ease: Ease::ExponentialOut,
        from: mid,
        to: lifted,
    });
    steps.push(TweenStep {
        duration_ms: PLACE_DROP_MS,
        ease: Ease::ExponentialOut,
        from: mid,
        to: pd.target,
    });
    let mut events: Vec<EffectEvent> = Vec::new();
    events.push(EffectEvent::Boom);
    events.push(EffectEvent::Shark);

    s.home = Card {
        trans: Pose { translation: pd.target, rot: Rot8 { axis: Axis::Z, eighth_turns: 0 } },
    };
    s.setted = true;
    s.pick_through = false;

    TweenPlan { steps, clear_on_finish: true, events }
}

/// Puts a card back to its starting place on the card plane, free again.
pub fn reset_card(s: &mut CardState)
    ensures
        *final(s) == reset_state(),
{
    *s = CardState {
        home: Card {
            trans: Pose {
                translation: MilliVec3 { x: 0, y: RESET_Y, z: RESET_Z },
                rot: Rot8 { axis: Axis::Z, eighth_turns: 0 },
            },
        },
        pos: MilliVec3 { x: 0, y: RESET_Y, z: RESET_Z },
        dragging: false,
        setted: false,
        pick_through: false,
    };
}

/// The tween children a finished animation tears down: every tween child, if
/// the animation asked to be cleaned up, and none otherwise.  A child is an
/// identifier together with whether it is a tween.
#[verifier::loop_isolation(false)]
pub fn clear_on_finish_targets(clear_on_finish: bool, children: &Vec<(u64, bool)>) -> (r: Vec<
    u64,
>)
    ensures
        clear_on_finish ==> r@ == children@.filter(|c: (u64, bool)| c.1).map_values(
            |c: (u64, bool)| c.0,
        ),
        !clear_on_finish ==> r@ == Seq::<u64>::empty(),
{
    let ghost pred = |c: (u64, bool)| c.1;
    let ghost value = |c: (u64, bool)| c.0;
    let mut r: Vec<u64> = Vec::new();
    if !clear_on_finish {
        assert(r@ =~= Seq::<u64>::empty());
        return r;
    }
    let mut i: usize = 0;
    while i < children.len()
        invariant
            i <= children.len(),
            r@ == children@.take(i as int).filter(pred).map_values(value),
        decreases children.len() - i,
    {
        let (id, is_tween) = children[i];
        proof {
            let elem = children@[i as int];
            let prefix = children@.take(i as int);
            assert(children@.take(i as int + 1) =~= prefix.push(elem));
            prefix.lemma_filter_push(elem, pred);
            if pred(elem) {
                prefix.filter(pred).lemma_push_map_commute(value, elem);
                assert(children@.take(i as int + 1).filter(pred).map_values(value) =~= r@.push(
                    value(elem),
                ));
            } else {
                assert(children@.take(i as int + 1).filter(pred).map_values(value) =~= r@);
            }
        }
        if is_tween {
            r.push(id);
        }
        i = i + 1;
    }
    proof {
        assert(children@.take(children@.len() as int) =~= children@);
    }
    r
}

impl Session {
    /// A fresh session: one spawned card, no dialog.
    pub fn new(transform: Pose) -> (s: Session)
        ensures
            s.state == (CardState {
                home: Card { trans: transform },
                pos: transform.translation,
                dragging: false,
                setted: false,
                pick_through: false,
            }),
            s.pending is None,
            session_wf(s),
    {
        Session { state: spawn_card(transform), pending: None }
    }

    /// Runs one event through the state machine and says what the host must
    /// do: the new session is exactly `step_state`, and the effects are the
    /// plans of the handler the event reached.
    pub fn step(&mut self, ev: CardEvent) -> (r: StepEffects)
        requires
            ev is Confirm ==> (old(self).pending matches Some(pd) ==> pd.start.translation.z
                + LIFT_Z <= i64::MAX),
        ensures
            *final(self) == step_state(*old(self), ev),
            r.tween is Some <==> ((ev is Over && is_free(old(self).state)) || (ev is Out
                && is_free(old(self).state)) || (ev is DragEnd && !old(self).state.setted) || (
            ev is Confirm && old(self).pending is Some)),
            (ev is Over && is_free(old(self).state)) ==> (r.tween matches Some(p)
                && is_hover_plan(p, old(self).state)),
            ((ev is Out || ev is DragEnd) && is_free(old(self).state)) ==> (r.tween matches Some(
                p,
            ) && is_return_home_plan(p, old(self).state)),
            (ev is DragEnd && !old(self).state.setted) ==> (r.tween matches Some(p)
                && is_return_home_plan(p, old(self).state)),
            ev is Confirm ==> (old(self).pending matches Some(pd) ==> (r.tween matches Some(p)
                && is_place_plan(p, pd))),
            r.open_dialog == (ev is Drop && !old(self).state.setted),
            r.close_dialog == (ev is Confirm || ev is Cancel),
    {
        match ev {
            CardEvent::Over => StepEffects {
                tween: over_card(&self.state),
                open_dialog: false,
                close_dialog: false,
            },
            CardEvent::Out => StepEffects {
                tween: out_card(&self.state),
                open_dialog: false,
                close_dialog: false,
            },
            CardEvent::DragStart => {
                let mut st = self.state;
                drag_start(&mut st);
                self.state = st;
                StepEffects { tween: None, open_dialog: false, close_dialog: false }
            },
            CardEvent::Drag { hit_x, hit_y } => {
                let mut st = self.state;
                move_on_drag(&mut st, hit_x, hit_y);
                self.state = st;
                StepEffects { tween: None, open_dialog: false, close_dialog: false }
            },
            CardEvent::DragEnd => {
                let mut st = self.state;
                let tween = drag_end(&mut st);
                self.state = st;
                StepEffects { tween, open_dialog: false, close_dialog: false }
            },
            CardEvent::Drop { zone } => {
                let pd = deal_on_drop(&self.state, &zone);
                let opened = pd.is_some();
                if opened {
                    self.pending = pd;
                }
                StepEffects { tween: None, open_dialog: opened, close_dialog: false }
            },
            CardEvent::Confirm => {
                let tween = match &self.pending {
                    Some(pd) => {
                        let pd = *pd;
                        let mut st = self.state;
                        let plan = confirm_placement(&mut st, &pd);
                        self.state = st;
                        self.pending = None;
                        Some(plan)
                    },
                    None => None,
                };
                StepEffects { tween, open_dialog: false, close_dialog: true }
            },
            CardEvent::Cancel => {
                self.pending = None;
                StepEffects { tween: None, open_dialog: false, close_dialog: true }
            },
            CardEvent::Reset => {
                let mut st = self.state;
                reset_card(&mut st);
                self.state = st;
                StepEffects { tween: None, open_dialog: false, close_dialog: false }
            },
        }
    }
}

/// Everything the host spawns for one new card: the home transform
/// component, the root placement, and the ten meshes.
#[derive(Clone, Debug)]
pub struct CardSpawnPlan {
    pub card: Card,
    pub pose: Pose,
    pub mesh: CardMeshList,
}

/// Plans one new card at the given transform: the transform becomes both the
/// root placement and the home the card returns to, and the meshes are the
/// rounded-rectangle build for the given half extents.
pub fn put_card(
    half_width: i64,
    half_height: i64,
    half_radius: i64,
    half_thick: i64,
    transform: Pose,
) -> (r: CardSpawnPlan)
    requires
        -MAX_EXTENT <= half_width <= MAX_EXTENT,
        -MAX_EXTENT <= half_height <= MAX_EXTENT,
        -MAX_EXTENT <= half_radius <= MAX_EXTENT,
        -MAX_EXTENT <= half_thick <= MAX_EXTENT,
    ensures
        r.card.trans == transform,
        r.pose == transform,
        is_card_mesh(r.mesh, half_width, half_height, half_radius, half_thick),
{
    CardSpawnPlan {
        card: Card { trans: transform },
        pose: transform,
        mesh: card_mesh_list(half_width, half_height, half_radius, half_thick),
    }
}

/// A well-formed card is in exactly one of its three phases: free, dragged,
/// or settled.
pub proof fn lemma_phase_exclusive(s: CardState)
    requires
        card_wf(s),
    ensures
        is_free(s) || s.dragging || s.setted,
        is_free(s) ==> !s.dragging && !s.setted,
        s.dragging ==> !is_free(s) && !s.setted,
        s.setted ==> !is_free(s) && !s.dragging,
{
}

/// Every event keeps the session well formed.  A confirmation can only be
/// clicked once the drag that dropped the card has ended, so the card it
/// settles is no longer dragged.
pub proof fn lemma_step_preserves_wf(s: Session, ev: CardEvent)
    requires
        session_wf(s),
        ev is Confirm ==> !s.state.dragging,
    ensures
        session_wf(step_state(s, ev)),
{
}

/// A settled card rests: short of a reset, no event moves it, re-homes it,
/// or frees it.
pub proof fn lemma_settled_card_rests(s: Session, ev: CardEvent)
    requires
        session_wf(s),
        s.state.setted,
        !(ev is Reset),
    ensures
        step_state(s, ev).state.home == s.state.home,
        step_state(s, ev).state.pos == s.state.pos,
        step_state(s, ev).state.setted,
{
}

/// A drag that ends at once leaves a free card exactly as it was.
pub proof fn lemma_drag_released_card_unchanged(s: Session)
    requires
        is_free(s.state),
        !s.state.pick_through,
    ensures
        step_state(step_state(s, CardEvent::DragStart), CardEvent::DragEnd) == s,
{
}

/// Dropping a card on a zone and confirming settles it onto that zone's
/// center and closes the dialog.
pub proof fn lemma_drop_confirm_settles(s: Session, zone: CaseZone)
    requires
        !s.state.setted,
    ensures
        ({
            let after = step_state(step_state(s, CardEvent::Drop { zone }), CardEvent::Confirm);
            &&& after.state.setted
            &&& after.state.home.trans.translation == zone.transform.translation
            &&& after.pending is None
        }),
{
}

/// Dropping a card on a zone and cancelling leaves the card untouched and no
/// dialog waiting.
pub proof fn lemma_drop_cancel_keeps_card(s: Session, zone: CaseZone)
    ensures
        ({
            let after = step_state(step_state(s, CardEvent::Drop { zone }), CardEvent::Cancel);
            &&& after.state == s.state
            &&& after.pending is None
        }),
{
}

/// A reset always yields a free card resting at its home on the card plane.
pub proof fn lemma_reset_frees(s: Session, ev: CardEvent)
    ensures
        ({
            let after = step_state(s, CardEvent::Reset);
            &&& is_free(after.state)
            &&& after.state.pos == after.state.home.trans.translation
        }),
{
}

} // verus!
