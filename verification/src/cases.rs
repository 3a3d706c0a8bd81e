//! The battle board: a fixed grid of drop zones.
//!
//! The board is symmetric about its horizontal center strip, so its layout is
//! parametrized by half extents: `half_a`, half the side of one square zone,
//! and `half_mid`, half the height of the center strip.  With half extents
//! every zone center lands on a whole number of milli-units.

use vstd::prelude::*;

use crate::geom::{Axis, MilliVec3, Pose, Rot8, MAX_EXTENT};

verus! {

/// What a card dropped on a zone means.
#[derive(Clone, Copy, Debug, PartialEq, Eq, Structural)]
pub enum CaseZoneType {
    Nothing,
    Battle,
    Prepare,
    Safe,
    Lx,
    JQ,
}

/// One drop zone of the board: its meaning, its placement, and its slot number.
#[derive(Clone, Copy, Debug, PartialEq, Eq, Structural)]
pub struct CaseZone {
    pub zone_type: CaseZoneType,
    pub transform: Pose,
    pub num: u32,
}

/// The surface drawn on a zone; the host maps each to its texture.
#[derive(Clone, Copy, Debug, PartialEq, Eq, Structural)]
pub enum Surface {
    Plain,
    Stone1,
    Stone2,
    Safe,
    Lx,
    Jq,
}

/// One rectangle of the board as the host renders it: its size, where it is
/// drawn, its surface, and the zone component attached to it.
#[derive(Clone, Copy, Debug, PartialEq, Eq, Structural)]
pub struct CaseSlab {
    pub width: i64,
    pub height: i64,
    pub pose: Pose,
    pub surface: Surface,
    pub zone: CaseZone,
}

/// The board slab of size `w` by `h` drawn at `(x, y)`, turned by
/// `eighth_turns` about the depth axis.  Its zone keeps the unturned
/// placement: the translation alone, never the turn.
pub open spec fn slab(
    w: int,
    h: int,
    x: int,
    y: int,
    eighth_turns: i8,
    surface: Surface,
    zone_type: CaseZoneType,
    num: u32,
) -> CaseSlab {
    CaseSlab {
        width: w as i64,
        height: h as i64,
        pose: Pose {
            translation: MilliVec3 { x: x as i64, y: y as i64, z: 0 },
            rot: Rot8 { axis: Axis::Z, eighth_turns },
        },
        surface,
        zone: CaseZone {
            zone_type,
            transform: Pose {
                translation: MilliVec3 { x: x as i64, y: y as i64, z: 0 },
                rot: Rot8 { axis: Axis::Z, eighth_turns: 0 },
            },
            num,
        },
    }
}

/// Lays the board out: a center strip, and on each side a prepare square, a
/// battle row of three, a safe row of four, and the two tall end zones.
///
/// `half_a` is half the side of one square zone, `half_mid` half the height
/// of the center strip, both in milli-units.
pub fn case_mesh(half_a: i64, half_mid: i64) -> (r: Vec<CaseSlab>)
    requires
        -MAX_EXTENT <= half_a <= MAX_EXTENT,
        -MAX_EXTENT <= half_mid <= MAX_EXTENT,
    ensures
        r@.len() == 21,
        r@[0] == slab(12 * half_a, 2 * half_mid, 0, 0, 0, Surface::Plain, CaseZoneType::Nothing, 0),
        r@[1] == slab(2 * half_a, 2 * half_a, -3 * half_a, half_mid + half_a, 0, Surface::Stone2, CaseZoneType::Prepare, 0),
        r@[2] == slab(2 * half_a, 2 * half_a, -half_a, half_mid + half_a, 0, Surface::Stone1, CaseZoneType::Battle, 1),
        r@[3] == slab(2 * half_a, 2 * half_a, half_a as int, half_mid + half_a, 0, Surface::Stone1, CaseZoneType::Battle, 2),
        r@[4] == slab(2 * half_a, 2 * half_a, 3 * half_a, half_mid + half_a, 0, Surface::Stone1, CaseZoneType::Battle, 3),
        r@[5] == slab(2 * half_a, 2 * half_a, -3 * half_a, half_mid + 3 * half_a, 0, Surface::Safe, CaseZoneType::Safe, 1),
        r@[6] == slab(2 * half_a, 2 * half_a, -half_a, half_mid + 3 * half_a, 0, Surface::Safe, CaseZoneType::Safe, 2),
        r@[7] == slab(2 * half_a, 2 * half_a, half_a as int, half_mid + 3 * half_a, 0, Surface::Safe, CaseZoneType::Safe, 3),
        r@[8] == slab(2 * half_a, 2 * half_a, 3 * half_a, half_mid + 3 * half_a, 0, Surface::Safe, CaseZoneType::Safe, 4),
        r@[9] == slab(2 * half_a, 4 * half_a, -5 * half_a, half_mid + 2 * half_a, 4, Surface::Lx, CaseZoneType::Lx, 1),
        r@[10] == slab(2 * half_a, 4 * half_a, 5 * half_a, half_mid + 2 * half_a, 4, Surface::Jq, CaseZoneType::JQ, 1),
        r@[11] == slab(2 * half_a, 2 * half_a, 3 * half_a, -(half_mid + half_a), 0, Surface::Stone2, CaseZoneType::Prepare, 1),
        r@[12] == slab(2 * half_a, 2 * half_a, -half_a, -(half_mid + half_a), 0, Surface::Stone1, CaseZoneType::Battle, 1),
        r@[13] == slab(2 * half_a, 2 * half_a, half_a as int, -(half_mid + half_a), 0, Surface::Stone1, CaseZoneType::Battle, 2),
        r@[14] == slab(2 * half_a, 2 * half_a, -3 * half_a, -(half_mid + half_a), 0, Surface::Stone1, CaseZoneType::Battle, 3),
        r@[15] == slab(2 * half_a, 2 * half_a, -3 * half_a, -(half_mid + 3 * half_a), 0, Surface::Safe, CaseZoneType::Safe, 1),
        r@[16] == slab(2 * half_a, 2 * half_a, -half_a, -(half_mid + 3 * half_a), 0, Surface::Safe, CaseZoneType::Safe, 2),
        r@[17] == slab(2 * half_a, 2 * half_a, half_a as int, -(half_mid + 3 * half_a), 0, Surface::Safe, CaseZoneType::Safe, 3),
        r@[18] == slab(2 * half_a, 2 * half_a, 3 * half_a, -(half_mid + 3 * half_a), 0, Surface::Safe, CaseZoneType::Safe, 3),
        r@[19] == slab(2 * half_a, 4 * half_a, 5 * half_a, -(half_mid + 2 * half_a), 0, Surface::Lx, CaseZoneType::Lx, 1),
        r@[20] == slab(2 * half_a, 4 * half_a, -5 * half_a, -(half_mid + 2 * half_a), 0, Surface::Jq, CaseZoneType::JQ, 1),
{
    let square: i64 = 2 * half_a;
    let tall: i64 = 4 * half_a;
    let row1: i64 = half_mid + half_a;
    let row2: i64 = half_mid + 3 * half_a;
    let rowt: i64 = half_mid + 2 * half_a;

    let mut r: Vec<CaseSlab> = Vec::new();
    r.push(flat_slab(12 * half_a, 2 * half_mid, 0, 0, Surface::Plain, CaseZoneType::Nothing, 0));
    r.push(flat_slab(square, square, -3 * half_a, row1, Surface::Stone2, CaseZoneType::Prepare, 0));
    r.push(flat_slab(square, square, -half_a, row1, Surface::Stone1, CaseZoneType::Battle, 1));
    r.push(flat_slab(square, square, half_a, row1, Surface::Stone1, CaseZoneType::Battle, 2));
    r.push(flat_slab(square, square, 3 * half_a, row1, Surface::Stone1, CaseZoneType::Battle, 3));
    r.push(flat_slab(square, square, -3 * half_a, row2, Surface::Safe, CaseZoneType::Safe, 1));
    r.push(flat_slab(square, square, -half_a, row2, Surface::Safe, CaseZoneType::Safe, 2));
    r.push(flat_slab(square, square, half_a, row2, Surface::Safe, CaseZoneType::Safe, 3));
    r.push(flat_slab(square, square, 3 * half_a, row2, Surface::Safe, CaseZoneType::Safe, 4));
    r.push(turned_slab(square, tall, -5 * half_a, rowt, 4, Surface::Lx, CaseZoneType::Lx, 1));
    r.push(turned_slab(square, tall, 5 * half_a, rowt, 4, Surface::Jq, CaseZoneType::JQ, 1));
    r.push(flat_slab(square, square, 3 * half_a, -row1, Surface::Stone2, CaseZoneType::Prepare, 1));
    r.push(flat_slab(square, square, -half_a, -row1, Surface::Stone1, CaseZoneType::Battle, 1));
    r.push(flat_slab(square, square, half_a, -row1, Surface::Stone1, CaseZoneType::Battle, 2));
    r.push(flat_slab(square, square, -3 * half_a, -row1, Surface::Stone1, CaseZoneType::Battle, 3));
    r.push(flat_slab(square, square, -3 * half_a, -row2, Surface::Safe, CaseZoneType::Safe, 1));
    r.push(flat_slab(square, square, -half_a, -row2, Surface::Safe, CaseZoneType::Safe, 2));
    r.push(flat_slab(square, square, half_a, -row2, Surface::Safe, CaseZoneType::Safe, 3));
    r.push(flat_slab(square, square, 3 * half_a, -row2, Surface::Safe, CaseZoneType::Safe, 3));
    r.push(turned_slab(square, tall, 5 * half_a, -rowt, 0, Surface::Lx, CaseZoneType::Lx, 1));
    r.push(turned_slab(square, tall, -5 * half_a, -rowt, 0, Surface::Jq, CaseZoneType::JQ, 1));
    r
}

/// One board slab with no turn.
fn flat_slab(w: i64, h: i64, x: i64, y: i64, surface: Surface, zone_type: CaseZoneType, num: u32) -> (r: CaseSlab)
    ensures
        r == slab(w as int, h as int, x as int, y as int, 0, surface, zone_type, num),
{
    turned_slab(w, h, x, y, 0, surface, zone_type, num)
}

/// One board slab turned about the depth axis.
fn turned_slab(w: i64, h: i64, x: i64, y: i64, eighth_turns: i8, surface: Surface, zone_type: CaseZoneType, num: u32) -> (r: CaseSlab)
    ensures
        r == slab(w as int, h as int, x as int, y as int, eighth_turns, surface, zone_type, num),
{
    CaseSlab {
        width: w,
        height: h,
        pose: Pose {
            translation: MilliVec3 { x, y, z: 0 },
            rot: Rot8 { axis: Axis::Z, eighth_turns },
        },
        surface,
        zone: CaseZone {
            zone_type,
            transform: Pose {
                translation: MilliVec3 { x, y, z: 0 },
                rot: Rot8 { axis: Axis::Z, eighth_turns: 0 },
            },
            num,
        },
    }
}

} // verus!
