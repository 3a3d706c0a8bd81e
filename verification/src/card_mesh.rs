//! The geometry of one card.
//!
//! A card is a rounded rectangle built from ten meshes: four circular-sector
//! corners and four edge slabs make the frame, one flat rectangle carries the
//! face, one the back.  The build is parametrized by half extents in
//! milli-units — half the card's width and height, half the corner radius,
//! half the thickness — so that every mesh center lands on a whole number of
//! milli-units.

use vstd::prelude::*;

use crate::geom::{Axis, MilliVec3, Pose, Rot8, MAX_EXTENT};

verus! {

/// A flat shape the host extrudes or renders directly.
#[derive(Clone, Copy, Debug, PartialEq, Eq, Structural)]
pub enum CardShape {
    /// A quarter-circle corner sector of the given radius, in milli-units.
    Sector { radius: i64 },
    /// A rectangle of the given size, in milli-units.
    Rect { width: i64, height: i64 },
}

/// One mesh of a card: its shape, how deep the host extrudes it (zero keeps
/// it flat), and where it sits relative to the card's center.
#[derive(Clone, Copy, Debug, PartialEq, Eq, Structural)]
pub struct CardPiece {
    pub shape: CardShape,
    pub depth: i64,
    pub pose: Pose,
}

/// The ten meshes of one card: the frame (drawn plain and dark), the face
/// (textured, unlit), and the back (textured).
#[derive(Clone, Debug)]
pub struct CardMeshList {
    pub frames: Vec<CardPiece>,
    pub face: CardPiece,
    pub back: CardPiece,
}

/// A quarter-circle corner sector of radius `radius`, extruded by `depth`,
/// at `(x, y)`, turned by `eighth_turns` about the depth axis.
pub open spec fn sector_piece(radius: int, depth: int, x: int, y: int, eighth_turns: i8) -> CardPiece {
    CardPiece {
        shape: CardShape::Sector { radius: radius as i64 },
        depth: depth as i64,
        pose: Pose {
            translation: MilliVec3 { x: x as i64, y: y as i64, z: 0 },
            rot: Rot8 { axis: Axis::Z, eighth_turns },
        },
    }
}

/// A rectangle of size `w` by `h`, extruded by `depth`, at `(x, y, z)`,
/// turned by `eighth_turns` about `axis`.
pub open spec fn rect_piece(
    w: int,
    h: int,
    depth: int,
    x: int,
    y: int,
    z: int,
    axis: Axis,
    eighth_turns: i8,
) -> CardPiece {
    CardPiece {
        shape: CardShape::Rect { width: w as i64, height: h as i64 },
        depth: depth as i64,
        pose: Pose {
            translation: MilliVec3 { x: x as i64, y: y as i64, z: z as i64 },
            rot: Rot8 { axis, eighth_turns },
        },
    }
}

/// The rounded-rectangle build, for half extents `hw`, `hh`, `hr`, `ht`.
///
/// The corners sit at the corners of the inner rectangle (the card less its
/// frame) and are turned outward; the edge slabs straddle the inner edge,
/// centered half a radius outside it; the face sits half a thickness in
/// front of the card's center and the back half a thickness behind it,
/// turned half a turn about the vertical axis so that it looks backward.
pub open spec fn is_card_mesh(m: CardMeshList, hw: i64, hh: i64, hr: i64, ht: i64) -> bool {
    let ix = hw - 2 * hr;
    let iy = hh - 2 * hr;
    let ex = hw - hr;
    let ey = hh - hr;
    &&& m.frames@ =~= seq![
        sector_piece(2 * hr, 2 * ht, ix, iy, -1i8),
        sector_piece(2 * hr, 2 * ht, ix, -iy, -3i8),
        sector_piece(2 * hr, 2 * ht, -ix, iy, 1),
        sector_piece(2 * hr, 2 * ht, -ix, -iy, 3),
        rect_piece(2 * ix, 2 * hr, 2 * ht, 0, ey, 0, Axis::Z, 0),
        rect_piece(2 * ix, 2 * hr, 2 * ht, 0, -ey, 0, Axis::Z, 0),
        rect_piece(2 * hr, 2 * iy, 2 * ht, -ex, 0, 0, Axis::Z, 0),
        rect_piece(2 * hr, 2 * iy, 2 * ht, ex, 0, 0, Axis::Z, 0),
    ]
    &&& m.face == rect_piece(2 * ix, 2 * iy, 0, 0, 0, ht as int, Axis::Z, 0)
    &&& m.back == rect_piece(2 * ix, 2 * iy, 0, 0, 0, -ht as int, Axis::Y, 4)
}

/// Builds the ten meshes of one card from its half extents.
pub fn card_mesh_list(hw: i64, hh: i64, hr: i64, ht: i64) -> (r: CardMeshList)
    requires
        -MAX_EXTENT <= hw <= MAX_EXTENT,
        -MAX_EXTENT <= hh <= MAX_EXTENT,
        -MAX_EXTENT <= hr <= MAX_EXTENT,
        -MAX_EXTENT <= ht <= MAX_EXTENT,
    ensures
        is_card_mesh(r, hw, hh, hr, ht),
{
    let ix: i64 = hw - 2 * hr;
    let iy: i64 = hh - 2 * hr;
    let ex: i64 = hw - hr;
    let ey: i64 = hh - hr;
    let radius: i64 = 2 * hr;
    let depth: i64 = 2 * ht;

    let mut frames: Vec<CardPiece> = Vec::new();
    frames.push(corner(radius, depth, ix, iy, -1));
    frames.push(corner(radius, depth, ix, -iy, -3));
    frames.push(corner(radius, depth, -ix, iy, 1));
    frames.push(corner(radius, depth, -ix, -iy, 3));
    frames.push(edge(2 * ix, radius, depth, 0, ey));
    frames.push(edge(2 * ix, radius, depth, 0, -ey));
    frames.push(edge(radius, 2 * iy, depth, -ex, 0));
    frames.push(edge(radius, 2 * iy, depth, ex, 0));

    let face = CardPiece {
        shape: CardShape::Rect { width: 2 * ix, height: 2 * iy },
        depth: 0,
        pose: Pose {
            translation: MilliVec3 { x: 0, y: 0, z: ht },
            rot: Rot8 { axis: Axis::Z, eighth_turns: 0 },
        },
    };
    let back = CardPiece {
        shape: CardShape::Rect { width: 2 * ix, height: 2 * iy },
        depth: 0,
        pose: Pose {
            translation: MilliVec3 { x: 0, y: 0, z: -ht },
            rot: Rot8 { axis: Axis::Y, eighth_turns: 4 },
        },
    };

    let r = CardMeshList { frames, face, back };
    proof {
        assert(r.frames@ =~= seq![
            sector_piece(2 * hr, 2 * ht, hw - 2 * hr, hh - 2 * hr, -1i8),
            sector_piece(2 * hr, 2 * ht, hw - 2 * hr, -(hh - 2 * hr), -3i8),
            sector_piece(2 * hr, 2 * ht, -(hw - 2 * hr), hh - 2 * hr, 1),
            sector_piece(2 * hr, 2 * ht, -(hw - 2 * hr), -(hh - 2 * hr), 3),
            rect_piece(2 * (hw - 2 * hr), 2 * hr, 2 * ht, 0, hh - hr, 0, Axis::Z, 0),
            rect_piece(2 * (hw - 2 * hr), 2 * hr, 2 * ht, 0, -(hh - hr), 0, Axis::Z, 0),
            rect_piece(2 * hr, 2 * (hh - 2 * hr), 2 * ht, -(hw - hr), 0, 0, Axis::Z, 0),
            rect_piece(2 * hr, 2 * (hh - 2 * hr), 2 * ht, hw - hr, 0, 0, Axis::Z, 0),
        ]);
    }
    r
}

/// One corner sector of the frame.
fn corner(radius: i64, depth: i64, x: i64, y: i64, eighth_turns: i8) -> (r: CardPiece)
    ensures
        r == sector_piece(radius as int, depth as int, x as int, y as int, eighth_turns),
{
    CardPiece {
        shape: CardShape::Sector { radius },
        depth,
        pose: Pose {
            translation: MilliVec3 { x, y, z: 0 },
            rot: Rot8 { axis: Axis::Z, eighth_turns },
        },
    }
}

/// One unturned edge slab of the frame.
fn edge(width: i64, height: i64, depth: i64, x: i64, y: i64) -> (r: CardPiece)
    ensures
        r == rect_piece(width as int, height as int, depth as int, x as int, y as int, 0, Axis::Z, 0),
{
    CardPiece {
        shape: CardShape::Rect { width, height },
        depth,
        pose: Pose {
            translation: MilliVec3 { x, y, z: 0 },
            rot: Rot8 { axis: Axis::Z, eighth_turns: 0 },
        },
    }
}

} // verus!
