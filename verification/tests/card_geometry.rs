use card_test::card_mesh::{card_mesh_list, CardShape};
use card_test::cards::put_card;
use card_test::geom::{Axis, MilliVec3, Pose, Rot8};

// Half extents of the card the host spawns: a 2.142 by 3 unit card with a
// 0.05 corner radius and 0.01 thickness, halved, in milli-units.
const HW: i64 = 1071;
const HH: i64 = 1500;
const HR: i64 = 25;
const HT: i64 = 5;

#[test]
fn the_frame_has_four_corners_and_four_edges() {
    let mesh = card_mesh_list(HW, HH, HR, HT);
    assert_eq!(mesh.frames.len(), 8);

    // Corners: eighth-circle sectors at the inner rectangle's corners,
    // turned outward.
    let ix = HW - 2 * HR;
    let iy = HH - 2 * HR;
    for (i, x, y, turns) in
        [(0usize, ix, iy, -1i8), (1, ix, -iy, -3), (2, -ix, iy, 1), (3, -ix, -iy, 3)]
    {
        let piece = mesh.frames[i];
        assert_eq!(piece.shape, CardShape::Sector { radius: 2 * HR });
        assert_eq!(piece.depth, 2 * HT);
        assert_eq!(piece.pose.translation, MilliVec3 { x, y, z: 0 });
        assert_eq!(piece.pose.rot, Rot8 { axis: Axis::Z, eighth_turns: turns });
    }

    // Edges: slabs half a radius outside the inner rectangle.
    let ex = HW - HR;
    let ey = HH - HR;
    let horizontal = CardShape::Rect { width: 2 * ix, height: 2 * HR };
    let vertical = CardShape::Rect { width: 2 * HR, height: 2 * iy };
    assert_eq!(mesh.frames[4].shape, horizontal);
    assert_eq!(mesh.frames[4].pose.translation, MilliVec3 { x: 0, y: ey, z: 0 });
    assert_eq!(mesh.frames[5].shape, horizontal);
    assert_eq!(mesh.frames[5].pose.translation, MilliVec3 { x: 0, y: -ey, z: 0 });
    assert_eq!(mesh.frames[6].shape, vertical);
    assert_eq!(mesh.frames[6].pose.translation, MilliVec3 { x: -ex, y: 0, z: 0 });
    assert_eq!(mesh.frames[7].shape, vertical);
    assert_eq!(mesh.frames[7].pose.translation, MilliVec3 { x: ex, y: 0, z: 0 });
}

#[test]
fn face_and_back_sandwich_the_card() {
    let mesh = card_mesh_list(HW, HH, HR, HT);
    let inner = CardShape::Rect { width: 2 * (HW - 2 * HR), height: 2 * (HH - 2 * HR) };

    assert_eq!(mesh.face.shape, inner);
    assert_eq!(mesh.face.depth, 0);
    assert_eq!(mesh.face.pose.translation, MilliVec3 { x: 0, y: 0, z: HT });
    assert_eq!(mesh.face.pose.rot, Rot8 { axis: Axis::Z, eighth_turns: 0 });

    assert_eq!(mesh.back.shape, inner);
    assert_eq!(mesh.back.depth, 0);
    assert_eq!(mesh.back.pose.translation, MilliVec3 { x: 0, y: 0, z: -HT });
    assert_eq!(mesh.back.pose.rot, Rot8 { axis: Axis::Y, eighth_turns: 4 });
}

#[test]
fn a_put_card_is_homed_where_it_spawns() {
    let pose = Pose::from_xyz(0, -4000, 18000);
    let plan = put_card(HW, HH, HR, HT, pose);
    assert_eq!(plan.pose, pose);
    assert_eq!(plan.card.trans, pose);
    assert_eq!(plan.mesh.frames.len(), 8);
    assert_eq!(plan.mesh.face.pose.translation.z, HT);
}
