use card_test::cases::{case_mesh, CaseZoneType, Surface};
use card_test::geom::{Axis, MilliVec3};

#[test]
fn the_board_has_twenty_one_slabs() {
    let board = case_mesh(2000, 600);
    assert_eq!(board.len(), 21);
}

#[test]
fn the_center_strip_spans_the_board() {
    let board = case_mesh(2000, 600);
    let strip = board[0];
    assert_eq!(strip.width, 24000);
    assert_eq!(strip.height, 1200);
    assert_eq!(strip.pose.translation, MilliVec3 { x: 0, y: 0, z: 0 });
    assert_eq!(strip.surface, Surface::Plain);
    assert_eq!(strip.zone.zone_type, CaseZoneType::Nothing);
    assert_eq!(strip.zone.num, 0);
}

#[test]
fn the_upper_rows_line_up() {
    let board = case_mesh(2000, 600);

    let prepare = board[1];
    assert_eq!(prepare.zone.zone_type, CaseZoneType::Prepare);
    assert_eq!(prepare.surface, Surface::Stone2);
    assert_eq!(prepare.pose.translation, MilliVec3 { x: -6000, y: 2600, z: 0 });

    for (i, x, num) in [(2usize, -2000i64, 1u32), (3, 2000, 2), (4, 6000, 3)] {
        let battle = board[i];
        assert_eq!(battle.zone.zone_type, CaseZoneType::Battle);
        assert_eq!(battle.surface, Surface::Stone1);
        assert_eq!(battle.pose.translation, MilliVec3 { x, y: 2600, z: 0 });
        assert_eq!(battle.zone.num, num);
        assert_eq!(battle.width, 4000);
        assert_eq!(battle.height, 4000);
    }

    for (i, x, num) in [(5usize, -6000i64, 1u32), (6, -2000, 2), (7, 2000, 3), (8, 6000, 4)] {
        let safe = board[i];
        assert_eq!(safe.zone.zone_type, CaseZoneType::Safe);
        assert_eq!(safe.surface, Surface::Safe);
        assert_eq!(safe.pose.translation, MilliVec3 { x, y: 6600, z: 0 });
        assert_eq!(safe.zone.num, num);
    }
}

#[test]
fn the_upper_end_zones_are_turned_half_around() {
    let board = case_mesh(2000, 600);

    let lx = board[9];
    assert_eq!(lx.zone.zone_type, CaseZoneType::Lx);
    assert_eq!(lx.surface, Surface::Lx);
    assert_eq!(lx.width, 4000);
    assert_eq!(lx.height, 8000);
    assert_eq!(lx.pose.translation, MilliVec3 { x: -10000, y: 4600, z: 0 });
    assert_eq!(lx.pose.rot.axis, Axis::Z);
    assert_eq!(lx.pose.rot.eighth_turns, 4);
    // The zone component itself keeps the unturned placement.
    assert_eq!(lx.zone.transform.rot.eighth_turns, 0);
    assert_eq!(lx.zone.transform.translation, lx.pose.translation);

    let jq = board[10];
    assert_eq!(jq.zone.zone_type, CaseZoneType::JQ);
    assert_eq!(jq.surface, Surface::Jq);
    assert_eq!(jq.pose.translation, MilliVec3 { x: 10000, y: 4600, z: 0 });
    assert_eq!(jq.pose.rot.eighth_turns, 4);
}

#[test]
fn the_lower_rows_mirror_with_their_own_numbering() {
    let board = case_mesh(2000, 600);

    let prepare = board[11];
    assert_eq!(prepare.zone.zone_type, CaseZoneType::Prepare);
    assert_eq!(prepare.pose.translation, MilliVec3 { x: 6000, y: -2600, z: 0 });
    assert_eq!(prepare.zone.num, 1);

    for (i, x, num) in [(12usize, -2000i64, 1u32), (13, 2000, 2), (14, -6000, 3)] {
        let battle = board[i];
        assert_eq!(battle.zone.zone_type, CaseZoneType::Battle);
        assert_eq!(battle.pose.translation, MilliVec3 { x, y: -2600, z: 0 });
        assert_eq!(battle.zone.num, num);
    }

    // The last two lower safe squares share a slot number.
    for (i, x, num) in [(15usize, -6000i64, 1u32), (16, -2000, 2), (17, 2000, 3), (18, 6000, 3)] {
        let safe = board[i];
        assert_eq!(safe.zone.zone_type, CaseZoneType::Safe);
        assert_eq!(safe.pose.translation, MilliVec3 { x, y: -6600, z: 0 });
        assert_eq!(safe.zone.num, num);
    }
}

#[test]
fn the_lower_end_zones_sit_swapped_and_unturned() {
    let board = case_mesh(2000, 600);

    let lx = board[19];
    assert_eq!(lx.zone.zone_type, CaseZoneType::Lx);
    assert_eq!(lx.pose.translation, MilliVec3 { x: 10000, y: -4600, z: 0 });
    assert_eq!(lx.pose.rot.eighth_turns, 0);

    let jq = board[20];
    assert_eq!(jq.zone.zone_type, CaseZoneType::JQ);
    assert_eq!(jq.pose.translation, MilliVec3 { x: -10000, y: -4600, z: 0 });
    assert_eq!(jq.pose.rot.eighth_turns, 0);
}

#[test]
fn zone_counts_by_kind() {
    let board = case_mesh(2000, 600);
    let count = |t: CaseZoneType| board.iter().filter(|s| s.zone.zone_type == t).count();
    assert_eq!(count(CaseZoneType::Nothing), 1);
    assert_eq!(count(CaseZoneType::Prepare), 2);
    assert_eq!(count(CaseZoneType::Battle), 6);
    assert_eq!(count(CaseZoneType::Safe), 8);
    assert_eq!(count(CaseZoneType::Lx), 2);
    assert_eq!(count(CaseZoneType::JQ), 2);
}
