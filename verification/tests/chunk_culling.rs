use leafish::chunk_builder::{
    build_cull_info, flood_fill, section_rng, section_seed, CullInfo, SectionSnapshot,
};
use leafish::direction::Direction;
use rand::RngCore;

fn index(x: usize, y: usize, z: usize) -> usize {
    x + 16 * z + 256 * y
}

fn snapshot_with(solid: impl Fn(usize, usize, usize) -> bool) -> SectionSnapshot {
    let mut culls = vec![false; 4096];
    for y in 0..16 {
        for z in 0..16 {
            for x in 0..16 {
                culls[index(x, y, z)] = solid(x, y, z);
            }
        }
    }
    SectionSnapshot { culls }
}

const ALL: [Direction; 6] = [
    Direction::Up,
    Direction::Down,
    Direction::North,
    Direction::South,
    Direction::West,
    Direction::East,
];

#[test]
fn new_cull_info_sees_nothing() {
    let info = CullInfo::new();
    for a in ALL {
        for b in ALL {
            assert!(!info.is_visible(a, b));
        }
    }
}

#[test]
fn all_vis_sees_everything() {
    let info = CullInfo::all_vis();
    for a in ALL {
        for b in ALL {
            assert!(info.is_visible(a, b));
        }
    }
}

#[test]
fn set_visible_sets_only_that_pair() {
    let mut info = CullInfo::new();
    info.set_visible(Direction::North, Direction::East);
    for a in ALL {
        for b in ALL {
            assert_eq!(info.is_visible(a, b), a == Direction::North && b == Direction::East);
        }
    }
    assert_eq!(info.0, 1u64 << (2 * 6 + 5));
}

#[test]
fn missing_snapshot_is_all_visible() {
    let info = build_cull_info(&None);
    assert_eq!(info.0, u64::MAX);
}

#[test]
fn empty_section_sees_through_every_face() {
    let snap = snapshot_with(|_, _, _| false);
    let info = build_cull_info(&Some(&snap));
    for a in ALL {
        for b in ALL {
            assert!(info.is_visible(a, b));
        }
    }
}

#[test]
fn solid_section_sees_nothing() {
    let snap = snapshot_with(|_, _, _| true);
    let info = build_cull_info(&Some(&snap));
    assert_eq!(info.0, 0);
}

#[test]
fn wall_splits_west_from_east() {
    // A solid wall at x == 8 cuts the section in two halves.
    let snap = snapshot_with(|x, _, _| x == 8);
    let info = build_cull_info(&Some(&snap));
    assert!(!info.is_visible(Direction::West, Direction::East));
    assert!(!info.is_visible(Direction::East, Direction::West));
    assert!(info.is_visible(Direction::West, Direction::West));
    assert!(info.is_visible(Direction::West, Direction::Up));
    assert!(info.is_visible(Direction::East, Direction::North));
    assert!(info.is_visible(Direction::Up, Direction::Down));
}

#[test]
fn sealed_pocket_sees_nothing() {
    // Everything solid but one enclosed air block in the middle.
    let snap = snapshot_with(|x, y, z| !(x == 7 && y == 7 && z == 7));
    let info = build_cull_info(&Some(&snap));
    assert_eq!(info.0, 0);
}

#[test]
fn tunnel_joins_two_faces_only() {
    // A straight tunnel along z at x == 3, y == 4 through solid rock.
    let snap = snapshot_with(|x, y, _| !(x == 3 && y == 4));
    let info = build_cull_info(&Some(&snap));
    for a in ALL {
        for b in ALL {
            let expected = matches!(a, Direction::North | Direction::South)
                && matches!(b, Direction::North | Direction::South);
            assert_eq!(info.is_visible(a, b), expected, "{:?} {:?}", a, b);
        }
    }
}

#[test]
fn flood_fill_reports_touched_faces() {
    let snap = snapshot_with(|x, y, _| !(x == 0 && y == 5));
    let mut visited = vec![false; 4096];
    let touched = flood_fill(&snap, &mut visited, 0, 5, 3);
    // West (bit 4), North (bit 2) and South (bit 3).
    assert_eq!(touched, (1 << 4) | (1 << 2) | (1 << 3));
    for z in 0..16 {
        assert!(visited[index(0, 5, z)]);
    }
    assert!(!visited[index(5, 5, 5)]);
}

#[test]
fn flood_fill_from_solid_touches_nothing() {
    let snap = snapshot_with(|_, _, _| true);
    let mut visited = vec![false; 4096];
    let touched = flood_fill(&snap, &mut visited, 4, 4, 4);
    assert_eq!(touched, 0);
    assert!(visited[index(4, 4, 4)]);
    assert_eq!(visited.iter().filter(|v| **v).count(), 1);
}

#[test]
fn section_seed_is_little_endian_coordinates() {
    assert_eq!(
        section_seed((1, 2, 3)),
        [1, 0, 0, 0, 2, 0, 0, 0, 3, 0, 0, 0, 3, 0, 0, 0]
    );
    assert_eq!(
        section_seed((-1, 0, 0x0102)),
        [255, 255, 255, 255, 0, 0, 0, 0, 2, 1, 0, 0, 0xfd, 0xfe, 0xff, 0xff]
    );
    assert_eq!(section_seed((2, 0, 2))[12], 1);
}

#[test]
fn section_rng_is_reproducible() {
    let mut a = section_rng((5, -3, 17));
    let mut b = section_rng((5, -3, 17));
    let mut c = section_rng((5, -3, 18));
    let xs: Vec<u32> = (0..4).map(|_| a.next_u32()).collect();
    let ys: Vec<u32> = (0..4).map(|_| b.next_u32()).collect();
    let zs: Vec<u32> = (0..4).map(|_| c.next_u32()).collect();
    assert_eq!(xs, ys);
    assert_ne!(xs, zs);
}

#[test]
fn cull_visibility_is_symmetric() {
    let shapes: Vec<SectionSnapshot> = vec![
        snapshot_with(|x, _, _| x == 7),
        snapshot_with(|x, y, _| x != 3 || y > 12),
        snapshot_with(|x, y, z| (x + y + z) % 3 == 0),
    ];
    for snap in &shapes {
        let info = build_cull_info(&Some(snap));
        for a in ALL {
            for b in ALL {
                assert_eq!(info.is_visible(a, b), info.is_visible(b, a));
            }
        }
    }
}

#[test]
fn flood_fill_from_a_visited_cell_does_nothing() {
    let snap = snapshot_with(|x, y, z| (x, y, z) == (2, 2, 2));
    let mut visited = vec![false; 4096];
    visited[index(2, 2, 2)] = true;
    let touched = flood_fill(&snap, &mut visited, 2, 2, 2);
    assert_eq!(touched, 0);
    assert_eq!(visited.iter().filter(|v| **v).count(), 1);
}

#[test]
fn flood_fill_outside_the_section_does_nothing() {
    let snap = snapshot_with(|_, _, _| false);
    let mut visited = vec![false; 4096];
    assert_eq!(flood_fill(&snap, &mut visited, -1, 0, 0), 0);
    assert_eq!(flood_fill(&snap, &mut visited, 0, 16, 0), 0);
    assert_eq!(flood_fill(&snap, &mut visited, 3, 3, 99), 0);
    assert!(visited.iter().all(|v| !*v));
}

#[test]
fn flood_fill_stops_at_cells_visited_before() {
    // An empty section, with the layer y == 8 already visited: the flood from
    // below stays below and never sees the top face.
    let snap = snapshot_with(|_, _, _| false);
    let mut visited = vec![false; 4096];
    for z in 0..16 {
        for x in 0..16 {
            visited[index(x, 8, z)] = true;
        }
    }
    let touched = flood_fill(&snap, &mut visited, 3, 2, 3);
    // Down (bit 1), North (2), South (3), West (4), East (5); not Up (0).
    assert_eq!(touched, 0b11_1110);
    assert!(visited[index(15, 0, 15)]);
    assert!(visited[index(0, 7, 0)]);
    assert!(!visited[index(5, 9, 5)]);
    assert!(!visited[index(5, 15, 5)]);
    assert_eq!(visited.iter().filter(|v| **v).count(), 9 * 256);
}
