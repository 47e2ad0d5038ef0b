use fractal_clock::expansion::{frame_plan, lit_level_count, Stroke, SPOKE_COUNT};

fn spokes() -> Vec<Stroke> {
    vec![
        Stroke::Spoke { hand: 0 },
        Stroke::Spoke { hand: 1 },
        Stroke::Spoke { hand: 2 },
    ]
}

fn branch(level: usize, rotor: usize, parent: usize, luminance: u8) -> Stroke {
    Stroke::Branch { level, rotor, parent, luminance }
}

#[test]
fn depth_zero_draws_only_the_hands() {
    for lum in [vec![], vec![200u8, 150], vec![0u8]] {
        assert_eq!(frame_plan(0, &lum), spokes());
    }
    assert_eq!(SPOKE_COUNT, 3);
}

#[test]
fn one_level_applies_both_rotors_to_both_seeds() {
    let plan = frame_plan(1, &vec![143]);
    let mut expected = spokes();
    expected.push(branch(1, 0, 0, 143));
    expected.push(branch(1, 0, 1, 143));
    expected.push(branch(1, 1, 0, 143));
    expected.push(branch(1, 1, 1, 143));
    assert_eq!(plan, expected);
}

#[test]
fn second_level_branches_from_first_level_nodes() {
    let plan = frame_plan(2, &vec![143, 114]);
    assert_eq!(plan.len(), 15);
    // level 1 created nodes 2..=5; level 2 reads them in order, rotor-major
    let level2: Vec<Stroke> = plan[7..].to_vec();
    let mut expected = Vec::new();
    for rotor in 0..2 {
        for parent in 2..6 {
            expected.push(branch(2, rotor, parent, 114));
        }
    }
    assert_eq!(level2, expected);
}

#[test]
fn full_expansion_count_doubles_per_level() {
    // default factors: 0.7 * 0.8^k * 255, rounded, for k = 1..=9
    let lum: Vec<u8> = vec![143, 114, 91, 73, 58, 47, 37, 30, 24];
    for depth in 0..=9usize {
        let plan = frame_plan(depth, &lum);
        assert_eq!(plan.len(), (1usize << (depth + 2)) - 1);
        let mut start = 3usize;
        for k in 1..=depth {
            let width = 1usize << (k + 1);
            for s in &plan[start..start + width] {
                match s {
                    Stroke::Branch { level, luminance, .. } => {
                        assert_eq!(*level, k);
                        assert_eq!(*luminance, lum[k - 1]);
                    }
                    Stroke::Spoke { .. } => panic!("spoke among branches"),
                }
            }
            start += width;
        }
    }
}

#[test]
fn dark_level_stops_expansion() {
    let lum: Vec<u8> = vec![3, 1, 0, 9, 9];
    assert_eq!(lit_level_count(5, &lum), 2);
    let plan = frame_plan(5, &lum);
    assert_eq!(plan.len(), 15);
    assert!(plan.len() < (1usize << 7) - 1);
    for s in &plan {
        if let Stroke::Branch { level, .. } = s {
            assert!(*level < 3);
        }
    }
}

#[test]
fn dark_first_level_leaves_the_hands() {
    assert_eq!(frame_plan(9, &vec![0, 5, 5]), spokes());
}

#[test]
fn level_count_is_bounded_by_depth_and_known_levels() {
    assert_eq!(lit_level_count(2, &vec![5, 5, 5]), 2);
    assert_eq!(lit_level_count(7, &vec![5, 5, 5]), 3);
    assert_eq!(lit_level_count(7, &vec![]), 0);
    assert_eq!(frame_plan(7, &vec![5, 5, 5]).len(), 31);
}

#[test]
fn branches_read_nodes_made_before_them() {
    let plan = frame_plan(6, &vec![9, 9, 9, 9, 9, 9]);
    assert_eq!(plan.len(), 255);
    for (i, s) in plan.iter().enumerate() {
        match s {
            Stroke::Spoke { hand } => assert_eq!(*hand, i),
            Stroke::Branch { level, rotor, parent, .. } => {
                assert!(*level >= 1 && *level <= 6);
                assert!(*rotor < 2);
                assert!(parent + 1 < i);
            }
        }
    }
}
