use reesim::path_planner::{closed_loop_segments, discretization_plan, PathError, PathStep};

#[test]
fn two_waypoints_make_outbound_and_closing_segments() {
    let segs = closed_loop_segments(2).unwrap();
    assert_eq!(segs, vec![(0, 1), (1, 0)]);
}

#[test]
fn four_waypoints_close_back_to_first() {
    let segs = closed_loop_segments(4).unwrap();
    assert_eq!(segs, vec![(0, 1), (1, 2), (2, 3), (3, 0)]);
}

#[test]
fn fewer_than_two_waypoints_are_rejected() {
    assert_eq!(closed_loop_segments(0), Err(PathError::TooFewWaypoints));
    assert_eq!(closed_loop_segments(1), Err(PathError::TooFewWaypoints));
}

#[test]
fn length_five_out_and_back_gives_eight_points() {
    // waypoints (0,0,0) and (3,4,0): both segments have length 5
    let plan = discretization_plan(&vec![5, 5]);
    assert_eq!(plan.len(), 8);
    for k in 1..5u64 {
        assert_eq!(plan[(k - 1) as usize], PathStep { segment: 0, k });
        assert_eq!(plan[(k + 3) as usize], PathStep { segment: 1, k });
    }
}

#[test]
fn non_integer_length_keeps_every_whole_step_inside() {
    // a segment of length 5.5 has spans ceil(5.5) = 6: k = 1..5
    let plan = discretization_plan(&vec![6]);
    let ks: Vec<u64> = plan.iter().map(|s| s.k).collect();
    assert_eq!(ks, vec![1, 2, 3, 4, 5]);
}

#[test]
fn short_segments_emit_no_points() {
    // lengths 0, 0.5 and exactly 1
    let plan = discretization_plan(&vec![0, 1, 1]);
    assert!(plan.is_empty());
}

#[test]
fn segments_keep_their_order_in_the_plan() {
    let plan = discretization_plan(&vec![3, 0, 2]);
    assert_eq!(
        plan,
        vec![
            PathStep { segment: 0, k: 1 },
            PathStep { segment: 0, k: 2 },
            PathStep { segment: 2, k: 1 },
        ]
    );
}
