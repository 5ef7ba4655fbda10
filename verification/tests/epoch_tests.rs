use mandala::epoch::{
    bounds_to_range, draw_range, draw_segments, next_draw_args, range_len, replica_angles, DrawArgs,
    RangeBound,
};
use mandala::epoch::RangeBound::{Excluded, Included, Unbounded};

#[test]
fn test_bounds_to_range_all_forms() {
    assert_eq!(bounds_to_range(Included(2), Included(5)), 2..6);
    assert_eq!(bounds_to_range(Included(2), Excluded(5)), 2..5);
    assert_eq!(bounds_to_range(Included(2), Unbounded), 2..usize::MAX);
    assert_eq!(bounds_to_range(Excluded(2), Included(5)), 3..6);
    assert_eq!(bounds_to_range(Excluded(2), Excluded(5)), 3..5);
    assert_eq!(bounds_to_range(Excluded(2), Unbounded), 3..usize::MAX);
    assert_eq!(bounds_to_range(Unbounded, Included(5)), 0..6);
    assert_eq!(bounds_to_range(Unbounded, Excluded(5)), 0..5);
    assert_eq!(bounds_to_range(Unbounded, Unbounded), 0..usize::MAX);
}

#[test]
fn test_range_len() {
    assert_eq!(range_len(&bounds_to_range(RangeBound::Unbounded, RangeBound::Excluded(3))), 3);
    assert_eq!(range_len(&(5..5)), 0);
    assert_eq!(range_len(&(7..2)), 0);
    assert_eq!(range_len(&(2..7)), 5);
}

#[test]
fn test_next_draw_args() {
    let args = next_draw_args(&[(0i64, 90i64), (90, 45)], 0, 360, "center");
    assert_eq!(args.n, 3);
    assert_eq!(args.start_angle, 225);
    assert_eq!(args.max_sweep, 225);
    assert_eq!(args.center, "center");
    let first = next_draw_args::<i64, ()>(&[], 0, 360, ());
    assert_eq!((first.n, first.start_angle, first.max_sweep), (1, 0, 360));
}

#[test]
fn test_draw_segments_tells_each_its_number_and_start() {
    let first = DrawArgs { n: 3, start_angle: 5i64, max_sweep: 100i64, center: (1, 2) };
    let mut told = vec![];
    let drawn = draw_segments(first, 3, |a: DrawArgs<i64, (i32, i32)>| {
        told.push(a);
        (a.n, a.n as i64 * 10)
    });
    assert_eq!(drawn, vec![(3, 30), (4, 40), (5, 50)]);
    let starts: Vec<i64> = told.iter().map(|a| a.start_angle).collect();
    assert_eq!(starts, vec![5, 35, 75]);
    assert!(told.iter().all(|a| a.max_sweep == 100 && a.center == (1, 2)));
}

#[test]
fn test_draw_segments_none() {
    let first = DrawArgs { n: 1, start_angle: 0i64, max_sweep: 360i64, center: () };
    let drawn = draw_segments(first, 0, |_a: DrawArgs<i64, ()>| ("never", 1i64));
    assert!(drawn.is_empty());
}

#[test]
fn test_replica_angles() {
    assert_eq!(replica_angles(10i64, 3, 4), vec![13, 16, 19, 22]);
    assert!(replica_angles(10i64, 3, 0).is_empty());
}

fn full_turn() -> f64 {
    2.0 * std::f64::consts::PI
}

#[test]
fn test_draw_segment() {
    let args = next_draw_args(&[], 0.0f64, full_turn(), (0.0f64, 0.0f64));
    let drawn = draw_segments(args, 1, |a: DrawArgs<f64, (f64, f64)>| ((a.start_angle, a.max_sweep), a.max_sweep));
    assert_eq!(drawn.len(), 1);
}

#[test]
fn test_draw_fill() {
    let args = next_draw_args(&[], 0.0f64, full_turn(), (0.0f64, 0.0f64));
    let drawn = draw_segments(args, 1, |a: DrawArgs<f64, (f64, f64)>| (a.start_angle, 0.5f64));
    let (base, sweep) = drawn[0];
    let left = next_draw_args(&[(base, sweep)], 0.0f64, full_turn(), (0.0f64, 0.0f64)).max_sweep;
    let steps = (left / sweep).floor() as usize;
    let replicas = replica_angles(base, sweep, steps);
    assert_eq!(drawn.len() + replicas.len(), 12);
}

#[test]
fn test_draw_range() {
    let share = |free: f64, count: usize| free / count as f64;
    let drawn = draw_range(
        &[],
        0.0f64,
        full_turn(),
        (0.0f64, 0.0f64),
        RangeBound::Included(0),
        RangeBound::Excluded(3),
        &share,
        |a: DrawArgs<f64, (f64, f64)>| ((a.n, a.start_angle), a.max_sweep),
    );
    assert_eq!(drawn.len(), 3);
    let third = full_turn() / 3.0;
    assert_eq!(drawn[0].0, (1, 0.0));
    assert_eq!(drawn[1].0, (2, third));
    assert_eq!(drawn[2].0, (3, third + third));
}

#[test]
fn test_draw_range_after_drawn_segments() {
    let share = |free: i64, count: usize| free / count as i64;
    let drawn = draw_range(
        &[(0i64, 90i64), (90, 30)],
        0i64,
        360i64,
        (),
        RangeBound::Excluded(1),
        RangeBound::Included(3),
        &share,
        |a: DrawArgs<i64, ()>| ((a.n, a.start_angle, a.max_sweep), 10i64),
    );
    // 240 degrees left, split between the two requested segments
    assert_eq!(drawn, vec![((3, 210, 120), 10), ((4, 220, 120), 10)]);
}
