use mandala::command::{Coord, PathCommand, PathCommandOp};
use mandala::segment::{Arc, CubicCurve, Line, Path, PathSegment, QuadraticCurve, SvgArc};

fn pt(x: f64, y: f64) -> Coord<f64> {
    Coord { x, y }
}

fn no_sweep(_a: &Arc<f64, f64>) -> Coord<f64> {
    pt(f64::NAN, f64::NAN)
}

fn sweep_start(a: &Arc<f64, f64>) -> Coord<f64> {
    pt(a.center.x + a.radii.x * a.start_angle.cos(), a.center.y + a.radii.y * a.start_angle.sin())
}

#[test]
fn path_test_segment_translate() {
    let line: PathSegment<f64, f64> = PathSegment::Line(Line { from: pt(0.0, 0.0), to: pt(1.0, 1.0) });
    let translated_line = line.translate(pt(1.0, 1.0));
    match translated_line {
        PathSegment::Line(s) => {
            assert_eq!(s.from, pt(1.0, 1.0));
            assert_eq!(s.to, pt(2.0, 2.0));
        }
        _ => panic!("Expected a line segment"),
    }
}

#[test]
fn segment_test_segment_translate() {
    let line: PathSegment<f64, f64> = PathSegment::Line(Line { from: pt(0.0, 0.0), to: pt(1.0, 1.0) });
    let translated_line = line.translate(pt(1.0, 1.0));
    match translated_line {
        PathSegment::Line(s) => {
            assert_eq!(s.from, pt(1.0, 1.0));
            assert_eq!(s.to, pt(2.0, 2.0));
        }
        _ => panic!("Expected a line segment"),
    }
}

#[test]
fn test_translate_moves_every_key_point() {
    let cubic: PathSegment<f64, f64> = PathSegment::CubicCurve(CubicCurve {
        from: pt(1.0, 1.0),
        ctrl1: pt(2.0, 2.0),
        ctrl2: pt(3.0, 0.0),
        to: pt(4.0, 1.0),
    });
    let moved = cubic.translate(pt(10.0, -1.0));
    assert_eq!(moved.key_pts(), vec![pt(11.0, 0.0), pt(12.0, 1.0), pt(13.0, -1.0), pt(14.0, 0.0)]);
}

#[test]
fn test_flip_along_y_reverses_and_mirrors() {
    let quad: PathSegment<f64, f64> =
        PathSegment::QuadraticCurve(QuadraticCurve { from: pt(1.0, 1.0), ctrl: pt(2.0, 2.0), to: pt(3.0, 1.0) });
    let flipped = quad.flip_along_y(5.0, std::f64::consts::PI);
    assert_eq!(
        flipped,
        PathSegment::QuadraticCurve(QuadraticCurve { from: pt(7.0, 1.0), ctrl: pt(8.0, 2.0), to: pt(9.0, 1.0) })
    );
    assert_eq!(flipped.from(&no_sweep), pt(7.0, 1.0));
}

#[test]
fn test_flip_along_x_keeps_arc_flags() {
    let arc: PathSegment<f64, f64> = PathSegment::Arc(SvgArc {
        from: pt(1.0, 1.0),
        to: pt(2.0, 0.0),
        radii: pt(1.0, 1.0),
        x_rotation: 40.0,
        large_arc: true,
        sweep: false,
    });
    assert_eq!(
        arc.flip_along_x(0.0),
        PathSegment::Arc(SvgArc {
            from: pt(2.0, 0.0),
            to: pt(1.0, -1.0),
            radii: pt(1.0, 1.0),
            x_rotation: 40.0,
            large_arc: true,
            sweep: false,
        })
    );
}

#[test]
fn test_flip_point_and_sweep_arc_center() {
    let p: PathSegment<f64, f64> = PathSegment::Point(pt(1.0, 2.0));
    assert_eq!(p.flip_along_y(0.0, std::f64::consts::PI), PathSegment::Point(pt(-1.0, 2.0)));
    let s: PathSegment<f64, f64> = PathSegment::SweepArc(Arc {
        center: pt(1.0, 2.0),
        radii: pt(3.0, 3.0),
        start_angle: 0.0,
        sweep_angle: 1.0,
        x_rotation: 0.0,
    });
    match s.flip_along_x(1.0) {
        PathSegment::SweepArc(a) => {
            assert_eq!(a.center, pt(1.0, 0.0));
            assert_eq!(a.radii, pt(3.0, 3.0));
            assert_eq!(a.start_angle, -1.0);
            assert_eq!(a.sweep_angle, 1.0);
        }
        _ => panic!("Expected a sweep arc"),
    }
}

fn sweep_end(a: &Arc<f64, f64>) -> Coord<f64> {
    let t = a.start_angle + a.sweep_angle;
    pt(a.center.x + a.radii.x * t.cos(), a.center.y + a.radii.y * t.sin())
}

fn close(a: Coord<f64>, b: Coord<f64>) -> bool {
    (a.x - b.x).abs() < 1e-9 && (a.y - b.y).abs() < 1e-9
}

#[test]
fn test_flipped_sweep_arc_runs_back_between_mirrored_ends() {
    let s: PathSegment<f64, f64> = PathSegment::SweepArc(Arc {
        center: pt(1.0, 2.0),
        radii: pt(3.0, 3.0),
        start_angle: 0.3,
        sweep_angle: 1.1,
        x_rotation: 0.0,
    });
    let (start, end) = (s.from(&sweep_start), s.to(&sweep_end));
    let v = s.flip_along_y(4.0, std::f64::consts::PI);
    assert!(close(v.from(&sweep_start), pt(8.0 - end.x, end.y)));
    assert!(close(v.to(&sweep_end), pt(8.0 - start.x, start.y)));
    let h = s.flip_along_x(-1.0);
    assert!(close(h.from(&sweep_start), pt(end.x, -2.0 - end.y)));
    assert!(close(h.to(&sweep_end), pt(start.x, -2.0 - start.y)));
}

#[test]
fn test_flip_twice_gives_back_integer_segments() {
    let segs: Vec<PathSegment<i64, i64>> = vec![
        PathSegment::Point(Coord { x: 3, y: -4 }),
        PathSegment::Line(Line { from: Coord { x: 0, y: 0 }, to: Coord { x: 7, y: 2 } }),
        PathSegment::SweepArc(Arc {
            center: Coord { x: 1, y: 1 },
            radii: Coord { x: 2, y: 2 },
            start_angle: 30,
            sweep_angle: 45,
            x_rotation: 10,
        }),
        PathSegment::CubicCurve(CubicCurve {
            from: Coord { x: 1, y: 1 },
            ctrl1: Coord { x: 2, y: 5 },
            ctrl2: Coord { x: -3, y: 0 },
            to: Coord { x: 4, y: 4 },
        }),
    ];
    for s in segs {
        assert_eq!(s.flip_along_y(5, 180).flip_along_y(5, 180), s);
        assert_eq!(s.flip_along_x(-2).flip_along_x(-2), s);
    }
}

#[test]
fn test_integer_translate() {
    let s: PathSegment<u64, u64> =
        PathSegment::Line(Line { from: Coord { x: 0, y: 0 }, to: Coord { x: 10, y: 20 } });
    assert_eq!(
        s.translate(Coord { x: 1, y: 2 }),
        PathSegment::Line(Line { from: Coord { x: 1, y: 2 }, to: Coord { x: 11, y: 22 } })
    );
}

#[test]
fn test_key_pts_counts() {
    let segs: Vec<PathSegment<f64, f64>> = vec![
        PathSegment::Point(pt(0.0, 0.0)),
        PathSegment::Line(Line { from: pt(0.0, 0.0), to: pt(1.0, 1.0) }),
        PathSegment::SweepArc(Arc { center: pt(0.0, 0.0), radii: pt(1.0, 1.0), start_angle: 0.0, sweep_angle: 1.0, x_rotation: 0.0 }),
        PathSegment::QuadraticCurve(QuadraticCurve { from: pt(0.0, 0.0), ctrl: pt(1.0, 1.0), to: pt(2.0, 0.0) }),
    ];
    let counts: Vec<usize> = segs.iter().map(|s| s.key_pts().len()).collect();
    assert_eq!(counts, vec![1, 2, 1, 3]);
}

#[test]
fn test_mutating_key_pts() {
    let mut path: Path<f64, f64> = Path::new(PathSegment::Line(Line { from: pt(0.0, 0.0), to: pt(1.0, 1.0) }));
    assert_eq!(path.key_pts().len(), 2);
    path.set_key_pt(0, pt(2.0, 2.0));
    path.set_key_pt(1, pt(3.0, 3.0));
    let key_pts = path.key_pts();
    assert_eq!(key_pts[0], pt(2.0, 2.0));
    assert_eq!(key_pts[1], pt(3.0, 3.0));
}

#[test]
fn test_map_key_pts_moves_every_point() {
    let path: Path<f64, f64> = Path::new(PathSegment::Line(Line { from: pt(0.0, 0.0), to: pt(1.0, 1.0) }));
    let moved = path.map_key_pts(&|p: &Coord<f64>| pt(p.x + 2.0, p.y + 2.0));
    assert_eq!(moved.key_pts(), vec![pt(2.0, 2.0), pt(3.0, 3.0)]);
}

#[test]
fn test_set_key_pt_across_segments() {
    let mut path = Path::new(line(pt(0.0, 0.0), pt(1.0, 0.0)));
    path.draw_next(|_last: &PathSegment<f64, f64>| line(pt(1.0, 0.0), pt(2.0, 0.0)));
    // the last drawn segment's points come first
    path.set_key_pt(3, pt(9.0, 9.0));
    assert_eq!(path.key_pts(), vec![pt(1.0, 0.0), pt(2.0, 0.0), pt(0.0, 0.0), pt(9.0, 9.0)]);
    let mut s: PathSegment<f64, f64> = line(pt(0.0, 0.0), pt(1.0, 0.0));
    s.set_key_pt(0, pt(5.0, 5.0));
    assert_eq!(s, line(pt(5.0, 5.0), pt(1.0, 0.0)));
}

#[test]
fn test_segment_map_key_pts() {
    let line: PathSegment<f64, f64> = PathSegment::Line(Line { from: pt(0.0, 0.0), to: pt(1.0, 1.0) });
    let moved = line.map_key_pts(&|p: &Coord<f64>| pt(p.x * 2.0, p.y + 1.0));
    assert_eq!(moved, PathSegment::Line(Line { from: pt(0.0, 1.0), to: pt(2.0, 2.0) }));
}

#[test]
fn test_sweep_arc_ends_are_computed() {
    let s: PathSegment<f64, f64> = PathSegment::SweepArc(Arc {
        center: pt(1.0, 2.0),
        radii: pt(3.0, 3.0),
        start_angle: 0.0,
        sweep_angle: 1.0,
        x_rotation: 0.0,
    });
    assert_eq!(s.from(&sweep_start), pt(4.0, 2.0));
}

#[test]
fn test_unwrap_relative_commands() {
    let from = pt(1.0, 1.0);
    let line: PathCommand<f64, f64> = PathCommand::By(PathCommandOp::Line(pt(2.0, 3.0)));
    assert_eq!(line.unwrap_line(from), Line { from, to: pt(3.0, 4.0) });
    let quad: PathCommand<f64, f64> =
        PathCommand::By(PathCommandOp::QudraticCurve { to: pt(2.0, 0.0), ctrl: pt(1.0, 1.0) });
    assert_eq!(
        quad.unwrap_quadratic_curve(from),
        QuadraticCurve { from, ctrl: pt(2.0, 2.0), to: pt(3.0, 1.0) }
    );
    let cubic: PathCommand<f64, f64> =
        PathCommand::To(PathCommandOp::CubicCurve { to: pt(5.0, 5.0), ctrl1: pt(2.0, 2.0), ctrl2: pt(3.0, 3.0) });
    assert_eq!(
        cubic.unwrap_cubic_curve(from),
        CubicCurve { from, ctrl1: pt(2.0, 2.0), ctrl2: pt(3.0, 3.0), to: pt(5.0, 5.0) }
    );
    let arc: PathCommand<f64, f64> = PathCommand::By(PathCommandOp::Arc {
        to: pt(1.0, 2.0),
        radii: pt(1.0, 1.0),
        x_rotation: 0.0,
        large_arc: false,
        sweep: true,
    });
    assert_eq!(
        arc.unwrap_arc(from),
        SvgArc { from, to: pt(2.0, 3.0), radii: pt(1.0, 1.0), x_rotation: 0.0, large_arc: false, sweep: true }
    );
}

fn no_sweep_end(_a: &Arc<f64, f64>) -> Coord<f64> {
    pt(f64::NAN, f64::NAN)
}

fn line(from: Coord<f64>, to: Coord<f64>) -> PathSegment<f64, f64> {
    PathSegment::Line(Line { from, to })
}

#[test]
fn test_path_translate() {
    let path = Path::new(line(pt(0.0, 0.0), pt(1.0, 1.0)));
    let translated_path = path.translate(pt(1.0, 1.0));
    let translated_line = translated_path.segments()[0];
    match translated_line {
        PathSegment::Line(s) => {
            assert_eq!(s.from, pt(1.0, 1.0));
            assert_eq!(s.to, pt(2.0, 2.0));
        }
        _ => panic!("Expected a line segment"),
    }
}

#[test]
fn test_path_draw_next() {
    let mut path = Path::new(line(pt(0.0, 0.0), pt(1.0, 1.0)));
    path.draw_next(|last: &PathSegment<f64, f64>| {
        assert_eq!(last.to(&no_sweep_end), pt(1.0, 1.0));
        line(last.to(&no_sweep_end), pt(2.0, 2.0))
    });
    path.draw_next(|last: &PathSegment<f64, f64>| {
        assert_eq!(last.to(&no_sweep_end), pt(2.0, 2.0));
        PathSegment::Arc(SvgArc {
            from: last.to(&no_sweep_end),
            to: pt(3.0, 1.0),
            radii: pt(1.0, 1.0),
            x_rotation: 40f64.to_radians(),
            large_arc: false,
            sweep: false,
        })
    });
    path.draw_next(|last: &PathSegment<f64, f64>| {
        assert_eq!(last.to(&no_sweep_end), pt(3.0, 1.0));
        PathSegment::QuadraticCurve(QuadraticCurve {
            from: last.to(&no_sweep_end),
            ctrl: pt(4.0, 3.0),
            to: pt(5.0, 2.0),
        })
    });
    path.draw_next(|last: &PathSegment<f64, f64>| {
        assert_eq!(last.to(&no_sweep_end), pt(5.0, 2.0));
        PathSegment::CubicCurve(CubicCurve {
            from: last.to(&no_sweep_end),
            ctrl1: pt(6.0, 3.0),
            ctrl2: pt(7.0, 1.0),
            to: pt(8.0, 2.0),
        })
    });
    assert_eq!(path.segments().len(), 5);
}

#[test]
fn test_path_from_and_to() {
    let mut path = Path::new(line(pt(0.0, 0.0), pt(1.0, 1.0)));
    path.draw_next(|last: &PathSegment<f64, f64>| {
        assert_eq!(last.to(&no_sweep_end), pt(1.0, 1.0));
        PathSegment::Arc(SvgArc {
            from: pt(1.0, 1.0),
            to: pt(2.0, 0.0),
            radii: pt(1.0, 1.0),
            x_rotation: 40f64.to_radians(),
            large_arc: false,
            sweep: false,
        })
    });
    assert_eq!(path.from(&no_sweep, pt(0.0, 0.0)), pt(0.0, 0.0));
    assert_eq!(path.to(&no_sweep_end, pt(0.0, 0.0)), pt(2.0, 0.0));
}

#[test]
fn test_empty_path_ends_are_the_given_point() {
    let path: Path<f64, f64> = Path::default();
    assert_eq!(path.from(&no_sweep, pt(7.0, 8.0)), pt(7.0, 8.0));
    assert_eq!(path.to(&no_sweep_end, pt(7.0, 8.0)), pt(7.0, 8.0));
    assert!(path.key_pts().is_empty());
}

#[test]
fn test_path_key_pts_segment_by_segment() {
    let mut path = Path::new(line(pt(0.0, 0.0), pt(1.0, 0.0)));
    path.draw_next(|_last: &PathSegment<f64, f64>| {
        PathSegment::QuadraticCurve(QuadraticCurve { from: pt(1.0, 0.0), ctrl: pt(2.0, 1.0), to: pt(3.0, 0.0) })
    });
    assert_eq!(
        path.key_pts(),
        vec![pt(1.0, 0.0), pt(2.0, 1.0), pt(3.0, 0.0), pt(0.0, 0.0), pt(1.0, 0.0)]
    );
}

#[test]
fn test_flipped_path_runs_backwards_and_stays_continuous() {
    let mut path = Path::new(line(pt(0.0, 0.0), pt(1.0, 0.0)));
    path.draw_next(|_last: &PathSegment<f64, f64>| line(pt(1.0, 0.0), pt(1.0, 2.0)));
    let flipped = path.flip_along_y(5.0, std::f64::consts::PI);
    assert_eq!(
        flipped.segments().clone(),
        vec![line(pt(9.0, 2.0), pt(9.0, 0.0)), line(pt(9.0, 0.0), pt(10.0, 0.0))]
    );
    let flipped = path.flip_along_x(1.0);
    assert_eq!(
        flipped.segments().clone(),
        vec![line(pt(1.0, 0.0), pt(1.0, 2.0)), line(pt(1.0, 2.0), pt(0.0, 2.0))]
    );
    assert_eq!(flipped.from(&no_sweep, pt(0.0, 0.0)), pt(1.0, 0.0));
}

#[test]
fn test_flipped_cubic_runs_backwards_through_mirrored_points() {
    let cubic: PathSegment<f64, f64> = PathSegment::CubicCurve(CubicCurve {
        from: pt(1.0, 1.0),
        ctrl1: pt(2.0, 3.0),
        ctrl2: pt(3.0, -1.0),
        to: pt(4.0, 1.0),
    });
    assert_eq!(
        cubic.flip_along_y(0.0, std::f64::consts::PI),
        PathSegment::CubicCurve(CubicCurve {
            from: pt(-4.0, 1.0),
            ctrl1: pt(-3.0, -1.0),
            ctrl2: pt(-2.0, 3.0),
            to: pt(-1.0, 1.0),
        })
    );
    assert_eq!(
        cubic.flip_along_x(0.0),
        PathSegment::CubicCurve(CubicCurve {
            from: pt(4.0, -1.0),
            ctrl1: pt(3.0, 1.0),
            ctrl2: pt(2.0, -3.0),
            to: pt(1.0, -1.0),
        })
    );
}
