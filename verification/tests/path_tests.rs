use mandala::command::{Coord, PathCommand, PathCommandOp};
use mandala::path::{Path, Size};

fn pt(x: f64, y: f64) -> Coord<f64> {
    Coord { x, y }
}

fn rect(top_left: Coord<f64>, width: f64, height: f64) -> Path<f64, f64> {
    Path::rect(top_left, Size { width, height })
}

fn text_path(path: &Path<f64, f64>) -> Path<String, String> {
    let fmt = |c: &Coord<f64>| Coord {
        x: format!("{}", c.x),
        y: format!("{}", c.y),
    };
    path.map_with(&fmt, &fmt, &|a: &f64| format!("{}", a))
}

fn distance(a: &Coord<f64>, b: &Coord<f64>) -> f64 {
    ((b.x - a.x) * (b.x - a.x) + (b.y - a.y) * (b.y - a.y)).sqrt()
}

fn straight_len(cmd: &PathCommand<f64, f64>, from: &Coord<f64>) -> f64 {
    if cmd.is_line() {
        let to = cmd.to(*from);
        distance(from, &to)
    } else {
        0.0
    }
}

#[test]
fn test_rect_commands() {
    let path = rect(pt(0.0, 0.0), 10.0, 20.0);
    // Move, 3 Line, Close
    assert_eq!(path.commands.len(), 5);
    assert_eq!(path.commands[0], PathCommand::To(PathCommandOp::Move(pt(0.0, 0.0))));
    assert_eq!(path.commands[2], PathCommand::To(PathCommandOp::Line(pt(10.0, 20.0))));
    assert!(path.commands[4].is_close());
}

#[test]
fn test_polygon_creation() {
    let n_sides = 5;
    let vertices: Vec<Coord<f64>> = (0..n_sides).map(|i| pt(i as f64, 0.0)).collect();
    let path: Path<f64, f64> = Path::closed_polyline(&vertices);
    // Move, n - 1 Line, Close
    assert_eq!(path.commands.len(), n_sides + 1);
}

#[test]
fn test_empty_polyline_only_closes() {
    let path: Path<f64, f64> = Path::closed_polyline(&[]);
    assert_eq!(path.commands, vec![PathCommand::To(PathCommandOp::ClosePath)]);
}

#[test]
fn test_path_transformation() {
    let path = rect(pt(0.0, 0.0), 10.0, 20.0);
    let translate = euclid::default::Transform2D::translation(10.0, 10.0);
    let transformed = path.transformed(
        &|p: &Coord<f64>| {
            let q = translate.transform_point(euclid::default::Point2D::new(p.x, p.y));
            pt(q.x, q.y)
        },
        &|v: &Coord<f64>| {
            let w = translate.transform_vector(euclid::default::Vector2D::new(v.x, v.y));
            pt(w.x, w.y)
        },
    );
    // Same number of commands
    assert_eq!(transformed.commands.len(), 5);
    assert_eq!(transformed.commands[0], PathCommand::To(PathCommandOp::Move(pt(10.0, 10.0))));
    assert_eq!(transformed.commands[2], PathCommand::To(PathCommandOp::Line(pt(20.0, 30.0))));
}

#[test]
fn test_transformed_keeps_arc_rotation_and_flags() {
    let mut path: Path<f64, f64> = Path::default();
    path.arc_by(pt(1.0, 1.0), pt(2.0, 3.0), 45.0, true, false);
    let t = path.transformed(&|p: &Coord<f64>| pt(p.x * 2.0, p.y * 2.0), &|v: &Coord<f64>| {
        pt(-v.x, v.y)
    });
    assert_eq!(
        t.commands[0],
        PathCommand::By(PathCommandOp::Arc {
            to: pt(-1.0, 1.0),
            radii: pt(-2.0, 3.0),
            x_rotation: 45.0,
            large_arc: true,
            sweep: false,
        })
    );
}

#[test]
fn test_path_d() {
    let mut path: Path<f64, f64> = Path::default();

    path.move_to(pt(0.0, 10.0))
        .move_by(pt(1.0, 1.0))
        .line_to(pt(2.0, 3.0))
        .line_by(pt(1.0, 1.0))
        .cubic_curve_to(pt(3.0, 4.0), pt(2.5, 3.5), pt(2.8, 3.8))
        .cubic_curve_by(pt(1.0, 1.0), pt(0.5, 0.5), pt(0.8, 0.8))
        .quadratic_curve_to(pt(5.0, 6.0), pt(4.5, 5.5))
        .quadratic_curve_by(pt(1.0, 1.0), pt(0.5, 0.5))
        .arc_to(pt(7.0, 8.0), pt(2.0, 2.0), 0.0, false, true)
        .arc_by(pt(1.0, 1.0), pt(1.0, 1.0), 0.0, false, true)
        .close_path();

    assert_eq!(
        text_path(&path).to_svg_path_d(),
        "M 0,10 m 1,1 L 2,3 l 1,1 C 2.5,3.5 2.8,3.8 3,4 c 0.5,0.5 0.8,0.8 1,1 \
         Q 4.5,5.5 5,6 q 0.5,0.5 1,1 A 2,2 0 0 1 7,8 a 1,1 0 0 1 1,1 Z "
    );
}

#[test]
fn test_relative_close_renders_lower_case() {
    let path: Path<String, String> = Path {
        commands: vec![PathCommand::By(PathCommandOp::ClosePath)],
        style: None,
    };
    assert_eq!(path.to_svg_path_d(), "z ");
}

#[test]
fn test_arc_flags_render_as_digits() {
    let cmd: PathCommand<String, String> = PathCommand::To(PathCommandOp::Arc {
        to: Coord { x: "7".to_string(), y: "8".to_string() },
        radii: Coord { x: "2".to_string(), y: "3".to_string() },
        x_rotation: "30".to_string(),
        large_arc: true,
        sweep: false,
    });
    assert_eq!(cmd.to_svg_path_d(), "A 2,3 30 1 0 7,8 ");
}

#[test]
fn test_empty_path_renders_nothing() {
    let path: Path<String, String> = Path::default();
    assert_eq!(path.to_svg_path_d(), "");
}

#[test]
fn test_builders_append_one_command_each() {
    let mut path: Path<f64, f64> = Path::default();
    path.move_to(pt(1.0, 2.0));
    assert_eq!(path.commands.len(), 1);
    path.quadratic_curve_to(pt(3.0, 4.0), pt(5.0, 6.0));
    assert_eq!(path.commands.len(), 2);
    assert_eq!(
        path.commands[1],
        PathCommand::To(PathCommandOp::QudraticCurve { to: pt(3.0, 4.0), ctrl: pt(5.0, 6.0) })
    );
    assert_eq!(path.commands[0], PathCommand::To(PathCommandOp::Move(pt(1.0, 2.0))));
}

#[test]
fn test_path_length_calculation() {
    let path = rect(pt(0.0, 0.0), 10.0, 20.0);
    let lengths = path.lengths(pt(0.0, 0.0), &straight_len, &distance);
    assert_eq!(lengths, vec![0.0, 10.0, 20.0, 10.0, 20.0]);
    // Sum of all line lengths in the rectangle
    assert_eq!(lengths.iter().sum::<f64>(), 60.0);
}

#[test]
fn test_lengths_without_close_measure_every_command() {
    let mut path: Path<f64, f64> = Path::default();
    path.move_to(pt(1.0, 1.0)).line_by(pt(3.0, 4.0)).line_to(pt(4.0, 1.0));
    let lengths = path.lengths(pt(0.0, 0.0), &straight_len, &distance);
    assert_eq!(lengths, vec![0.0, 5.0, 4.0]);
}

#[test]
fn test_lengths_stop_at_first_close() {
    let mut path: Path<f64, f64> = Path::default();
    path.line_to(pt(3.0, 4.0));
    path.close_path();
    path.line_to(pt(100.0, 100.0));
    // the path does not start with a move: it starts at the origin
    let lengths = path.lengths(pt(0.0, 0.0), &straight_len, &distance);
    assert_eq!(lengths, vec![5.0, 5.0]);
}

#[test]
fn test_start_point() {
    let mut path: Path<f64, f64> = Path::default();
    assert_eq!(path.start_point(pt(0.0, 0.0)), pt(0.0, 0.0));
    path.move_by(pt(2.0, 3.0));
    assert_eq!(path.start_point(pt(0.0, 0.0)), pt(2.0, 3.0));
    let line_first = rect(pt(5.0, 6.0), 1.0, 1.0);
    assert_eq!(line_first.start_point(pt(0.0, 0.0)), pt(5.0, 6.0));
    let mut no_move: Path<f64, f64> = Path::default();
    no_move.line_to(pt(9.0, 9.0));
    assert_eq!(no_move.start_point(pt(-1.0, -1.0)), pt(-1.0, -1.0));
}

#[test]
fn test_starting_at_moves_first() {
    let mut p: Path<i64, i64> = Path::default();
    p.line_to(Coord { x: 1, y: 1 });
    let started = p.starting_at(Coord { x: 5, y: 6 });
    assert_eq!(started.commands.len(), 2);
    assert_eq!(started.commands[0], PathCommand::To(PathCommandOp::Move(Coord { x: 5, y: 6 })));
    assert_eq!(started.commands[1], PathCommand::To(PathCommandOp::Line(Coord { x: 1, y: 1 })));
    assert_eq!(started.start_point(Coord { x: 0, y: 0 }), Coord { x: 5, y: 6 });
}

#[test]
fn test_closed_arcs_commands() {
    let ends = [pt(0.0, 1.0), pt(-1.0, 0.0), pt(0.0, -1.0), pt(1.0, 0.0)];
    let p: Path<f64, f64> = Path::closed_arcs(pt(1.0, 0.0), &ends, pt(1.0, 1.0), 0.0);
    assert_eq!(p.commands.len(), 6);
    assert_eq!(p.commands[0], PathCommand::To(PathCommandOp::Move(pt(1.0, 0.0))));
    for (k, end) in ends.iter().enumerate() {
        assert_eq!(
            p.commands[k + 1],
            PathCommand::To(PathCommandOp::Arc {
                to: *end,
                radii: pt(1.0, 1.0),
                x_rotation: 0.0,
                large_arc: false,
                sweep: true,
            })
        );
    }
    assert_eq!(p.commands[5], PathCommand::To(PathCommandOp::ClosePath));
}

#[test]
fn test_rect_creation() {
    let path: Path<f64, f64> = Path::rect(pt(0.0, 0.0), Size { width: 10.0, height: 20.0 });
    assert_eq!(path.commands.len(), 5); // Move, 3 Line, Close
}

#[test]
fn test_ellipse_creation() {
    let (rx, ry) = (10.0, 5.0);
    let ends = [pt(0.0, ry), pt(-rx, 0.0), pt(0.0, -ry), pt(rx, 0.0)];
    let path: Path<f64, f64> = Path::closed_arcs(pt(rx, 0.0), &ends, pt(rx, ry), 0.0);
    assert_eq!(path.commands.len(), 6); // Move, 4 Arc, Close
}

#[test]
fn test_rect_corners_clockwise() {
    let path: Path<i32, i32> = Path::rect(Coord { x: 1, y: 2 }, Size { width: 3, height: 4 });
    let targets: Vec<Coord<i32>> = path.commands[..4].iter().map(|c| c.to(Coord { x: 0, y: 0 })).collect();
    assert_eq!(
        targets,
        vec![Coord { x: 1, y: 2 }, Coord { x: 4, y: 2 }, Coord { x: 4, y: 6 }, Coord { x: 1, y: 6 }]
    );
    assert!(path.commands[4].is_close());
}

#[test]
fn test_transforms_keep_style() {
    let mut path: Path<f64, f64, &str> = Path::default();
    assert_eq!(path.style, None);
    path.style = Some("red stroke");
    path.move_to(pt(1.0, 1.0)).line_to(pt(2.0, 2.0));
    assert_eq!(path.style, Some("red stroke"));
    let moved = path.transformed(&|p: &Coord<f64>| pt(p.x + 1.0, p.y), &|v: &Coord<f64>| *v);
    assert_eq!(moved.style, Some("red stroke"));
    assert_eq!(moved.commands[1], PathCommand::To(PathCommandOp::Line(pt(3.0, 2.0))));
    assert_eq!(path.starting_at(pt(0.0, 0.0)).style, Some("red stroke"));
    assert_eq!(text_path_styled(&path).style, Some("red stroke"));
    let plain: Path<f64, f64, &str> = Path::rect(pt(0.0, 0.0), Size { width: 1.0, height: 1.0 });
    assert_eq!(plain.style, None);
}

fn text_path_styled(path: &Path<f64, f64, &'static str>) -> Path<String, String, &'static str> {
    let fmt = |c: &Coord<f64>| Coord { x: format!("{}", c.x), y: format!("{}", c.y) };
    path.map_with(&fmt, &fmt, &|a: &f64| format!("{}", a))
}
