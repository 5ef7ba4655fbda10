use mandala::command::{Coord, PathCommand, PathCommandOp};

fn pt(x: f64, y: f64) -> Coord<f64> {
    Coord { x, y }
}

fn all_kinds() -> Vec<PathCommand<f64, f64>> {
    vec![
        PathCommand::To(PathCommandOp::Move(pt(1.0, 1.0))),
        PathCommand::To(PathCommandOp::Line(pt(1.0, 1.0))),
        PathCommand::To(PathCommandOp::CubicCurve { to: pt(1.0, 1.0), ctrl1: pt(0.0, 0.0), ctrl2: pt(0.5, 0.5) }),
        PathCommand::By(PathCommandOp::QudraticCurve { to: pt(1.0, 1.0), ctrl: pt(0.0, 0.0) }),
        PathCommand::By(PathCommandOp::Arc {
            to: pt(1.0, 1.0),
            radii: pt(1.0, 1.0),
            x_rotation: 0.0,
            large_arc: false,
            sweep: true,
        }),
        PathCommand::By(PathCommandOp::ClosePath),
    ]
}

#[test]
fn test_kind_predicates() {
    let cmds = all_kinds();
    let kinds: Vec<[bool; 5]> = cmds
        .iter()
        .map(|c| [c.is_arc(), c.is_line(), c.is_cubic_curve(), c.is_quadratic_curve(), c.is_close()])
        .collect();
    assert_eq!(kinds[0], [false, false, false, false, false]);
    assert_eq!(kinds[1], [false, true, false, false, false]);
    assert_eq!(kinds[2], [false, false, true, false, false]);
    assert_eq!(kinds[3], [false, false, false, true, false]);
    assert_eq!(kinds[4], [true, false, false, false, false]);
    assert_eq!(kinds[5], [false, false, false, false, true]);
}

#[test]
fn test_to_absolute_and_relative() {
    let abs: PathCommand<f64, f64> = PathCommand::To(PathCommandOp::Line(pt(3.0, 4.0)));
    assert_eq!(abs.to(pt(10.0, 10.0)), pt(3.0, 4.0));
    let rel: PathCommand<f64, f64> =
        PathCommand::By(PathCommandOp::CubicCurve { to: pt(3.0, 4.0), ctrl1: pt(9.0, 9.0), ctrl2: pt(8.0, 8.0) });
    assert_eq!(rel.to(pt(10.0, 10.0)), pt(13.0, 14.0));
}

#[test]
fn test_map_with_points_and_vectors_apart() {
    let cmd: PathCommand<f64, f64> = PathCommand::To(PathCommandOp::Arc {
        to: pt(1.0, 2.0),
        radii: pt(3.0, 4.0),
        x_rotation: 0.5,
        large_arc: true,
        sweep: true,
    });
    let mapped: PathCommand<i64, String> = cmd.map_with(
        &|p: &Coord<f64>| Coord { x: p.x as i64 + 100, y: p.y as i64 + 100 },
        &|v: &Coord<f64>| Coord { x: v.x as i64, y: v.y as i64 },
        &|a: &f64| format!("{}", a),
    );
    assert_eq!(
        mapped,
        PathCommand::To(PathCommandOp::Arc {
            to: Coord { x: 101, y: 102 },
            radii: Coord { x: 3, y: 4 },
            x_rotation: "0.5".to_string(),
            large_arc: true,
            sweep: true,
        })
    );
}

#[test]
fn test_svg_of_each_relative_command() {
    let fmt = |c: &Coord<f64>| Coord { x: format!("{}", c.x), y: format!("{}", c.y) };
    let texts: Vec<String> = all_kinds()
        .iter()
        .map(|c| c.map_with(&fmt, &fmt, &|a: &f64| format!("{}", a)).to_svg_path_d())
        .collect();
    assert_eq!(texts[0], "M 1,1 ");
    assert_eq!(texts[1], "L 1,1 ");
    assert_eq!(texts[2], "C 0,0 0.5,0.5 1,1 ");
    assert_eq!(texts[3], "q 0,0 1,1 ");
    assert_eq!(texts[4], "a 1,1 0 0 1 1,1 ");
    assert_eq!(texts[5], "z ");
}
