use mandala::shader::{to_shader_type, AxisExpr, FieldModel, TypeModel, ValuedItem};

fn path(t: &str) -> TypeModel {
    TypeModel::Path(t.to_string())
}

fn array(elem: TypeModel, len: Option<&str>) -> TypeModel {
    TypeModel::Array { elem: Box::new(elem), len: len.map(|l| l.to_string()) }
}

fn field(name: &str, ty: TypeModel) -> FieldModel {
    FieldModel { name: Some(name.to_string()), ty }
}

fn axis(a: &str, e: u32) -> AxisExpr<u32> {
    AxisExpr { axis: a.to_string(), expr: e }
}

#[test]
fn test_scalar_types_keep_their_names() {
    for t in ["u32", "i32", "f32", "bool"] {
        assert_eq!(to_shader_type(&path(t)), Ok(t.to_string()));
    }
}

#[test]
fn test_nested_arrays() {
    let ty = array(array(path("f32"), Some("2")), Some("3"));
    assert_eq!(to_shader_type(&ty), Ok("array<array<f32, 2>, 3>".to_string()));
}

#[test]
fn test_unsupported_types() {
    assert_eq!(to_shader_type(&path("glam :: Vec3")), Err("unsupported type: glam :: Vec3".to_string()));
    assert_eq!(to_shader_type(&path("f64")), Err("unsupported type: f64".to_string()));
    assert_eq!(
        to_shader_type(&TypeModel::Other("& str".to_string())),
        Err("unsupported type: & str".to_string())
    );
    assert_eq!(
        to_shader_type(&array(path("u8"), Some("4"))),
        Err("unsupported type: u8".to_string())
    );
}

#[test]
fn test_dynamically_sized_array() {
    // the length is checked before the element, even a tuple element
    assert_eq!(
        to_shader_type(&array(TypeModel::Tuple, None)),
        Err("dynamically sized arrays not supported".to_string())
    );
}

#[test]
fn test_shader_code_of_circle() {
    let item: ValuedItem<u32> = ValuedItem {
        name: "Circle".to_string(),
        fields: vec![
            field("center", array(path("f32"), Some("3"))),
            field("radii", array(path("f32"), Some("2"))),
        ],
        x_fn: None,
        y_fn: None,
        z_fn: None,
    };
    assert_eq!(
        item.shader_code(),
        Ok("\nstruct MNDL_Valued_Circle {\n    ,\n                    center: array<f32, 3>,\n                    radii: array<f32, 2>\n}\n        ".to_string())
    );
}

#[test]
fn test_shader_code_errors() {
    let unnamed: ValuedItem<u32> = ValuedItem {
        name: "T".to_string(),
        fields: vec![FieldModel { name: None, ty: path("u32") }],
        x_fn: None,
        y_fn: None,
        z_fn: None,
    };
    assert_eq!(unnamed.shader_code(), Err("Only structs with named fields are supported".to_string()));

    // the first field that fails gives the error
    let bad_type: ValuedItem<u32> = ValuedItem {
        name: "T".to_string(),
        fields: vec![
            field("a", path("u32")),
            field("b", path("String")),
            FieldModel { name: None, ty: path("u32") },
        ],
        x_fn: None,
        y_fn: None,
        z_fn: None,
    };
    assert_eq!(bad_type.shader_code(), Err("unsupported type: String".to_string()));
}

#[test]
fn test_shader_code_without_fields() {
    let item: ValuedItem<u32> =
        ValuedItem { name: "Empty".to_string(), fields: vec![], x_fn: None, y_fn: None, z_fn: None };
    assert_eq!(item.shader_code(), Ok("\nstruct MNDL_Valued_Empty {\n    \n}\n        ".to_string()));
}

#[test]
fn test_axes_are_assigned() {
    let item = ValuedItem::from_parts(
        "Circle".to_string(),
        vec![],
        vec![axis("x", 1), axis("y", 2), axis("z", 3)],
    )
    .ok()
    .unwrap();
    assert_eq!((item.x_fn, item.y_fn, item.z_fn), (Some(1), Some(2), Some(3)));
    assert_eq!(item.name, "Circle");
}

#[test]
fn test_later_axis_expression_wins() {
    let item = ValuedItem::from_parts("C".to_string(), vec![], vec![axis("y", 1), axis("y", 2)])
        .ok()
        .unwrap();
    assert_eq!((item.x_fn, item.y_fn, item.z_fn), (None, Some(2), None));
}

#[test]
fn test_invalid_axis() {
    let r = ValuedItem::from_parts("C".to_string(), vec![], vec![axis("x", 1), axis("w", 2), axis("y", 3)]);
    assert_eq!(r.err(), Some("Invalid axis".to_string()));
}
