use mandala::style::{RgbRaster, StrokePosition};

#[test]
fn test_stroke_position_default() {
    assert_eq!(StrokePosition::default(), StrokePosition::Center);
}

#[test]
fn test_raster_equality() {
    let a = RgbRaster { width: 1, height: 1, data: vec![255, 128, 0, 255] };
    let b = RgbRaster { width: 1, height: 1, data: vec![255, 128, 0, 255] };
    let c = RgbRaster { width: 1, height: 1, data: vec![255, 128, 0, 0] };
    let d = RgbRaster { width: 2, height: 1, data: vec![255, 128, 0, 255] };
    assert!(a == b);
    assert!(a != c);
    assert!(a != d);
}
