use mandala::artboard::Artboard;

#[test]
fn test_layers_in_drawing_order() {
    let mut board: Artboard<(f64, f64), &str, u32> = Artboard::new((100.0, 100.0));
    assert!(board.view_paths().is_empty());
    board.add_mandala(7, "first", vec![1, 2]);
    board.add_mandala(3, "second", vec![3]);
    assert!(board.is_drawn(7));
    assert!(!board.is_drawn(8));
    assert_eq!(board.view_paths(), vec![1, 2, 3]);
    assert_eq!(board.position(3), Some(1));
    assert_eq!(board.position(4), None);
    assert_eq!(*board.mandala(0), "first");
    assert_eq!(*board.bounds(), (100.0, 100.0));
}

#[test]
fn test_replace_keeps_layer_order() {
    let mut board: Artboard<(), String, u32> = Artboard::new(());
    board.add_mandala(1, "a".to_string(), vec![1]);
    board.add_mandala(2, "b".to_string(), vec![2, 2]);
    board.add_mandala(3, "c".to_string(), vec![3]);
    let i = board.position(2).unwrap();
    board.replace(i, "b2".to_string(), vec![20]);
    assert_eq!(board.view_paths(), vec![1, 20, 3]);
    assert_eq!(board.mandala(1), "b2");
}
