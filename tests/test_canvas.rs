use tracer::{Canvas, Rgba};

#[test]
fn test_read_write() {
    let width = 20;
    let height = 10;

    let expected = vec![
        vec![Rgba::new(1, 1, 1); width],
        vec![Rgba::new(2, 2, 2); width],
        vec![Rgba::new(3, 3, 3); width],
        vec![Rgba::new(4, 4, 4); width],
        vec![Rgba::new(5, 5, 5); width],
        vec![Rgba::new(6, 6, 6); width],
        vec![Rgba::new(7, 7, 7); width],
        vec![Rgba::new(8, 8, 8); width],
        vec![Rgba::new(9, 9, 9); width],
        vec![Rgba::new(10, 10, 10); width],
    ];

    let mut result = Canvas::new(width, height);
    for row in 0..height {
        for column in 0..width {
            result.set(row, column, expected[row][column]);
        }
    }

    for row in 0..result.height() {
        for column in 0..result.width() {
            assert_eq!(result.get(row, column), expected[row][column]);
        }
    }
}

#[test]
fn test_clear() {
    let width = 720;
    let height = 480;
    let zero = Rgba::zero();
    let one = Rgba::new(1, 1, 1);
    let mut result = Canvas::new(width, height);
    for row in 0..height {
        for column in 0..width {
            result.set(row, column, one);
        }
    }

    result.clear();

    for row in 0..result.height() {
        for column in 0..result.width() {
            assert_eq!(result.get(row, column), zero);
        }
    }
}

#[test]
fn new_canvas_is_black_and_sized() {
    let canvas = Canvas::new(3, 2);
    assert_eq!(canvas.width(), 3);
    assert_eq!(canvas.height(), 2);
    assert_eq!(canvas.data().len(), 6);
    assert!(canvas.data().iter().all(|p| *p == Rgba::zero()));
}

#[test]
fn set_writes_one_pixel_row_major() {
    let mut canvas = Canvas::new(3, 2);
    canvas.set(1, 2, Rgba::new(7, 8, 9));
    assert_eq!(canvas.data()[5], Rgba::new(7, 8, 9));
    for i in 0..5 {
        assert_eq!(canvas.data()[i], Rgba::zero());
    }
    canvas.set(0, 1, Rgba::new(1, 2, 3));
    assert_eq!(canvas.data()[1], Rgba::new(1, 2, 3));
    assert_eq!(canvas.get(1, 2), Rgba::new(7, 8, 9));
}

#[test]
fn empty_canvas_has_no_pixels() {
    let mut canvas = Canvas::new(0, 5);
    assert_eq!(canvas.data().len(), 0);
    canvas.clear();
    assert_eq!(canvas.height(), 5);
}

#[test]
fn rgba_fields() {
    let c = Rgba::new(255, 128, 0);
    assert_eq!((c.r, c.g, c.b), (255, 128, 0));
    let z = Rgba::zero();
    assert_eq!((z.r, z.g, z.b), (0, 0, 0));
}
