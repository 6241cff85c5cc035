use hertzian::fft::wrap_offset;
use hertzian::grid::GridShape;

#[test]
fn wrap_offset_lays_out_non_negative_then_negative_offsets() {
    let n = 4;
    let m = 8;
    let offsets: Vec<Option<isize>> = (0..m).map(|i| wrap_offset(i, n, m)).collect();
    assert_eq!(
        offsets,
        vec![
            Some(0),
            Some(1),
            Some(2),
            Some(3),
            None,
            Some(-3),
            Some(-2),
            Some(-1)
        ]
    );
}

#[test]
fn wrap_offset_has_a_single_wrap_point() {
    for n in 1..20usize {
        let m = 2 * n;
        let wraps: Vec<usize> = (0..m).filter(|&i| wrap_offset(i, n, m).is_none()).collect();
        assert_eq!(wraps, vec![n]);
    }
}

#[test]
fn cyclic_index_reads_the_linear_offset() {
    // For every target i and source j on the unpadded axis, the padded index
    // (i - j) mod m holds the linear offset i - j.
    for n in 1..12usize {
        let m = 2 * n;
        for i in 0..n {
            for j in 0..n {
                let d = i as isize - j as isize;
                let index = d.rem_euclid(m as isize) as usize;
                assert_eq!(wrap_offset(index, n, m), Some(d));
            }
        }
    }
}

#[test]
fn wrap_offset_of_a_single_point_axis() {
    assert_eq!(wrap_offset(0, 1, 2), Some(0));
    assert_eq!(wrap_offset(1, 1, 2), None);
}

#[test]
fn grid_shape_reports_its_dimensions() {
    let shape = GridShape::new(5, 5);
    assert_eq!(shape.nx(), 5);
    assert_eq!(shape.ny(), 5);
    assert_eq!(shape.dims(), (5, 5));
    assert_eq!(shape.len(), 25);
    assert!(!shape.is_empty());

    let rectangle = GridShape::new(12, 16);
    assert_eq!(rectangle.dims(), (12, 16));
    assert_eq!(rectangle.len(), 192);
}

#[test]
fn centred_half_steps_are_symmetric() {
    let shape = GridShape::new(5, 4);
    assert_eq!(shape.x_half_steps(0), -4);
    assert_eq!(shape.x_half_steps(4), 4);
    assert_eq!(shape.x_half_steps(0) + shape.x_half_steps(4), 0);
    assert_eq!(shape.x_half_steps(2), 0);
    // An even axis has no point at the origin: the middle pair straddles it.
    assert_eq!(shape.y_half_steps(0), -3);
    assert_eq!(shape.y_half_steps(1), -1);
    assert_eq!(shape.y_half_steps(2), 1);
    assert_eq!(shape.y_half_steps(3), 3);
}

#[test]
fn half_steps_give_the_centred_coordinate() {
    // x(i) = (i - (n - 1) / 2) dx, with the half steps in units of dx / 2.
    let shape = GridShape::new(7, 3);
    let dx = 0.25e-3_f64;
    for i in 0..7usize {
        let expected = (i as f64 - (7.0 - 1.0) * 0.5) * dx;
        let from_half_steps = shape.x_half_steps(i) as f64 * (0.5 * dx);
        assert_eq!(from_half_steps, expected);
    }
}

#[test]
fn cells_are_row_major() {
    let shape = GridShape::new(3, 4);
    let cells: Vec<(usize, usize)> = (0..12).map(|k| shape.cell(k)).collect();
    let mut expected = Vec::new();
    for i in 0..3 {
        for j in 0..4 {
            expected.push((i, j));
        }
    }
    assert_eq!(cells, expected);
    assert_eq!(shape.cell(7), (1, 3));
}

#[test]
fn cell_offsets_are_antisymmetric() {
    let shape = GridShape::new(3, 4);
    assert_eq!(shape.cell_offset(11, 0), (2, 3));
    assert_eq!(shape.cell_offset(0, 11), (-2, -3));
    assert_eq!(shape.cell_offset(5, 6), (0, -1));
    for k in 0..12 {
        assert_eq!(shape.cell_offset(k, k), (0, 0));
        for l in 0..12 {
            let (a, b) = shape.cell_offset(k, l);
            assert_eq!(shape.cell_offset(l, k), (-a, -b));
        }
    }
}
