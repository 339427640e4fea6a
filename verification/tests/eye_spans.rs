use bsplitter_wasm::shape::{ContractViolation, EyeSpan, Shape5, SHAPE_POINTS};

type Point = (f32, f32);

fn level_face() -> Vec<Point> {
    // left outer, left inner, right outer, right inner, nose
    vec![(0.0, 0.0), (10.0, 0.0), (40.0, 0.0), (30.0, 0.0), (20.0, 5.0)]
}

#[test]
fn labels_have_their_fixed_positions() {
    assert_eq!(Shape5::LeftOuterEyeCorner.index(), 0);
    assert_eq!(Shape5::LeftInnerEyeCorner.index(), 1);
    assert_eq!(Shape5::RightOuterEyeCorner.index(), 2);
    assert_eq!(Shape5::RightInnerEyeCorner.index(), 3);
    assert_eq!(Shape5::Nose.index(), 4);
    assert_eq!(SHAPE_POINTS, 5);
}

#[test]
fn labels_have_positions_of_their_own() {
    let labels = [
        Shape5::LeftOuterEyeCorner,
        Shape5::LeftInnerEyeCorner,
        Shape5::RightOuterEyeCorner,
        Shape5::RightInnerEyeCorner,
        Shape5::Nose,
    ];
    for (i, a) in labels.iter().enumerate() {
        assert!(a.index() < SHAPE_POINTS);
        for b in labels[i + 1..].iter() {
            assert_ne!(a.index(), b.index());
        }
    }
}

#[test]
fn point_reads_the_labelled_point() {
    let shape = level_face();
    assert_eq!(Shape5::LeftInnerEyeCorner.point(&shape), Ok((10.0, 0.0)));
    assert_eq!(Shape5::RightOuterEyeCorner.point(&shape), Ok((40.0, 0.0)));
    assert_eq!(Shape5::Nose.point(&shape), Ok((20.0, 5.0)));
}

#[test]
fn point_rejects_a_short_shape() {
    let shape: Vec<Point> = vec![(1.0, 1.0); 3];
    assert_eq!(
        Shape5::LeftOuterEyeCorner.point(&shape),
        Err(ContractViolation { points: 3 })
    );
}

#[test]
fn spans_of_a_level_face() {
    let (left, right) = Shape5::find_eye_spans(&level_face()).unwrap();
    assert_eq!(left, EyeSpan { origin: (10.0, 0.0), target: (0.0, 0.0) });
    assert_eq!(right, EyeSpan { origin: (40.0, 0.0), target: (30.0, 0.0) });
}

#[test]
fn spans_of_a_face_shrunk_to_one_point() {
    let shape: Vec<Point> = vec![(7.5, -3.25); 5];
    let (left, right) = Shape5::find_eye_spans(&shape).unwrap();
    assert_eq!(left, EyeSpan { origin: (7.5, -3.25), target: (7.5, -3.25) });
    assert_eq!(right, left);
}

#[test]
fn four_points_are_rejected() {
    let shape: Vec<Point> = level_face()[..4].to_vec();
    assert_eq!(
        Shape5::find_eye_spans(&shape),
        Err(ContractViolation { points: 4 })
    );
}

#[test]
fn six_points_are_rejected() {
    let mut shape = level_face();
    shape.push((20.0, 12.0));
    assert_eq!(
        Shape5::find_eye_spans(&shape),
        Err(ContractViolation { points: 6 })
    );
}

#[test]
fn no_points_are_rejected() {
    let shape: Vec<Point> = Vec::new();
    assert_eq!(
        Shape5::find_eye_spans(&shape),
        Err(ContractViolation { points: 0 })
    );
}

#[test]
fn spans_follow_a_translation_of_the_shape() {
    let shape = level_face();
    let moved: Vec<Point> = shape.iter().map(|p| (p.0 + 3.0, p.1 - 8.0)).collect();
    let (moved_left, moved_right) = Shape5::find_eye_spans(&moved).unwrap();
    assert_eq!(moved_left, EyeSpan { origin: (13.0, -8.0), target: (3.0, -8.0) });
    assert_eq!(moved_right, EyeSpan { origin: (43.0, -8.0), target: (33.0, -8.0) });
}

#[test]
fn spans_follow_a_scaling_of_the_shape() {
    let shape = level_face();
    let grown: Vec<Point> = shape.iter().map(|p| (p.0 * 2.0, p.1 * 2.0)).collect();
    let (left, right) = Shape5::find_eye_spans(&grown).unwrap();
    assert_eq!(left, EyeSpan { origin: (20.0, 0.0), target: (0.0, 0.0) });
    assert_eq!(right, EyeSpan { origin: (80.0, 0.0), target: (60.0, 0.0) });
}

#[test]
fn spans_do_not_read_the_nose() {
    let mut shape = level_face();
    let before = Shape5::find_eye_spans(&shape).unwrap();
    shape[Shape5::Nose.index()] = (-100.0, 250.0);
    assert_eq!(Shape5::find_eye_spans(&shape).unwrap(), before);
}

#[test]
fn same_shape_gives_same_spans() {
    let shape = level_face();
    assert_eq!(Shape5::find_eye_spans(&shape), Shape5::find_eye_spans(&shape));
}
