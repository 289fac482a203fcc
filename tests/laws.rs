use vectrix::{collect, Matrix, Stride};

#[test]
fn layout_matches_flat_offsets() {
    let m: Matrix<i32, 2, 3> = Matrix::from_column_major_order([[1, 2], [3, 4], [5, 6]]);
    assert_eq!(m.as_slice().len(), 6);
    for i in 0..2 {
        for j in 0..3 {
            assert_eq!(m.get((i, j)), m.get(j * 2 + i));
        }
    }
}

#[test]
fn collect_round_trip() {
    let items = vec![4, 8, 15, 16, 23, 42];
    let m = collect::<_, i32, 3, 2>(items.clone().into_iter()).unwrap();
    assert_eq!(m.as_slice(), items.as_slice());
}

#[test]
fn collect_partial_sequence() {
    for n in 0..6 {
        let items: Vec<i32> = (0..n).collect();
        let r = collect::<_, i32, 2, 3>(items.into_iter());
        assert_eq!(r.err(), Some(n as usize));
    }
}

#[test]
fn stride_correctness() {
    let data = [10, 11, 12, 13, 14, 15, 16];
    let stride = Stride::<_, 3>::new(&data);
    assert_eq!(stride.len(), 3);
    for k in 0..3 {
        assert_eq!(stride.get(k), Some(&data[k * 3]));
    }
    assert_eq!(stride.get(3), None);
}

#[test]
fn row_column_agreement() {
    let m: Matrix<i32, 3, 2> = Matrix::from_column_major_order([[1, 2, 3], [4, 5, 6]]);
    for i in 0..3 {
        for j in 0..2 {
            assert_eq!(m.row(i)[j], m.column(j)[i]);
            assert_eq!(m.row(i)[j], m[(i, j)]);
        }
    }
}

#[test]
fn equality_by_value() {
    let a = Stride::<_, 3>::new(&[1, 0, 0, 4, 0, 0]);
    let b = Stride::<_, 2>::new(&[1, 0, 4, 0]);
    assert!(a == b);
    assert!(b == a);
}

#[test]
fn two_by_three_scenario() {
    let m = collect::<_, i32, 2, 3>(vec![1, 2, 3, 4, 5, 6].into_iter()).unwrap();
    assert_eq!(m.row(1).as_stride(), &[2, 4, 6]);
    assert_eq!(m.column(0).as_stride(), &[1, 2]);
    assert_eq!(m[(1, 2)], 6);
    let short = collect::<_, i32, 2, 2>(vec![1, 2, 3].into_iter());
    assert_eq!(short.err(), Some(3));
}
