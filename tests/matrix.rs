use vectrix::{collect, collect_unchecked, Matrix, Vector};

#[test]
fn matrix_zero() {
    let m: Matrix<i32, 2, 2> = Matrix::zero();
    assert_eq!(m, Matrix::from_column_major_order([[0, 0], [0, 0]]));
}

#[test]
fn matrix_repeat() {
    let m: Matrix<i32, 2, 2> = Matrix::repeat(7);
    assert_eq!(m, Matrix::from_column_major_order([[7, 7], [7, 7]]));
}

#[test]
fn matrix_repeat_with() {
    let mut state = 1;
    let m: Matrix<i32, 2, 2> = Matrix::repeat_with(|| {
        state *= 2;
        state
    });
    assert_eq!(m, Matrix::from_column_major_order([[2, 4], [8, 16]]));
}

#[test]
fn matrix_as_slice() {
    let m: Matrix<i32, 1, 4> = Matrix::from_column_major_order([[1], [3], [3], [7]]);
    assert_eq!(m.as_slice(), vec![1, 3, 3, 7].as_slice());
}

#[test]
fn matrix_iter() {
    let m = Matrix::from_column_major_order([[1, 2], [3, 4]]);
    let values: Vec<_> = m.iter().collect();
    assert_eq!(values, vec![&1, &2, &3, &4]);
}

#[test]
fn matrix_row() {
    let m = Matrix::from_column_major_order([[1, -3], [3, 7]]);
    let row = m.row(0);
    let mut iter = row.iter();
    let mut vec = Vec::new();
    while let Some(x) = iter.next() {
        vec.push(x);
    }
    assert_eq!(vec, &[&1, &3]);
    let row = m.row(1);
    let mut iter = row.iter();
    let mut vec = Vec::new();
    while let Some(x) = iter.next() {
        vec.push(x);
    }
    assert_eq!(vec, &[&-3, &7]);
}

#[test]
fn matrix_column() {
    let m = Matrix::from_column_major_order([[1, -3], [3, 7]]);
    let col = m.column(0);
    let mut iter = col.iter();
    let mut vec = Vec::new();
    while let Some(x) = iter.next() {
        vec.push(x);
    }
    assert_eq!(vec, &[&1, &-3]);
    let column = m.column(1);
    let mut iter = column.iter();
    let mut vec = Vec::new();
    while let Some(x) = iter.next() {
        vec.push(x);
    }
    assert_eq!(vec, &[&3, &7]);
}

#[test]
fn matrix_identity() {
    assert_eq!(
        Matrix::identity(),
        Matrix::from_column_major_order([[1, 0], [0, 1]])
    );

    assert_eq!(
        Matrix::identity(),
        Matrix::from_column_major_order([[1, 0, 0], [0, 1, 0], [0, 0, 1]])
    );

    assert_eq!(
        Matrix::identity(),
        Matrix::from_column_major_order([[1, 0, 0, 0], [0, 1, 0, 0], [0, 0, 1, 0], [0, 0, 0, 1]])
    );
}

#[test]
fn matrix_diagonal() {
    let m = Matrix::from_column_major_order([[1, 0, 0], [0, 2, 0], [0, 0, 3]]);
    let expected: Vector<i32, 3> = Matrix::from_column_major_order([[1, 2, 3]]);
    assert_eq!(m.diagonal(), expected);
}

#[test]
fn matrix_index_usize() {
    let m: Matrix<_, 2, 3> = Matrix::from_column_major_order([[1, 2], [3, 4], [5, 6]]);
    assert_eq!(m[0], 1);
    assert_eq!(m[1], 2);
    assert_eq!(m[2], 3);
    assert_eq!(m[3], 4);
    assert_eq!(m[4], 5);
    assert_eq!(m[5], 6);
}

#[test]
fn matrix_index_tuple() {
    let m: Matrix<_, 2, 3> = Matrix::from_column_major_order([[1, 2], [3, 4], [5, 6]]);
    assert_eq!(m[(0, 0)], 1);
    assert_eq!(m[(0, 1)], 3);
    assert_eq!(m[(0, 2)], 5);
    assert_eq!(m[(1, 0)], 2);
    assert_eq!(m[(1, 1)], 4);
    assert_eq!(m[(1, 2)], 6);
}

#[test]
fn matrix_get_out_of_range() {
    let mut m: Matrix<_, 2, 3> = Matrix::from_column_major_order([[1, 2], [3, 4], [5, 6]]);
    assert_eq!(m.get(6), None);
    assert_eq!(m.get((2, 0)), None);
    assert_eq!(m.get((0, 3)), None);
    assert_eq!(m.get((1, 2)), Some(&6));
    *m.get_mut((1, 0)).unwrap() = 20;
    *m.get_mut(4).unwrap() = 50;
    assert_eq!(m.get_mut((5, 5)), None);
    assert_eq!(m.as_slice(), &[1, 20, 3, 4, 50, 6]);
}

#[test]
fn matrix_from_iter() {
    let m = collect::<_, i64, 2, 2>(vec![1, 2, 3, 4].into_iter()).unwrap();
    assert_eq!(m, Matrix::from_column_major_order([[1, 2], [3, 4]]));
}

#[test]
fn matrix_from_iter_long() {
    let m = collect::<_, i64, 2, 2>(vec![1, 2, 3, 4, 5].into_iter()).unwrap();
    assert_eq!(m, Matrix::from_column_major_order([[1, 2], [3, 4]]));
}

#[derive(Debug, PartialEq)]
struct Num(i64);

#[test]
fn new_matrix_from_iter_not_copy_or_default() {
    let m = collect::<_, Num, 2, 2>(vec![Num(1), Num(2), Num(3), Num(4)].into_iter()).unwrap();
    assert_eq!(m.row(0)[0], Num(1));
    assert_eq!(m.row(0)[1], Num(3));
    assert_eq!(m.row(1)[0], Num(2));
    assert_eq!(m.row(1)[1], Num(4));
}

#[test]
fn matrix_collect_short_reports_count() {
    let r = collect::<_, i64, 2, 2>(vec![1, 2, 3].into_iter());
    assert_eq!(r.err(), Some(3));
    let r = collect::<_, i64, 2, 3>(Vec::new().into_iter());
    assert_eq!(r.err(), Some(0));
}

#[test]
fn matrix_collect_leaves_surplus() {
    let mut source = vec![1, 2, 3, 4, 5, 6].into_iter();
    let m = collect::<_, i64, 2, 2>(&mut source).unwrap();
    assert_eq!(m.as_slice(), &[1, 2, 3, 4]);
    assert_eq!(source.next(), Some(5));
}

#[test]
fn matrix_collect_unchecked() {
    let m = collect_unchecked::<_, u8, 1, 3>(vec![9, 8, 7, 6].into_iter());
    assert_eq!(m.as_slice(), &[9, 8, 7]);
}

#[test]
fn matrix_map() {
    let m = Matrix::from_column_major_order([[1, 2], [3, 4]]);
    let doubled = m.map(|x: i32| x * 2);
    assert_eq!(doubled.as_slice(), &[2, 4, 6, 8]);
}

#[test]
fn matrix_row_dot_column() {
    let row_vector: Matrix<i32, 1, 3> = Matrix::from_column_major_order([[1], [2], [3]]);
    let column_vector: Matrix<i32, 3, 1> = Matrix::from_column_major_order([[4, 5, 6]]);
    let row = row_vector.row(0);
    let column = column_vector.column(0);
    assert_eq!(row.dot(&column), 32);
}

#[test]
fn matrix_dot_empty_is_zero() {
    let a: Matrix<i32, 2, 0> = Matrix::from_column_major_order([]);
    let b: Matrix<i32, 0, 2> = Matrix::from_column_major_order([[], []]);
    assert_eq!(a.row(1).len(), 0);
    assert_eq!(a.row(0).dot(&b.column(1)), 0);
}

#[test]
fn matrix_equality() {
    let a = Matrix::from_column_major_order([[1, 2], [3, 4]]);
    let b = Matrix::from_column_major_order([[1, 2], [3, 5]]);
    assert_eq!(a, a);
    assert_ne!(a, b);
}

#[test]
fn matrix_l1_norm() {
    let m = Matrix::from_column_major_order([[-1, -3], [3, 7]]);
    assert_eq!(m.l1_norm(), 10);
}

#[test]
fn matrix_l1_norm_vectors() {
    let m: Matrix<i32, 1, 4> = Matrix::from_column_major_order([[-1], [3], [-3], [7]]);
    assert_eq!(m.l1_norm(), 7);

    let m: Matrix<i32, 4, 1> = Matrix::from_column_major_order([[-1, 3, -3, 7]]);
    assert_eq!(m.l1_norm(), 14);
}

#[test]
fn matrix_l1_norm_empty() {
    let m: Matrix<i64, 3, 0> = Matrix::from_column_major_order([]);
    assert_eq!(m.l1_norm(), 0);
}

#[test]
fn matrix_get_unchecked() {
    let mut m: Matrix<u8, 2, 2> = Matrix::from_column_major_order([[1, 2], [3, 4]]);
    assert_eq!(*m.get_unchecked((1, 1)), 4);
    assert_eq!(*m.get_unchecked(2), 3);
    *m.get_unchecked_mut((0, 1)) = 30;
    *m.get_unchecked_mut(1) = 20;
    assert_eq!(m.as_slice(), &[1, 20, 30, 4]);
}

#[test]
fn matrix_clone_and_order() {
    let a = Matrix::from_column_major_order([[1, 2], [3, 4]]);
    let b = a.clone();
    assert_eq!(a, b);
    let c = Matrix::from_column_major_order([[1, 2], [3, 5]]);
    assert!(a < c);
    assert!(c > b);
    assert_eq!(a.partial_cmp(&b), Some(core::cmp::Ordering::Equal));
}

#[test]
fn row_vector_new() {
    type V<const N: usize> = vectrix::RowVector<i64, N>;
    assert_eq!(V::<1>::new(1), Matrix::from_column_major_order([[1]]));
    assert_eq!(V::<2>::new(1, 2), Matrix::from_column_major_order([[1], [2]]));
    assert_eq!(V::<3>::new(1, 2, 3), Matrix::from_column_major_order([[1], [2], [3]]));
    assert_eq!(V::<4>::new(1, 2, 3, 4), Matrix::from_column_major_order([[1], [2], [3], [4]]));
    assert_eq!(
        V::<5>::new(1, 2, 3, 4, 5),
        Matrix::from_column_major_order([[1], [2], [3], [4], [5]])
    );
    assert_eq!(
        V::<6>::new(1, 2, 3, 4, 5, 6),
        Matrix::from_column_major_order([[1], [2], [3], [4], [5], [6]])
    );
}

#[test]
fn vector_new() {
    type V<const M: usize> = Vector<i64, M>;
    assert_eq!(V::<1>::new(1), Matrix::from_column_major_order([[1]]));
    assert_eq!(V::<2>::new(1, 2), Matrix::from_column_major_order([[1, 2]]));
    assert_eq!(V::<3>::new(1, 2, 3), Matrix::from_column_major_order([[1, 2, 3]]));
    assert_eq!(V::<4>::new(1, 2, 3, 4), Matrix::from_column_major_order([[1, 2, 3, 4]]));
    assert_eq!(V::<5>::new(1, 2, 3, 4, 5), Matrix::from_column_major_order([[1, 2, 3, 4, 5]]));
    assert_eq!(
        V::<6>::new(1, 2, 3, 4, 5, 6),
        Matrix::from_column_major_order([[1, 2, 3, 4, 5, 6]])
    );
}
