use vectrix::{Stride, StrideMut};

#[test]
fn stride_default() {
    let stride: Stride<i64, 3> = Default::default();
    assert_eq!(stride.len(), 0);
}

#[test]
fn stride_mut_default() {
    let stride: StrideMut<i64, 3> = Default::default();
    assert_eq!(stride.len(), 0);
}

#[test]
fn stride_new_multiple() {
    let stride = Stride::<_, 3>::new(&[1, 2, 3, 4, 5, 6]);
    assert_eq!(stride[0], 1);
    assert_eq!(stride[1], 4);
}

#[test]
fn stride_new_non_multiple() {
    let stride = Stride::<_, 3>::new(&[1, 2, 3, 4]);
    assert_eq!(stride[0], 1);
    assert_eq!(stride[1], 4);
}

#[test]
fn stride_len() {
    let stride = Stride::<_, 3>::new(&[1, 2, 3, 4, 5, 6]);
    assert_eq!(stride.len(), 2);
}

#[test]
fn stride_len_non_multiple() {
    let stride = Stride::<_, 3>::new(&[1, 2, 3, 4, 5]);
    assert_eq!(stride.len(), 2);
}

#[test]
fn stride_len_edges() {
    let data = [1, 2, 3, 4, 5, 6];
    assert_eq!(Stride::<_, 1>::new(&data).len(), 6);
    assert_eq!(Stride::<_, 2>::new(&data).len(), 3);
    assert_eq!(Stride::<_, 6>::new(&data).len(), 1);
    assert_eq!(Stride::<_, 7>::new(&data).len(), 1);
    assert_eq!(Stride::<i32, 4>::new(&[]).len(), 0);
    assert!(Stride::<i32, 4>::new(&[]).is_empty());
    assert!(!Stride::<_, 4>::new(&data).is_empty());
    assert_eq!(Stride::<_, 0>::new(&data).len(), 0);
}

#[test]
fn stride_first() {
    let stride = Stride::<_, 2>::new(&[1, 2, 3, 4, 5, 6]);
    assert_eq!(stride.first(), Some(&1));

    let stride = <Stride<i32, 2>>::default();
    assert_eq!(stride.first(), None);
}

#[test]
fn stride_first_mut() {
    let data = &mut [2, 2, 3, 4, 5, 6];
    let mut stride = StrideMut::<_, 2>::new_mut(data);
    *stride.first_mut().unwrap() = 1;
    assert_eq!(stride.first(), Some(&1));
}

#[test]
fn stride_first_mut_empty() {
    let mut stride = <StrideMut<i32, 2>>::default();
    assert_eq!(stride.first_mut(), None);
}

#[test]
fn stride_last() {
    let stride = Stride::<_, 2>::new(&[1, 2, 3, 4, 5, 6]);
    assert_eq!(stride.last(), Some(&5));

    let stride = Stride::<_, 2>::new(&[1, 2, 3]);
    assert_eq!(stride.last(), Some(&3));

    let stride = Stride::<_, 2>::new(&[1]);
    assert_eq!(stride.last(), Some(&1));
}

#[test]
fn stride_last_empty() {
    let stride = <Stride<i32, 2>>::default();
    assert_eq!(stride.last(), None);
}

#[test]
fn stride_last_mut() {
    let data = &mut [1, 2, 3, 4, 6, 6];
    let mut stride = StrideMut::<_, 2>::new_mut(data);
    *stride.last_mut().unwrap() = 5;
    assert_eq!(stride.last(), Some(&5));
}

#[test]
fn stride_last_mut_empty() {
    let mut stride = <StrideMut<i32, 2>>::default();
    assert_eq!(stride.last_mut(), None);
}

#[test]
fn stride_swap() {
    let data = &mut [1, 2, 3, 4, 5, 6];
    let mut stride = StrideMut::<_, 2>::new_mut(data);
    assert_eq!(stride.as_stride(), &[1, 3, 5]);
    stride.swap(1, 2);
    assert_eq!(stride.as_stride(), &[1, 5, 3]);
    stride.swap(2, 1);
    assert_eq!(stride.as_stride(), &[1, 3, 5]);
}

#[test]
fn stride_swap_writes_region() {
    let mut data = [1, 2, 3, 4, 5, 6];
    {
        let mut stride = StrideMut::<_, 2>::new_mut(&mut data);
        stride.swap(0, 2);
        stride.swap(1, 1);
    }
    assert_eq!(data, [5, 2, 3, 4, 1, 6]);
}

#[test]
fn stride_get_mut_writes_region() {
    let mut data = [0, 1, 2, 3];
    {
        let mut stride = StrideMut::<_, 2>::new_mut(&mut data);
        if let Some(elem) = stride.get_mut(1) {
            *elem = 42;
        }
        assert_eq!(stride.get_mut(2), None);
        assert_eq!(stride.get(1), Some(&42));
    }
    assert_eq!(data, [0, 1, 42, 3]);
}

#[test]
fn stride_as_slice() {
    let slice = &[1, 2, 3];
    let stride = Stride::<_, 1>::new(slice);
    assert_eq!(stride.as_slice(), slice);
}

#[test]
fn stride_as_mut_slice() {
    let slice = &mut [1, 2, 7];
    {
        let mut stride = StrideMut::<_, 1>::new_mut(slice);
        stride.as_mut_slice()[2] = 3;
    }
    assert_eq!(slice, &[1, 2, 3]);
}

#[test]
fn stride_get_unchecked() {
    let stride = Stride::<_, 2>::new(&[1, 2, 3, 4, 5]);
    assert_eq!(*stride.get_unchecked(2), 5);
    assert_eq!(stride.get_unchecked(1..), Stride::<_, 2>::new(&[3, 4, 5]));
    let mut data = [1, 2, 3];
    {
        let mut stride = StrideMut::<_, 2>::new_mut(&mut data);
        *stride.get_unchecked_mut(1) = 9;
    }
    assert_eq!(data, [1, 2, 9]);
}
