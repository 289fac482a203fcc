use vectrix::Stride;

#[test]
fn stride_iter() {
    let stride = Stride::<_, 2>::new(&[1, 2, 3, 4, 5, 6]);
    let mut iter = stride.iter();
    let mut vec = Vec::new();
    while let Some(x) = iter.next() {
        vec.push(x);
    }
    assert_eq!(vec, [&1, &3, &5]);
}

#[test]
fn stride_iter_rev() {
    let stride = Stride::<_, 2>::new(&[1, 2, 3, 4, 5, 6]);
    let mut iter = stride.iter();
    let mut vec = Vec::new();
    while let Some(x) = iter.next_back() {
        vec.push(x);
    }
    assert_eq!(vec, [&5, &3, &1]);
}

#[test]
fn stride_iter_skip_rev() {
    let stride = Stride::<_, 2>::new(&[1, 2, 3, 4, 5, 6]);
    let mut iter = stride.iter();
    iter.next();
    iter.next_back();
    let mut vec = Vec::new();
    while let Some(x) = iter.next_back() {
        vec.push(x);
    }
    assert_eq!(vec, [&3]);
}

#[test]
fn stride_iter_len() {
    let stride = Stride::<_, 2>::new(&[1, 2, 3, 4, 5, 6]);
    assert_eq!(stride.iter().len(), 3);
}

#[test]
fn stride_iter_len_shrinks() {
    let stride = Stride::<_, 3>::new(&[1, 2, 3, 4, 5, 6, 7]);
    let mut iter = stride.iter();
    assert_eq!(iter.len(), 3);
    assert_eq!(iter.next(), Some(&1));
    assert_eq!(iter.next_back(), Some(&7));
    assert_eq!(iter.len(), 1);
    assert_eq!(iter.next(), Some(&4));
    assert_eq!(iter.next(), None);
    assert_eq!(iter.next_back(), None);
}

#[test]
fn stride_iter_mut() {
    let slice = &mut [1, 2, 3, 4, 5, 6];
    let mut stride = vectrix::StrideMut::<_, 2>::new_mut(slice);
    let mut iter = stride.iter_mut();
    while let Some(elem) = iter.next() {
        *elem *= 2;
    }
    assert_eq!(slice, &[2, 2, 6, 4, 10, 6]);
}

#[test]
fn stride_iter_mut_from_back() {
    let mut data = [1, 2, 3, 4, 5, 6, 7];
    {
        let mut stride = vectrix::StrideMut::<_, 3>::new_mut(&mut data);
        let mut iter = stride.iter_mut();
        assert_eq!(iter.len(), 3);
        *iter.next_back().unwrap() = 70;
        *iter.next().unwrap() = 10;
        assert_eq!(iter.len(), 1);
        *iter.next_back().unwrap() = 40;
        assert!(iter.next().is_none());
        assert!(iter.next_back().is_none());
    }
    assert_eq!(data, [10, 2, 3, 40, 5, 6, 70]);
}
