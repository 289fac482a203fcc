use vectrix::Stride;

#[test]
fn stride_get_index() {
    let stride = Stride::<_, 2>::new(&[1, 2, 3, 4, 5, 6]);
    assert_eq!(stride.get(0), Some(&1));
    assert_eq!(stride.get(1), Some(&3));
    assert_eq!(stride.get(2), Some(&5));
    assert_eq!(stride.get(3), None);
}

#[test]
fn stride_get_range() {
    let stride = Stride::<_, 2>::new(&[1, 2, 3, 4, 5, 6]);
    assert_eq!(stride.get(0..0), Some(Stride::<_, 2>::new(&[])));
    assert_eq!(stride.get(0..1), Some(Stride::<_, 2>::new(&[1, 2])));
    assert_eq!(stride.get(0..2), Some(Stride::<_, 2>::new(&[1, 2, 3, 4])));
    assert_eq!(stride.get(0..3), Some(stride));
    assert_eq!(stride.get(0..4), None);
}

#[test]
fn stride_get_range_from() {
    let stride = Stride::<_, 2>::new(&[1, 2, 3, 4, 5, 6]);
    assert_eq!(stride.get(0..), Some(stride));
    assert_eq!(stride.get(1..), Some(Stride::<_, 2>::new(&[3, 4, 5, 6])));
    assert_eq!(stride.get(2..), Some(Stride::<_, 2>::new(&[5, 6])));
    assert_eq!(stride.get(3..), Some(Stride::<_, 2>::new(&[])));
    assert_eq!(stride.get(4..), None);
}

#[test]
fn stride_get_range_full() {
    let stride = Stride::<_, 2>::new(&[1, 2, 3, 4, 5, 6]);
    assert_eq!(stride.get(..), Some(stride));
}

#[test]
fn stride_get_range_inclusive() {
    let stride = Stride::<_, 2>::new(&[1, 2, 3, 4, 5, 6]);
    assert_eq!(stride.get(0..=0), Some(Stride::<_, 2>::new(&[1, 2])));
    assert_eq!(stride.get(0..=1), Some(Stride::<_, 2>::new(&[1, 2, 3, 4])));
    assert_eq!(stride.get(0..=2), Some(stride));
    assert_eq!(stride.get(0..=3), None);
}

#[test]
fn stride_get_range_to() {
    let stride = Stride::<_, 2>::new(&[1, 2, 3, 4, 5, 6]);
    assert_eq!(stride.get(..0), Some(Stride::<_, 2>::new(&[])));
    assert_eq!(stride.get(..1), Some(Stride::<_, 2>::new(&[1, 2])));
    assert_eq!(stride.get(..2), Some(Stride::<_, 2>::new(&[1, 2, 3, 4])));
    assert_eq!(stride.get(..3), Some(stride));
    assert_eq!(stride.get(..4), None);
}

#[test]
fn stride_get_range_to_inclusive() {
    let stride = Stride::<_, 2>::new(&[1, 2, 3, 4, 5, 6]);
    assert_eq!(stride.get(..=0), Some(Stride::<_, 2>::new(&[1, 2])));
    assert_eq!(stride.get(..=1), Some(Stride::<_, 2>::new(&[1, 2, 3, 4])));
    assert_eq!(stride.get(..=2), Some(stride));
    assert_eq!(stride.get(..=3), None);
}

#[test]
fn stride_get_range_selects_physical_offsets() {
    // The range is taken over the region, so the sub-view keeps its own
    // region, not only the elements it shows.
    let stride = Stride::<_, 3>::new(&[1, 2, 3, 4, 5, 6, 7]);
    let sub = stride.get(1..2).unwrap();
    assert_eq!(sub.region_slice(), &[4, 5, 6]);
    assert_eq!(sub.len(), 1);
    // A full range over a region whose length is not a multiple of the
    // stride reaches past it.
    assert_eq!(stride.get(0..3), None);
    assert_eq!(stride.get(usize::MAX..), None);
}
