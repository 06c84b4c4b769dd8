use radial_gravity::spiral::{perimeter, SpiralIterator};

#[test]
fn check_spiral_iterator() {
    let mut iter = SpiralIterator::new((0, 0));

    assert_eq!(iter.next(), (0, 0));

    assert_eq!(iter.next(), (1, 0));
    assert_eq!(iter.next(), (1, 1));
    assert_eq!(iter.next(), (0, 1));
    assert_eq!(iter.next(), (-1, 1));
    assert_eq!(iter.next(), (-1, 0));
    assert_eq!(iter.next(), (-1, -1));
    assert_eq!(iter.next(), (0, -1));
    assert_eq!(iter.next(), (1, -1));

    assert_eq!(iter.next(), (2, -1));
    assert_eq!(iter.next(), (2, 0));
    assert_eq!(iter.next(), (2, 1));
    assert_eq!(iter.next(), (2, 2));
    assert_eq!(iter.next(), (1, 2));
    assert_eq!(iter.next(), (0, 2));
    assert_eq!(iter.next(), (-1, 2));
    assert_eq!(iter.next(), (-2, 2));
    assert_eq!(iter.next(), (-2, 1));
    assert_eq!(iter.next(), (-2, 0));
    assert_eq!(iter.next(), (-2, -1));
    assert_eq!(iter.next(), (-2, -2));
    assert_eq!(iter.next(), (-1, -2));
    assert_eq!(iter.next(), (0, -2));
    assert_eq!(iter.next(), (1, -2));
    assert_eq!(iter.next(), (2, -2));
}

#[test]
fn check_perimeter() {
    let perimeter = perimeter((-1, -1), 2);

    assert_eq!(perimeter[0], (-1, -1));
    assert_eq!(perimeter[1], (0, -1));
    assert_eq!(perimeter[2], (1, -1));
    assert_eq!(perimeter[3], (1, 0));
    assert_eq!(perimeter[4], (1, 1));
    assert_eq!(perimeter[5], (0, 1));
    assert_eq!(perimeter[6], (-1, 1));
    assert_eq!(perimeter[7], (-1, 0));

    assert_eq!(perimeter.len(), 8);
}

#[test]
fn check_perimeter_larger() {
    let perimeter = perimeter((0, 0), 4);

    let expected = [
        (0, 0),
        (1, 0),
        (2, 0),
        (3, 0),
        (4, 0),
        (4, 1),
        (4, 2),
        (4, 3),
        (4, 4),
        (3, 4),
        (2, 4),
        (1, 4),
        (0, 4),
        (0, 3),
        (0, 2),
        (0, 1),
    ];

    for (i, expected) in expected.into_iter().enumerate() {
        assert_eq!(perimeter[i], expected);
    }

    assert_eq!(perimeter.len(), 16);
}
