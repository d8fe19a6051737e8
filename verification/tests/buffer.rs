use gdal::raster::buffer::buffer_len_matches;
use gdal::raster::buffer::{Buffer, ByteBuffer};

#[test]
fn index() {
    // Tests if there is one-to-one mapping between whole buffer, and whole range of indices
    fn indices_biject_buffer(cols: usize, rows: usize) {
        // Empty buffer
        let mut b = Buffer::new((cols, rows), vec![0; cols * rows]);

        // Tests mapping is injective
        for x in 0..cols {
            for y in 0..rows {
                if *b.get((y, x)) == 1 {
                    panic!();
                } else {
                    b.set((y, x), 1);
                }
            }
        }

        // Tests mapping is surjective
        for x in 0..cols {
            for y in 0..rows {
                if *b.get((y, x)) == 0 {
                    panic!();
                }
            }
        }
    }

    indices_biject_buffer(5, 7);
    indices_biject_buffer(7, 5);
}

#[test]
fn iter() {
    // Iter on ref
    let b = Buffer::new((5, 7), (0..5 * 7).collect::<Vec<i32>>());
    let mut iter = b.data().iter();
    let _ = iter.next().unwrap();
    let v = iter.next().unwrap();
    assert_eq!(*v, *b.get((0, 1)));

    // Iter on owned
    let mut iter = b.clone().into_shape_and_vec().1.into_iter();
    let _ = iter.next().unwrap();
    let v = iter.next().unwrap();
    assert_eq!(v, *b.get((0, 1)));

    // Iter on mut
    let mut b = b;
    let mut iter = b.data_mut().iter_mut();
    let _ = iter.next().unwrap();
    let v = iter.next().unwrap();
    *v = 99;

    assert_eq!(99, *b.get((0, 1)));
}

#[test]
fn shape_and_row_major_layout() {
    let b = Buffer::new((3, 2), vec![10u8, 11, 12, 20, 21, 22]);
    assert_eq!(b.shape(), (3, 2));
    assert_eq!(b.width(), 3);
    assert_eq!(b.height(), 2);
    assert_eq!(b.len(), 6);
    assert!(!b.is_empty());
    assert_eq!(*b.get((1, 0)), 20);
    assert_eq!(*b.get((0, 2)), 12);
    let (shape, data) = b.into_shape_and_vec();
    assert_eq!(shape, (3, 2));
    assert_eq!(data, vec![10, 11, 12, 20, 21, 22]);
}

#[test]
fn write_then_read_leaves_other_cells() {
    let mut b: ByteBuffer = Buffer::new((2, 2), vec![0, 0, 0, 0]);
    b.set((1, 0), 7);
    assert_eq!(*b.get((1, 0)), 7);
    assert_eq!(b.data(), &[0, 0, 7, 0]);
    let e: Buffer<u16> = Buffer::new((0, 4), vec![]);
    assert!(e.is_empty());
}

#[test]
fn slice_length_checks() {
    assert!(buffer_len_matches(6, (3, 2)));
    assert!(!buffer_len_matches(5, (3, 2)));
    assert!(buffer_len_matches(0, (0, 9)));
    assert!(!buffer_len_matches(0, (usize::MAX, 2)));
}
