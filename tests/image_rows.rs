use value_types::{Image, ImageError};

#[test]
fn new_fills_with_default_and_rows_have_width() {
    let img = match Image::<u8>::new(3, 2) {
        Ok(img) => img,
        Err(e) => panic!("unexpected {:?}", e),
    };
    for r in 0..2 {
        let row = img.row(r).unwrap();
        assert_eq!(row.len(), 3);
        assert!(row.iter().all(|p| *p == 0));
    }
    assert_eq!(img.row(2), Err(ImageError::RowOutOfBounds));
    assert_eq!(img.row(usize::MAX), Err(ImageError::RowOutOfBounds));
}

#[test]
fn new_rejects_size_overflow() {
    assert!(matches!(Image::<u8>::new(usize::MAX, 2), Err(ImageError::SizeOverflow)));
    assert!(matches!(Image::<u8>::filled(2, usize::MAX, 1), Err(ImageError::SizeOverflow)));
}

#[test]
fn filled_sets_every_pixel() {
    let img = match Image::filled(2, 3, 9u16) {
        Ok(img) => img,
        Err(e) => panic!("unexpected {:?}", e),
    };
    for r in 0..3 {
        assert_eq!(img.row(r).unwrap(), &[9u16, 9u16][..]);
    }
    assert_eq!(img.row(3), Err(ImageError::RowOutOfBounds));
}

#[test]
fn row_mut_writes_one_row() {
    let mut img = match Image::<i32>::new(4, 3) {
        Ok(img) => img,
        Err(e) => panic!("unexpected {:?}", e),
    };
    {
        let row = img.row_mut(1).unwrap();
        assert_eq!(row.len(), 4);
        row[0] = 7;
        row[3] = -2;
    }
    assert_eq!(img.row(0).unwrap(), &[0, 0, 0, 0][..]);
    assert_eq!(img.row(1).unwrap(), &[7, 0, 0, -2][..]);
    assert_eq!(img.row(2).unwrap(), &[0, 0, 0, 0][..]);
    assert!(img.row_mut(3).is_err());
    assert_eq!(img.row(1).unwrap(), &[7, 0, 0, -2][..]);
}

#[test]
fn zero_width_rows_are_empty() {
    let img = match Image::<u8>::new(0, 5) {
        Ok(img) => img,
        Err(e) => panic!("unexpected {:?}", e),
    };
    assert_eq!(img.row(4).unwrap().len(), 0);
    assert_eq!(img.row(5), Err(ImageError::RowOutOfBounds));
}

#[test]
fn zero_height_has_no_rows() {
    let img = match Image::<u8>::new(7, 0) {
        Ok(img) => img,
        Err(e) => panic!("unexpected {:?}", e),
    };
    assert_eq!(img.row(0), Err(ImageError::RowOutOfBounds));
}
