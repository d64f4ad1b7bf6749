use probationdesk::cursor::{
    cursor_shape, fix_cursor_mask, get_cursor_data, outline_len, CursorData, CursorError,
    CursorShape,
};

#[test]
fn a_cursor_with_alpha_is_left_alone() {
    let mut mask = vec![0x7F, 0xFF];
    let mut colors = vec![10, 20, 30, 0, 1, 2, 3, 9];
    assert!(!fix_cursor_mask(&mut mask, &mut colors, 2, 1, 2));
    assert_eq!(mask, vec![0x7F, 0xFF]);
    assert_eq!(colors, vec![10, 20, 30, 0, 1, 2, 3, 9]);
}

#[test]
fn an_opaque_pixel_keeps_its_colour_and_a_masked_one_turns_transparent() {
    let mut mask = vec![0x7F, 0xFF];
    let mut colors = vec![10, 20, 30, 0, 0, 0, 0, 0];
    assert!(fix_cursor_mask(&mut mask, &mut colors, 2, 1, 2));
    assert_eq!(mask, vec![0x80, 0xFF]);
    assert_eq!(colors, vec![30, 20, 10, 255, 0, 0, 0, 0]);
}

#[test]
fn an_inverting_pixel_turns_black() {
    let mut mask = vec![0xFF, 0, 0, 0];
    let mut colors = vec![1, 2, 3, 0];
    assert!(fix_cursor_mask(&mut mask, &mut colors, 1, 1, 4));
    assert_eq!(mask, vec![0x80, 0, 0, 0]);
    assert_eq!(colors, vec![0, 0, 0, 255]);
}

#[test]
fn rows_are_packed_from_their_stride() {
    // Two rows of nine pixels: two bytes of mask in a row of four.
    let mut mask = vec![0x00, 0x7F, 0xAA, 0xAA, 0xFF, 0xFF, 0xBB, 0xBB];
    let mut colors = vec![0u8; 2 * 9 * 4];
    colors[4 * 9] = 5; // the first pixel of the second row has a colour
    assert!(fix_cursor_mask(&mut mask, &mut colors, 9, 2, 4));
    assert_eq!(mask, vec![0xFF, 0x80, 0x80, 0x00, 0xFF, 0xFF, 0xBB, 0xBB]);
    let mut expected = vec![0u8; 2 * 9 * 4];
    for p in 0..9 {
        expected[4 * p + 3] = 255;
    }
    expected[4 * 9 + 3] = 255;
    assert_eq!(colors, expected);
}

#[test]
fn a_mask_that_is_too_short_leaves_the_pixels_opaque() {
    let mut mask: Vec<u8> = vec![];
    let mut colors = vec![1, 2, 3, 0, 0, 0, 0, 0, 9, 9, 9];
    assert!(fix_cursor_mask(&mut mask, &mut colors, 2, 1, 1));
    assert_eq!(mask, Vec::<u8>::new());
    assert_eq!(colors, vec![3, 2, 1, 255, 0, 0, 0, 255, 9, 9, 9]);
}

#[test]
fn an_empty_cursor_is_fixed_by_doing_nothing() {
    let mut mask = vec![1, 2, 3];
    let mut colors = vec![4, 5, 6, 7];
    assert!(fix_cursor_mask(&mut mask, &mut colors, 0, 5, 2));
    assert!(fix_cursor_mask(&mut mask, &mut colors, 5, 0, 2));
    assert_eq!(mask, vec![1, 2, 3]);
    assert_eq!(colors, vec![4, 5, 6, 7]);
}

fn in_place(mbits: &mut Vec<u8>, cbits: &mut Vec<u8>, width: usize, height: usize, stride: usize) -> bool {
    for p in 0..width * height {
        if cbits[4 * p + 3] != 0 {
            return false;
        }
    }
    let packed = (width + 7) / 8;
    for y in 0..height {
        for x in 0..packed {
            let (a, b) = (y * packed + x, y * stride + x);
            if a < mbits.len() && b < mbits.len() {
                mbits[a] = !mbits[b];
            }
        }
    }
    for y in 0..height {
        for x in 0..width {
            let i = y * packed + x / 8;
            let p = y * width + x;
            let bit = 0x80u8 >> (x % 8);
            if i < mbits.len() && mbits[i] & bit == 0 && cbits[4 * p..4 * p + 4] != [0, 0, 0, 0] {
                mbits[i] |= bit;
                cbits[4 * p..4 * p + 4].copy_from_slice(&[0, 0, 0, 0]);
            }
        }
    }
    for y in 0..height {
        for x in 0..width {
            let i = y * packed + x / 8;
            let p = y * width + x;
            let opaque = i >= mbits.len() || mbits[i] & (0x80u8 >> (x % 8)) != 0;
            cbits.swap(4 * p, 4 * p + 2);
            cbits[4 * p + 3] = if opaque { 255 } else { 0 };
        }
    }
    true
}

#[test]
fn every_pixel_is_fixed_on_its_own() {
    let mut seed: u32 = 0x2545_F491;
    let mut next = move || {
        seed ^= seed << 13;
        seed ^= seed >> 17;
        seed ^= seed << 5;
        seed
    };
    for round in 0..400 {
        let width = (next() % 20) as usize;
        let height = (next() % 6) as usize;
        let stride = (next() % 5) as usize;
        let mask_len = (next() % 24) as usize;
        let mut mask: Vec<u8> = (0..mask_len).map(|_| next() as u8).collect();
        let mut colors: Vec<u8> = (0..width * height * 4 + (next() % 3) as usize)
            .map(|_| if next() % 3 == 0 { next() as u8 } else { 0 })
            .collect();
        if round % 10 != 0 {
            for p in 0..width * height {
                colors[4 * p + 3] = 0;
            }
        }
        let (mut expected_mask, mut expected_colors) = (mask.clone(), colors.clone());
        let expected = in_place(&mut expected_mask, &mut expected_colors, width, height, stride);
        assert_eq!(fix_cursor_mask(&mut mask, &mut colors, width, height, stride), expected);
        assert_eq!(mask, expected_mask, "{}x{} stride {}", width, height, stride);
        assert_eq!(colors, expected_colors, "{}x{} stride {}", width, height, stride);
    }
}

#[test]
fn the_shape_of_a_cursor_follows_its_mask_bitmap() {
    assert_eq!(
        cursor_shape(true, 32, 32, 4),
        Ok(CursorShape { width: 32, height: 32, colors_len: 4096, mask_len: 128 })
    );
    assert_eq!(
        cursor_shape(false, 32, 64, 4),
        Ok(CursorShape { width: 32, height: 32, colors_len: 4096, mask_len: 256 })
    );
    assert_eq!(
        cursor_shape(false, 2, 5, 2),
        Ok(CursorShape { width: 2, height: 2, colors_len: 16, mask_len: 10 })
    );
}

#[test]
fn a_cursor_of_fewer_than_four_pixels_is_too_small() {
    assert_eq!(cursor_shape(true, 1, 3, 2), Err(CursorError::TooSmall));
    assert_eq!(cursor_shape(false, 3, 3, 2), Err(CursorError::TooSmall));
    assert_eq!(cursor_shape(true, 0, 0, 0), Err(CursorError::TooSmall));
    assert_eq!(
        cursor_shape(true, 2, 2, 0),
        Ok(CursorShape { width: 2, height: 2, colors_len: 16, mask_len: 0 })
    );
}

#[test]
fn a_bitmap_that_is_malformed_or_too_large_is_refused() {
    assert_eq!(cursor_shape(true, -1, 32, 4), Err(CursorError::Malformed));
    assert_eq!(cursor_shape(true, 32, -32, 4), Err(CursorError::Malformed));
    assert_eq!(cursor_shape(true, 32, 32, -4), Err(CursorError::Malformed));
    assert_eq!(cursor_shape(true, 65536, 8192, 8192), Err(CursorError::TooLarge));
    assert_eq!(cursor_shape(true, 4, 4, i32::MAX), Err(CursorError::TooLarge));
    assert_eq!(cursor_shape(true, i32::MAX, i32::MAX, i32::MAX), Err(CursorError::TooLarge));
    assert_eq!(
        cursor_shape(true, 1, 536870911, 1),
        Ok(CursorShape { width: 1, height: 536870911, colors_len: 2147483644, mask_len: 536870911 })
    );
}

#[test]
fn an_outline_widens_the_cursor_and_moves_the_hot_spot() {
    let shape = CursorShape { width: 32, height: 16, colors_len: 2048, mask_len: 64 };
    assert_eq!(outline_len(shape), Some(34 * 18 * 4));
    assert_eq!(
        get_cursor_data(77, shape, vec![1, 2], 3, 4, None),
        CursorData { id: 77, colors: vec![1, 2], hotx: 3, hoty: 4, width: 32, height: 16 }
    );
    assert_eq!(
        get_cursor_data(77, shape, vec![1, 2], 3, 4, Some(vec![9, 9, 9])),
        CursorData { id: 77, colors: vec![9, 9, 9], hotx: 4, hoty: 5, width: 34, height: 18 }
    );
    assert_eq!(
        outline_len(CursorShape { width: -1, height: 1, colors_len: 0, mask_len: 0 }),
        None
    );
    assert_eq!(
        outline_len(CursorShape { width: 32766, height: 16382, colors_len: 0, mask_len: 0 }),
        None
    );
}
