use color_picker::image::{render_image, BLANK_BYTE, HSL_BOX_SIZE, RBF_BOX_SIZE};

fn coordinates(x: usize, y: usize) -> (u8, u8, u8, u8) {
    (x as u8, y as u8, 7, 255)
}

#[test]
fn square_box_is_painted_row_major() {
    let image = render_image(3, 3, coordinates);
    assert_eq!(image.len(), 3 * 3 * 4);
    for y in 0..3 {
        for x in 0..3 {
            let o = (y * 3 + x) * 4;
            assert_eq!(&image[o..o + 4], &[x as u8, y as u8, 7, 255]);
        }
    }
}

#[test]
fn exact_bytes_of_a_small_box() {
    let image = render_image(2, 2, |x, y| ((10 * x + y) as u8, 1, 2, 3));
    assert_eq!(image, vec![0, 1, 2, 3, 10, 1, 2, 3, 1, 1, 2, 3, 11, 1, 2, 3]);
}

#[test]
fn rows_past_the_height_stay_blank() {
    let image = render_image(4, 2, coordinates);
    assert_eq!(image.len(), 4 * 4 * 4);
    for i in 0..(2 * 4 * 4) {
        let pixel = i / 4;
        let expected = match i % 4 {
            0 => (pixel % 4) as u8,
            1 => (pixel / 4) as u8,
            2 => 7,
            _ => 255,
        };
        assert_eq!(image[i], expected);
    }
    for i in (2 * 4 * 4)..image.len() {
        assert_eq!(image[i], BLANK_BYTE);
    }
}

#[test]
fn zero_height_leaves_the_whole_box_blank() {
    let image = render_image(5, 0, coordinates);
    assert_eq!(image, vec![255u8; 5 * 5 * 4]);
}

#[test]
fn empty_box_has_no_bytes() {
    let image = render_image(0, 0, coordinates);
    assert!(image.is_empty());
}

#[test]
fn every_pixel_is_asked_once_with_its_own_coordinates() {
    let image = render_image(HSL_BOX_SIZE, HSL_BOX_SIZE, |x, y| {
        ((x % 256) as u8, (y % 256) as u8, ((x + y) % 256) as u8, 255)
    });
    assert_eq!(image.len(), 256 * 256 * 4);
    let o = (200 * 256 + 17) * 4;
    assert_eq!(&image[o..o + 4], &[17, 200, 217, 255]);
}

#[test]
fn box_sizes() {
    assert_eq!(HSL_BOX_SIZE, 256);
    assert_eq!(RBF_BOX_SIZE, 320);
    let image = render_image(RBF_BOX_SIZE, RBF_BOX_SIZE, |_, _| (1, 2, 3, 255));
    assert_eq!(image.len(), 320 * 320 * 4);
    assert!(image.chunks(4).all(|p| p == [1, 2, 3, 255]));
}
