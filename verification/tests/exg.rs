use rustspray::exg::{exg_is_vegetation, exg_mask, exg_mask_into, mask_from_bytes};
use rustspray::InvalidInput;

#[test]
fn exg_detects_green() {
    // Pixel with strong green component should pass threshold.
    let rgb = [10u8, 240u8, 10u8];
    let mask = exg_mask(&rgb, 100).unwrap();
    assert!(mask[0]);
}

#[test]
fn exg_rejects_non_green() {
    let rgb = [120u8, 120u8, 120u8];
    let mask = exg_mask(&rgb, 10).unwrap();
    assert!(!mask[0]);
}

#[test]
fn exg_rejects_partial_pixel() {
    for len in [1usize, 2, 4, 5, 7] {
        let rgb = vec![200u8; len];
        assert_eq!(exg_mask(&rgb, 16), Err(InvalidInput::RgbLength));
    }
}

#[test]
fn exg_mask_of_empty_buffer_is_empty() {
    assert_eq!(exg_mask(&[], 16), Ok(vec![]));
}

#[test]
fn exg_mask_has_one_entry_per_pixel() {
    for pixels in 0usize..40 {
        let rgb = vec![7u8; pixels * 3];
        assert_eq!(exg_mask(&rgb, 0).unwrap().len(), pixels);
    }
}

#[test]
fn exg_tie_is_vegetation() {
    // 2 * 100 - 50 - 50 = 100
    assert!(exg_is_vegetation(50, 100, 50, 100));
    assert!(!exg_is_vegetation(50, 100, 50, 101));
    assert!(exg_is_vegetation(50, 100, 50, 99));
}

#[test]
fn exg_score_extremes() {
    // 2 * 255 - 0 - 0 = 510, the largest score
    assert!(exg_is_vegetation(0, 255, 0, 510));
    assert!(!exg_is_vegetation(0, 255, 0, 511));
    // 2 * 0 - 255 - 255 = -510, the smallest score
    assert!(exg_is_vegetation(255, 0, 255, -510));
    assert!(!exg_is_vegetation(255, 0, 255, -509));
    assert!(exg_is_vegetation(255, 0, 255, i16::MIN));
    assert!(!exg_is_vegetation(0, 255, 0, i16::MAX));
}

#[test]
fn exg_bit_depends_on_its_own_triplet() {
    let a = [10u8, 240, 10, 120, 120, 120, 0, 0, 0];
    let b = [10u8, 240, 10, 1, 2, 3, 255, 255, 255];
    let mask_a = exg_mask(&a, 100).unwrap();
    let mask_b = exg_mask(&b, 100).unwrap();
    assert_eq!(mask_a[0], mask_b[0]);
    // each bit is the single-pixel mask of its triplet
    for (i, px) in a.chunks(3).enumerate() {
        assert_eq!(vec![mask_a[i]], exg_mask(px, 100).unwrap());
    }
}

#[test]
fn exg_long_buffer_matches_pixel_rule() {
    // more pixels than any vector width, and not a multiple of one
    let mut rgb = Vec::new();
    for i in 0..53u32 {
        rgb.push((i * 37 % 256) as u8);
        rgb.push((i * 91 % 256) as u8);
        rgb.push((i * 13 % 256) as u8);
    }
    let mask = exg_mask(&rgb, 16).unwrap();
    assert_eq!(mask.len(), 53);
    for i in 0..53 {
        let score = 2 * rgb[3 * i + 1] as i32 - rgb[3 * i] as i32 - rgb[3 * i + 2] as i32;
        assert_eq!(mask[i], score >= 16);
    }
}

#[test]
fn exg_mask_into_fills_bytes() {
    let rgb = [10u8, 240, 10, 120, 120, 120];
    let mut mask = [9u8; 2];
    assert_eq!(exg_mask_into(&rgb, &mut mask, 100), Ok(()));
    assert_eq!(mask, [1, 0]);
}

#[test]
fn exg_mask_into_rejects_wrong_mask_length() {
    let rgb = [10u8, 240, 10, 120, 120, 120];
    let mut short = [9u8; 1];
    assert_eq!(exg_mask_into(&rgb, &mut short, 100), Err(InvalidInput::MaskLength));
    assert_eq!(short, [9]);
    let mut long = [9u8; 3];
    assert_eq!(exg_mask_into(&rgb, &mut long, 100), Err(InvalidInput::MaskLength));
    assert_eq!(long, [9, 9, 9]);
}

#[test]
fn exg_mask_into_rejects_partial_pixel_first() {
    let rgb = [10u8, 240, 10, 120];
    let mut mask = [9u8; 7];
    assert_eq!(exg_mask_into(&rgb, &mut mask, 100), Err(InvalidInput::RgbLength));
    assert_eq!(mask, [9u8; 7]);
}

#[test]
fn mask_from_bytes_sets_nonzero() {
    assert_eq!(mask_from_bytes(&[1, 0, 2, 255, 0]), vec![true, false, true, true, false]);
    assert_eq!(mask_from_bytes(&[]), Vec::<bool>::new());
}
