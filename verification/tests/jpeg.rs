use raw_editor::jpeg::{
    extract_embedded_jpeg_extended, extract_embedded_jpeg_fast, extract_embedded_jpeg_full,
    extract_jpeg_from_data, extract_jpeg_from_head, extract_largest_jpeg, find_eoi,
    jpeg_candidates, pick_largest, scan_for_largest_jpeg,
};

fn fake_jpeg(len: usize, fill: u8) -> Vec<u8> {
    assert!(len >= 5);
    let mut v = vec![0xFF, 0xD8, 0xFF];
    v.extend(std::iter::repeat(fill).take(len - 5));
    v.extend([0xFF, 0xD9]);
    v
}

fn real_jpeg(width: u32, height: u32) -> Vec<u8> {
    let mut img = image::RgbImage::new(width, height);
    for (x, y, p) in img.enumerate_pixels_mut() {
        *p = image::Rgb([(x * 7) as u8, (y * 5) as u8, 90]);
    }
    let mut out = Vec::new();
    image::codecs::jpeg::JpegEncoder::new_with_quality(&mut out, 80)
        .encode_image(&img)
        .unwrap();
    out
}

#[test]
fn find_eoi_finds_the_first_marker() {
    let data = [0u8, 0xFF, 0xD9, 1, 0xFF, 0xD9];
    assert_eq!(find_eoi(&data, 0), Some(1));
    assert_eq!(find_eoi(&data, 1), Some(1));
    assert_eq!(find_eoi(&data, 2), Some(4));
    assert_eq!(find_eoi(&data, 5), None);
    assert_eq!(find_eoi(&data, 6), None);
    assert_eq!(find_eoi(&data, 100), None);
    assert_eq!(find_eoi(&[], 0), None);
    assert_eq!(find_eoi(&[0xFF], 0), None);
}

#[test]
fn extract_returns_first_jpeg_over_min_size() {
    let mut data = vec![1u8, 2, 3];
    let small = fake_jpeg(10, 0x11);
    let large = fake_jpeg(40, 0x22);
    let larger = fake_jpeg(80, 0x33);
    data.extend(&small);
    data.extend([9, 9]);
    data.extend(&large);
    data.extend(&larger);
    assert_eq!(extract_jpeg_from_data(&data, 0), Some(small.clone()));
    assert_eq!(extract_jpeg_from_data(&data, 9), Some(small.clone()));
    assert_eq!(extract_jpeg_from_data(&data, 10), Some(large.clone()));
    assert_eq!(extract_jpeg_from_data(&data, 39), Some(large.clone()));
    assert_eq!(extract_jpeg_from_data(&data, 40), Some(larger.clone()));
    assert_eq!(extract_jpeg_from_data(&data, 80), None);
    assert_eq!(extract_jpeg_from_data(&[], 0), None);
    assert_eq!(extract_jpeg_from_data(&[0xFF, 0xD8, 0xFF], 0), None);
}

#[test]
fn extract_looks_at_six_starts_only() {
    let mut data = Vec::new();
    for _ in 0..6 {
        data.extend(fake_jpeg(8, 0x01));
    }
    let seventh = fake_jpeg(30, 0x02);
    data.extend(&seventh);
    assert_eq!(extract_jpeg_from_data(&data, 8), None);
    assert_eq!(extract_jpeg_from_data(&data[8..], 8), Some(seventh));
}

#[test]
fn extract_from_head_truncates() {
    let mut data = vec![0u8; 20];
    let j = fake_jpeg(30, 0x44);
    data.extend(&j);
    assert_eq!(extract_jpeg_from_head(&data, 50, 10), Some(j.clone()));
    assert_eq!(extract_jpeg_from_head(&data, 49, 10), None);
    assert_eq!(extract_jpeg_from_head(&data, 1000, 10), Some(j));
    assert_eq!(extract_jpeg_from_head(&data, 0, 0), None);
}

#[test]
fn tiers_differ_in_reach_and_size() {
    let mut data = vec![0u8; 300 * 1024];
    let j = fake_jpeg(40_000, 0x55);
    data.extend(&j);
    assert_eq!(extract_embedded_jpeg_fast(&data), None);
    assert_eq!(extract_embedded_jpeg_extended(&data), Some(j.clone()));
    assert_eq!(extract_embedded_jpeg_full(&data), Some(j.clone()));

    let mut data = vec![0u8; 100];
    let big = fake_jpeg(50_001, 0x66);
    data.extend(&big);
    assert_eq!(extract_embedded_jpeg_fast(&data), Some(big));
    let mut data = vec![0u8; 100];
    data.extend(fake_jpeg(50_000, 0x66));
    assert_eq!(extract_embedded_jpeg_fast(&data), None);

    let mut data = vec![0u8; 600 * 1024];
    let j = fake_jpeg(10_001, 0x77);
    data.extend(&j);
    assert_eq!(extract_embedded_jpeg_extended(&data), None);
    assert_eq!(extract_embedded_jpeg_full(&data), Some(j));
}

#[test]
fn scan_returns_largest_first_of_equals() {
    let a = fake_jpeg(20, 0xA0);
    let b = fake_jpeg(50, 0xB0);
    let c = fake_jpeg(50, 0xC0);
    let mut data = vec![7u8; 5];
    data.extend(&a);
    data.extend(&b);
    data.extend([1, 2, 3]);
    data.extend(&c);
    assert_eq!(scan_for_largest_jpeg(&data), Some(b));
    assert_eq!(scan_for_largest_jpeg(&a), Some(a.clone()));
    assert_eq!(scan_for_largest_jpeg(&[]), None);
    assert_eq!(scan_for_largest_jpeg(&[0xFF, 0xD8]), None);
    assert_eq!(scan_for_largest_jpeg(&[0xFF, 0xD8, 0xFF]), None);
    assert_eq!(scan_for_largest_jpeg(&[0xFF, 0xD8, 0xFF, 0xFF, 0xD9]), Some(vec![0xFF, 0xD8, 0xFF, 0xFF, 0xD9]));
    // the end marker may share its first byte with the start
    assert_eq!(scan_for_largest_jpeg(&[0xFF, 0xD8, 0xFF, 0xD9]), Some(vec![0xFF, 0xD8, 0xFF, 0xD9]));
    assert_eq!(scan_for_largest_jpeg(&[0xFF, 0xD8, 0x00, 0xFF, 0xD9]), None);
}

#[test]
fn scan_does_not_look_inside_a_found_jpeg() {
    // A start marker inside the first JPEG is skipped: the walk goes on behind the end marker.
    let data = [0xFF, 0xD8, 0xFF, 0xFF, 0xD8, 0xFF, 0xFF, 0xD9, 0, 0, 0, 0];
    assert_eq!(scan_for_largest_jpeg(&data), Some(data[0..8].to_vec()));
}

#[test]
fn candidates_are_all_starts_with_an_end() {
    let data = [0xFF, 0xD8, 1, 0xFF, 0xD8, 2, 0xFF, 0xD9, 0xFF, 0xD8, 3];
    assert_eq!(jpeg_candidates(&data), vec![(0, 8), (3, 8)]);
    assert_eq!(jpeg_candidates(&[]), vec![]);
    assert_eq!(jpeg_candidates(&[0xFF, 0xD8, 0xFF, 0xD9]), vec![(0, 4)]);
}

#[test]
fn pick_largest_prefers_longest_then_first() {
    let spans = [(0usize, 10usize), (20, 50), (60, 90), (5, 6)];
    assert_eq!(pick_largest(&spans, &[true, true, true, true]), Some(1));
    assert_eq!(pick_largest(&spans, &[true, false, true, true]), Some(2));
    assert_eq!(pick_largest(&spans, &[true, false, false, true]), Some(0));
    assert_eq!(pick_largest(&spans, &[false, false, false, true]), Some(3));
    assert_eq!(pick_largest(&spans, &[false, false, false, false]), None);
    assert_eq!(pick_largest(&spans, &[]), None);
    assert_eq!(pick_largest(&spans, &[false, true]), Some(1));
    assert_eq!(pick_largest(&[], &[true]), None);
    assert_eq!(pick_largest(&[(9, 3), (4, 4)], &[true, true]), Some(0));
}

/// Whether each candidate of `data` decodes, as a caller finds out.
fn decodes(data: &[u8]) -> Vec<bool> {
    jpeg_candidates(data)
        .iter()
        .map(|&(start, end)| {
            image::load_from_memory_with_format(&data[start..end], image::ImageFormat::Jpeg).is_ok()
        })
        .collect()
}

#[test]
fn largest_jpeg_is_the_largest_that_decodes() {
    let small = real_jpeg(8, 8);
    let large = real_jpeg(64, 48);
    assert!(large.len() > small.len());
    let bogus = fake_jpeg(large.len() + 500, 0x00);
    let mut data = vec![0u8; 16];
    data.extend(&small);
    data.extend([0u8; 7]);
    data.extend(&bogus);
    data.extend([0u8; 3]);
    data.extend(&large);
    data.extend([0u8; 9]);
    let found = extract_largest_jpeg(&data, &decodes(&data)).unwrap();
    assert_eq!(found, large);
    let img = image::load_from_memory_with_format(&found, image::ImageFormat::Jpeg).unwrap();
    assert_eq!((img.width(), img.height()), (64, 48));
    assert_eq!(extract_largest_jpeg(&bogus, &decodes(&bogus)), None);
    assert_eq!(extract_largest_jpeg(&[], &[]), None);
    assert_eq!(extract_largest_jpeg(&small, &decodes(&small)), Some(small.clone()));
}

#[test]
fn largest_jpeg_follows_the_decode_outcomes() {
    let a = fake_jpeg(20, 0xA0);
    let b = fake_jpeg(50, 0xB0);
    let c = fake_jpeg(50, 0xC0);
    let mut data = vec![7u8; 5];
    data.extend(&a);
    data.extend(&b);
    data.extend(&c);
    assert_eq!(jpeg_candidates(&data), vec![(5, 25), (25, 75), (75, 125)]);
    assert_eq!(extract_largest_jpeg(&data, &[true, true, true]), Some(b.clone()));
    assert_eq!(extract_largest_jpeg(&data, &[true, false, true]), Some(c.clone()));
    assert_eq!(extract_largest_jpeg(&data, &[true, false, false]), Some(a.clone()));
    assert_eq!(extract_largest_jpeg(&data, &[false, false, false]), None);
    // a candidate without an outcome counts as one that does not decode
    assert_eq!(extract_largest_jpeg(&data, &[true]), Some(a));
    assert_eq!(extract_largest_jpeg(&data, &[]), None);
    // outcomes beyond the candidates are not looked at
    assert_eq!(extract_largest_jpeg(&data, &[false, true, false, true, true]), Some(b));
    assert_eq!(extract_largest_jpeg(&[1, 2, 3], &[true, true]), None);
}
