use raw_editor::export::{export_format, rgba_to_rgb, ExportFormat};
use raw_editor::import::{is_raw_extension, ImportResult, InsertOutcome};
use raw_editor::loader::RawDataResult;
use raw_editor::queue::{next_pass, CacheStatus, Pass, FAST_BATCH, SLOW_BATCH};
use raw_editor::scalar::Scalar;

#[test]
fn export_format_follows_the_extension() {
    assert_eq!(export_format("png"), ExportFormat::Png);
    assert_eq!(export_format("PNG"), ExportFormat::Png);
    assert_eq!(export_format("Png"), ExportFormat::Png);
    assert_eq!(export_format("jpg"), ExportFormat::Jpeg);
    assert_eq!(export_format("jpeg"), ExportFormat::Jpeg);
    assert_eq!(export_format(""), ExportFormat::Jpeg);
    assert_eq!(export_format("pn"), ExportFormat::Jpeg);
    assert_eq!(export_format("pngx"), ExportFormat::Jpeg);
    assert_eq!(export_format("tif"), ExportFormat::Jpeg);
    assert_eq!(export_format("pñg"), ExportFormat::Jpeg);
}

#[test]
fn rgb_drops_alpha() {
    assert_eq!(rgba_to_rgb(&[1, 2, 3, 255, 4, 5, 6, 0]), vec![1, 2, 3, 4, 5, 6]);
    assert_eq!(rgba_to_rgb(&[1, 2, 3, 255, 4, 5, 6]), vec![1, 2, 3]);
    assert_eq!(rgba_to_rgb(&[1, 2, 3]), Vec::<u8>::new());
    assert_eq!(rgba_to_rgb(&[]), Vec::<u8>::new());
    let rgba: Vec<u8> = (0..400u32).map(|i| (i % 256) as u8).collect();
    let expected: Vec<u8> = rgba.chunks_exact(4).flat_map(|p| [p[0], p[1], p[2]]).collect();
    assert_eq!(rgba_to_rgb(&rgba), expected);
}

#[test]
fn raw_extensions_are_recognised_in_any_case() {
    let raw = [
        "nef", "dng", "cr2", "cr3", "arw", "raf", "orf", "rw2", "pef", "srw", "erf", "kdc",
        "dcr", "mos", "raw", "rwl",
    ];
    for ext in raw {
        assert!(is_raw_extension(ext), "{}", ext);
        assert!(is_raw_extension(&ext.to_uppercase()), "{}", ext);
    }
    assert!(is_raw_extension("Nef"));
    assert!(is_raw_extension("cR2"));
    for ext in ["jpg", "png", "ne", "neff", "", "cr4", "n3f", "xmp", "tif", "ra w", "nèf"] {
        assert!(!is_raw_extension(ext), "{}", ext);
    }
}

#[test]
fn import_result_counts_new_and_duplicate_files() {
    let mut r = ImportResult::new();
    assert_eq!(r, ImportResult { imported_count: 0, skipped_count: 0 });
    r.record(InsertOutcome::Inserted);
    r.record(InsertOutcome::Duplicate);
    r.record(InsertOutcome::Inserted);
    r.record(InsertOutcome::Failed);
    assert_eq!(r, ImportResult { imported_count: 2, skipped_count: 1 });
    let mut full = ImportResult { imported_count: usize::MAX, skipped_count: usize::MAX };
    full.record(InsertOutcome::Inserted);
    full.record(InsertOutcome::Duplicate);
    assert_eq!(full, ImportResult { imported_count: usize::MAX, skipped_count: usize::MAX });
}

#[test]
fn cache_status_names() {
    assert_eq!(CacheStatus::Pending.as_str(), "pending");
    assert_eq!(CacheStatus::Cached.as_str(), "cached");
    assert_eq!(CacheStatus::NeedsSlow.as_str(), "needs_slow");
    assert_eq!(CacheStatus::Failed.as_str(), "failed");
}

#[test]
fn thumbnails_go_through_two_passes() {
    let (pending, cached) = (CacheStatus::Pending, CacheStatus::Cached);
    let (needs_slow, failed) = (CacheStatus::NeedsSlow, CacheStatus::Failed);
    assert_eq!(pending.after_attempt(true), cached);
    assert_eq!(pending.after_attempt(false), needs_slow);
    assert_eq!(needs_slow.after_attempt(true), cached);
    assert_eq!(needs_slow.after_attempt(false), failed);
    for generated in [true, false] {
        assert_eq!(cached.after_attempt(generated), cached);
        assert_eq!(failed.after_attempt(generated), failed);
    }
    assert_eq!(cached.after_verification(true), cached);
    assert_eq!(cached.after_verification(false), pending);
    for s in [pending, needs_slow, failed] {
        assert_eq!(s.after_verification(false), s);
        assert_eq!(s.after_verification(true), s);
    }
}

#[test]
fn the_slow_pass_waits_for_the_fast_one() {
    assert_eq!(next_pass(3, 0), Pass::Fast(FAST_BATCH));
    assert_eq!(next_pass(1, 7), Pass::Fast(5));
    assert_eq!(next_pass(0, 7), Pass::Slow(SLOW_BATCH));
    assert_eq!(next_pass(0, 1), Pass::Slow(1));
    assert_eq!(next_pass(0, 0), Pass::Idle);
}

#[test]
fn frames_hold_one_sample_per_position() {
    let one = Scalar::one();
    let zero = Scalar::zero();
    let f = RawDataResult::new(vec![1, 2, 3, 4, 5, 6], 3, 2, [one; 4], [zero; 9]).unwrap();
    assert!(f.is_consistent());
    assert_eq!((f.width, f.height), (3, 2));
    assert_eq!(f.data, vec![1, 2, 3, 4, 5, 6]);
    assert!(RawDataResult::new(vec![1, 2, 3, 4, 5], 3, 2, [one; 4], [zero; 9]).is_none());
    assert!(RawDataResult::new(vec![], 0, 9, [one; 4], [zero; 9]).is_some());
    let mut g = f.clone();
    g.width = 4;
    assert!(!g.is_consistent());
}
