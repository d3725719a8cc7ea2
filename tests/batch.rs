use epd_convert::batch::{archive_paths, is_archive, DirItem, Summary};
use epd_convert::error::{ConvertError, ExtractError, Failure, Outcome};

fn item(path: &str, is_file: bool) -> DirItem {
    DirItem { path: path.to_string(), is_file }
}

#[test]
fn only_zip_files_are_archives() {
    assert!(is_archive(&item("/d/a.zip", true)));
    assert!(!is_archive(&item("/d/a.zip", false)));
    assert!(!is_archive(&item("/d/a.parquet", true)));
    assert!(!is_archive(&item("/d/.zip", true)));
    assert!(!is_archive(&item("/d/a.ZIP", true)));
}

#[test]
fn archive_paths_keep_listing_order() {
    let listing = vec![
        item("/d/b.zip", true),
        item("/d/sub", false),
        item("/d/a.csv", true),
        item("/d/a.zip", true),
    ];
    assert_eq!(archive_paths(&listing), vec!["/d/b.zip".to_string(), "/d/a.zip".to_string()]);
}

#[test]
fn rerun_on_converted_directory_counts_nothing() {
    let listing = vec![item("/d/a.parquet", true), item("/d/b.parquet", true), item("/d/data", false)];
    let archives = archive_paths(&listing);
    assert!(archives.is_empty());
    let s = Summary::new(archives.len() as u64);
    assert_eq!((s.total, s.processed, s.succeeded, s.failed), (0, 0, 0, 0));
    assert_eq!(s.average(1_000), 0);
    assert_eq!(s.percent_done(), 0);
}

#[test]
fn failure_in_middle_does_not_stop_counting() {
    let mut s = Summary::new(3);
    s.record(&Outcome::Success);
    s.record(&Outcome::Failed(Failure::ExtractionFailed(ExtractError::FormatError)));
    s.record(&Outcome::Success);
    assert_eq!((s.total, s.processed, s.succeeded, s.failed), (3, 3, 2, 1));
    assert_eq!(s.percent_done(), 100);
}

#[test]
fn average_and_progress() {
    let mut s = Summary::new(4);
    s.record(&Outcome::Success);
    assert_eq!(s.percent_done(), 25);
    s.record(&Outcome::Failed(Failure::ConversionFailed(ConvertError::ParseError)));
    assert_eq!(s.average(1_001), 500);
    assert_eq!(s.percent_done(), 50);
}

#[test]
fn outcome_descriptions() {
    assert_eq!(Outcome::Success.describe(), "converted");
    assert_eq!(
        Outcome::Failed(Failure::ExtractionFailed(ExtractError::EmptyArchiveError)).describe(),
        "zip archive is empty"
    );
}
