use epd_convert::archive::{extraction_dir, extraction_target};
use epd_convert::paths::{extension, file_name, join, parent_dir, stem};
use epd_convert::pipeline::output_path;

#[test]
fn file_name_takes_last_component() {
    assert_eq!(file_name("/data/in/EPD_202401.zip"), "EPD_202401.zip");
    assert_eq!(file_name("plain.zip"), "plain.zip");
    assert_eq!(file_name("/data/"), "");
}

#[test]
fn stem_drops_last_extension() {
    assert_eq!(stem("EPD_202401.zip"), "EPD_202401");
    assert_eq!(stem("a.b.zip"), "a.b");
    assert_eq!(stem(".zip"), ".zip");
    assert_eq!(stem("noext"), "noext");
    assert_eq!(stem(""), "unknown");
    assert_eq!(stem(".."), "unknown");
}

#[test]
fn extension_after_last_dot() {
    assert_eq!(extension("x.zip"), Some("zip".to_string()));
    assert_eq!(extension("x.tar.gz"), Some("gz".to_string()));
    assert_eq!(extension("x."), Some("".to_string()));
    assert_eq!(extension(".zip"), None);
    assert_eq!(extension("zip"), None);
    assert_eq!(extension(".."), None);
}

#[test]
fn join_uses_one_separator() {
    assert_eq!(join("/data/", "a.csv"), "/data/a.csv");
    assert_eq!(join("/data", "a.csv"), "/data/a.csv");
    assert_eq!(join("", "a.csv"), "a.csv");
    assert_eq!(join("/data", "/etc/a.csv"), "/etc/a.csv");
}

#[test]
fn parent_dir_before_last_separator() {
    assert_eq!(parent_dir("/data/sub/a.csv"), "/data/sub");
    assert_eq!(parent_dir("a.csv"), "");
}

#[test]
fn output_named_after_archive_stem() {
    assert_eq!(output_path("/data/EPD_202401.zip", "/data/"), "/data/EPD_202401.parquet");
    assert_eq!(output_path("/in/x.zip", "/out"), "/out/x.parquet");
}

#[test]
fn nested_entry_goes_into_subdirectory() {
    assert_eq!(extraction_target("/data/", "data/2024.csv"), "/data/data/2024.csv");
    assert_eq!(extraction_dir("/data/", "data/2024.csv"), "/data/data");
    assert_eq!(extraction_dir("/data", "flat.csv"), "/data");
    // the output keeps the archive's stem, not the entry's
    assert_eq!(output_path("/data/EPD_202401.zip", "/data/"), "/data/EPD_202401.parquet");
}
