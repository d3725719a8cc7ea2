use epd_convert::error::{ConvertError, ExtractError, Failure, Outcome};
use epd_convert::pipeline::{Action, Event, Phase, Pipeline};

#[test]
fn new_pipeline_asks_for_extraction() {
    let p = Pipeline::new("/d/x.zip", "/d/");
    assert_eq!(p.phase, Phase::Extracting);
    assert_eq!(p.output, "/d/x.parquet");
    match p.pending() {
        Action::Extract { archive, destination } => {
            assert_eq!(archive, "/d/x.zip");
            assert_eq!(destination, "/d/");
        }
        _ => panic!("expected an extraction"),
    }
}

#[test]
fn steps_of_a_successful_run() {
    let mut p = Pipeline::new("/d/x.zip", "/d/");
    match p.step(Event::Extracted(Ok("/d/x.csv".to_string()))) {
        Action::Convert { tabular, output } => {
            assert_eq!(tabular, "/d/x.csv");
            assert_eq!(output, "/d/x.parquet");
        }
        _ => panic!("expected a conversion"),
    }
    match p.step(Event::Converted(Ok(()))) {
        Action::Remove { path } => assert_eq!(path, "/d/x.csv"),
        _ => panic!("expected removal of the table"),
    }
    match p.step(Event::Removed) {
        Action::Remove { path } => assert_eq!(path, "/d/x.zip"),
        _ => panic!("expected removal of the archive"),
    }
    assert!(matches!(p.step(Event::Removed), Action::Finish(Outcome::Success)));
}

#[test]
fn failed_conversion_skips_archive_removal() {
    let mut p = Pipeline::new("/d/x.zip", "/d/");
    p.step(Event::Extracted(Ok("/d/x.csv".to_string())));
    match p.step(Event::Converted(Err(ConvertError::EncodeError))) {
        Action::Remove { path } => assert_eq!(path, "/d/x.csv"),
        _ => panic!("expected removal of the table"),
    }
    assert!(matches!(
        p.step(Event::Removed),
        Action::Finish(Outcome::Failed(Failure::ConversionFailed(ConvertError::EncodeError)))
    ));
}

#[test]
fn failed_extraction_finishes_at_once() {
    let mut p = Pipeline::new("/d/x.zip", "/d/");
    assert!(matches!(
        p.step(Event::Extracted(Err(ExtractError::FormatError))),
        Action::Finish(Outcome::Failed(Failure::ExtractionFailed(ExtractError::FormatError)))
    ));
    // a finished pipeline stays finished
    assert!(matches!(
        p.step(Event::Removed),
        Action::Finish(Outcome::Failed(Failure::ExtractionFailed(ExtractError::FormatError)))
    ));
}

#[test]
fn unexpected_event_repeats_pending_action() {
    let mut p = Pipeline::new("/d/x.zip", "/d/");
    assert!(matches!(p.step(Event::Removed), Action::Extract { .. }));
    assert_eq!(p.phase, Phase::Extracting);
}
