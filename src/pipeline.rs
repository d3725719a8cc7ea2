//! The steps of one archive: extract, convert, then clean up.
//!
//! The pipeline decides; the caller does the file work. Each call hands the
//! pipeline what happened and takes back what to do next. The archive is
//! removed only once its Parquet output has been written.
use vstd::prelude::*;
use crate::error::{ConvertError, ExtractError, Failure, Outcome};
use crate::paths::{file_name, file_name_of, join, join_of, stem, stem_of};

verus! {

/// `<stem>.parquet`, the name of the output file for the stem `s`.
pub open spec fn parquet_name_of(s: Seq<char>) -> Seq<char> {
    s + seq!['.', 'p', 'a', 'r', 'q', 'u', 'e', 't']
}

/// The output path of `archive`: its own file stem, with the Parquet
/// extension, under `destination`.
pub open spec fn output_path_of(archive: Seq<char>, destination: Seq<char>) -> Seq<char> {
    join_of(destination, parquet_name_of(stem_of(file_name_of(archive))))
}

/// The output path of `archive` under `destination`; the name of the entry
/// inside the archive plays no part.
pub fn output_path(archive: &str, destination: &str) -> (r: String)
    ensures
        r@ == output_path_of(archive@, destination@),
{
    let name = file_name(archive);
    let mut out = stem(name.as_str());
    let ext = ".parquet";
    proof {
        reveal_strlit(".parquet");
    }
    out.append(ext);
    join(destination, out.as_str())
}

/// Where a pipeline stands.
#[derive(Clone, Copy, Debug, PartialEq, Eq, Structural)]
pub enum Phase {
    /// The archive is to be extracted.
    Extracting,
    /// The extracted table is to be converted.
    Converting,
    /// The table was converted; the extracted file is to be removed.
    CleaningAfterSuccess,
    /// The conversion failed; the extracted file is to be removed.
    CleaningAfterFailure(ConvertError),
    /// The archive is to be removed.
    RemovingArchive,
    /// Nothing is left to do.
    Done(Outcome),
}

/// What happened to the last action.
pub enum Event {
    /// The extraction ended: the path of the extracted file, or its error.
    Extracted(Result<String, ExtractError>),
    /// The conversion ended.
    Converted(Result<(), ConvertError>),
    /// A removal was attempted; whether it worked does not change the outcome.
    Removed,
}

/// What the caller is to do next.
pub enum Action {
    /// Extract `archive` under `destination`.
    Extract { archive: String, destination: String },
    /// Convert the extracted file `tabular` into `output`.
    Convert { tabular: String, output: String },
    /// Remove the file at `path`.
    Remove { path: String },
    /// Stop: the archive's outcome is known.
    Finish(Outcome),
}

/// The phase that follows `p` when `e` happens. An event that does not answer
/// the pending action changes nothing.
pub open spec fn next_phase(p: Phase, e: Event) -> Phase {
    match (p, e) {
        (Phase::Extracting, Event::Extracted(Ok(_))) => Phase::Converting,
        (Phase::Extracting, Event::Extracted(Err(x))) => Phase::Done(
            Outcome::Failed(Failure::ExtractionFailed(x)),
        ),
        (Phase::Converting, Event::Converted(Ok(_))) => Phase::CleaningAfterSuccess,
        (Phase::Converting, Event::Converted(Err(x))) => Phase::CleaningAfterFailure(x),
        (Phase::CleaningAfterSuccess, Event::Removed) => Phase::RemovingArchive,
        (Phase::CleaningAfterFailure(x), Event::Removed) => Phase::Done(
            Outcome::Failed(Failure::ConversionFailed(x)),
        ),
        (Phase::RemovingArchive, Event::Removed) => Phase::Done(Outcome::Success),
        _ => p,
    }
}

/// The phase reached from the start through the events `es`.
pub open spec fn phase_after(es: Seq<Event>) -> Phase
    decreases es.len(),
{
    if es.len() == 0 {
        Phase::Extracting
    } else {
        next_phase(phase_after(es.drop_last()), es.last())
    }
}

/// The steps of one archive.
pub struct Pipeline {
    pub archive: String,
    pub destination: String,
    pub output: String,
    /// The extracted file, once there is one.
    pub tabular: String,
    pub phase: Phase,
}

impl Pipeline {
    /// The action that `self` asks for in its phase.
    pub open spec fn asks(&self, a: Action) -> bool {
        match self.phase {
            Phase::Extracting => a == Action::Extract {
                archive: self.archive,
                destination: self.destination,
            },
            Phase::Converting => a == Action::Convert {
                tabular: self.tabular,
                output: self.output,
            },
            Phase::CleaningAfterSuccess => a == Action::Remove { path: self.tabular },
            Phase::CleaningAfterFailure(_) => a == Action::Remove { path: self.tabular },
            Phase::RemovingArchive => a == Action::Remove { path: self.archive },
            Phase::Done(o) => a == Action::Finish(o),
        }
    }

    /// A pipeline for `archive`, whose output goes under `destination`.
    pub fn new(archive: &str, destination: &str) -> (r: Pipeline)
        ensures
            r.archive@ == archive@,
            r.destination@ == destination@,
            r.output@ == output_path_of(archive@, destination@),
            r.tabular@ == Seq::<char>::empty(),
            r.phase == Phase::Extracting,
    {
        Pipeline {
            archive: archive.to_owned(),
            destination: destination.to_owned(),
            output: output_path(archive, destination),
            tabular: String::new(),
            phase: Phase::Extracting,
        }
    }

    /// The action pending in the current phase.
    pub fn pending(&self) -> (r: Action)
        ensures
            self.asks(r),
    {
        match self.phase {
            Phase::Extracting => Action::Extract {
                archive: self.archive.clone(),
                destination: self.destination.clone(),
            },
            Phase::Converting => Action::Convert {
                tabular: self.tabular.clone(),
                output: self.output.clone(),
            },
            Phase::CleaningAfterSuccess => Action::Remove { path: self.tabular.clone() },
            Phase::CleaningAfterFailure(_) => Action::Remove { path: self.tabular.clone() },
            Phase::RemovingArchive => Action::Remove { path: self.archive.clone() },
            Phase::Done(o) => Action::Finish(o),
        }
    }

    /// Takes in what happened and returns what to do next.
    pub fn step(&mut self, e: Event) -> (r: Action)
        ensures
            final(self).phase == next_phase(old(self).phase, e),
            final(self).archive == old(self).archive,
            final(self).destination == old(self).destination,
            final(self).output == old(self).output,
            match (old(self).phase, e) {
                (Phase::Extracting, Event::Extracted(Ok(p))) => final(self).tabular == p,
                _ => final(self).tabular == old(self).tabular,
            },
            final(self).asks(r),
    {
        let next = match (self.phase, e) {
            (Phase::Extracting, Event::Extracted(Ok(p))) => {
                self.tabular = p;
                Phase::Converting
            },
            (Phase::Extracting, Event::Extracted(Err(x))) => Phase::Done(
                Outcome::Failed(Failure::ExtractionFailed(x)),
            ),
            (Phase::Converting, Event::Converted(Ok(_))) => Phase::CleaningAfterSuccess,
            (Phase::Converting, Event::Converted(Err(x))) => Phase::CleaningAfterFailure(x),
            (Phase::CleaningAfterSuccess, Event::Removed) => Phase::RemovingArchive,
            (Phase::CleaningAfterFailure(x), Event::Removed) => Phase::Done(
                Outcome::Failed(Failure::ConversionFailed(x)),
            ),
            (Phase::RemovingArchive, Event::Removed) => Phase::Done(Outcome::Success),
            (p, _) => p,
        };
        self.phase = next;
        self.pending()
    }
}

/// Whether some event of `es` reports a successful conversion.
pub open spec fn converted_in(es: Seq<Event>) -> bool {
    exists|i: int| 0 <= i < es.len() && es[i] == Event::Converted(Ok(()))
}

/// The archive is due for removal, or gone, only after its conversion
/// succeeded: whatever the events, a pipeline that reaches the removal of
/// the archive or a success has seen a successful conversion.
pub proof fn lemma_archive_removed_only_after_conversion(es: Seq<Event>)
    ensures
        (phase_after(es) == Phase::RemovingArchive || phase_after(es) == Phase::CleaningAfterSuccess
            || phase_after(es) == Phase::Done(Outcome::Success)) ==> converted_in(es),
    decreases es.len(),
{
    if es.len() > 0 {
        let init = es.drop_last();
        lemma_archive_removed_only_after_conversion(init);
        if converted_in(init) {
            let i = choose|i: int| 0 <= i < init.len() && init[i] == Event::Converted(Ok(()));
            assert(es[i] == init[i]);
        } else if phase_after(es) == Phase::CleaningAfterSuccess {
            assert(phase_after(init) == Phase::Converting);
            assert(es.last() is Converted);
            assert(es.last()->Converted_0 is Ok);
            let r = es.last()->Converted_0;
            assert(r == Ok::<(), ConvertError>(r->Ok_0));
            assert(es[es.len() - 1] == Event::Converted(Ok(())));
        }
    }
}

/// The whole run of an archive that extracts and converts: the extracted
/// file is removed, then the archive, and the outcome is a success.
pub proof fn lemma_success_run(tabular: String)
    ensures
        ({
            let es = seq![Event::Extracted(Ok(tabular)), Event::Converted(Ok(())), Event::Removed,
                Event::Removed];
            &&& phase_after(es.take(1)) == Phase::Converting
            &&& phase_after(es.take(2)) == Phase::CleaningAfterSuccess
            &&& phase_after(es.take(3)) == Phase::RemovingArchive
            &&& phase_after(es) == Phase::Done(Outcome::Success)
        }),
{
    let es = seq![Event::Extracted(Ok(tabular)), Event::Converted(Ok(())), Event::Removed,
        Event::Removed];
    assert(es.take(1).drop_last() =~= Seq::<Event>::empty());
    assert(es.take(2).drop_last() =~= es.take(1));
    assert(es.take(3).drop_last() =~= es.take(2));
    assert(es.drop_last() =~= es.take(3));
    assert(phase_after(Seq::<Event>::empty()) == Phase::Extracting);
    assert(phase_after(es.take(1)) == Phase::Converting);
    assert(phase_after(es.take(2)) == Phase::CleaningAfterSuccess);
    assert(phase_after(es.take(3)) == Phase::RemovingArchive);
}

/// A failed extraction ends the run at once, with nothing to clean up.
pub proof fn lemma_extraction_failure_run(x: ExtractError)
    ensures
        phase_after(seq![Event::Extracted(Err(x))]) == Phase::Done(
            Outcome::Failed(Failure::ExtractionFailed(x)),
        ),
{
    let es = seq![Event::Extracted(Err(x))];
    assert(es.drop_last() =~= Seq::<Event>::empty());
    assert(phase_after(Seq::<Event>::empty()) == Phase::Extracting);
    assert(es.last() == Event::Extracted(Err(x)));
}

/// A failed conversion removes the extracted file, keeps the archive, and
/// ends in that failure.
pub proof fn lemma_conversion_failure_run(tabular: String, x: ConvertError)
    ensures
        ({
            let es = seq![Event::Extracted(Ok(tabular)), Event::Converted(Err(x)), Event::Removed];
            &&& phase_after(es.take(2)) == Phase::CleaningAfterFailure(x)
            &&& phase_after(es) == Phase::Done(Outcome::Failed(Failure::ConversionFailed(x)))
            &&& forall|k: int|
                0 <= k <= es.len() ==> phase_after(#[trigger] es.take(k)) != Phase::RemovingArchive
        }),
{
    let es = seq![Event::Extracted(Ok(tabular)), Event::Converted(Err(x)), Event::Removed];
    assert(es.take(0) =~= Seq::<Event>::empty());
    assert(es.take(1).drop_last() =~= es.take(0));
    assert(es.take(2).drop_last() =~= es.take(1));
    assert(es.take(3) =~= es);
    assert(es.drop_last() =~= es.take(2));
    assert(phase_after(es.take(0)) == Phase::Extracting);
    assert(phase_after(es.take(1)) == Phase::Converting);
    assert(phase_after(es.take(2)) == Phase::CleaningAfterFailure(x));
    assert(phase_after(es) == Phase::Done(Outcome::Failed(Failure::ConversionFailed(x))));
    assert forall|k: int| 0 <= k <= es.len() implies phase_after(#[trigger] es.take(k))
        != Phase::RemovingArchive by {
        if k == 3 {
            assert(es.take(3) =~= es);
        } else if k == 0 {
            assert(phase_after(es.take(0)) == Phase::Extracting);
        } else if k == 1 {
            assert(phase_after(es.take(1)) == Phase::Converting);
        } else {
            assert(phase_after(es.take(2)) == Phase::CleaningAfterFailure(x));
        }
    }
}

} // verus!
