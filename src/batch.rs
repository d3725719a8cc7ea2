//! Choosing the archives of a directory and counting a batch.
use vstd::prelude::*;
use crate::error::Outcome;
use crate::paths::{extension, extension_of, file_name, file_name_of};

verus! {

/// One item of a directory listing.
pub struct DirItem {
    pub path: String,
    /// Whether the item is a regular file.
    pub is_file: bool,
}

impl View for DirItem {
    type V = (Seq<char>, bool);

    open spec fn view(&self) -> (Seq<char>, bool) {
        (self.path@, self.is_file)
    }
}

/// A listed item is an archive when it is a regular file with the `zip`
/// extension.
pub open spec fn is_archive_of(item: (Seq<char>, bool)) -> bool {
    item.1 && extension_of(file_name_of(item.0)) == Some(seq!['z', 'i', 'p'])
}

/// The paths of the archives among `items`, in listing order.
pub open spec fn archives_of(items: Seq<(Seq<char>, bool)>) -> Seq<Seq<char>>
    decreases items.len(),
{
    if items.len() == 0 {
        Seq::empty()
    } else if is_archive_of(items.last()) {
        archives_of(items.drop_last()).push(items.last().0)
    } else {
        archives_of(items.drop_last())
    }
}

/// Whether `item` is an archive to convert.
pub fn is_archive(item: &DirItem) -> (r: bool)
    ensures
        r == is_archive_of(item@),
{
    if !item.is_file {
        return false;
    }
    let name = file_name(item.path.as_str());
    match extension(name.as_str()) {
        Some(e) => {
            let zip = "zip";
            proof {
                reveal_strlit("zip");
                assert(zip@ =~= seq!['z', 'i', 'p']);
            }
            let z = zip.to_owned();
            e == z
        },
        None => false,
    }
}

/// The paths of the archives in a listing, in listing order.
pub fn archive_paths(listing: &Vec<DirItem>) -> (r: Vec<String>)
    ensures
        r@.map_values(|s: String| s@) == archives_of(listing@.map_values(|d: DirItem| d@)),
{
    let ghost items = listing@.map_values(|d: DirItem| d@);
    let mut out: Vec<String> = Vec::new();
    let mut i: usize = 0;
    while i < listing.len()
        invariant
            i <= listing@.len(),
            items == listing@.map_values(|d: DirItem| d@),
            out@.map_values(|s: String| s@) == archives_of(items.subrange(0, i as int)),
        decreases listing.len() - i,
    {
        let item = &listing[i];
        assert(items.subrange(0, i + 1).drop_last() =~= items.subrange(0, i as int));
        assert(items.subrange(0, i + 1).last() == item@);
        if is_archive(item) {
            out.push(item.path.clone());
            assert(out@.map_values(|s: String| s@) =~= archives_of(items.subrange(0, i as int)).push(
                item.path@,
            ));
        }
        i = i + 1;
    }
    assert(items.subrange(0, i as int) =~= items);
    out
}

/// The counts of a batch run.
#[derive(Clone, Copy, Debug, PartialEq, Eq, Structural)]
pub struct Summary {
    /// Archives found before processing began.
    pub total: u64,
    /// Archives handed to the pipeline so far.
    pub processed: u64,
    pub succeeded: u64,
    pub failed: u64,
}

/// `s` after one more archive, which succeeded or not.
pub open spec fn recorded(s: Summary, success: bool) -> Summary {
    Summary {
        total: s.total,
        processed: (s.processed + 1) as u64,
        succeeded: if success { (s.succeeded + 1) as u64 } else { s.succeeded },
        failed: if success { s.failed } else { (s.failed + 1) as u64 },
    }
}

/// The number of successes among `os`.
pub open spec fn successes(os: Seq<Outcome>) -> nat
    decreases os.len(),
{
    if os.len() == 0 {
        0
    } else {
        successes(os.drop_last()) + if os.last() is Success { 1nat } else { 0nat }
    }
}

/// The summary of a batch of `total` archives after the outcomes `os`.
pub open spec fn summary_after(total: u64, os: Seq<Outcome>) -> Summary
    decreases os.len(),
{
    if os.len() == 0 {
        Summary { total, processed: 0, succeeded: 0, failed: 0 }
    } else {
        recorded(summary_after(total, os.drop_last()), os.last() is Success)
    }
}

impl Summary {
    /// Every processed archive counts once, as a success or as a failure.
    pub open spec fn wf(&self) -> bool {
        self.succeeded + self.failed == self.processed
    }

    /// The summary of a batch of `total` archives before any is processed.
    pub fn new(total: u64) -> (r: Summary)
        ensures
            r == summary_after(total, Seq::empty()),
            r.wf(),
    {
        Summary { total, processed: 0, succeeded: 0, failed: 0 }
    }

    /// Counts one more processed archive; a failure is counted and the batch
    /// goes on.
    pub fn record(&mut self, outcome: &Outcome)
        requires
            old(self).wf(),
            old(self).processed < u64::MAX,
        ensures
            *final(self) == recorded(*old(self), *outcome is Success),
            final(self).wf(),
    {
        self.processed = self.processed + 1;
        match outcome {
            Outcome::Success => self.succeeded = self.succeeded + 1,
            Outcome::Failed(_) => self.failed = self.failed + 1,
        }
    }

    /// The mean time per processed archive, in the unit of `elapsed`; zero
    /// when none was processed.
    pub fn average(&self, elapsed: u64) -> (r: u64)
        ensures
            r == if self.processed == 0 { 0 } else { elapsed / self.processed },
    {
        if self.processed == 0 {
            0
        } else {
            elapsed / self.processed
        }
    }

    /// How far the batch has come, as a whole percentage of `total`; zero
    /// when the batch is empty.
    pub fn percent_done(&self) -> (r: u128)
        ensures
            r == if self.total == 0 { 0 } else { (self.processed * 100) / self.total as int },
    {
        if self.total == 0 {
            0
        } else {
            (self.processed as u128 * 100) / (self.total as u128)
        }
    }
}

/// A listing without archives selects nothing.
pub proof fn lemma_no_archive_selected(items: Seq<(Seq<char>, bool)>)
    requires
        forall|i: int| 0 <= i < items.len() ==> !is_archive_of(#[trigger] items[i]),
    ensures
        archives_of(items) == Seq::<Seq<char>>::empty(),
    decreases items.len(),
{
    if items.len() > 0 {
        let init = items.drop_last();
        assert forall|i: int| 0 <= i < init.len() implies !is_archive_of(#[trigger] init[i]) by {
            assert(init[i] == items[i]);
        }
        lemma_no_archive_selected(init);
        assert(!is_archive_of(items[items.len() - 1]));
    }
}

/// A run over a directory that holds no archive, such as one whose archives
/// were all converted already, finds none and counts nothing.
pub proof fn lemma_rerun_counts_nothing(items: Seq<(Seq<char>, bool)>)
    requires
        forall|i: int| 0 <= i < items.len() ==> !is_archive_of(#[trigger] items[i]),
    ensures
        archives_of(items).len() == 0,
        summary_after(archives_of(items).len() as u64, Seq::empty()) == (Summary {
            total: 0,
            processed: 0,
            succeeded: 0,
            failed: 0,
        }),
{
    lemma_no_archive_selected(items);
}

/// Every outcome is counted: after any outcomes the batch has processed one
/// archive per outcome, its successes as succeeded and the rest as failed.
pub proof fn lemma_batch_counts(total: u64, os: Seq<Outcome>)
    requires
        os.len() < u64::MAX,
    ensures
        summary_after(total, os).total == total,
        summary_after(total, os).processed == os.len(),
        summary_after(total, os).succeeded == successes(os),
        summary_after(total, os).failed == os.len() - successes(os),
        summary_after(total, os).wf(),
    decreases os.len(),
{
    if os.len() > 0 {
        lemma_batch_counts(total, os.drop_last());
        lemma_successes_bound(os.drop_last());
    }
}

proof fn lemma_successes_bound(os: Seq<Outcome>)
    ensures
        successes(os) <= os.len(),
    decreases os.len(),
{
    if os.len() > 0 {
        lemma_successes_bound(os.drop_last());
    }
}

} // verus!
